//! Keystroke-driven incremental composition of Vietnamese text under Telex.
//!
//! The crate holds the part of an input method that decides: which trailing
//! characters of a document form the context of a keystroke, what the
//! transliteration engine's answer means for the document, and whether the
//! keystroke is suppressed. The engine itself, the editing surface and the
//! export sink belong to the host.

pub mod controller;
pub mod dispatcher;
pub mod document;
