//! The composition controller: what the transliteration engine's answer means
//! for the document and for the keystroke that asked for it.
//!
//! The engine is the host's. It is asked once per keystroke with the context,
//! the new character and the scheme, and answers with a replacement for the
//! context: `Ok` where the character was absorbed into the syllable, `Err`
//! with a fallback text where it was not. Nothing here calls it again or
//! keeps anything from one keystroke to the next.

use vstd::prelude::*;
use vstd::string::*;
use crate::document::{context_start, window_start, Document, DocumentView};

verus! {

/// The phonetic ruleset that the engine applies.
#[derive(Debug, Clone, Copy, PartialEq, Eq, Structural)]
pub enum Scheme {
    Telex,
}

/// Outcome of one keystroke. Either way the text replaces the whole context;
/// the variants differ in what becomes of the keystroke itself.
#[derive(Debug, Clone, PartialEq, Eq)]
pub enum CompositionResult {
    /// The character was absorbed into a composed syllable: the keystroke is
    /// suppressed.
    Accepted(String),
    /// No composition applies: the fallback text is written and the keystroke
    /// goes on to the host's own handling.
    Rejected(String),
}

impl CompositionResult {
    /// The text that takes the place of the context.
    pub open spec fn text(self) -> Seq<char> {
        match self {
            CompositionResult::Accepted(s) => s@,
            CompositionResult::Rejected(s) => s@,
        }
    }

    /// Whether the keystroke is kept from the host's default insertion.
    pub open spec fn suppresses_key(self) -> bool {
        self is Accepted
    }

    /// Whether the keystroke is kept from the host's default insertion.
    pub fn suppresses(&self) -> (handled: bool)
        ensures
            handled == self.suppresses_key(),
    {
        match self {
            CompositionResult::Accepted(_) => true,
            CompositionResult::Rejected(_) => false,
        }
    }

    /// Gives up the result for the text that takes the place of the context.
    pub fn into_text(self) -> (text: String)
        ensures
            text@ == self.text(),
    {
        match self {
            CompositionResult::Accepted(s) => s,
            CompositionResult::Rejected(s) => s,
        }
    }
}

/// The result that stands for an answer of the engine.
pub open spec fn decision(outcome: Result<String, String>) -> CompositionResult {
    match outcome {
        Ok(text) => CompositionResult::Accepted(text),
        Err(fallback) => CompositionResult::Rejected(fallback),
    }
}

/// Turns the engine's answer into the result of the keystroke: success is
/// accepted with the engine's output, failure is rejected with its fallback.
/// A rejection is the ordinary case of plain typing and no error.
pub fn compose(outcome: Result<String, String>) -> (result: CompositionResult)
    ensures
        result == decision(outcome),
{
    match outcome {
        Ok(text) => CompositionResult::Accepted(text),
        Err(fallback) => CompositionResult::Rejected(fallback),
    }
}

/// The document after one keystroke cycle with a window of `n` characters:
/// the whole context has given way to the result's text. Without a caret
/// nothing changes.
pub open spec fn after_cycle(doc: DocumentView, n: nat, result: CompositionResult) -> DocumentView {
    match doc.caret {
        Some(c) => doc.replace(window_start(c, n), c, result.text()),
        None => doc,
    }
}

/// One change to a document: the span `[start, end)` gives way to `text`.
#[derive(Debug, Clone, PartialEq, Eq)]
pub struct Edit {
    pub start: usize,
    pub end: usize,
    pub text: String,
}

/// Mathematical model of an `Edit`.
pub struct EditView {
    pub start: nat,
    pub end: nat,
    pub text: Seq<char>,
}

impl View for Edit {
    type V = EditView;

    open spec fn view(&self) -> EditView {
        EditView { start: self.start as nat, end: self.end as nat, text: self.text@ }
    }
}

/// What one keystroke cycle did: whether the keystroke is suppressed, and the
/// change that was made to the document, if any.
#[derive(Debug, Clone, PartialEq, Eq)]
pub struct Completion {
    pub handled: bool,
    pub edit: Option<Edit>,
}

/// Mathematical model of a `Completion`.
pub struct CompletionView {
    pub handled: bool,
    pub edit: Option<EditView>,
}

impl View for Completion {
    type V = CompletionView;

    open spec fn view(&self) -> CompletionView {
        CompletionView {
            handled: self.handled,
            edit: match self.edit {
                Some(e) => Some(e@),
                None => None,
            },
        }
    }
}

/// What a cycle with a window of `n` characters reports: with a caret, the
/// replacement of the whole context by the result's text, suppressed where
/// the result says so; without one, nothing done and nothing suppressed.
pub open spec fn cycle_report(doc: DocumentView, n: nat, result: CompositionResult) -> CompletionView {
    match doc.caret {
        Some(c) => CompletionView {
            handled: result.suppresses_key(),
            edit: Some(EditView { start: window_start(c, n), end: c, text: result.text() }),
        },
        None => CompletionView { handled: false, edit: None },
    }
}

impl Document {
    /// Finishes the cycle of one keystroke, given the engine's answer to the
    /// context of `n` characters before the caret: the context gives way to
    /// the answer's text, accepted or not, and the keystroke is suppressed
    /// exactly where the engine accepted. Without a caret the document stays
    /// as it is and the keystroke is left to the host.
    pub fn complete(&mut self, n: usize, outcome: Result<String, String>) -> (done: Completion)
        requires
            old(self).wf(),
        ensures
            final(self).wf(),
            final(self)@ == after_cycle(old(self)@, n as nat, decision(outcome)),
            done@ == cycle_report(old(self)@, n as nat, decision(outcome)),
            old(self)@.caret is None ==> *final(self) == *old(self),
    {
        match self.get_insert_iter() {
            None => Completion { handled: false, edit: None },
            Some(caret) => {
                let start: usize = context_start(caret, n);
                let result = compose(outcome);
                let handled = result.suppresses();
                let text = result.into_text();
                self.replace(start, caret, text.as_str());
                Completion { handled, edit: Some(Edit { start, end: caret, text }) }
            },
        }
    }
}

/// The controller adds nothing of its own to a rejection: the same fallback
/// from the engine gives the same rejected text, however often it is asked.
pub proof fn lemma_rejection_is_stable(first: Result<String, String>, second: Result<String, String>)
    requires
        first is Err,
        second is Err,
        first->Err_0@ == second->Err_0@,
    ensures
        decision(first) is Rejected,
        decision(second) is Rejected,
        decision(first).text() == first->Err_0@,
        decision(first).text() == decision(second).text(),
{
}

/// After a cycle on a document with a caret, the characters from the start of
/// the old window to the new caret are exactly the result's text, accepted or
/// rejected; what stood before the window and behind the old caret is as it
/// was.
pub proof fn lemma_cycle_postcondition(doc: DocumentView, n: nat, result: CompositionResult)
    requires
        doc.wf(),
        doc.caret is Some,
    ensures
        ({
            let c = doc.caret->Some_0;
            let start = window_start(c, n);
            let after = after_cycle(doc, n, result);
            &&& after.wf()
            &&& after.caret == Some(start + result.text().len())
            &&& after.text.subrange(start as int, (start + result.text().len()) as int)
                == result.text()
            &&& after.text.subrange(0, start as int) == doc.text.subrange(0, start as int)
            &&& after.text.subrange(
                (start + result.text().len()) as int,
                after.text.len() as int,
            ) == doc.text.subrange(c as int, doc.text.len() as int)
        }),
{
}

/// Without a caret a cycle leaves the document as it was, whatever the engine
/// would have answered.
pub proof fn lemma_fail_open(doc: DocumentView, n: nat, result: CompositionResult)
    requires
        doc.caret is None,
    ensures
        after_cycle(doc, n, result) == doc,
{
}

} // verus!
