//! The keystroke dispatcher: the state machine that stands between the host's
//! event loop and the composition cycle.
//!
//! The host hands over each key press and gets back what to do about it. The
//! work that only the host can do (asking the engine, exporting, shutting
//! down) comes back as a `KeyAction`; the answer of the engine goes into
//! `Dispatcher::complete`, which settles the document and the keystroke.

use vstd::prelude::*;
use vstd::string::*;
use crate::controller::{after_cycle, cycle_report, decision, Completion, CompletionView, Scheme};
use crate::document::{window_start, ContextWindow, Document, DocumentView, CONTEXT_WINDOW};

verus! {

/// The bit of a key event's modifier state that says the control key is held.
pub const CONTROL_MASK: u32 = 4;

/// The character that, with the control key held, asks for export and exit.
pub const EXPORT_KEY: char = 's';

/// Where the dispatcher stands: taking keystrokes, or shut down for good.
#[derive(Debug, Clone, Copy, PartialEq, Eq, Structural)]
pub enum DispatchState {
    Idle,
    Terminating,
}

/// A key press as the host delivers it: the character that the key symbol
/// stands for, if it stands for one, and the modifier state as a bit mask.
#[derive(Debug, Clone, Copy, PartialEq, Eq)]
pub struct KeyEvent {
    pub key: Option<char>,
    pub modifiers: u32,
}

impl KeyEvent {
    /// Whether the control key was held.
    pub open spec fn control_held(self) -> bool {
        self.modifiers & CONTROL_MASK != 0
    }

    /// Whether the event is the command to export the document and exit.
    pub open spec fn is_export_command(self) -> bool {
        self.key == Some(EXPORT_KEY) && self.control_held()
    }

    /// Whether the event is the command to export the document and exit.
    pub fn export_command(&self) -> (b: bool)
        ensures
            b == self.is_export_command(),
    {
        match self.key {
            Some(c) => c == EXPORT_KEY && self.modifiers & CONTROL_MASK != 0,
            None => false,
        }
    }
}

/// What the host is to do about a key press.
#[derive(Debug, Clone, PartialEq, Eq)]
pub enum KeyAction {
    /// Nothing: the event is left to the host's default handling.
    Propagate,
    /// Hand this text, the whole document, to the export sink and shut the
    /// session down, whether or not the sink takes it; the event is left to
    /// the host's default handling.
    Export(String),
    /// Ask the engine about this context, character and scheme, and pass its
    /// answer to `Dispatcher::complete`, which says whether the event is
    /// suppressed.
    Compose(ContextWindow, char, Scheme),
}

/// Mathematical model of a `KeyAction`.
pub enum KeyActionView {
    Propagate,
    Export(Seq<char>),
    Compose { start: nat, context: Seq<char>, new_char: char, scheme: Scheme },
}

impl View for KeyAction {
    type V = KeyActionView;

    open spec fn view(&self) -> KeyActionView {
        match self {
            KeyAction::Propagate => KeyActionView::Propagate,
            KeyAction::Export(content) => KeyActionView::Export(content@),
            KeyAction::Compose(window, c, scheme) => KeyActionView::Compose {
                start: window.start as nat,
                context: window.text@,
                new_char: *c,
                scheme: *scheme,
            },
        }
    }
}

impl KeyAction {
    /// Whether the event is suppressed, as far as the action settles it:
    /// where the engine is still to be asked, it does not.
    pub fn handled(&self) -> (h: Option<bool>)
        ensures
            h == match self@ {
                KeyActionView::Propagate => Some(false),
                KeyActionView::Export(_) => Some(false),
                KeyActionView::Compose { .. } => None::<bool>,
            },
    {
        match self {
            KeyAction::Propagate => Some(false),
            KeyAction::Export(_) => Some(false),
            KeyAction::Compose(_, _, _) => None,
        }
    }
}

/// Mathematical model of a dispatcher: its state and its configuration.
pub struct DispatcherView {
    pub state: DispatchState,
    pub window: nat,
    pub scheme: Scheme,
}

/// The transition of the dispatcher on a key press: the next state and the
/// action for the host.
///
/// Once terminating, the dispatcher is inert. A key that stands for no
/// character is left to the host. The export command comes before everything
/// else that a character could mean. Any other character starts a composition
/// cycle on the context before the caret, and is left to the host where there
/// is no caret.
pub open spec fn step(d: DispatcherView, doc: DocumentView, event: KeyEvent) -> (
    DispatchState,
    KeyActionView,
) {
    if d.state is Terminating {
        (DispatchState::Terminating, KeyActionView::Propagate)
    } else if event.key is None {
        (DispatchState::Idle, KeyActionView::Propagate)
    } else if event.is_export_command() {
        (DispatchState::Terminating, KeyActionView::Export(doc.text))
    } else if doc.caret is None {
        (DispatchState::Idle, KeyActionView::Propagate)
    } else {
        (
            DispatchState::Idle,
            KeyActionView::Compose {
                start: window_start(doc.caret->Some_0, d.window),
                context: doc.window(d.window),
                new_char: event.key->Some_0,
                scheme: d.scheme,
            },
        )
    }
}

/// The session's dispatcher. The host makes one at startup and hands every
/// key press and the close request to it.
#[derive(Debug, Clone, PartialEq, Eq)]
pub struct Dispatcher {
    state: DispatchState,
    window: usize,
    scheme: Scheme,
}

impl View for Dispatcher {
    type V = DispatcherView;

    closed spec fn view(&self) -> DispatcherView {
        DispatcherView { state: self.state, window: self.window as nat, scheme: self.scheme }
    }
}

impl Dispatcher {
    /// An idle dispatcher for Telex with the usual window.
    pub fn new() -> (d: Dispatcher)
        ensures
            d@ == (DispatcherView {
                state: DispatchState::Idle,
                window: CONTEXT_WINDOW as nat,
                scheme: Scheme::Telex,
            }),
    {
        Dispatcher { state: DispatchState::Idle, window: CONTEXT_WINDOW, scheme: Scheme::Telex }
    }

    /// An idle dispatcher for Telex whose context holds at most `window`
    /// characters.
    pub fn with_window(window: usize) -> (d: Dispatcher)
        ensures
            d@ == (DispatcherView {
                state: DispatchState::Idle,
                window: window as nat,
                scheme: Scheme::Telex,
            }),
    {
        Dispatcher { state: DispatchState::Idle, window, scheme: Scheme::Telex }
    }

    /// The state that the dispatcher is in.
    pub fn state(&self) -> (s: DispatchState)
        ensures
            s == self@.state,
    {
        self.state
    }

    /// Takes a key press: moves to the next state and says what the host is
    /// to do. The document is only read.
    pub fn key_press(&mut self, doc: &Document, event: &KeyEvent) -> (action: KeyAction)
        requires
            doc.wf(),
        ensures
            (final(self)@.state, action@) == step(old(self)@, doc@, *event),
            final(self)@.window == old(self)@.window,
            final(self)@.scheme == old(self)@.scheme,
    {
        match self.state {
            DispatchState::Terminating => KeyAction::Propagate,
            DispatchState::Idle => match event.key {
                None => KeyAction::Propagate,
                Some(c) => {
                    if event.export_command() {
                        self.state = DispatchState::Terminating;
                        KeyAction::Export(doc.get_content())
                    } else {
                        match doc.extract(self.window) {
                            Err(_) => KeyAction::Propagate,
                            Ok(window) => KeyAction::Compose(window, c, self.scheme),
                        }
                    }
                },
            },
        }
    }

    /// Takes the engine's answer to the last `Compose` action and finishes
    /// the cycle on the document. A dispatcher that is terminating leaves the
    /// document and the keystroke alone.
    pub fn complete(&self, doc: &mut Document, outcome: Result<String, String>) -> (done:
        Completion)
        requires
            old(doc).wf(),
        ensures
            final(doc).wf(),
            match self@.state {
                DispatchState::Idle => {
                    &&& final(doc)@ == after_cycle(old(doc)@, self@.window, decision(outcome))
                    &&& done@ == cycle_report(old(doc)@, self@.window, decision(outcome))
                },
                DispatchState::Terminating => {
                    &&& *final(doc) == *old(doc)
                    &&& done@ == (CompletionView { handled: false, edit: None })
                },
            },
            old(doc)@.caret is None ==> *final(doc) == *old(doc),
    {
        match self.state {
            DispatchState::Idle => doc.complete(self.window, outcome),
            DispatchState::Terminating => Completion { handled: false, edit: None },
        }
    }

    /// Takes the request to close the window: the session shuts down, and the
    /// event is never reported as handled, so that the host tears down too.
    pub fn delete_event(&mut self) -> (handled: bool)
        ensures
            !handled,
            final(self)@ == (DispatcherView { state: DispatchState::Terminating, ..old(self)@ }),
    {
        self.state = DispatchState::Terminating;
        false
    }
}

/// The export command never starts a composition cycle: on an idle
/// dispatcher it exports the whole document and ends the session, whatever
/// the document holds and wherever the caret is.
pub proof fn lemma_export_takes_precedence(d: DispatcherView, doc: DocumentView, event: KeyEvent)
    requires
        event.is_export_command(),
    ensures
        !(step(d, doc, event).1 is Compose),
        step(d, doc, event).0 is Terminating,
        d.state is Idle ==> step(d, doc, event).1 == KeyActionView::Export(doc.text),
{
}

/// A composition cycle starts only from the idle state, on a key that stands
/// for a character and is not the export command, with a caret in the
/// document; the context it asks about is the window before the caret.
pub proof fn lemma_compose_only_when_due(d: DispatcherView, doc: DocumentView, event: KeyEvent)
    requires
        step(d, doc, event).1 is Compose,
    ensures
        d.state is Idle,
        step(d, doc, event).0 is Idle,
        event.key is Some,
        !event.is_export_command(),
        doc.caret is Some,
        step(d, doc, event).1 == (KeyActionView::Compose {
            start: window_start(doc.caret->Some_0, d.window),
            context: doc.window(d.window),
            new_char: event.key->Some_0,
            scheme: d.scheme,
        }),
{
}

/// Once terminating, always terminating, and nothing more is asked of the
/// host.
pub proof fn lemma_terminating_is_inert(d: DispatcherView, doc: DocumentView, event: KeyEvent)
    requires
        d.state is Terminating,
    ensures
        step(d, doc, event) == (DispatchState::Terminating, KeyActionView::Propagate),
{
}

} // verus!
