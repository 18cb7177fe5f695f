//! The document model: a sequence of characters with at most one caret, the
//! context window that ends at the caret, and whole-span replacement.

use vstd::prelude::*;
use vstd::string::*;

verus! {

/// Longest context, in characters, that is handed to the transliteration
/// engine: no Vietnamese syllable typed in Telex is longer.
pub const CONTEXT_WINDOW: usize = 15;

/// Index at which the context window of a caret at `caret` starts when the
/// window holds at most `n` characters.
pub open spec fn window_start(caret: nat, n: nat) -> nat {
    if caret <= n {
        0
    } else {
        (caret - n) as nat
    }
}

/// Computes `window_start` on machine integers.
pub fn context_start(caret: usize, n: usize) -> (start: usize)
    ensures
        start == window_start(caret as nat, n as nat),
{
    if caret <= n {
        0
    } else {
        caret - n
    }
}

/// Mathematical model of a document: its characters and, where the editing
/// surface has one, the caret as an index into them.
pub struct DocumentView {
    pub text: Seq<char>,
    pub caret: Option<nat>,
}

impl DocumentView {
    /// The caret, where there is one, lies inside the text or at its end.
    pub open spec fn wf(self) -> bool {
        self.caret matches Some(c) ==> c <= self.text.len()
    }

    /// The characters before the caret that make up the context of the next
    /// keystroke: at most `n`, fewer only at the start of the text.
    pub open spec fn window(self, n: nat) -> Seq<char>
        recommends
            self.wf(),
            self.caret is Some,
    {
        let c = self.caret->Some_0;
        self.text.subrange(window_start(c, n) as int, c as int)
    }

    /// The document after the span `[start, end)` has given way to `new_text`,
    /// with the caret right behind the inserted characters.
    pub open spec fn replace(self, start: nat, end: nat, new_text: Seq<char>) -> DocumentView
        recommends
            start <= end <= self.text.len(),
    {
        DocumentView {
            text: self.text.subrange(0, start as int) + new_text + self.text.subrange(
                end as int,
                self.text.len() as int,
            ),
            caret: Some(start + new_text.len()),
        }
    }
}

/// A document as the editing surface shows it: text, and the caret counted in
/// characters from the start.
#[derive(Debug, Clone, PartialEq, Eq)]
pub struct Document {
    text: String,
    caret: Option<usize>,
}

impl View for Document {
    type V = DocumentView;

    closed spec fn view(&self) -> DocumentView {
        DocumentView {
            text: self.text@,
            caret: match self.caret {
                Some(c) => Some(c as nat),
                None => None,
            },
        }
    }
}

impl Document {
    /// Validity of a document: that of its model.
    pub open spec fn wf(&self) -> bool {
        self@.wf()
    }

    /// A document that holds `text`, with the caret behind its last character.
    pub fn new(text: &str) -> (doc: Document)
        ensures
            doc.wf(),
            doc@.text == text@,
            doc@.caret == Some(text@.len()),
    {
        let len: usize = text.unicode_len();
        Document { text: String::from_str(text), caret: Some(len) }
    }
}


/// Why no context could be taken from a document.
#[derive(Debug, Clone, Copy, PartialEq, Eq, Structural)]
pub enum ExtractError {
    /// The editing surface has no caret at present.
    NoCaret,
}

/// The context of one keystroke: where it starts in the document and the
/// characters from there to the caret.
#[derive(Debug, Clone, PartialEq, Eq)]
pub struct ContextWindow {
    pub start: usize,
    pub text: String,
}

impl Document {
    /// A document that holds `text` and has no caret.
    pub fn without_caret(text: &str) -> (doc: Document)
        ensures
            doc.wf(),
            doc@.text == text@,
            doc@.caret is None,
    {
        Document { text: String::from_str(text), caret: None }
    }

    /// Number of characters in the document.
    pub fn len(&self) -> (n: usize)
        ensures
            n == self@.text.len(),
    {
        self.text.as_str().unicode_len()
    }

    /// The caret, as the number of characters before it, where there is one.
    pub fn get_insert_iter(&self) -> (caret: Option<usize>)
        ensures
            match caret {
                Some(c) => self@.caret == Some(c as nat),
                None => self@.caret is None,
            },
    {
        self.caret
    }

    /// The whole text of the document.
    pub fn get_content(&self) -> (content: String)
        ensures
            content@ == self@.text,
    {
        self.text.clone()
    }

    /// Moves the caret to `position`. A position behind the end of the text is
    /// refused: the document stays as it is and the answer is `false`.
    pub fn set_caret(&mut self, position: usize) -> (moved: bool)
        requires
            old(self).wf(),
        ensures
            final(self).wf(),
            moved == (position <= old(self)@.text.len()),
            moved ==> final(self)@ == (DocumentView {
                text: old(self)@.text,
                caret: Some(position as nat),
            }),
            !moved ==> *final(self) == *old(self),
    {
        if position <= self.len() {
            self.caret = Some(position);
            true
        } else {
            false
        }
    }

    /// Takes the caret away, as when the editing surface loses its mark.
    pub fn clear_caret(&mut self)
        ensures
            final(self).wf(),
            final(self)@ == (DocumentView { text: old(self)@.text, caret: None }),
    {
        self.caret = None;
    }

    /// The context of the next keystroke: the last `n` characters before the
    /// caret, or all of them where fewer stand there, and the index of the
    /// first. Without a caret there is no context.
    pub fn extract(&self, n: usize) -> (result: Result<ContextWindow, ExtractError>)
        requires
            self.wf(),
        ensures
            match result {
                Ok(w) => {
                    &&& self@.caret matches Some(c)
                    &&& w.start == window_start(c, n as nat)
                    &&& w.text@ == self@.window(n as nat)
                    &&& w.text@.len() == if c <= n { c } else { n as nat }
                },
                Err(e) => self@.caret is None && e == ExtractError::NoCaret,
            },
    {
        match self.caret {
            None => Err(ExtractError::NoCaret),
            Some(caret) => {
                let start: usize = context_start(caret, n);
                let text = self.text.as_str().substring_char(start, caret).to_owned();
                Ok(ContextWindow { start, text })
            },
        }
    }

    /// Puts `new_text` in the place of the characters from `start` up to, not
    /// including, `end`, and leaves the caret right behind what was put in.
    /// The document goes from the old text to the new one in a single step.
    pub fn replace(&mut self, start: usize, end: usize, new_text: &str)
        requires
            old(self).wf(),
            start <= end <= old(self)@.text.len(),
        ensures
            final(self).wf(),
            final(self)@ == old(self)@.replace(start as nat, end as nat, new_text@),
    {
        let len: usize = self.len();
        let mut text = String::from_str(self.text.as_str().substring_char(0, start));
        text.append(new_text);
        text.append(self.text.as_str().substring_char(end, len));
        // The caret stands right before the tail that was kept.
        let caret: usize = text.as_str().unicode_len() - (len - end);
        self.text = text;
        self.caret = Some(caret);
    }
}

/// The context of a keystroke is never longer than the window asked for, and
/// is shorter only where fewer characters stand before the caret: its length
/// is the smaller of the two.
pub proof fn lemma_window_bound(doc: DocumentView, n: nat)
    requires
        doc.wf(),
        doc.caret is Some,
    ensures
        doc.window(n).len() <= n,
        doc.window(n).len() == if n <= doc.caret->Some_0 { n } else { doc.caret->Some_0 },
        window_start(doc.caret->Some_0, n) + doc.window(n).len() == doc.caret->Some_0,
{
}

/// After a replacement the characters that end at the new caret are exactly
/// the ones put in, and what stood before and behind the span is untouched.
pub proof fn lemma_replacement_ends_at_caret(
    doc: DocumentView,
    start: nat,
    end: nat,
    new_text: Seq<char>,
)
    requires
        start <= end <= doc.text.len(),
    ensures
        doc.replace(start, end, new_text).wf(),
        doc.replace(start, end, new_text).caret == Some(start + new_text.len()),
        doc.replace(start, end, new_text).text.len() == doc.text.len() - (end - start)
            + new_text.len(),
        doc.replace(start, end, new_text).text.subrange(
            start as int,
            (start + new_text.len()) as int,
        ) == new_text,
        doc.replace(start, end, new_text).text.subrange(0, start as int) == doc.text.subrange(
            0,
            start as int,
        ),
        doc.replace(start, end, new_text).text.subrange(
            (start + new_text.len()) as int,
            doc.replace(start, end, new_text).text.len() as int,
        ) == doc.text.subrange(end as int, doc.text.len() as int),
{
}

} // verus!
