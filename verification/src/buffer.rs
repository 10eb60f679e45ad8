//! The per-frame output accumulator.
//!
//! All escape sequences and printable characters of one frame are staged
//! here and handed out in one piece, so that the terminal receives each
//! frame as a single write: batching is what keeps a redraw free of
//! visible tearing, not an optimization.

use vstd::prelude::*;
use vstd::string::StringExecFns;

verus! {

/// Relies on `String::push` of std: it appends the given character to the
/// end of the string.
pub assume_specification[ String::push ](s: &mut String, ch: char)
    ensures
        final(s)@ == old(s)@ + seq![ch],
;

/// The frame buffer: created empty, appended to while a frame is composed,
/// then emptied exactly once when the frame is taken for delivery.
pub struct EditorContents {
    content: String,
}

impl View for EditorContents {
    type V = Seq<char>;

    closed spec fn view(&self) -> Seq<char> {
        self.content@
    }
}

impl EditorContents {
    /// An empty accumulator.
    pub fn new() -> (r: Self)
        ensures
            r@ == Seq::<char>::empty(),
    {
        proof {
            reveal_strlit("");
        }
        let content = String::from_str("");
        proof {
            assert(content@ =~= Seq::<char>::empty());
        }
        EditorContents { content }
    }

    /// Appends one character; no observable effect until the frame is taken.
    pub fn push(&mut self, ch: char)
        ensures
            final(self)@ == old(self)@ + seq![ch],
    {
        self.content.push(ch);
    }

    /// Appends raw text; any text is accepted, none of it is validated.
    pub fn push_str(&mut self, string: &str)
        ensures
            final(self)@ == old(self)@ + string@,
    {
        self.content.append(string);
    }

    /// Hands the accumulated frame out and leaves the accumulator empty:
    /// the caller delivers the returned text in one write.
    pub fn take(&mut self) -> (r: String)
        ensures
            r@ == old(self)@,
            final(self)@ == Seq::<char>::empty(),
    {
        proof {
            reveal_strlit("");
        }
        let mut content = String::from_str("");
        proof {
            assert(content@ =~= Seq::<char>::empty());
        }
        core::mem::swap(&mut self.content, &mut content);
        content
    }

    /// The text staged so far.
    pub fn as_string(&self) -> (r: &String)
        ensures
            r@ == self@,
    {
        &self.content
    }
}

} // verus!
