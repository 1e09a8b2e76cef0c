//! Failures reported by the readers.

use vstd::prelude::*;
use vstd::string::*;

verus! {

/// What went wrong.
#[derive(Debug, Clone, Copy, PartialEq, Eq, Structural)]
pub enum ErrorKind {
    /// A scanner needed at least one matching character and found none.
    LexError,
    /// A tag name that the closed vocabulary does not hold.
    UnknownTagName,
    /// An attribute key that the closed vocabulary does not hold.
    UnknownAttributeKey,
    /// A value that does not have the shape its key requires.
    MalformedAttributeValue,
    /// The character after a tag name is none of `>`, space and `/`.
    UnexpectedTagShape,
    /// The input ended where a closing sequence had to continue.
    UnterminatedTag,
    /// A closing tag that names another element than the one it closes.
    MismatchedClosingTag,
    /// Elements nested deeper than the reader's limit.
    NestingTooDeep,
}

/// A failed read: the kind of failure and the extent of the offending token,
/// as a byte offset into the text that was handed to the reader and a length
/// in bytes. A failure to find anything at all has length zero.
#[derive(Debug, Clone, Copy, PartialEq, Eq, Structural)]
pub struct ParseError {
    pub kind: ErrorKind,
    pub offset: usize,
    pub len: usize,
}

/// A failed typing of a list of raw attribute pairs: the kind of failure and
/// the index of the first pair that could not be typed.
#[derive(Debug, Clone, Copy, PartialEq, Eq, Structural)]
pub struct AttributeError {
    pub kind: ErrorKind,
    pub index: usize,
}

/// The failure of `kind` at `offset` with a token of `len` bytes.
pub open spec fn failure(kind: ErrorKind, offset: int, len: int) -> ParseError {
    ParseError { kind, offset: offset as usize, len: len as usize }
}

impl ParseError {
    /// Builds the failure of `kind` for the token between `from` and `to`.
    pub(crate) fn new(kind: ErrorKind, from: usize, to: usize) -> (e: ParseError)
        requires
            from <= to,
        ensures
            e == failure(kind, from as int, to - from),
    {
        ParseError { kind, offset: from, len: to - from }
    }

    /// The offending token as text of `source`, the text that was read. `None`
    /// when the extent does not lie in `source` on character boundaries, which
    /// happens only if `source` is not the text this failure came from.
    pub fn token<'s>(&self, source: &'s str) -> (t: Option<&'s str>)
        ensures
            match t {
                Some(t) => {
                    &&& self.offset + self.len <= source.spec_bytes().len()
                    &&& t.spec_bytes() == source.spec_bytes().subrange(
                        self.offset as int,
                        self.offset + self.len,
                    )
                },
                None => !(self.offset + self.len <= source.spec_bytes().len()
                    && crate::text::cut(source.spec_bytes(), self.offset as int)
                    && crate::text::cut(source.spec_bytes(), self.offset + self.len)),
            },
    {
        let n = source.as_bytes().len();
        if self.offset <= n && self.len <= n - self.offset {
            let end = self.offset + self.len;
            if source.is_char_boundary(self.offset) && source.is_char_boundary(end) {
                return Some(crate::text::slice(source, self.offset, end));
            }
        }
        None
    }
}

} // verus!
