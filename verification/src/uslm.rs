//! The whole document: the header and the elements behind it.

use vstd::prelude::*;
use vstd::string::*;
use vstd::utf8::*;
use crate::error::ParseError;
use crate::header::{header_at, header_from, Header, HeaderTagView};
use crate::tags::{siblings_at, siblings_from, tag_views, Tag, TagView, MAX_DEPTH};
use crate::text::{lemma_str_bytes, rest_of, tail};

verus! {

/// A document: its header and its top-level elements in source order.
#[derive(Debug, PartialEq, Eq)]
pub struct Uslm<'s> {
    pub header: Header<'s>,
    pub content: Vec<Tag<'s>>,
}

/// A document, as contracts speak of it.
pub struct UslmView {
    pub header: Seq<HeaderTagView>,
    pub content: Seq<TagView>,
}

impl<'s> View for Uslm<'s> {
    type V = UslmView;

    open spec fn view(&self) -> UslmView {
        UslmView { header: self.header@, content: tag_views(self.content@) }
    }
}

/// The document at `p`: the header, then a sequence of sibling elements. A
/// failure in either fails the document.
pub open spec fn uslm_at(s: Seq<u8>, p: int) -> Result<(UslmView, int), ParseError> {
    match header_at(s, p) {
        Err(x) => Err(x),
        Ok((header, e)) => match siblings_at(s, e, MAX_DEPTH as nat) {
            Err(x) => Err(x),
            Ok((content, end)) => Ok((UslmView { header, content }, end)),
        },
    }
}

impl<'s> Uslm<'s> {
    /// Reads a document at the front of the input. On success the cursor
    /// stands behind the last element and the whitespace after it; on failure
    /// it has not moved, and no part of the document is handed out.
    pub fn parse(input: &mut &'s str) -> (r: Result<Uslm<'s>, ParseError>)
        ensures
            match uslm_at(old(input).spec_bytes(), 0) {
                Ok((t, n)) => r is Ok && r.unwrap()@ == t && rest_of(
                    *old(input),
                    n,
                    *final(input),
                ),
                Err(e) => (r matches Err(x) && x == e) && *final(input) == *old(input),
            },
    {
        let src: &'s str = *input;
        proof {
            lemma_str_bytes(src);
        }
        let (header, e) = match header_from(src, 0) {
            Ok(x) => x,
            Err(x) => {
                return Err(x);
            },
        };
        match siblings_from(src, e, MAX_DEPTH) {
            Ok((content, end)) => {
                *input = tail(src, end);
                Ok(Uslm { header, content })
            },
            Err(x) => Err(x),
        }
    }
}

} // verus!
