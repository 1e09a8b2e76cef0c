//! A document root given without its angle brackets: a tag name, a pair
//! sequence and the elements that follow.

use vstd::prelude::*;
use vstd::string::*;
use vstd::utf8::*;
use crate::attributes::{attribute_views, Attribute, AttributeView};
use crate::common::{
    inner_at, kvs_at, kvs_pieces, lemma_kvs_cuts, lemma_run_at_cuts, pair_view, pair_views,
    run_piece, token_cuts, Class,
};
use crate::error::{failure, ErrorKind, ParseError};
use crate::tags::{
    attributes_at, attributes_from, siblings_at, siblings_from, tag_views, Tag, TagType, TagView,
    MAX_DEPTH,
};
use crate::text::{lemma_str_bytes, rest_of, slice, tail, text};

verus! {

/// A document root: its tag, its attributes in source order and the elements
/// that follow it.
#[derive(Debug, PartialEq, Eq)]
pub struct Doc<'s> {
    pub tag_type: TagType,
    pub attributes: Vec<Attribute<'s>>,
    pub children: Vec<Tag<'s>>,
}

/// A document root, as contracts speak of it.
pub struct DocView {
    pub tag_type: TagType,
    pub attributes: Seq<AttributeView>,
    pub children: Seq<TagView>,
}

impl<'s> View for Doc<'s> {
    type V = DocView;

    open spec fn view(&self) -> DocView {
        DocView {
            tag_type: self.tag_type,
            attributes: attribute_views(self.attributes@),
            children: tag_views(self.children@),
        }
    }
}

/// The document root at `p`: a bare word that is a simple tag name, a pair
/// sequence, the typing of its pairs, and a sequence of sibling elements.
pub open spec fn doc_at(s: Seq<u8>, p: int) -> Result<(DocView, int), ParseError> {
    match inner_at(s, p) {
        None => Err(failure(ErrorKind::LexError, p, 0)),
        Some(word) => match TagType::resolve(text(s, word.start, word.end)) {
            None => Err(failure(ErrorKind::UnknownTagName, p, word.end - p)),
            Some(tag_type) => {
                let (pairs, e) = kvs_at(s, word.next);
                match attributes_at(s, pairs) {
                    Err(x) => Err(x),
                    Ok(attributes) => match siblings_at(s, e, MAX_DEPTH as nat) {
                        Err(x) => Err(x),
                        Ok((children, end)) => Ok(
                            (DocView { tag_type, attributes, children }, end),
                        ),
                    },
                }
            },
        },
    }
}

impl<'s> Doc<'s> {
    /// Reads a document root at the front of the input. On success the cursor
    /// stands behind the last element that follows the root; on failure it has
    /// not moved.
    pub fn parse(input: &mut &'s str) -> (r: Result<Doc<'s>, ParseError>)
        ensures
            match doc_at(old(input).spec_bytes(), 0) {
                Ok((t, n)) => r is Ok && r.unwrap()@ == t && rest_of(
                    *old(input),
                    n,
                    *final(input),
                ),
                Err(e) => (r matches Err(x) && x == e) && *final(input) == *old(input),
            },
    {
        let src: &'s str = *input;
        let bytes = src.as_bytes();
        proof {
            lemma_str_bytes(src);
            lemma_run_at_cuts(src.spec_bytes(), 0, Class::Inner);
        }
        let word = match run_piece(bytes, 0, Class::Inner) {
            Some(w) => w,
            None => {
                return Err(ParseError::new(ErrorKind::LexError, 0, 0));
            },
        };
        let tag_type = match TagType::from_str(slice(src, word.start, word.end)) {
            Ok(t) => t,
            Err(_) => {
                return Err(ParseError::new(ErrorKind::UnknownTagName, 0, word.end));
            },
        };
        let (pieces, e) = kvs_pieces(bytes, word.next);
        proof {
            lemma_kvs_cuts(src.spec_bytes(), word.next as int);
            assert forall|i: int| 0 <= i < pieces@.len() implies token_cuts(
                src.spec_bytes(),
                (#[trigger] pieces@[i]).0@,
            ) && token_cuts(src.spec_bytes(), pieces@[i].1@) by {
                assert(pair_views(pieces@)[i] == pair_view(pieces@[i]));
            }
        }
        let attributes = match attributes_from(src, &pieces) {
            Ok(a) => a,
            Err(x) => {
                return Err(x);
            },
        };
        match siblings_from(src, e, MAX_DEPTH) {
            Ok((children, end)) => {
                *input = tail(src, end);
                Ok(Doc { tag_type, attributes, children })
            },
            Err(x) => Err(x),
        }
    }
}

} // verus!
