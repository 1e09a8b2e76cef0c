//! The header: the processing instructions that come before the elements.
//!
//! An entry is written `<?`, a name, a pair sequence and `?>`. The header is
//! the longest sequence of entries at the front of the input.

use vstd::prelude::*;
use vstd::string::*;
use vstd::utf8::*;
use crate::attributes::{attribute_views, Attribute, AttributeView};
use crate::common::{
    inner_at, kvs_at, kvs_pieces, lemma_kvs_cuts, lemma_run_at_cuts, pair_view, pair_views,
    run_piece, token_cuts, Class, GT, LT, QUESTION,
};
use crate::error::{failure, ErrorKind, ParseError};
use crate::tags::{at, attributes_at, attributes_from};
use crate::text::{cut, lemma_cut_ascii, lemma_str_bytes, rest_of, slice, str_eq, tail, text};

verus! {

/// The processing instructions that a header may hold.
#[derive(Debug, Clone, Copy, PartialEq, Eq, Structural)]
pub enum HeaderTagType {
    /// The XML declaration, `xml`.
    Xml,
    /// A stylesheet instruction, `xml-stylesheet`.
    XmlStyleSheet,
}

impl HeaderTagType {
    /// The instruction that a name stands for, if it stands for one.
    pub open spec fn resolve(s: Seq<char>) -> Option<HeaderTagType> {
        if s == "xml"@ {
            Some(HeaderTagType::Xml)
        } else if s == "xml-stylesheet"@ {
            Some(HeaderTagType::XmlStyleSheet)
        } else {
            None
        }
    }

    /// The name that stands for this instruction.
    pub open spec fn spec_name(self) -> Seq<char> {
        match self {
            HeaderTagType::Xml => "xml"@,
            HeaderTagType::XmlStyleSheet => "xml-stylesheet"@,
        }
    }

    /// Looks a name up. A name outside the vocabulary is an error.
    pub fn from_str(s: &str) -> (r: Result<HeaderTagType, ErrorKind>)
        ensures
            r == match HeaderTagType::resolve(s@) {
                Some(v) => Ok::<HeaderTagType, ErrorKind>(v),
                None => Err(ErrorKind::UnknownTagName),
            },
    {
        if str_eq(s, "xml") {
            Ok(HeaderTagType::Xml)
        } else if str_eq(s, "xml-stylesheet") {
            Ok(HeaderTagType::XmlStyleSheet)
        } else {
            Err(ErrorKind::UnknownTagName)
        }
    }

    /// The name that stands for this instruction.
    pub fn name(&self) -> (r: &'static str)
        ensures
            r@ == self.spec_name(),
    {
        match self {
            HeaderTagType::Xml => "xml",
            HeaderTagType::XmlStyleSheet => "xml-stylesheet",
        }
    }
}

/// One entry of the header: the instruction and its attributes in source
/// order.
#[derive(Debug, PartialEq, Eq)]
pub struct HeaderTag<'s> {
    pub tag_type: HeaderTagType,
    pub attributes: Vec<Attribute<'s>>,
}

/// The header: its entries in source order.
#[derive(Debug, PartialEq, Eq)]
pub struct Header<'s> {
    pub tags: Vec<HeaderTag<'s>>,
}

/// An entry of the header, as contracts speak of it.
pub struct HeaderTagView {
    pub tag_type: HeaderTagType,
    pub attributes: Seq<AttributeView>,
}

impl<'s> View for HeaderTag<'s> {
    type V = HeaderTagView;

    open spec fn view(&self) -> HeaderTagView {
        HeaderTagView { tag_type: self.tag_type, attributes: attribute_views(self.attributes@) }
    }
}

/// The views of a list of entries, in order.
pub open spec fn header_tag_views(v: Seq<HeaderTag>) -> Seq<HeaderTagView> {
    Seq::new(v.len(), |i: int| v[i]@)
}

impl<'s> View for Header<'s> {
    type V = Seq<HeaderTagView>;

    open spec fn view(&self) -> Seq<HeaderTagView> {
        header_tag_views(self.tags@)
    }
}

/// The inside of an entry at `p`: a bare word that names the instruction, a
/// pair sequence, and the typing of its pairs.
pub open spec fn header_tag_at(s: Seq<u8>, p: int) -> Result<(HeaderTagView, int), ParseError> {
    match inner_at(s, p) {
        None => Err(failure(ErrorKind::LexError, p, 0)),
        Some(word) => match HeaderTagType::resolve(text(s, word.start, word.end)) {
            None => Err(failure(ErrorKind::UnknownTagName, p, word.end - p)),
            Some(tag_type) => {
                let (pairs, e) = kvs_at(s, word.next);
                match attributes_at(s, pairs) {
                    Ok(attributes) => Ok((HeaderTagView { tag_type, attributes }, e)),
                    Err(x) => Err(x),
                }
            },
        },
    }
}

/// What stands at `p` where an entry may start.
pub enum Entry {
    /// No entry: the header ends here.
    Absent,
    /// An entry, and the position behind its `?>`.
    Present(HeaderTagView, int),
    /// An entry that names an unknown instruction, or whose attributes cannot
    /// be typed.
    Broken(ParseError),
}

/// The entry at `p`. No entry stands where `<?` is missing, where no name
/// follows it, or where `?>` is missing behind the attributes.
pub open spec fn entry_at(s: Seq<u8>, p: int) -> Entry {
    if at(s, p, LT) && at(s, p + 1, QUESTION) {
        match header_tag_at(s, p + 2) {
            Ok((tag, e)) => if at(s, e, QUESTION) && at(s, e + 1, GT) {
                Entry::Present(tag, e + 2)
            } else {
                Entry::Absent
            },
            Err(x) => if x.kind == ErrorKind::LexError {
                Entry::Absent
            } else {
                Entry::Broken(x)
            },
        }
    } else {
        Entry::Absent
    }
}

/// The header at `p`: the entries that follow one another from `p` on, and
/// the position behind the last. A broken entry fails the header.
pub open spec fn header_at(s: Seq<u8>, p: int) -> Result<(Seq<HeaderTagView>, int), ParseError>
    decreases s.len() - p,
{
    match entry_at(s, p) {
        Entry::Absent => Ok((Seq::empty(), p)),
        Entry::Broken(x) => Err(x),
        Entry::Present(first, e) => if p < e <= s.len() {
            match header_at(s, e) {
                Ok((rest, end)) => Ok((seq![first] + rest, end)),
                Err(x) => Err(x),
            }
        } else {
            Ok((seq![first], e))
        },
    }
}

/// `r` is the outcome `want`, read through the view, position included.
pub open spec fn lands_entry(
    r: Result<(HeaderTag, usize), ParseError>,
    want: Result<(HeaderTagView, int), ParseError>,
) -> bool {
    match want {
        Ok((t, n)) => r matches Ok((x, m)) && x@ == t && m as int == n,
        Err(e) => r matches Err(x) && x == e,
    }
}

fn header_tag_from<'s>(src: &'s str, pos: usize) -> (r: Result<(HeaderTag<'s>, usize), ParseError>)
    requires
        pos <= src.spec_bytes().len(),
    ensures
        lands_entry(r, header_tag_at(src.spec_bytes(), pos as int)),
        r matches Ok((_, n)) ==> pos < n && cut(src.spec_bytes(), n as int),
{
    let bytes = src.as_bytes();
    proof {
        lemma_str_bytes(src);
        lemma_run_at_cuts(src.spec_bytes(), pos as int, Class::Inner);
    }
    let word = match run_piece(bytes, pos, Class::Inner) {
        Some(w) => w,
        None => {
            return Err(ParseError::new(ErrorKind::LexError, pos, pos));
        },
    };
    let tag_type = match HeaderTagType::from_str(slice(src, word.start, word.end)) {
        Ok(t) => t,
        Err(_) => {
            return Err(ParseError::new(ErrorKind::UnknownTagName, pos, word.end));
        },
    };
    let (pieces, e) = kvs_pieces(bytes, word.next);
    proof {
        lemma_kvs_cuts(src.spec_bytes(), word.next as int);
        assert forall|i: int| 0 <= i < pieces@.len() implies token_cuts(
            src.spec_bytes(),
            (#[trigger] pieces@[i]).0@,
        ) && token_cuts(src.spec_bytes(), pieces@[i].1@) by {
            assert(pair_views(pieces@)[i] == pair_view(pieces@[i]));
        }
    }
    match attributes_from(src, &pieces) {
        Ok(attributes) => Ok((HeaderTag { tag_type, attributes }, e)),
        Err(x) => Err(x),
    }
}

/// Reads the inside of a header entry: the instruction's name and its
/// attributes. On failure the cursor has not moved.
pub fn header_tag<'s>(input: &mut &'s str) -> (r: Result<HeaderTag<'s>, ParseError>)
    ensures
        match header_tag_at(old(input).spec_bytes(), 0) {
            Ok((t, n)) => r is Ok && r.unwrap()@ == t && rest_of(*old(input), n, *final(input)),
            Err(e) => (r matches Err(x) && x == e) && *final(input) == *old(input),
        },
{
    let src: &'s str = *input;
    match header_tag_from(src, 0) {
        Ok((t, n)) => {
            *input = tail(src, n);
            Ok(t)
        },
        Err(e) => Err(e),
    }
}

/// The outcome `r` with the entries `acc` put in front.
pub open spec fn after_entries(
    acc: Seq<HeaderTagView>,
    r: Result<(Seq<HeaderTagView>, int), ParseError>,
) -> Result<(Seq<HeaderTagView>, int), ParseError> {
    match r {
        Ok((rest, end)) => Ok((acc + rest, end)),
        Err(e) => Err(e),
    }
}

/// Reads the header at `pos` and hands back its entries and the position
/// behind it.
pub(crate) fn header_from<'s>(src: &'s str, pos: usize) -> (r: Result<(Header<'s>, usize), ParseError>)
    requires
        cut(src.spec_bytes(), pos as int),
    ensures
        match header_at(src.spec_bytes(), pos as int) {
            Ok((t, n)) => r matches Ok((x, m)) && x@ == t && m as int == n,
            Err(e) => r matches Err(x) && x == e,
        },
        r matches Ok((_, n)) ==> pos <= n && cut(src.spec_bytes(), n as int),
{
    let ghost s = src.spec_bytes();
    let bytes = src.as_bytes();
    let n = bytes.len();
    let mut out: Vec<HeaderTag<'s>> = Vec::new();
    let mut cur = pos;
    proof {
        lemma_str_bytes(src);
        assert(header_tag_views(out@) =~= Seq::<HeaderTagView>::empty());
        match header_at(s, pos as int) {
            Ok((rest, end)) => {
                assert(header_tag_views(out@) + rest =~= rest);
            },
            Err(e) => {},
        }
    }
    loop
        invariant
            s == src.spec_bytes(),
            bytes@ == s,
            n == s.len(),
            valid_utf8(s),
            pos <= cur <= n,
            cut(s, cur as int),
            header_at(s, pos as int) == after_entries(
                header_tag_views(out@),
                header_at(s, cur as int),
            ),
        decreases n - cur,
    {
        let found = cur < n && bytes[cur] == LT && cur + 1 < n && bytes[cur + 1] == QUESTION;
        if found {
            match header_tag_from(src, cur + 2) {
                Ok((tag, e)) => {
                    if e < n && bytes[e] == QUESTION && e + 1 < n && bytes[e + 1] == GT {
                        proof {
                            lemma_cut_ascii(s, e + 1);
                            let before = header_tag_views(out@);
                            let first = tag@;
                            match header_at(s, e + 2) {
                                Ok((rest, end)) => {
                                    assert(before + (seq![first] + rest) =~= before.push(first)
                                        + rest);
                                },
                                Err(x) => {},
                            }
                            assert(header_tag_views(out@.push(tag)) =~= before.push(first));
                        }
                        out.push(tag);
                        cur = e + 2;
                        continue ;
                    }
                },
                Err(x) => {
                    if x.kind != ErrorKind::LexError {
                        return Err(x);
                    }
                },
            }
        }
        assert(header_tag_views(out@) + Seq::<HeaderTagView>::empty() =~= header_tag_views(out@));
        return Ok((Header { tags: out }, cur));
    }
}

impl<'s> Header<'s> {
    /// Reads the header at the front of the input: the entries that follow
    /// one another there, possibly none. An entry that names an unknown
    /// instruction, or whose attributes cannot be typed, fails the read and
    /// leaves the cursor where it was.
    pub fn parse(input: &mut &'s str) -> (r: Result<Header<'s>, ParseError>)
        ensures
            match header_at(old(input).spec_bytes(), 0) {
                Ok((t, n)) => r is Ok && r.unwrap()@ == t && rest_of(
                    *old(input),
                    n,
                    *final(input),
                ),
                Err(e) => (r matches Err(x) && x == e) && *final(input) == *old(input),
            },
    {
        let src: &'s str = *input;
        proof {
            lemma_str_bytes(src);
        }
        match header_from(src, 0) {
            Ok((t, n)) => {
                *input = tail(src, n);
                Ok(t)
            },
            Err(e) => Err(e),
        }
    }
}

} // verus!
