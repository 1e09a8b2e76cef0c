//! Text as UTF-8 bytes: where a `str` may be cut, and what a cut-out piece
//! reads as.
//!
//! The readers model their input as the byte sequence `spec_bytes()` of a
//! `str` and address it by byte offsets. A piece of the input can be handed
//! out as a `str` of its own only if both its ends fall on character
//! boundaries; the lemmas here show that they do wherever a reader stops.

use vstd::prelude::*;
use vstd::string::*;
use vstd::utf8::*;

verus! {

/// The characters that the bytes of `s` from `from` up to `to` encode.
pub open spec fn text(s: Seq<u8>, from: int, to: int) -> Seq<char> {
    decode_utf8(s.subrange(from, to))
}

/// `p` is a position of `s` at which a character starts or `s` ends.
pub open spec fn cut(s: Seq<u8>, p: int) -> bool {
    0 <= p <= s.len() && is_char_boundary(s, p)
}

/// `new` is what is left of `old` after its first `n` bytes.
pub open spec fn rest_of(old: &str, n: int, new: &str) -> bool {
    &&& 0 <= n <= old.spec_bytes().len()
    &&& new.spec_bytes() == old.spec_bytes().subrange(n, old.spec_bytes().len() as int)
    &&& new@ == text(old.spec_bytes(), n, old.spec_bytes().len() as int)
}

/// The bytes of a `str` are well-formed UTF-8 and may be cut at both ends.
pub proof fn lemma_str_bytes(src: &str)
    ensures
        valid_utf8(src.spec_bytes()),
        cut(src.spec_bytes(), 0),
        cut(src.spec_bytes(), src.spec_bytes().len() as int),
{
    encode_utf8_valid_utf8(src@);
    is_char_boundary_start_end_of_seq(src.spec_bytes());
}

/// What follows a whole character of `width` bytes at `p`.
proof fn lemma_cut_after(s: Seq<u8>, p: int, width: int)
    requires
        valid_utf8(s),
        0 <= p < s.len(),
        !is_continuation_byte(s[p]),
        width == length_of_first_scalar(s.subrange(p, s.len() as int)),
    ensures
        cut(s, p),
        cut(s, p + width),
{
    is_char_boundary_iff_not_is_continuation_byte(s, p);
    valid_utf8_split(s, p);
    let tail = s.subrange(p, s.len() as int);
    assert(tail[0] == s[p]);
    assert(valid_utf8(tail));
    assert(valid_first_scalar(tail));
    let rest = pop_first_scalar(tail);
    assert(valid_utf8(rest));
    assert(rest =~= s.subrange(p + width, s.len() as int));
    if p + width == s.len() {
        is_char_boundary_start_end_of_seq(s);
    } else {
        assert(valid_first_scalar(rest));
        assert(rest[0] == s[p + width]);
        is_char_boundary_iff_not_is_continuation_byte(s, p + width);
    }
}

/// An ASCII byte is a character by itself: the text may be cut before and
/// after it.
pub proof fn lemma_cut_ascii(s: Seq<u8>, p: int)
    requires
        valid_utf8(s),
        0 <= p < s.len(),
        s[p] < 0x80,
    ensures
        cut(s, p),
        cut(s, p + 1),
{
    let tail = s.subrange(p, s.len() as int);
    assert(tail[0] == s[p]);
    lemma_cut_after(s, p, 1);
}

/// A byte from `0xE0` to `0xEF` starts a character of three bytes: the text
/// may be cut before it and after the third.
pub proof fn lemma_cut_wide(s: Seq<u8>, p: int)
    requires
        valid_utf8(s),
        0 <= p < s.len(),
        0xE0 <= s[p] <= 0xEF,
    ensures
        p + 3 <= s.len(),
        cut(s, p),
        cut(s, p + 3),
{
    is_char_boundary_iff_not_is_continuation_byte(s, p);
    valid_utf8_split(s, p);
    let tail = s.subrange(p, s.len() as int);
    assert(tail[0] == s[p]);
    assert(valid_first_scalar(tail));
    lemma_cut_after(s, p, 3);
}

/// Two texts are equal exactly when their bytes are.
pub proof fn lemma_same_bytes_same_text(a: Seq<char>, b: Seq<char>)
    ensures
        (encode_utf8(a) == encode_utf8(b)) <==> (a == b),
{
    encode_utf8_decode_utf8(a);
    encode_utf8_decode_utf8(b);
}

/// The piece of `src` between two cuts.
pub(crate) fn slice<'s>(src: &'s str, start: usize, end: usize) -> (r: &'s str)
    requires
        start <= end,
        cut(src.spec_bytes(), start as int),
        cut(src.spec_bytes(), end as int),
    ensures
        r.spec_bytes() == src.spec_bytes().subrange(start as int, end as int),
        r@ == text(src.spec_bytes(), start as int, end as int),
{
    let (head, _) = src.split_at(end);
    proof {
        let b = src.spec_bytes();
        lemma_str_bytes(src);
        lemma_str_bytes(head);
        let h = head.spec_bytes();
        assert(h =~= b.subrange(0, end as int));
        if start < end {
            is_char_boundary_iff_not_is_continuation_byte(b, start as int);
            is_char_boundary_iff_not_is_continuation_byte(h, start as int);
        }
    }
    let (_, mid) = head.split_at(start);
    proof {
        assert(mid.spec_bytes() =~= src.spec_bytes().subrange(start as int, end as int));
        encode_utf8_decode_utf8(mid@);
    }
    mid
}

/// What is left of `src` from the cut at `pos` on.
pub(crate) fn tail<'s>(src: &'s str, pos: usize) -> (r: &'s str)
    requires
        cut(src.spec_bytes(), pos as int),
    ensures
        rest_of(src, pos as int, r),
{
    proof {
        lemma_str_bytes(src);
    }
    slice(src, pos, src.as_bytes().len())
}

/// Whether two texts are the same, character for character.
pub fn str_eq(a: &str, b: &str) -> (r: bool)
    ensures
        r == (a@ == b@),
{
    let x = a.as_bytes();
    let y = b.as_bytes();
    proof {
        lemma_same_bytes_same_text(a@, b@);
    }
    if x.len() != y.len() {
        return false;
    }
    let mut i: usize = 0;
    while i < x.len()
        invariant
            i <= x.len(),
            x.len() == y.len(),
            (x@ == y@) <==> (a@ == b@),
            forall|j: int| 0 <= j < i ==> x@[j] == y@[j],
        decreases x.len() - i,
    {
        if x[i] != y[i] {
            assert(x@[i as int] != y@[i as int]);
            return false;
        }
        i += 1;
    }
    assert(x@ =~= y@);
    true
}

} // verus!
