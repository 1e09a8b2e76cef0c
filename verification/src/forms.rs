//! What the tree builder makes of the simplest well-formed elements.
//!
//! The grammar is a function of bytes; these are its consequences for inputs
//! of a known form: a self-closing tag, an empty element, an element that
//! holds one self-closing tag, and an element that holds text. Each holds for
//! every tag of the vocabulary and every text of the whitelist.

use vstd::prelude::*;
use vstd::utf8::*;
use crate::attributes::AttributeView;
use crate::common::{
    content_len, content_width, in_class, is_alnum, is_content_ascii, lemma_content_is_longest,
    lemma_kvs_bounds, lemma_run_is_longest, pair_texts, run_len, Class, Pair, COLON, GT, LT,
    SLASH,
};
use crate::error::ParseError;
use crate::tags::{
    at, attributes_at, closing_at, finish_at, head_at, name_at, opening_at, siblings_at,
    starts_tag, tag_at, Dc, Meta, TagType, TagView,
};

verus! {

/// `n` is a word: one or more ASCII letters and digits.
pub open spec fn is_word(n: Seq<u8>) -> bool {
    n.len() > 0 && forall|i: int| 0 <= i < n.len() ==> is_alnum(#[trigger] n[i])
}

/// `n` starts with `dc:`.
pub open spec fn is_compound(n: Seq<u8>) -> bool {
    n.len() >= 3 && n[0] == 0x64 && n[1] == 0x63 && n[2] == COLON
}

/// `n` is how tag `t` is written: a word that the vocabulary resolves to `t`,
/// or `dc:` and a word that names the Dublin Core element `t`.
pub open spec fn spells(n: Seq<u8>, t: TagType) -> bool {
    if is_compound(n) {
        let local = n.subrange(3, n.len() as int);
        &&& is_word(local)
        &&& t matches TagType::Meta(Meta::Dc(d))
        &&& Dc::resolve(decode_utf8(local)) == Some(d)
    } else {
        &&& is_word(n)
        &&& decode_utf8(n) != "dc"@
        &&& TagType::resolve(decode_utf8(n)) == Some(t)
    }
}

/// The bytes `piece` stand in `s` at `p`.
pub open spec fn reads_at(s: Seq<u8>, p: int, piece: Seq<u8>) -> bool {
    0 <= p && p + piece.len() <= s.len() && s.subrange(p, p + piece.len()) == piece
}

/// `text` is made of text characters only: the scanner takes all of it.
pub open spec fn is_text(text: Seq<u8>) -> bool {
    content_len(text, 0) == text.len()
}

/// The characters that may stand in an element's text: ASCII letters and
/// digits, whitespace, the punctuation `- . & ; / : = + , [ ]` and the en
/// dash.
pub open spec fn is_content_char(c: char) -> bool {
    ||| ('a' <= c <= 'z') || ('A' <= c <= 'Z') || ('0' <= c <= '9')
    ||| c == '-' || c == '.' || c == '&' || c == ';' || c == '/' || c == ':'
    ||| c == ' ' || c == '\t' || c == '\r' || c == '\n'
    ||| c == '=' || c == '+' || c == ',' || c == '[' || c == ']'
    ||| c == '\u{2013}'
}

/// The element of tag `t` with nothing in it.
pub open spec fn bare(t: TagType) -> TagView {
    TagView { tag_type: t, attributes: Seq::empty(), content: None, children: Seq::empty() }
}

/// `<name/>`
#[verifier::opaque]
pub open spec fn self_closing(name: Seq<u8>) -> Seq<u8> {
    seq![LT] + name + seq![SLASH, GT]
}

/// `<name>body</name>`
#[verifier::opaque]
pub open spec fn element(name: Seq<u8>, body: Seq<u8>) -> Seq<u8> {
    seq![LT] + name + seq![GT] + body + seq![LT, SLASH] + name + seq![GT]
}

/// A run is exactly as long as the bytes of the class that stand there.
pub proof fn lemma_run_exact(s: Seq<u8>, p: int, c: Class, k: nat)
    requires
        0 <= p,
        p + k <= s.len(),
        forall|i: int| p <= i < p + k ==> in_class(c, #[trigger] s[i]),
        p + k < s.len() ==> !in_class(c, s[p + k]),
    ensures
        run_len(s, p, c) == k,
    decreases k,
{
    if k > 0 {
        lemma_run_exact(s, p + 1, c, (k - 1) as nat);
    }
}

/// The bytes `64 63` read `dc`.
proof fn lemma_dc_word()
    ensures
        decode_utf8(seq![0x64u8, 0x63u8]) == "dc"@,
{
    reveal_strlit("dc");
    let chars = "dc"@;
    assert(is_ascii_chars(chars));
    is_ascii_chars_encode_utf8(chars);
    assert(encode_utf8(chars) =~= seq![0x64u8, 0x63u8]);
    encode_utf8_decode_utf8(chars);
}

/// A written tag name is read as its tag, wherever it stands, if no letter or
/// digit follows it.
pub proof fn lemma_name_read(s: Seq<u8>, p: int, n: Seq<u8>, t: TagType)
    requires
        spells(n, t),
        reads_at(s, p, n),
        p + n.len() < s.len() ==> !is_alnum(s[p + n.len()]),
    ensures
        name_at(s, p) == Ok::<(TagType, int), ParseError>((t, p + n.len())),
{
    assert forall|i: int| 0 <= i < n.len() implies s[p + i] == n[i] by {
        assert(s.subrange(p, p + n.len())[i] == n[i]);
    }
    if is_compound(n) {
        let local = n.subrange(3, n.len() as int);
        assert(s[p] == n[0] && s[p + 1] == n[1] && s[p + 2] == n[2]);
        lemma_run_exact(s, p, Class::Alnum, 2);
        assert(s.subrange(p, p + 2) =~= seq![0x64u8, 0x63u8]);
        lemma_dc_word();
        assert forall|i: int| p + 3 <= i < p + n.len() implies in_class(
            Class::Alnum,
            #[trigger] s[i],
        ) by {
            assert(s[i] == n[i - p]);
            assert(local[i - p - 3] == n[i - p]);
        }
        lemma_run_exact(s, p + 3, Class::Alnum, (n.len() - 3) as nat);
        assert(s.subrange(p + 3, p + n.len()) =~= local);
    } else {
        assert forall|i: int| p <= i < p + n.len() implies in_class(Class::Alnum, #[trigger] s[i]) by {
            assert(s[i] == n[i - p]);
        }
        lemma_run_exact(s, p, Class::Alnum, n.len());
    }
}

/// A closing tag is read as the tag that it names, wherever it stands.
pub proof fn lemma_closing_read(s: Seq<u8>, p: int, n: Seq<u8>, t: TagType)
    requires
        spells(n, t),
        at(s, p, LT),
        at(s, p + 1, SLASH),
        reads_at(s, p + 2, n),
        at(s, p + 2 + n.len(), GT),
    ensures
        closing_at(s, p) == Ok::<(TagType, int), ParseError>((t, p + n.len() + 3)),
{
    lemma_name_read(s, p + 2, n, t);
    if is_compound(n) {
        assert(s[p + 2] == n[0] && s[p + 3] == n[1] && s[p + 4] == n[2]) by {
            assert(s.subrange(p + 2, p + 2 + n.len())[0] == n[0]);
            assert(s.subrange(p + 2, p + 2 + n.len())[1] == n[1]);
            assert(s.subrange(p + 2, p + 2 + n.len())[2] == n[2]);
        }
        lemma_run_exact(s, p + 2, Class::Alnum, 2);
    }
}

/// No attributes: the empty list of pairs types to the empty list.
proof fn lemma_no_attributes(s: Seq<u8>)
    ensures
        attributes_at(s, Seq::<Pair>::empty()) == Ok::<Seq<AttributeView>, ParseError>(
            Seq::empty(),
        ),
{
    assert(pair_texts(s, Seq::<Pair>::empty()) =~= Seq::empty());
}

/// A self-closing tag without attributes, wherever it stands, is read as the
/// bare element of its tag.
pub proof fn lemma_self_closing_read(s: Seq<u8>, p: int, n: Seq<u8>, t: TagType, depth: nat)
    requires
        spells(n, t),
        at(s, p, LT),
        reads_at(s, p + 1, n),
        at(s, p + 1 + n.len(), SLASH),
        at(s, p + 2 + n.len(), GT),
        depth >= 1,
    ensures
        tag_at(s, p, depth) == Ok::<(TagView, int), ParseError>((bare(t), p + n.len() + 3)),
{
    lemma_name_read(s, p + 1, n, t);
    lemma_no_attributes(s);
}

/// Behind the opening tag `<name>` at `p`, reading goes on with the children
/// of the element of tag `t`.
pub proof fn lemma_opening_read(s: Seq<u8>, p: int, n: Seq<u8>, t: TagType, depth: nat)
    requires
        spells(n, t),
        at(s, p, LT),
        reads_at(s, p + 1, n),
        at(s, p + 1 + n.len(), GT),
        depth >= 1,
    ensures
        tag_at(s, p, depth) == match siblings_at(s, p + n.len() + 2, (depth - 1) as nat) {
            Err(x) => Err::<(TagView, int), ParseError>(x),
            Ok((children, q)) => finish_at(s, q, t, Seq::empty(), children),
        },
{
    lemma_name_read(s, p + 1, n, t);
    lemma_no_attributes(s);
}

/// Where a closing tag stands, no sibling starts, no text and no whitespace.
proof fn lemma_nothing_before_closing(s: Seq<u8>, p: int, depth: nat)
    requires
        at(s, p, LT),
        at(s, p + 1, SLASH),
    ensures
        siblings_at(s, p, depth) == Ok::<(Seq<TagView>, int), ParseError>((Seq::empty(), p)),
        content_len(s, p) == 0,
        run_len(s, p, Class::Blank) == 0,
{
}

/// Behind the children, where the closing tag of the element stands right
/// away, the element is finished without text.
proof fn lemma_finish_read(
    s: Seq<u8>,
    p: int,
    n: Seq<u8>,
    t: TagType,
    children: Seq<TagView>,
)
    requires
        spells(n, t),
        at(s, p, LT),
        at(s, p + 1, SLASH),
        reads_at(s, p + 2, n),
        at(s, p + 2 + n.len(), GT),
    ensures
        finish_at(s, p, t, Seq::empty(), children) == Ok::<(TagView, int), ParseError>(
            (
                TagView { tag_type: t, attributes: Seq::empty(), content: None, children },
                p + n.len() + 3,
            ),
        ),
{
    lemma_closing_read(s, p, n, t);
}

/// How `<name/>` is laid out.
proof fn lemma_self_closing_layout(n: Seq<u8>)
    ensures
        self_closing(n).len() == n.len() + 3,
        at(self_closing(n), 0, LT),
        reads_at(self_closing(n), 1, n),
        at(self_closing(n), 1 + n.len() as int, SLASH),
        at(self_closing(n), 2 + n.len() as int, GT),
{
    reveal(self_closing);
    let s = self_closing(n);
    assert(s.subrange(1, 1 + n.len() as int) =~= n);
}

/// How `<name>body</name>` is laid out.
proof fn lemma_element_layout(n: Seq<u8>, body: Seq<u8>)
    ensures
        element(n, body).len() == 2 * n.len() + body.len() + 5,
        at(element(n, body), 0, LT),
        reads_at(element(n, body), 1, n),
        at(element(n, body), 1 + n.len() as int, GT),
        reads_at(element(n, body), 2 + n.len() as int, body),
        at(element(n, body), 2 + n.len() as int + body.len(), LT),
        at(element(n, body), 3 + n.len() as int + body.len(), SLASH),
        reads_at(element(n, body), 4 + n.len() as int + body.len(), n),
        at(element(n, body), 4 + 2 * n.len() as int + body.len(), GT),
{
    reveal(element);
    let s = element(n, body);
    let k = n.len() as int;
    let b = body.len() as int;
    let head = seq![LT] + n + seq![GT];
    let tail = seq![LT, SLASH] + n + seq![GT];
    assert(s =~= head + body + tail);
    assert(head.len() == k + 2);
    assert(tail.len() == k + 3);
    assert(s.len() == 2 * k + b + 5);
    assert(s[0] == head[0]);
    assert(s[1 + k] == head[1 + k]);
    assert(s[2 + k + b] == tail[0]);
    assert(s[3 + k + b] == tail[1]);
    assert(s[4 + 2 * k + b] == tail[2 + k]);
    assert(s.subrange(1, 1 + k) =~= n) by {
        assert forall|i: int| 0 <= i < k implies s[1 + i] == n[i] by {
            assert(s[1 + i] == head[1 + i]);
        }
    }
    assert(s.subrange(2 + k, 2 + k + b) =~= body) by {
        assert forall|i: int| 0 <= i < b implies s[2 + k + i] == body[i] by {
            assert(s[2 + k + i] == (head + body)[2 + k + i]);
        }
    }
    assert(s.subrange(4 + k + b, 4 + 2 * k + b) =~= n) by {
        assert forall|i: int| 0 <= i < k implies s[4 + k + b + i] == n[i] by {
            assert(s[4 + k + b + i] == tail[2 + i]);
        }
    }
}

/// `<name/>` is the bare element of its tag: no attributes, no text, no
/// children; and it is read to the end of the input. (The grammar has no
/// self-closing tag with attributes: behind a pair sequence it asks for `>`.)
pub proof fn lemma_self_closing_tag(n: Seq<u8>, t: TagType, depth: nat)
    requires
        spells(n, t),
        depth >= 1,
    ensures
        tag_at(self_closing(n), 0, depth) == Ok::<(TagView, int), ParseError>(
            (bare(t), self_closing(n).len() as int),
        ),
{
    lemma_self_closing_layout(n);
    lemma_self_closing_read(self_closing(n), 0, n, t, depth);
}

/// `<name></name>` is the bare element of its tag: no attributes, no text, no
/// children; and it is read to the end of the input.
pub proof fn lemma_empty_element(n: Seq<u8>, t: TagType, depth: nat)
    requires
        spells(n, t),
        depth >= 1,
    ensures
        tag_at(element(n, Seq::empty()), 0, depth) == Ok::<(TagView, int), ParseError>(
            (bare(t), element(n, Seq::empty()).len() as int),
        ),
{
    let s = element(n, Seq::empty());
    let q: int = n.len() as int + 2;
    lemma_element_layout(n, Seq::empty());
    lemma_opening_read(s, 0, n, t, depth);
    lemma_nothing_before_closing(s, q, (depth - 1) as nat);
    lemma_finish_read(s, q, n, t, Seq::empty());
}

/// `<outer><inner/></outer>` is the element of the outer tag whose only
/// child is the bare element of the inner tag, and which has no text.
pub proof fn lemma_nested_element(
    outer: Seq<u8>,
    t: TagType,
    inner: Seq<u8>,
    child: TagType,
    depth: nat,
)
    requires
        spells(outer, t),
        spells(inner, child),
        depth >= 2,
    ensures
        tag_at(element(outer, self_closing(inner)), 0, depth) == Ok::<(TagView, int), ParseError>(
            (
                TagView {
                    tag_type: t,
                    attributes: Seq::empty(),
                    content: None,
                    children: seq![bare(child)],
                },
                element(outer, self_closing(inner)).len() as int,
            ),
        ),
{
    let body = self_closing(inner);
    let s = element(outer, body);
    let q: int = outer.len() as int + 2;
    let e: int = q + inner.len() + 3;
    let d = (depth - 1) as nat;
    lemma_element_layout(outer, body);
    lemma_self_closing_layout(inner);
    lemma_inside(s, q, body, 0, LT);
    lemma_inside(s, q, body, 1 + inner.len() as int, SLASH);
    lemma_inside(s, q, body, 2 + inner.len() as int, GT);
    lemma_reads_inside(s, q, body, 1, inner);
    lemma_opening_read(s, 0, outer, t, depth);
    lemma_self_closing_read(s, q, inner, child, d);
    lemma_nothing_before_closing(s, e, d);
    lemma_one_sibling(s, q, inner, child, d);
    lemma_finish_read(s, e, outer, t, seq![bare(child)]);
}

/// A byte of a piece that stands in `s` stands in `s`.
proof fn lemma_inside(s: Seq<u8>, p: int, piece: Seq<u8>, i: int, b: u8)
    requires
        reads_at(s, p, piece),
        at(piece, i, b),
    ensures
        at(s, p + i, b),
{
    assert(s.subrange(p, p + piece.len())[i] == piece[i]);
}

/// A part of a piece that stands in `s` stands in `s`.
proof fn lemma_reads_inside(s: Seq<u8>, p: int, piece: Seq<u8>, i: int, part: Seq<u8>)
    requires
        reads_at(s, p, piece),
        reads_at(piece, i, part),
    ensures
        reads_at(s, p + i, part),
{
    assert forall|j: int| 0 <= j < part.len() implies s[p + i + j] == part[j] by {
        assert(s.subrange(p, p + piece.len())[i + j] == piece[i + j]);
        assert(piece.subrange(i, i + part.len())[j] == part[j]);
    }
    assert(s.subrange(p + i, p + i + part.len()) =~= part);
}

/// A self-closing tag that a closing tag follows is a sequence of one
/// sibling.
proof fn lemma_one_sibling(s: Seq<u8>, p: int, n: Seq<u8>, t: TagType, depth: nat)
    requires
        spells(n, t),
        at(s, p, LT),
        reads_at(s, p + 1, n),
        at(s, p + 1 + n.len(), SLASH),
        at(s, p + 2 + n.len(), GT),
        at(s, p + 3 + n.len(), LT),
        at(s, p + 4 + n.len(), SLASH),
        depth >= 1,
    ensures
        siblings_at(s, p, depth) == Ok::<(Seq<TagView>, int), ParseError>(
            (seq![bare(t)], p + n.len() + 3),
        ),
{
    let e = p + n.len() + 3;
    lemma_self_closing_read(s, p, n, t, depth);
    lemma_nothing_before_closing(s, e, depth);
    assert(s[p + 1] != SLASH) by {
        assert(s.subrange(p + 1, p + 1 + n.len())[0] == n[0]);
        if !is_compound(n) {
            assert(is_alnum(n[0]));
        }
    }
    assert(run_len(s, p, Class::Blank) == 0);
    assert(seq![bare(t)] + Seq::<TagView>::empty() =~= seq![bare(t)]);
}

/// Text is taken to its end wherever it stands in front of a `<`.
pub proof fn lemma_text_read(s: Seq<u8>, p: int, body: Seq<u8>, j: int)
    requires
        0 <= j <= body.len(),
        content_len(body, j) == body.len() - j,
        reads_at(s, p, body),
        at(s, p + body.len(), LT),
    ensures
        content_len(s, p + j) == body.len() - j,
    decreases body.len() - j,
{
    assert forall|i: int| 0 <= i < body.len() implies s[p + i] == body[i] by {
        assert(s.subrange(p, p + body.len())[i] == body[i]);
    }
    if j < body.len() {
        let w = content_width(body, j);
        assert(w > 0);
        assert(s[p + j] == body[j]);
        if w == 3 {
            assert(s[p + j + 1] == body[j + 1]);
            assert(s[p + j + 2] == body[j + 2]);
        }
        assert(content_width(s, p + j) == w);
        lemma_text_read(s, p, body, j + w);
    }
}

/// Within a text that a closing tag follows, whitespace is followed by more
/// of the text or by the closing tag, never by the start of an element.
proof fn lemma_blank_in_text(s: Seq<u8>, p: int, body: Seq<u8>, j: int)
    requires
        0 <= j <= body.len(),
        content_len(body, j) == body.len() - j,
        reads_at(s, p, body),
        at(s, p + body.len(), LT),
        at(s, p + body.len() + 1, SLASH),
    ensures
        !starts_tag(s, p + j + run_len(s, p + j, Class::Blank)),
    decreases body.len() - j,
{
    if j < body.len() {
        assert(s[p + j] == body[j]) by {
            assert(s.subrange(p, p + body.len())[j] == body[j]);
        }
        let w = content_width(body, j);
        assert(w > 0);
        if in_class(Class::Blank, s[p + j]) {
            assert(w == 1);
            lemma_blank_in_text(s, p, body, j + 1);
        }
    }
}

/// The length of a run of text is the same wherever the bytes behind its
/// start are looked at from.
proof fn lemma_content_shift(s: Seq<u8>, k: int, p: int)
    requires
        0 <= k <= s.len(),
        0 <= p,
    ensures
        content_len(s, k + p) == content_len(s.subrange(k, s.len() as int), p),
    decreases s.len() - k - p,
{
    let tail = s.subrange(k, s.len() as int);
    if k + p < s.len() {
        assert(tail[p] == s[k + p]);
        if k + p + 3 <= s.len() {
            assert(tail[p + 1] == s[k + p + 1]);
            assert(tail[p + 2] == s[k + p + 2]);
        }
        let w = content_width(s, k + p);
        assert(content_width(tail, p) == w);
        if w > 0 {
            lemma_content_shift(s, k, p + w);
        }
    }
}

/// How the characters of a text are encoded: an ASCII character as itself, the
/// en dash as `E2 80 93`.
proof fn lemma_content_char_bytes(c: char)
    requires
        is_content_char(c),
    ensures
        c != '\u{2013}' ==> encode_scalar(c as u32) == seq![c as u8] && is_content_ascii(
            c as u8,
        ),
        c == '\u{2013}' ==> encode_scalar(c as u32) == seq![0xE2u8, 0x80u8, 0x93u8],
{
    let v = c as u32;
    if c == '\u{2013}' {
        assert(v == 0x2013);
        assert(0xE0u8 | ((0x2013u32 >> 12) & 0x0F) as u8 == 0xE2u8) by (bit_vector);
        assert(0x80u8 | ((0x2013u32 >> 6) & 0x3F) as u8 == 0x80u8) by (bit_vector);
        assert(0x80u8 | (0x2013u32 & 0x3F) as u8 == 0x93u8) by (bit_vector);
    } else {
        assert(v <= 0x7F);
        assert((v & 0x7F) as u8 == v as u8) by (bit_vector)
            requires
                v <= 0x7F,
        ;
    }
}

/// A text written in the characters of the whitelist is, as bytes, a text
/// that the scanner takes whole.
pub proof fn lemma_whitelist_is_text(chars: Seq<char>)
    requires
        forall|i: int| 0 <= i < chars.len() ==> is_content_char(#[trigger] chars[i]),
    ensures
        is_text(encode_utf8(chars)),
    decreases chars.len(),
{
    if chars.len() > 0 {
        let c = chars[0];
        let rest = chars.drop_first();
        let b = encode_utf8(chars);
        let head = encode_scalar(c as u32);
        let tail = encode_utf8(rest);
        assert(b == head + tail);
        assert forall|i: int| 0 <= i < rest.len() implies is_content_char(#[trigger] rest[i]) by {
            assert(rest[i] == chars[i + 1]);
        }
        lemma_whitelist_is_text(rest);
        lemma_content_char_bytes(c);
        assert(b.subrange(head.len() as int, b.len() as int) =~= tail);
        lemma_content_shift(b, head.len() as int, 0);
        assert(b[0] == head[0]);
        if c == '\u{2013}' {
            assert(b[1] == head[1]);
            assert(b[2] == head[2]);
            assert(content_width(b, 0) == 3);
        } else {
            assert(content_width(b, 0) == 1);
        }
    }
}

/// `<name>TEXT</name>`, for a text of one character or more, is the element
/// of its tag with that text and with no children; and it is read to the end
/// of the input. The text is handed out as written, `&quot;` and the like
/// included.
pub proof fn lemma_text_element(n: Seq<u8>, t: TagType, body: Seq<u8>, depth: nat)
    requires
        spells(n, t),
        is_text(body),
        body.len() > 0,
        depth >= 1,
    ensures
        tag_at(element(n, body), 0, depth) == Ok::<(TagView, int), ParseError>(
            (
                TagView {
                    tag_type: t,
                    attributes: Seq::empty(),
                    content: Some(decode_utf8(body)),
                    children: Seq::empty(),
                },
                element(n, body).len() as int,
            ),
        ),
{
    let s = element(n, body);
    let q: int = n.len() as int + 2;
    let e: int = q + body.len();
    lemma_element_layout(n, body);
    lemma_opening_read(s, 0, n, t, depth);
    lemma_blank_in_text(s, q, body, 0);
    lemma_text_read(s, q, body, 0);
    lemma_closing_read(s, e, n, t);
}

/// The start of an opening tag is not empty and lies in the input.
proof fn lemma_opening_bounds(s: Seq<u8>, p: int)
    requires
        0 <= p <= s.len(),
    ensures
        opening_at(s, p) matches Ok((_, e)) ==> p < e <= s.len(),
{
    if p < s.len() {
        lemma_run_is_longest(s, p + 1, Class::Alnum);
        let w = p + 1 + run_len(s, p + 1, Class::Alnum);
        if w < s.len() {
            lemma_run_is_longest(s, w + 1, Class::Alnum);
        }
    }
}

/// A closing tag is not empty and lies in the input.
proof fn lemma_closing_bounds(s: Seq<u8>, p: int)
    requires
        0 <= p <= s.len(),
    ensures
        closing_at(s, p) matches Ok((_, e)) ==> p < e <= s.len(),
{
    if p + 2 <= s.len() {
        lemma_run_is_longest(s, p + 2, Class::Alnum);
        let w = p + 2 + run_len(s, p + 2, Class::Alnum);
        if w < s.len() {
            lemma_run_is_longest(s, w + 1, Class::Alnum);
        }
    }
}

/// The head of a tag is not empty and lies in the input.
proof fn lemma_head_bounds(s: Seq<u8>, p: int)
    requires
        0 <= p <= s.len(),
    ensures
        head_at(s, p) matches Ok(h) ==> p < h.next <= s.len(),
{
    if p < s.len() {
        lemma_kvs_bounds(s, p + 1);
    }
}

/// An element is never empty: where one is read at `p`, reading goes on
/// behind `p`, and within the input.
pub proof fn lemma_tag_moves_on(s: Seq<u8>, p: int, depth: nat)
    requires
        0 <= p <= s.len(),
    ensures
        tag_at(s, p, depth) matches Ok((_, e)) ==> p < e <= s.len(),
    decreases depth, 0nat,
{
    lemma_opening_bounds(s, p);
    if depth > 0 {
        if let Ok((t, after_name)) = opening_at(s, p) {
            lemma_head_bounds(s, after_name);
            if let Ok(head) = head_at(s, after_name) {
                if !head.closed {
                    lemma_siblings_move_on(s, head.next, (depth - 1) as nat);
                    if let Ok((kids, after_children)) = siblings_at(s, head.next, (depth - 1) as nat) {
                        lemma_content_is_longest(s, after_children);
                        lemma_closing_bounds(s, after_children + content_len(s, after_children));
                    }
                }
            }
        }
    }
}

/// A sequence of siblings lies in the input, and each of its elements is
/// followed by the rest of the sequence: the grammar never has to stop for an
/// element that is empty.
pub proof fn lemma_siblings_move_on(s: Seq<u8>, p: int, depth: nat)
    requires
        0 <= p <= s.len(),
    ensures
        siblings_at(s, p, depth) matches Ok((_, e)) ==> p <= e <= s.len(),
        tag_at(s, p + run_len(s, p, Class::Blank), depth) matches Ok((_, e)) ==> p < e + run_len(
            s,
            e,
            Class::Blank,
        ) <= s.len(),
    decreases depth, (s.len() - p + 1) as nat,
{
    lemma_run_is_longest(s, p, Class::Blank);
    let q = p + run_len(s, p, Class::Blank);
    lemma_tag_moves_on(s, q, depth);
    if let Ok((first, e)) = tag_at(s, q, depth) {
        lemma_run_is_longest(s, e, Class::Blank);
        if starts_tag(s, q) {
            lemma_siblings_move_on(s, e + run_len(s, e, Class::Blank), depth);
        }
    }
}

} // verus!
