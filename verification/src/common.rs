//! The lexical scanners: character-class recognisers for attribute keys and
//! values, key/value pairs, whitespace and the text inside an element.
//!
//! Each scanner is specified by a function of the input's bytes and a
//! position. The public scanners read at the front of a cursor and move it
//! past what they consumed; a scanner that fails leaves the cursor alone.

use vstd::prelude::*;
use vstd::string::*;
use vstd::utf8::*;
use crate::error::{failure, ErrorKind, ParseError};
use crate::text::{cut, lemma_cut_ascii, lemma_cut_wide, lemma_str_bytes, rest_of, slice, tail, text};

verus! {

/// The bytes that the grammar names, each an ASCII character.
pub const LOWER_A: u8 = 0x61;

pub const LOWER_Z: u8 = 0x7A;

pub const UPPER_A: u8 = 0x41;

pub const UPPER_Z: u8 = 0x5A;

pub const DIGIT_0: u8 = 0x30;

pub const DIGIT_9: u8 = 0x39;

pub const HYPHEN: u8 = 0x2D;

pub const DOT: u8 = 0x2E;

pub const AMPERSAND: u8 = 0x26;

pub const SEMICOLON: u8 = 0x3B;

pub const SLASH: u8 = 0x2F;

pub const COLON: u8 = 0x3A;

pub const SPACE: u8 = 0x20;

pub const TAB: u8 = 0x09;

pub const CR: u8 = 0x0D;

pub const LF: u8 = 0x0A;

pub const EQUALS: u8 = 0x3D;

pub const PLUS: u8 = 0x2B;

pub const COMMA: u8 = 0x2C;

pub const BRACKET_OPEN: u8 = 0x5B;

pub const BRACKET_CLOSE: u8 = 0x5D;

pub const QUOTE: u8 = 0x22;

pub const LT: u8 = 0x3C;

pub const GT: u8 = 0x3E;

pub const QUESTION: u8 = 0x3F;

/// The character classes that runs are made of.
#[derive(Debug, Clone, Copy, PartialEq, Eq, Structural)]
pub enum Class {
    /// What keys and values are written in: ASCII letters and digits and
    /// `-`, `.`, `&`, `;`, `/`, `:`.
    Inner,
    /// ASCII letters and digits, of which tag names are made.
    Alnum,
    /// Space, tab, carriage return and line feed.
    Blank,
}

pub open spec fn is_alnum(b: u8) -> bool {
    (LOWER_A <= b <= LOWER_Z) || (UPPER_A <= b <= UPPER_Z) || (DIGIT_0 <= b <= DIGIT_9)
}

pub open spec fn is_inner(b: u8) -> bool {
    is_alnum(b) || b == HYPHEN || b == DOT || b == AMPERSAND || b == SEMICOLON || b == SLASH || b == COLON
}

pub open spec fn is_blank(b: u8) -> bool {
    b == SPACE || b == TAB || b == CR || b == LF
}

/// The single-byte characters that may stand in an element's text.
pub open spec fn is_content_ascii(b: u8) -> bool {
    is_inner(b) || is_blank(b) || b == EQUALS || b == PLUS || b == COMMA || b == BRACKET_OPEN || b == BRACKET_CLOSE
}

pub open spec fn in_class(c: Class, b: u8) -> bool {
    match c {
        Class::Inner => is_inner(b),
        Class::Alnum => is_alnum(b),
        Class::Blank => is_blank(b),
    }
}

/// The length of the longest run of bytes of class `c` that starts at `p`.
pub open spec fn run_len(s: Seq<u8>, p: int, c: Class) -> nat
    decreases s.len() - p,
{
    if 0 <= p < s.len() && in_class(c, s[p]) {
        1 + run_len(s, p + 1, c)
    } else {
        0
    }
}

/// The width in bytes of the text character that starts at `p`: one for a
/// single-byte character of the whitelist, three for an en dash (U+2013,
/// encoded as `E2 80 93`), zero where no character of the whitelist starts.
pub open spec fn content_width(s: Seq<u8>, p: int) -> nat {
    if 0 <= p < s.len() && is_content_ascii(s[p]) {
        1
    } else if 0 <= p && p + 3 <= s.len() && s[p] == 0xE2 && s[p + 1] == 0x80 && s[p + 2] == 0x93 {
        3
    } else {
        0
    }
}

/// The length in bytes of the longest run of text characters that starts at
/// `p`.
pub open spec fn content_len(s: Seq<u8>, p: int) -> nat
    decreases s.len() - p,
{
    let w = content_width(s, p);
    if w > 0 {
        w + content_len(s, p + w)
    } else {
        0
    }
}

/// A recognised piece of text, from `start` up to `end`, and the position
/// `next` at which reading goes on.
pub struct Token {
    pub start: int,
    pub end: int,
    pub next: int,
}

/// A recognised `key=value` pair.
pub struct Pair {
    pub key: Token,
    pub value: Token,
}

/// A non-empty run of class `c` at `p`.
pub open spec fn run_at(s: Seq<u8>, p: int, c: Class) -> Option<Token> {
    let n = run_len(s, p, c);
    if n > 0 {
        Some(Token { start: p, end: p + n, next: p + n })
    } else {
        None
    }
}

/// A bare word of the `Inner` class at `p`.
pub open spec fn inner_at(s: Seq<u8>, p: int) -> Option<Token> {
    run_at(s, p, Class::Inner)
}

/// A word of the `Inner` class between double quotes at `p`. The token is the
/// word without its quotes.
pub open spec fn quoted_at(s: Seq<u8>, p: int) -> Option<Token> {
    let n = run_len(s, p + 1, Class::Inner);
    if 0 <= p < s.len() && s[p] == QUOTE && n > 0 && p + 1 + n < s.len() && s[p + 1 + n] == QUOTE {
        Some(Token { start: p + 1, end: p + 1 + n, next: p + 2 + n })
    } else {
        None
    }
}

/// A value at `p`: a quoted word, or else a bare one.
pub open spec fn value_at(s: Seq<u8>, p: int) -> Option<Token> {
    match quoted_at(s, p) {
        Some(t) => Some(t),
        None => inner_at(s, p),
    }
}

/// A key, `=` and a value at `p`.
pub open spec fn kv_at(s: Seq<u8>, p: int) -> Option<Pair> {
    match inner_at(s, p) {
        Some(key) => if key.next < s.len() && s[key.next] == EQUALS {
            match value_at(s, key.next + 1) {
                Some(value) => Some(Pair { key, value }),
                None => None,
            }
        } else {
            None
        },
        None => None,
    }
}

/// The pairs that follow at `p`, each behind one space, and the position
/// after the last of them. A space that no pair follows is not consumed.
pub open spec fn more_pairs(s: Seq<u8>, p: int) -> (Seq<Pair>, int)
    decreases s.len() - p,
    via more_pairs_moves_on
{
    if 0 <= p < s.len() && s[p] == SPACE {
        match kv_at(s, p + 1) {
            Some(pair) => {
                let (rest, end) = more_pairs(s, pair.value.next);
                (seq![pair] + rest, end)
            },
            None => (Seq::empty(), p),
        }
    } else {
        (Seq::empty(), p)
    }
}

#[via_fn]
proof fn more_pairs_moves_on(s: Seq<u8>, p: int) {
    if 0 <= p < s.len() && s[p] == SPACE {
        match kv_at(s, p + 1) {
            Some(pair) => {
                lemma_kv_bounds(s, p + 1);
            },
            None => {},
        }
    }
}

/// A pair is not empty and lies in the input.
pub proof fn lemma_kv_bounds(s: Seq<u8>, p: int)
    requires
        0 <= p <= s.len(),
    ensures
        kv_at(s, p) matches Some(pair) ==> p < pair.key.end == pair.key.next < pair.value.start
            < pair.value.end <= pair.value.next <= s.len(),
{
    lemma_run_is_longest(s, p, Class::Inner);
    match inner_at(s, p) {
        Some(key) => {
            if key.next < s.len() {
                lemma_run_is_longest(s, key.next + 1, Class::Inner);
                if key.next + 1 < s.len() {
                    lemma_run_is_longest(s, key.next + 2, Class::Inner);
                }
            }
        },
        None => {},
    }
}

/// A sequence of pairs at `p`: an optional leading space, then zero or more
/// pairs separated by single spaces; and the position after it.
pub open spec fn kvs_at(s: Seq<u8>, p: int) -> (Seq<Pair>, int) {
    let q = if 0 <= p < s.len() && s[p] == SPACE {
        p + 1
    } else {
        p
    };
    match kv_at(s, q) {
        Some(pair) => {
            let (rest, end) = more_pairs(s, pair.value.next);
            (seq![pair] + rest, end)
        },
        None => (Seq::empty(), q),
    }
}

/// The text of a pair's key and of its value.
pub open spec fn pair_text(s: Seq<u8>, pair: Pair) -> (Seq<char>, Seq<char>) {
    (text(s, pair.key.start, pair.key.end), text(s, pair.value.start, pair.value.end))
}

/// The texts of a list of pairs, in order.
pub open spec fn pair_texts(s: Seq<u8>, pairs: Seq<Pair>) -> Seq<(Seq<char>, Seq<char>)> {
    Seq::new(pairs.len(), |i: int| pair_text(s, pairs[i]))
}

/// The texts of a list of raw pairs, in order.
pub open spec fn raw_texts(v: Seq<(&str, &str)>) -> Seq<(Seq<char>, Seq<char>)> {
    Seq::new(v.len(), |i: int| (v[i].0@, v[i].1@))
}

/// A run is the longest there is: it lies in the input, every byte of it is
/// of the class, and the byte behind it, if there is one, is not.
pub proof fn lemma_run_is_longest(s: Seq<u8>, p: int, c: Class)
    requires
        0 <= p <= s.len(),
    ensures
        p + run_len(s, p, c) <= s.len(),
        forall|i: int| p <= i < p + run_len(s, p, c) ==> in_class(c, #[trigger] s[i]),
        p + run_len(s, p, c) < s.len() ==> !in_class(c, s[p + run_len(s, p, c)]),
    decreases s.len() - p,
{
    if p < s.len() && in_class(c, s[p]) {
        lemma_run_is_longest(s, p + 1, c);
    }
}

/// A run of text lies in the input, and no text character starts behind it.
pub proof fn lemma_content_is_longest(s: Seq<u8>, p: int)
    requires
        0 <= p <= s.len(),
    ensures
        p + content_len(s, p) <= s.len(),
        content_width(s, p + content_len(s, p)) == 0,
    decreases s.len() - p,
{
    let w = content_width(s, p);
    if w > 0 {
        lemma_content_is_longest(s, p + w);
    }
}

/// A run ends where the text may be cut, if it started at such a place.
pub proof fn lemma_run_cut(s: Seq<u8>, p: int, c: Class)
    requires
        valid_utf8(s),
        cut(s, p),
    ensures
        cut(s, p + run_len(s, p, c)),
    decreases s.len() - p,
{
    if p < s.len() && in_class(c, s[p]) {
        lemma_cut_ascii(s, p);
        lemma_run_cut(s, p + 1, c);
    }
}

/// A run of text ends where the text may be cut, if it started at such a
/// place.
pub proof fn lemma_content_cut(s: Seq<u8>, p: int)
    requires
        valid_utf8(s),
        cut(s, p),
    ensures
        cut(s, p + content_len(s, p)),
    decreases s.len() - p,
{
    let w = content_width(s, p);
    if w == 1 {
        lemma_cut_ascii(s, p);
        lemma_content_cut(s, p + 1);
    } else if w == 3 {
        lemma_cut_wide(s, p);
        lemma_content_cut(s, p + 3);
    }
}

/// Whatever a scanner recognises lies in the input between places where the
/// text may be cut.
pub open spec fn token_cuts(s: Seq<u8>, t: Token) -> bool {
    &&& t.start <= t.end <= t.next
    &&& cut(s, t.start)
    &&& cut(s, t.end)
    &&& cut(s, t.next)
}

pub proof fn lemma_run_at_cuts(s: Seq<u8>, p: int, c: Class)
    requires
        valid_utf8(s),
        0 <= p <= s.len(),
    ensures
        run_at(s, p, c) matches Some(t) ==> token_cuts(s, t) && p < t.end,
{
    if run_len(s, p, c) > 0 {
        lemma_cut_ascii(s, p);
        lemma_run_cut(s, p, c);
    }
}

pub proof fn lemma_value_cuts(s: Seq<u8>, p: int)
    requires
        valid_utf8(s),
        0 <= p <= s.len(),
    ensures
        value_at(s, p) matches Some(t) ==> token_cuts(s, t) && p < t.next,
{
    match quoted_at(s, p) {
        Some(t) => {
            lemma_cut_ascii(s, p);
            lemma_run_cut(s, p + 1, Class::Inner);
            lemma_cut_ascii(s, t.end);
        },
        None => {
            lemma_run_at_cuts(s, p, Class::Inner);
        },
    }
}

pub proof fn lemma_kv_cuts(s: Seq<u8>, p: int)
    requires
        valid_utf8(s),
        0 <= p <= s.len(),
    ensures
        kv_at(s, p) matches Some(pair) ==> token_cuts(s, pair.key) && token_cuts(s, pair.value)
            && p < pair.key.next < pair.value.start && pair.value.next <= s.len(),
{
    lemma_run_at_cuts(s, p, Class::Inner);
    match inner_at(s, p) {
        Some(key) => {
            if key.next < s.len() {
                lemma_value_cuts(s, key.next + 1);
            }
        },
        None => {},
    }
}

impl Class {
    /// Whether `b` is of this class.
    pub fn holds(&self, b: u8) -> (r: bool)
        ensures
            r == in_class(*self, b),
    {
        let alnum = (LOWER_A <= b && b <= LOWER_Z) || (UPPER_A <= b && b <= UPPER_Z) || (DIGIT_0 <= b && b
            <= DIGIT_9);
        match self {
            Class::Alnum => alnum,
            Class::Inner => alnum || b == HYPHEN || b == DOT || b == AMPERSAND || b == SEMICOLON || b
                == SLASH || b == COLON,
            Class::Blank => b == SPACE || b == TAB || b == CR || b == LF,
        }
    }
}

/// The end of the longest run of class `c` that starts at `pos`.
pub(crate) fn run_from(bytes: &[u8], pos: usize, c: Class) -> (end: usize)
    requires
        pos <= bytes@.len(),
    ensures
        end == pos + run_len(bytes@, pos as int, c),
        end <= bytes@.len(),
{
    let mut i = pos;
    while i < bytes.len() && c.holds(bytes[i])
        invariant
            pos <= i <= bytes@.len(),
            pos + run_len(bytes@, pos as int, c) == i + run_len(bytes@, i as int, c),
        decreases bytes@.len() - i,
    {
        i += 1;
    }
    i
}

/// The end of the longest run of text characters that starts at `pos`.
pub(crate) fn content_from(bytes: &[u8], pos: usize) -> (end: usize)
    requires
        pos <= bytes@.len(),
    ensures
        end == pos + content_len(bytes@, pos as int),
        end <= bytes@.len(),
{
    let n = bytes.len();
    let mut i = pos;
    loop
        invariant
            n == bytes@.len(),
            pos <= i <= n,
            pos + content_len(bytes@, pos as int) == i + content_len(bytes@, i as int),
        ensures
            content_width(bytes@, i as int) == 0,
        decreases n - i,
    {
        if i >= n {
            break ;
        }
        let b = bytes[i];
        if Class::Inner.holds(b) || Class::Blank.holds(b) || b == EQUALS || b == PLUS || b == COMMA
            || b == BRACKET_OPEN || b == BRACKET_CLOSE {
            i += 1;
        } else if b == 0xE2 && n - i >= 3 && bytes[i + 1] == 0x80 && bytes[i + 2] == 0x93 {
            i += 3;
        } else {
            break ;
        }
    }
    i
}

/// A token as the scanners hand it on: byte offsets into the input.
#[derive(Debug, Clone, Copy, PartialEq, Eq, Structural)]
pub struct Piece {
    pub start: usize,
    pub end: usize,
    pub next: usize,
}

impl View for Piece {
    type V = Token;

    open spec fn view(&self) -> Token {
        Token { start: self.start as int, end: self.end as int, next: self.next as int }
    }
}

pub open spec fn some_piece(r: Option<Piece>, t: Option<Token>) -> bool {
    match t {
        Some(t) => r is Some && r.unwrap()@ == t,
        None => r is None,
    }
}

pub(crate) fn run_piece(bytes: &[u8], pos: usize, c: Class) -> (r: Option<Piece>)
    requires
        pos <= bytes@.len(),
    ensures
        some_piece(r, run_at(bytes@, pos as int, c)),
{
    let end = run_from(bytes, pos, c);
    if end > pos {
        Some(Piece { start: pos, end, next: end })
    } else {
        None
    }
}

pub(crate) fn quoted_piece(bytes: &[u8], pos: usize) -> (r: Option<Piece>)
    requires
        pos <= bytes@.len(),
    ensures
        some_piece(r, quoted_at(bytes@, pos as int)),
{
    if pos < bytes.len() && bytes[pos] == QUOTE {
        let end = run_from(bytes, pos + 1, Class::Inner);
        if end > pos + 1 && end < bytes.len() && bytes[end] == QUOTE {
            return Some(Piece { start: pos + 1, end, next: end + 1 });
        }
    }
    None
}

pub(crate) fn value_piece(bytes: &[u8], pos: usize) -> (r: Option<Piece>)
    requires
        pos <= bytes@.len(),
    ensures
        some_piece(r, value_at(bytes@, pos as int)),
{
    match quoted_piece(bytes, pos) {
        Some(t) => Some(t),
        None => run_piece(bytes, pos, Class::Inner),
    }
}

pub open spec fn pair_view(p: (Piece, Piece)) -> Pair {
    Pair { key: p.0@, value: p.1@ }
}

pub open spec fn pair_views(v: Seq<(Piece, Piece)>) -> Seq<Pair> {
    Seq::new(v.len(), |i: int| pair_view(v[i]))
}

pub(crate) fn kv_piece(bytes: &[u8], pos: usize) -> (r: Option<(Piece, Piece)>)
    requires
        pos <= bytes@.len(),
    ensures
        match kv_at(bytes@, pos as int) {
            Some(pair) => r is Some && pair_view(r.unwrap()) == pair && pair.value.next
                <= bytes@.len(),
            None => r is None,
        },
{
    match run_piece(bytes, pos, Class::Inner) {
        Some(key) => {
            if key.next < bytes.len() && bytes[key.next] == EQUALS {
                match value_piece(bytes, key.next + 1) {
                    Some(value) => {
                        proof {
                            lemma_kv_bounds(bytes@, pos as int);
                        }
                        Some((key, value))
                    },
                    None => None,
                }
            } else {
                None
            }
        },
        None => None,
    }
}

/// The pairs of a pair sequence at `pos` and the position after it.
pub(crate) fn kvs_pieces(bytes: &[u8], pos: usize) -> (r: (Vec<(Piece, Piece)>, usize))
    requires
        pos <= bytes@.len(),
    ensures
        pair_views(r.0@) == kvs_at(bytes@, pos as int).0,
        r.1 == kvs_at(bytes@, pos as int).1,
        pos <= r.1 <= bytes@.len(),
{
    let ghost s = bytes@;
    let mut out: Vec<(Piece, Piece)> = Vec::new();
    let start = if pos < bytes.len() && bytes[pos] == SPACE {
        pos + 1
    } else {
        pos
    };
    let mut cur: usize = start;
    match kv_piece(bytes, start) {
        Some(pair) => {
            cur = pair.1.next;
            out.push(pair);
        },
        None => {
            assert(pair_views(out@) =~= Seq::<Pair>::empty());
            return (out, start);
        },
    }
    assert(pair_views(out@) =~= seq![kv_at(s, start as int).unwrap()]);
    loop
        invariant
            s == bytes@,
            pos <= cur <= s.len(),
            kvs_at(s, pos as int).0 == pair_views(out@) + more_pairs(s, cur as int).0,
            kvs_at(s, pos as int).1 == more_pairs(s, cur as int).1,
        ensures
            pair_views(out@) == kvs_at(s, pos as int).0,
            cur == kvs_at(s, pos as int).1,
            pos <= cur <= s.len(),
        decreases s.len() - cur,
    {
        if !(cur < bytes.len() && bytes[cur] == SPACE) {
            assert(pair_views(out@) + Seq::<Pair>::empty() =~= pair_views(out@));
            break ;
        }
        match kv_piece(bytes, cur + 1) {
            Some(pair) => {
                let ghost before = pair_views(out@);
                let ghost rest = more_pairs(s, pair.1.next as int).0;
                cur = pair.1.next;
                out.push(pair);
                assert(before + (seq![pair_view(pair)] + rest) =~= pair_views(out@) + rest);
            },
            None => {
                assert(pair_views(out@) + Seq::<Pair>::empty() =~= pair_views(out@));
                break ;
            },
        }
    }
    (out, cur)
}

/// A non-empty run of text characters at `p`.
pub open spec fn content_at(s: Seq<u8>, p: int) -> Option<Token> {
    let n = content_len(s, p);
    if n > 0 {
        Some(Token { start: p, end: p + n, next: p + n })
    } else {
        None
    }
}

/// The run of whitespace at `p`, which may be empty.
pub open spec fn blank_at(s: Seq<u8>, p: int) -> Token {
    let n = run_len(s, p, Class::Blank);
    Token { start: p, end: p + n, next: p + n }
}

/// A scanner that read token `t` of `old` returned `got` and left `new`.
pub open spec fn reads(old: &str, t: Token, got: &str, new: &str) -> bool {
    &&& got@ == text(old.spec_bytes(), t.start, t.end)
    &&& rest_of(old, t.next, new)
}

/// What a scanner returns for what its grammar finds at the front of `old`:
/// the token's text, with the cursor moved behind the token; or a lexical
/// error at offset zero, with the cursor where it was.
pub open spec fn scanned(
    found: Option<Token>,
    old: &str,
    r: Result<&str, ParseError>,
    new: &str,
) -> bool {
    match found {
        Some(t) => r is Ok && reads(old, t, r.unwrap(), new),
        None => r == Err::<&str, ParseError>(failure(ErrorKind::LexError, 0, 0)) && new == old,
    }
}

fn take<'s>(input: &mut &'s str, piece: Option<Piece>) -> (r: Result<&'s str, ParseError>)
    requires
        piece matches Some(p) ==> token_cuts(old(input).spec_bytes(), p@),
    ensures
        scanned(
            match piece {
                Some(p) => Some(p@),
                None => None,
            },
            *old(input),
            r,
            *final(input),
        ),
{
    let src: &'s str = *input;
    match piece {
        Some(p) => {
            let got = slice(src, p.start, p.end);
            *input = tail(src, p.next);
            Ok(got)
        },
        None => Err(ParseError::new(ErrorKind::LexError, 0, 0)),
    }
}

/// Reads the text inside an element: the longest run of letters, digits,
/// whitespace, the punctuation `- = + . , & ; : / [ ]` and the en dash. Text
/// is handed out as written; `&quot;` stays `&quot;`.
pub fn content<'s>(input: &mut &'s str) -> (r: Result<&'s str, ParseError>)
    ensures
        scanned(content_at(old(input).spec_bytes(), 0), *old(input), r, *final(input)),
{
    let src: &'s str = *input;
    let end = content_from(src.as_bytes(), 0);
    proof {
        lemma_str_bytes(src);
        lemma_content_cut(src.spec_bytes(), 0);
    }
    let piece = if end > 0 {
        Some(Piece { start: 0, end, next: end })
    } else {
        None
    };
    take(input, piece)
}

/// Reads an attribute key: a bare word.
pub fn key<'s>(input: &mut &'s str) -> (r: Result<&'s str, ParseError>)
    ensures
        scanned(inner_at(old(input).spec_bytes(), 0), *old(input), r, *final(input)),
{
    inner(input)
}

/// Reads an attribute value: a word between double quotes, handed out without
/// them, or else a bare word.
pub fn value<'s>(input: &mut &'s str) -> (r: Result<&'s str, ParseError>)
    ensures
        scanned(value_at(old(input).spec_bytes(), 0), *old(input), r, *final(input)),
{
    let src: &'s str = *input;
    let piece = value_piece(src.as_bytes(), 0);
    proof {
        lemma_str_bytes(src);
        lemma_value_cuts(src.spec_bytes(), 0);
    }
    take(input, piece)
}

/// Reads a word between double quotes and hands it out without them.
pub fn with_quotes<'s>(input: &mut &'s str) -> (r: Result<&'s str, ParseError>)
    ensures
        scanned(quoted_at(old(input).spec_bytes(), 0), *old(input), r, *final(input)),
{
    let src: &'s str = *input;
    let piece = quoted_piece(src.as_bytes(), 0);
    proof {
        lemma_str_bytes(src);
        lemma_value_cuts(src.spec_bytes(), 0);
    }
    take(input, piece)
}

/// Reads a bare word: the longest run of ASCII letters and digits and
/// `- . & ; / :`.
pub fn inner<'s>(input: &mut &'s str) -> (r: Result<&'s str, ParseError>)
    ensures
        scanned(inner_at(old(input).spec_bytes(), 0), *old(input), r, *final(input)),
{
    let src: &'s str = *input;
    let piece = run_piece(src.as_bytes(), 0, Class::Inner);
    proof {
        lemma_str_bytes(src);
        lemma_run_at_cuts(src.spec_bytes(), 0, Class::Inner);
    }
    take(input, piece)
}

/// Reads the whitespace at the front of the input. It always succeeds, and
/// consumes nothing where no whitespace stands.
pub fn ws<'s>(input: &mut &'s str) -> (r: Result<&'s str, ParseError>)
    ensures
        r is Ok,
        reads(*old(input), blank_at(old(input).spec_bytes(), 0), r.unwrap(), *final(input)),
{
    let src: &'s str = *input;
    let end = run_from(src.as_bytes(), 0, Class::Blank);
    proof {
        lemma_str_bytes(src);
        lemma_run_cut(src.spec_bytes(), 0, Class::Blank);
    }
    take(input, Some(Piece { start: 0, end, next: end }))
}

/// Reads `key=value` and hands out the texts of the key and of the value.
pub fn kv<'s>(input: &mut &'s str) -> (r: Result<(&'s str, &'s str), ParseError>)
    ensures
        match kv_at(old(input).spec_bytes(), 0) {
            Some(pair) => {
                &&& r is Ok
                &&& (r.unwrap().0@, r.unwrap().1@) == pair_text(old(input).spec_bytes(), pair)
                &&& rest_of(*old(input), pair.value.next, *final(input))
            },
            None => r == Err::<(&str, &str), ParseError>(failure(ErrorKind::LexError, 0, 0))
                && *final(input) == *old(input),
        },
{
    let src: &'s str = *input;
    proof {
        lemma_str_bytes(src);
        lemma_kv_cuts(src.spec_bytes(), 0);
    }
    match kv_piece(src.as_bytes(), 0) {
        Some(pair) => {
            let k = slice(src, pair.0.start, pair.0.end);
            let v = slice(src, pair.1.start, pair.1.end);
            *input = tail(src, pair.1.next);
            Ok((k, v))
        },
        None => Err(ParseError::new(ErrorKind::LexError, 0, 0)),
    }
}

/// Every pair of a pair sequence lies between places where the text may be
/// cut, and so does the sequence's end.
pub proof fn lemma_more_pairs_cuts(s: Seq<u8>, p: int)
    requires
        valid_utf8(s),
        cut(s, p),
    ensures
        cut(s, more_pairs(s, p).1),
        p <= more_pairs(s, p).1,
        forall|i: int|
            0 <= i < more_pairs(s, p).0.len() ==> token_cuts(
                s,
                (#[trigger] more_pairs(s, p).0[i]).key,
            ) && token_cuts(s, more_pairs(s, p).0[i].value),
    decreases s.len() - p,
{
    if p < s.len() && s[p] == SPACE {
        lemma_kv_cuts(s, p + 1);
        lemma_kv_bounds(s, p + 1);
        match kv_at(s, p + 1) {
            Some(pair) => {
                lemma_more_pairs_cuts(s, pair.value.next);
            },
            None => {},
        }
    }
}

pub proof fn lemma_kvs_cuts(s: Seq<u8>, p: int)
    requires
        valid_utf8(s),
        cut(s, p),
    ensures
        cut(s, kvs_at(s, p).1),
        p <= kvs_at(s, p).1,
        forall|i: int|
            0 <= i < kvs_at(s, p).0.len() ==> token_cuts(s, (#[trigger] kvs_at(s, p).0[i]).key)
                && token_cuts(s, kvs_at(s, p).0[i].value),
{
    let q = if p < s.len() && s[p] == SPACE {
        p + 1
    } else {
        p
    };
    if q > p {
        lemma_cut_ascii(s, p);
    }
    lemma_kv_cuts(s, q);
    lemma_kv_bounds(s, q);
    match kv_at(s, q) {
        Some(pair) => {
            lemma_more_pairs_cuts(s, pair.value.next);
        },
        None => {},
    }
}

/// A pair sequence lies in the input.
pub proof fn lemma_more_pairs_bounds(s: Seq<u8>, p: int)
    requires
        0 <= p <= s.len(),
    ensures
        p <= more_pairs(s, p).1 <= s.len(),
    decreases s.len() - p,
{
    if p < s.len() && s[p] == SPACE {
        lemma_kv_bounds(s, p + 1);
        match kv_at(s, p + 1) {
            Some(pair) => {
                lemma_more_pairs_bounds(s, pair.value.next);
            },
            None => {},
        }
    }
}

/// A pair sequence lies in the input.
pub proof fn lemma_kvs_bounds(s: Seq<u8>, p: int)
    requires
        0 <= p <= s.len(),
    ensures
        p <= kvs_at(s, p).1 <= s.len(),
{
    let q = if p < s.len() && s[p] == SPACE {
        p + 1
    } else {
        p
    };
    lemma_kv_bounds(s, q);
    match kv_at(s, q) {
        Some(pair) => {
            lemma_more_pairs_bounds(s, pair.value.next);
        },
        None => {},
    }
}

/// Cuts the texts of `pieces` out of `src`.
pub(crate) fn cut_pairs<'s>(src: &'s str, pieces: &Vec<(Piece, Piece)>) -> (out: Vec<(&'s str, &'s str)>)
    requires
        forall|i: int|
            0 <= i < pieces@.len() ==> token_cuts(src.spec_bytes(), (#[trigger] pieces@[i]).0@)
                && token_cuts(src.spec_bytes(), pieces@[i].1@),
    ensures
        raw_texts(out@) == pair_texts(src.spec_bytes(), pair_views(pieces@)),
{
    let mut out: Vec<(&'s str, &'s str)> = Vec::new();
    let mut i: usize = 0;
    while i < pieces.len()
        invariant
            i <= pieces@.len(),
            out@.len() == i,
            forall|j: int|
                0 <= j < pieces@.len() ==> token_cuts(
                    src.spec_bytes(),
                    (#[trigger] pieces@[j]).0@,
                ) && token_cuts(src.spec_bytes(), pieces@[j].1@),
            forall|j: int|
                0 <= j < i ==> (#[trigger] out@[j]).0@ == text(
                    src.spec_bytes(),
                    pieces@[j].0.start as int,
                    pieces@[j].0.end as int,
                ) && out@[j].1@ == text(
                    src.spec_bytes(),
                    pieces@[j].1.start as int,
                    pieces@[j].1.end as int,
                ),
        decreases pieces@.len() - i,
    {
        let pair = pieces[i];
        let k = slice(src, pair.0.start, pair.0.end);
        let v = slice(src, pair.1.start, pair.1.end);
        out.push((k, v));
        i += 1;
    }
    assert(raw_texts(out@) =~= pair_texts(src.spec_bytes(), pair_views(pieces@)));
    out
}

/// Reads a pair sequence: an optional leading space, then zero or more
/// `key=value` pairs separated by single spaces. It always succeeds; where no
/// pair stands the list is empty. The pairs come in the order of the input,
/// repeated keys included.
pub fn kvs<'s>(input: &mut &'s str) -> (r: Result<Vec<(&'s str, &'s str)>, ParseError>)
    ensures
        r is Ok,
        raw_texts(r.unwrap()@) == pair_texts(
            old(input).spec_bytes(),
            kvs_at(old(input).spec_bytes(), 0).0,
        ),
        rest_of(*old(input), kvs_at(old(input).spec_bytes(), 0).1, *final(input)),
{
    let src: &'s str = *input;
    let (pieces, end) = kvs_pieces(src.as_bytes(), 0);
    proof {
        lemma_str_bytes(src);
        lemma_kvs_cuts(src.spec_bytes(), 0);
        assert forall|i: int| 0 <= i < pieces@.len() implies token_cuts(
            src.spec_bytes(),
            (#[trigger] pieces@[i]).0@,
        ) && token_cuts(src.spec_bytes(), pieces@[i].1@) by {
            assert(pair_views(pieces@)[i] == pair_view(pieces@[i]));
        }
    }
    let out = cut_pairs(src, &pieces);
    *input = tail(src, end);
    Ok(out)
}

} // verus!
