//! The vocabularies map names to variants and back.
//!
//! Every variant that can be written has one name, and that name resolves to
//! it; every name that resolves is the name of what it resolves to. The names
//! of tags are words of ASCII letters and digits, which is what the tree
//! builder reads as a name.

use vstd::prelude::*;
use vstd::utf8::*;
use crate::attributes::AttributeKey;
use crate::common::is_alnum;
use crate::error::ParseError;
use crate::forms::{
    bare, element, is_compound, is_content_char, is_word, lemma_empty_element,
    lemma_nested_element, lemma_self_closing_tag, lemma_text_element, lemma_whitelist_is_text,
    self_closing, spells,
};
use crate::header::HeaderTagType;
use crate::tags::{
    Appendix, Core, Dc, Doc, Generic, Level, Meta, Note, Other, Primitive, Property, Signature,
    tag_at, Table, TagType, TagView, Title,
};

verus! {

/// `c` is an ASCII letter or digit.
pub open spec fn is_alnum_char(c: char) -> bool {
    ('a' <= c <= 'z') || ('A' <= c <= 'Z') || ('0' <= c <= '9')
}

/// `s` is a word: one or more ASCII letters and digits.
pub open spec fn is_word_text(s: Seq<char>) -> bool {
    s.len() > 0 && forall|i: int| 0 <= i < s.len() ==> is_alnum_char(#[trigger] s[i])
}

/// The tags that can be written: all but the two metadata variants whose
/// names stand for document properties.
pub open spec fn is_written(t: TagType) -> bool {
    t != TagType::Meta(Meta::DocPublicationName) && t != TagType::Meta(Meta::DocReleasePoint)
}

/// The bytes of a word are a word, one byte for each character, and read
/// back as the same word.
pub proof fn lemma_word_bytes(s: Seq<char>)
    requires
        is_word_text(s),
    ensures
        is_word(encode_utf8(s)),
        encode_utf8(s).len() == s.len(),
        forall|i: int| 0 <= i < s.len() ==> #[trigger] encode_utf8(s)[i] == s[i] as u8,
        decode_utf8(encode_utf8(s)) == s,
{
    assert(is_ascii_chars(s));
    is_ascii_chars_encode_utf8(s);
    encode_utf8_decode_utf8(s);
    let b = encode_utf8(s);
    assert forall|i: int| 0 <= i < b.len() implies is_alnum(#[trigger] b[i]) by {
        assert(is_alnum_char(s[i]));
    }
}

/// What tells the simple names of the tags apart: their lengths and, among
/// names of one length, a character in which they differ.
proof fn lemma_tag_literals()
    ensures
        "dc"@.len() == 2 && "dc"@[0] == 'd',
        "marker"@.len() == 6 && "marker"@[0] == 'm',
        "inline"@.len() == 6 && "inline"@[0] == 'i',
        "block"@.len() == 5 && "block"@[0] == 'b',
        "content"@.len() == 7 && "content"@[0] == 'c' && "content"@[1] == 'o',
        "lawDoc"@.len() == 6 && "lawDoc"@[0] == 'l' && "lawDoc"@[2] == 'w',
        "document"@.len() == 8 && "document"@[0] == 'd' && "document"@[1] == 'o' && "document"@[3] == 'u',
        "meta"@.len() == 4 && "meta"@[0] == 'm' && "meta"@[1] == 'e',
        "property"@.len() == 8 && "property"@[0] == 'p' && "property"@[2] == 'o',
        "set"@.len() == 3 && "set"@[0] == 's',
        "toc"@.len() == 3 && "toc"@[0] == 't',
        "tocItem"@.len() == 7 && "tocItem"@[0] == 't',
        "main"@.len() == 4 && "main"@[0] == 'm' && "main"@[1] == 'a' && "main"@[2] == 'i',
        "statement"@.len() == 9 && "statement"@[0] == 's' && "statement"@[1] == 't',
        "preamble"@.len() == 8 && "preamble"@[0] == 'p' && "preamble"@[2] == 'e',
        "recital"@.len() == 7 && "recital"@[0] == 'r',
        "enactingFormula"@.len() == 15 && "enactingFormula"@[0] == 'e',
        "level"@.len() == 5 && "level"@[0] == 'l',
        "num"@.len() == 3 && "num"@[0] == 'n',
        "text"@.len() == 4 && "text"@[0] == 't' && "text"@[2] == 'x',
        "heading"@.len() == 7 && "heading"@[0] == 'h',
        "subheading"@.len() == 10 && "subheading"@[0] == 's' && "subheading"@[1] == 'u' && "subheading"@[3] == 'h',
        "crossheading"@.len() == 12 && "crossheading"@[0] == 'c' && "crossheading"@[1] == 'r',
        "instruction"@.len() == 11 && "instruction"@[0] == 'i',
        "action"@.len() == 6 && "action"@[0] == 'a',
        "notes"@.len() == 5 && "notes"@[0] == 'n',
        "note"@.len() == 4 && "note"@[0] == 'n',
        "appendix"@.len() == 8 && "appendix"@[0] == 'a' && "appendix"@[3] == 'e',
        "signatures"@.len() == 10 && "signatures"@[0] == 's' && "signatures"@[1] == 'i',
        "signature"@.len() == 9 && "signature"@[0] == 's' && "signature"@[1] == 'i',
        "ref"@.len() == 3 && "ref"@[0] == 'r' && "ref"@[1] == 'e',
        "date"@.len() == 4 && "date"@[0] == 'd',
        "quotedText"@.len() == 10 && "quotedText"@[0] == 'q',
        "quotedContent"@.len() == 13 && "quotedContent"@[0] == 'q',
        "layout"@.len() == 6 && "layout"@[0] == 'l' && "layout"@[2] == 'y',
        "header"@.len() == 6 && "header"@[0] == 'h',
        "row"@.len() == 3 && "row"@[0] == 'r' && "row"@[1] == 'o',
        "column"@.len() == 6 && "column"@[0] == 'c' && "column"@[1] == 'o',
        "b"@.len() == 1 && "b"@[0] == 'b',
        "i"@.len() == 1 && "i"@[0] == 'i',
        "bill"@.len() == 4 && "bill"@[0] == 'b',
        "statute"@.len() == 7 && "statute"@[0] == 's' && "statute"@[1] == 't',
        "resolution"@.len() == 10 && "resolution"@[0] == 'r',
        "amendment"@.len() == 9 && "amendment"@[0] == 'a',
        "uscDoc"@.len() == 6 && "uscDoc"@[0] == 'u',
        "docNumber"@.len() == 9 && "docNumber"@[0] == 'd',
        "docPublicationName"@.len() == 18 && "docPublicationName"@[0] == 'd',
        "docReleasePoint"@.len() == 15 && "docReleasePoint"@[0] == 'd',
        "docTitle"@.len() == 8 && "docTitle"@[0] == 'd' && "docTitle"@[1] == 'o' && "docTitle"@[3] == 'T',
        "longTitle"@.len() == 9 && "longTitle"@[0] == 'l',
        "shortTitle"@.len() == 10 && "shortTitle"@[0] == 's' && "shortTitle"@[1] == 'h',
        "preliminary"@.len() == 11 && "preliminary"@[0] == 'p' && "preliminary"@[2] == 'e',
        "title"@.len() == 5 && "title"@[0] == 't' && "title"@[1] == 'i',
        "subtitle"@.len() == 8 && "subtitle"@[0] == 's' && "subtitle"@[1] == 'u',
        "chapter"@.len() == 7 && "chapter"@[0] == 'c' && "chapter"@[1] == 'h' && "chapter"@[4] == 't',
        "subchapter"@.len() == 10 && "subchapter"@[0] == 's' && "subchapter"@[1] == 'u' && "subchapter"@[3] == 'c',
        "part"@.len() == 4 && "part"@[0] == 'p',
        "subpart"@.len() == 7 && "subpart"@[0] == 's' && "subpart"@[1] == 'u' && "subpart"@[3] == 'p',
        "division"@.len() == 8 && "division"@[0] == 'd' && "division"@[1] == 'i',
        "subdivision"@.len() == 11 && "subdivision"@[0] == 's',
        "article"@.len() == 7 && "article"@[0] == 'a',
        "subarticle"@.len() == 10 && "subarticle"@[0] == 's' && "subarticle"@[1] == 'u' && "subarticle"@[3] == 'a',
        "section"@.len() == 7 && "section"@[0] == 's' && "section"@[1] == 'e' && "section"@[2] == 'c',
        "subsection"@.len() == 10 && "subsection"@[0] == 's' && "subsection"@[1] == 'u' && "subsection"@[3] == 's' && "subsection"@[4] == 'e',
        "paragraph"@.len() == 9 && "paragraph"@[0] == 'p',
        "subparagraph"@.len() == 12 && "subparagraph"@[0] == 's' && "subparagraph"@[1] == 'u',
        "clause"@.len() == 6 && "clause"@[0] == 'c' && "clause"@[1] == 'l',
        "subclause"@.len() == 9 && "subclause"@[0] == 's' && "subclause"@[1] == 'u',
        "item"@.len() == 4 && "item"@[0] == 'i',
        "subitem"@.len() == 7 && "subitem"@[0] == 's' && "subitem"@[1] == 'u' && "subitem"@[3] == 'i',
        "subsubitem"@.len() == 10 && "subsubitem"@[0] == 's' && "subsubitem"@[1] == 'u' && "subsubitem"@[3] == 's' && "subsubitem"@[4] == 'u',
        "compiledAct"@.len() == 11 && "compiledAct"@[0] == 'c',
        "courtRules"@.len() == 10 && "courtRules"@[0] == 'c' && "courtRules"@[1] == 'o',
        "courtRule"@.len() == 9 && "courtRule"@[0] == 'c' && "courtRule"@[1] == 'o',
        "reorganizationPlans"@.len() == 19,
        "reorganizationPlan"@.len() == 18 && "reorganizationPlan"@[0] == 'r',
        "sourceCredit"@.len() == 12 && "sourceCredit"@[0] == 's' && "sourceCredit"@[1] == 'o',
        "statutoryNote"@.len() == 13 && "statutoryNote"@[0] == 's',
        "editorialNote"@.len() == 13 && "editorialNote"@[0] == 'e',
        "changeNote"@.len() == 10 && "changeNote"@[0] == 'c' && "changeNote"@[1] == 'h',
        "made"@.len() == 4 && "made"@[0] == 'm' && "made"@[1] == 'a' && "made"@[2] == 'd',
        "approved"@.len() == 8 && "approved"@[0] == 'a' && "approved"@[3] == 'r',
        "schedule"@.len() == 8 && "schedule"@[0] == 's' && "schedule"@[1] == 'c',
        "def"@.len() == 3 && "def"@[0] == 'd',
        "term"@.len() == 4 && "term"@[0] == 't' && "term"@[2] == 'r',
        "chapeau"@.len() == 7 && "chapeau"@[0] == 'c' && "chapeau"@[1] == 'h' && "chapeau"@[4] == 'e',
        "continuation"@.len() == 12 && "continuation"@[0] == 'c' && "continuation"@[1] == 'o',
        "proviso"@.len() == 7 && "proviso"@[0] == 'p',
        "citableAs"@.len() == 9 && "citableAs"@[0] == 'c' && "citableAs"@[1] == 'i',
        "docStage"@.len() == 8 && "docStage"@[0] == 'd' && "docStage"@[1] == 'o' && "docStage"@[3] == 'S',
        "currentChamber"@.len() == 14,
        "processedBy"@.len() == 11 && "processedBy"@[0] == 'p' && "processedBy"@[2] == 'o',
        "processedDate"@.len() == 13 && "processedDate"@[0] == 'p' && "processedDate"@[1] == 'r',
        "congress"@.len() == 8 && "congress"@[0] == 'c',
        "session"@.len() == 7 && "session"@[0] == 's' && "session"@[1] == 'e' && "session"@[2] == 's',
        "relatedDocument"@.len() == 15 && "relatedDocument"@[0] == 'r',
        "publicPrivate"@.len() == 13 && "publicPrivate"@[0] == 'p' && "publicPrivate"@[1] == 'u',
        "img"@.len() == 3 && "img"@[0] == 'i',
        "table"@.len() == 5 && "table"@[0] == 't' && "table"@[1] == 'a',
        "th"@.len() == 2 && "th"@[0] == 't' && "th"@[1] == 'h',
        "tr"@.len() == 2 && "tr"@[0] == 't' && "tr"@[1] == 'r',
{
    reveal_strlit("dc");
    reveal_strlit("marker");
    reveal_strlit("inline");
    reveal_strlit("block");
    reveal_strlit("content");
    reveal_strlit("lawDoc");
    reveal_strlit("document");
    reveal_strlit("meta");
    reveal_strlit("property");
    reveal_strlit("set");
    reveal_strlit("toc");
    reveal_strlit("tocItem");
    reveal_strlit("main");
    reveal_strlit("statement");
    reveal_strlit("preamble");
    reveal_strlit("recital");
    reveal_strlit("enactingFormula");
    reveal_strlit("level");
    reveal_strlit("num");
    reveal_strlit("text");
    reveal_strlit("heading");
    reveal_strlit("subheading");
    reveal_strlit("crossheading");
    reveal_strlit("instruction");
    reveal_strlit("action");
    reveal_strlit("notes");
    reveal_strlit("note");
    reveal_strlit("appendix");
    reveal_strlit("signatures");
    reveal_strlit("signature");
    reveal_strlit("ref");
    reveal_strlit("date");
    reveal_strlit("quotedText");
    reveal_strlit("quotedContent");
    reveal_strlit("layout");
    reveal_strlit("header");
    reveal_strlit("row");
    reveal_strlit("column");
    reveal_strlit("b");
    reveal_strlit("i");
    reveal_strlit("bill");
    reveal_strlit("statute");
    reveal_strlit("resolution");
    reveal_strlit("amendment");
    reveal_strlit("uscDoc");
    reveal_strlit("docNumber");
    reveal_strlit("docPublicationName");
    reveal_strlit("docReleasePoint");
    reveal_strlit("docTitle");
    reveal_strlit("longTitle");
    reveal_strlit("shortTitle");
    reveal_strlit("preliminary");
    reveal_strlit("title");
    reveal_strlit("subtitle");
    reveal_strlit("chapter");
    reveal_strlit("subchapter");
    reveal_strlit("part");
    reveal_strlit("subpart");
    reveal_strlit("division");
    reveal_strlit("subdivision");
    reveal_strlit("article");
    reveal_strlit("subarticle");
    reveal_strlit("section");
    reveal_strlit("subsection");
    reveal_strlit("paragraph");
    reveal_strlit("subparagraph");
    reveal_strlit("clause");
    reveal_strlit("subclause");
    reveal_strlit("item");
    reveal_strlit("subitem");
    reveal_strlit("subsubitem");
    reveal_strlit("compiledAct");
    reveal_strlit("courtRules");
    reveal_strlit("courtRule");
    reveal_strlit("reorganizationPlans");
    reveal_strlit("reorganizationPlan");
    reveal_strlit("sourceCredit");
    reveal_strlit("statutoryNote");
    reveal_strlit("editorialNote");
    reveal_strlit("changeNote");
    reveal_strlit("made");
    reveal_strlit("approved");
    reveal_strlit("schedule");
    reveal_strlit("def");
    reveal_strlit("term");
    reveal_strlit("chapeau");
    reveal_strlit("continuation");
    reveal_strlit("proviso");
    reveal_strlit("citableAs");
    reveal_strlit("docStage");
    reveal_strlit("currentChamber");
    reveal_strlit("processedBy");
    reveal_strlit("processedDate");
    reveal_strlit("congress");
    reveal_strlit("session");
    reveal_strlit("relatedDocument");
    reveal_strlit("publicPrivate");
    reveal_strlit("img");
    reveal_strlit("table");
    reveal_strlit("th");
    reveal_strlit("tr");
}

/// What tells the names of the Dublin Core elements apart.
proof fn lemma_dc_literals()
    ensures
        "contributor"@.len() == 11 && "contributor"@[0] == 'c',
        "coverage"@.len() == 8 && "coverage"@[0] == 'c',
        "creator"@.len() == 7 && "creator"@[0] == 'c',
        "date"@.len() == 4 && "date"@[0] == 'd',
        "description"@.len() == 11 && "description"@[0] == 'd',
        "format"@.len() == 6 && "format"@[0] == 'f',
        "identifier"@.len() == 10,
        "language"@.len() == 8 && "language"@[0] == 'l',
        "publisher"@.len() == 9,
        "relation"@.len() == 8 && "relation"@[0] == 'r',
        "rights"@.len() == 6 && "rights"@[0] == 'r',
        "source"@.len() == 6 && "source"@[0] == 's',
        "subject"@.len() == 7 && "subject"@[0] == 's',
        "title"@.len() == 5,
        "type"@.len() == 4 && "type"@[0] == 't',
{
    reveal_strlit("contributor");
    reveal_strlit("coverage");
    reveal_strlit("creator");
    reveal_strlit("date");
    reveal_strlit("description");
    reveal_strlit("format");
    reveal_strlit("identifier");
    reveal_strlit("language");
    reveal_strlit("publisher");
    reveal_strlit("relation");
    reveal_strlit("rights");
    reveal_strlit("source");
    reveal_strlit("subject");
    reveal_strlit("title");
    reveal_strlit("type");
}

/// What tells the names of the attribute keys apart.
proof fn lemma_key_literals()
    ensures
        "version"@.len() == 7 && "version"@[0] == 'v',
        "encoding"@.len() == 8 && "encoding"@[0] == 'e' && "encoding"@[2] == 'c',
        "name"@.len() == 4 && "name"@[0] == 'n' && "name"@[1] == 'a',
        "type"@.len() == 4 && "type"@[0] == 't',
        "style"@.len() == 5 && "style"@[0] == 's',
        "styleType"@.len() == 9 && "styleType"@[0] == 's' && "styleType"@[1] == 't',
        "href"@.len() == 4 && "href"@[0] == 'h',
        "xmlns"@.len() == 5 && "xmlns"@[0] == 'x',
        "xml:base"@.len() == 8 && "xml:base"@[0] == 'x' && "xml:base"@[3] == ':' && "xml:base"@[4] == 'b',
        "xmlns:dc"@.len() == 8 && "xmlns:dc"@[0] == 'x' && "xmlns:dc"@[3] == 'n',
        "xmlns:html"@.len() == 10 && "xmlns:html"@[0] == 'x' && "xmlns:html"@[6] == 'h',
        "xmlns:uslm"@.len() == 10 && "xmlns:uslm"@[0] == 'x' && "xmlns:uslm"@[6] == 'u',
        "xmlns:xsi"@.len() == 9 && "xmlns:xsi"@[0] == 'x',
        "xsi:schemaLocation"@.len() == 18,
        "xml:lang"@.len() == 8 && "xml:lang"@[0] == 'x' && "xml:lang"@[3] == ':' && "xml:lang"@[4] == 'l',
        "id"@.len() == 2,
        "role"@.len() == 4 && "role"@[0] == 'r',
        "value"@.len() == 5 && "value"@[0] == 'v',
        "startValue"@.len() == 10 && "startValue"@[0] == 's',
        "endValue"@.len() == 8 && "endValue"@[0] == 'e' && "endValue"@[2] == 'd',
        "display"@.len() == 7 && "display"@[0] == 'd',
        "class"@.len() == 5 && "class"@[0] == 'c',
        "identifier"@.len() == 10 && "identifier"@[0] == 'i',
        "senateId"@.len() == 8 && "senateId"@[0] == 's',
        "leaders"@.len() == 7 && "leaders"@[0] == 'l',
        "title"@.len() == 5 && "title"@[0] == 't' && "title"@[1] == 'i',
        "status"@.len() == 6,
        "temporalId"@.len() == 10 && "temporalId"@[0] == 't',
        "pos"@.len() == 3 && "pos"@[0] == 'p',
        "posText"@.len() == 7 && "posText"@[0] == 'p' && "posText"@[1] == 'o' && "posText"@[2] == 's',
        "posCount"@.len() == 8 && "posCount"@[0] == 'p',
        "idref"@.len() == 5 && "idref"@[0] == 'i',
        "src"@.len() == 3 && "src"@[0] == 's',
        "note"@.len() == 4 && "note"@[0] == 'n' && "note"@[1] == 'o',
        "alt"@.len() == 3 && "alt"@[0] == 'a',
        "meta"@.len() == 4 && "meta"@[0] == 'm' && "meta"@[1] == 'e',
        "misc"@.len() == 4 && "misc"@[0] == 'm' && "misc"@[1] == 'i',
        "draftingTip"@.len() == 11 && "draftingTip"@[0] == 'd',
        "codificationTip"@.len() == 15,
        "brief"@.len() == 5 && "brief"@[0] == 'b',
        "sortOrder"@.len() == 9 && "sortOrder"@[0] == 's' && "sortOrder"@[1] == 'o',
        "portion"@.len() == 7 && "portion"@[0] == 'p' && "portion"@[1] == 'o' && "portion"@[2] == 'r',
        "occurrence"@.len() == 10 && "occurrence"@[0] == 'o',
        "commencementDate"@.len() == 16,
        "date"@.len() == 4 && "date"@[0] == 'd',
        "beginDate"@.len() == 9 && "beginDate"@[0] == 'b',
        "endDate"@.len() == 7 && "endDate"@[0] == 'e',
        "startPeriod"@.len() == 11 && "startPeriod"@[0] == 's',
        "endPeriod"@.len() == 9 && "endPeriod"@[0] == 'e',
        "partial"@.len() == 7 && "partial"@[0] == 'p' && "partial"@[1] == 'a',
        "colspan"@.len() == 7 && "colspan"@[0] == 'c',
        "rowspan"@.len() == 7 && "rowspan"@[0] == 'r',
        "topic"@.len() == 5 && "topic"@[0] == 't' && "topic"@[1] == 'o',
        "orientation"@.len() == 11 && "orientation"@[0] == 'o',
{
    reveal_strlit("version");
    reveal_strlit("encoding");
    reveal_strlit("name");
    reveal_strlit("type");
    reveal_strlit("style");
    reveal_strlit("styleType");
    reveal_strlit("href");
    reveal_strlit("xmlns");
    reveal_strlit("xml:base");
    reveal_strlit("xmlns:dc");
    reveal_strlit("xmlns:html");
    reveal_strlit("xmlns:uslm");
    reveal_strlit("xmlns:xsi");
    reveal_strlit("xsi:schemaLocation");
    reveal_strlit("xml:lang");
    reveal_strlit("id");
    reveal_strlit("role");
    reveal_strlit("value");
    reveal_strlit("startValue");
    reveal_strlit("endValue");
    reveal_strlit("display");
    reveal_strlit("class");
    reveal_strlit("identifier");
    reveal_strlit("senateId");
    reveal_strlit("leaders");
    reveal_strlit("title");
    reveal_strlit("status");
    reveal_strlit("temporalId");
    reveal_strlit("pos");
    reveal_strlit("posText");
    reveal_strlit("posCount");
    reveal_strlit("idref");
    reveal_strlit("src");
    reveal_strlit("note");
    reveal_strlit("alt");
    reveal_strlit("meta");
    reveal_strlit("misc");
    reveal_strlit("draftingTip");
    reveal_strlit("codificationTip");
    reveal_strlit("brief");
    reveal_strlit("sortOrder");
    reveal_strlit("portion");
    reveal_strlit("occurrence");
    reveal_strlit("commencementDate");
    reveal_strlit("date");
    reveal_strlit("beginDate");
    reveal_strlit("endDate");
    reveal_strlit("startPeriod");
    reveal_strlit("endPeriod");
    reveal_strlit("partial");
    reveal_strlit("colspan");
    reveal_strlit("rowspan");
    reveal_strlit("topic");
    reveal_strlit("orientation");
}

/// The names of the `Primitive` variants are words, no two of them alike, and each
/// resolves to its variant and to nothing else.
proof fn lemma_primitive_names(v: Primitive)
    ensures
        is_word_text(v.spec_name()),
        v.spec_name() != "dc"@,
        TagType::resolve(v.spec_name()) == Some(TagType::Primitive(v)),
{
    lemma_tag_literals();
    reveal_strlit("marker");
    reveal_strlit("inline");
    reveal_strlit("block");
    reveal_strlit("content");
}

/// The names of the `Core` variants are words, no two of them alike, and each
/// resolves to its variant and to nothing else.
proof fn lemma_core_names(v: Core)
    ensures
        is_word_text(v.spec_name()),
        v.spec_name() != "dc"@,
        TagType::resolve(v.spec_name()) == Some(TagType::Core(v)),
{
    lemma_tag_literals();
    reveal_strlit("lawDoc");
    reveal_strlit("document");
    reveal_strlit("meta");
    reveal_strlit("property");
    reveal_strlit("set");
    reveal_strlit("toc");
    reveal_strlit("tocItem");
    reveal_strlit("main");
    reveal_strlit("statement");
    reveal_strlit("preamble");
    reveal_strlit("recital");
    reveal_strlit("enactingFormula");
    reveal_strlit("level");
    reveal_strlit("num");
    reveal_strlit("text");
    reveal_strlit("heading");
    reveal_strlit("subheading");
    reveal_strlit("crossheading");
    reveal_strlit("instruction");
    reveal_strlit("action");
    reveal_strlit("notes");
    reveal_strlit("note");
    reveal_strlit("appendix");
    reveal_strlit("signatures");
    reveal_strlit("signature");
    reveal_strlit("ref");
    reveal_strlit("date");
    reveal_strlit("quotedText");
    reveal_strlit("quotedContent");
}

/// The names of the `Generic` variants are words, no two of them alike, and each
/// resolves to its variant and to nothing else.
proof fn lemma_generic_names(v: Generic)
    ensures
        is_word_text(v.spec_name()),
        v.spec_name() != "dc"@,
        TagType::resolve(v.spec_name()) == Some(TagType::Generic(v)),
{
    lemma_tag_literals();
    reveal_strlit("layout");
    reveal_strlit("header");
    reveal_strlit("row");
    reveal_strlit("column");
    reveal_strlit("b");
    reveal_strlit("i");
}

/// The names of the `Doc` variants are words, no two of them alike, and each
/// resolves to its variant and to nothing else.
proof fn lemma_doc_names(v: Doc)
    ensures
        is_word_text(v.spec_name()),
        v.spec_name() != "dc"@,
        TagType::resolve(v.spec_name()) == Some(TagType::Doc(v)),
{
    lemma_tag_literals();
    reveal_strlit("bill");
    reveal_strlit("statute");
    reveal_strlit("resolution");
    reveal_strlit("amendment");
    reveal_strlit("uscDoc");
}

/// The names of the `Property` variants are words, no two of them alike, and each
/// resolves to its variant and to nothing else.
proof fn lemma_property_names(v: Property)
    ensures
        is_word_text(v.spec_name()),
        v.spec_name() != "dc"@,
        TagType::resolve(v.spec_name()) == Some(TagType::Property(v)),
{
    lemma_tag_literals();
    reveal_strlit("docNumber");
    reveal_strlit("docPublicationName");
    reveal_strlit("docReleasePoint");
}

/// The names of the `Title` variants are words, no two of them alike, and each
/// resolves to its variant and to nothing else.
proof fn lemma_title_names(v: Title)
    ensures
        is_word_text(v.spec_name()),
        v.spec_name() != "dc"@,
        TagType::resolve(v.spec_name()) == Some(TagType::Title(v)),
{
    lemma_tag_literals();
    reveal_strlit("docTitle");
    reveal_strlit("longTitle");
    reveal_strlit("shortTitle");
}

/// The names of the `Level` variants are words, no two of them alike, and each
/// resolves to its variant and to nothing else.
proof fn lemma_level_names(v: Level)
    ensures
        is_word_text(v.spec_name()),
        v.spec_name() != "dc"@,
        TagType::resolve(v.spec_name()) == Some(TagType::Level(v)),
{
    lemma_tag_literals();
    reveal_strlit("preliminary");
    reveal_strlit("title");
    reveal_strlit("subtitle");
    reveal_strlit("chapter");
    reveal_strlit("subchapter");
    reveal_strlit("part");
    reveal_strlit("subpart");
    reveal_strlit("division");
    reveal_strlit("subdivision");
    reveal_strlit("article");
    reveal_strlit("subarticle");
    reveal_strlit("section");
    reveal_strlit("subsection");
    reveal_strlit("paragraph");
    reveal_strlit("subparagraph");
    reveal_strlit("clause");
    reveal_strlit("subclause");
    reveal_strlit("item");
    reveal_strlit("subitem");
    reveal_strlit("subsubitem");
    reveal_strlit("compiledAct");
    reveal_strlit("courtRules");
    reveal_strlit("courtRule");
    reveal_strlit("reorganizationPlans");
    reveal_strlit("reorganizationPlan");
}

/// The names of the `Note` variants are words, no two of them alike, and each
/// resolves to its variant and to nothing else.
proof fn lemma_note_names(v: Note)
    ensures
        is_word_text(v.spec_name()),
        v.spec_name() != "dc"@,
        TagType::resolve(v.spec_name()) == Some(TagType::Note(v)),
{
    lemma_tag_literals();
    reveal_strlit("sourceCredit");
    reveal_strlit("statutoryNote");
    reveal_strlit("editorialNote");
    reveal_strlit("changeNote");
}

/// The names of the `Signature` variants are words, no two of them alike, and each
/// resolves to its variant and to nothing else.
proof fn lemma_signature_names(v: Signature)
    ensures
        is_word_text(v.spec_name()),
        v.spec_name() != "dc"@,
        TagType::resolve(v.spec_name()) == Some(TagType::Signature(v)),
{
    lemma_tag_literals();
    reveal_strlit("made");
    reveal_strlit("approved");
}

/// The names of the `Appendix` variants are words, no two of them alike, and each
/// resolves to its variant and to nothing else.
proof fn lemma_appendix_names(v: Appendix)
    ensures
        is_word_text(v.spec_name()),
        v.spec_name() != "dc"@,
        TagType::resolve(v.spec_name()) == Some(TagType::Appendix(v)),
{
    lemma_tag_literals();
    reveal_strlit("schedule");
}

/// The names of the `Other` variants are words, no two of them alike, and each
/// resolves to its variant and to nothing else.
proof fn lemma_other_names(v: Other)
    ensures
        is_word_text(v.spec_name()),
        v.spec_name() != "dc"@,
        TagType::resolve(v.spec_name()) == Some(TagType::Other(v)),
{
    lemma_tag_literals();
    reveal_strlit("def");
    reveal_strlit("term");
    reveal_strlit("chapeau");
    reveal_strlit("continuation");
    reveal_strlit("proviso");
}

/// The names of the `Meta` variants are words, no two of them alike, and each
/// resolves to its variant and to nothing else.
proof fn lemma_meta_names(v: Meta)
    requires
        !(v is Dc),
        v != Meta::DocPublicationName,
        v != Meta::DocReleasePoint,
    ensures
        is_word_text(v.spec_name()),
        v.spec_name() != "dc"@,
        TagType::resolve(v.spec_name()) == Some(TagType::Meta(v)),
{
    lemma_tag_literals();
    reveal_strlit("citableAs");
    reveal_strlit("docStage");
    reveal_strlit("currentChamber");
    reveal_strlit("processedBy");
    reveal_strlit("processedDate");
    reveal_strlit("congress");
    reveal_strlit("session");
    reveal_strlit("relatedDocument");
    reveal_strlit("publicPrivate");
    reveal_strlit("img");
}

/// The names of the `Table` variants are words, no two of them alike, and each
/// resolves to its variant and to nothing else.
proof fn lemma_table_names(v: Table)
    ensures
        is_word_text(v.spec_name()),
        v.spec_name() != "dc"@,
        TagType::resolve(v.spec_name()) == Some(TagType::Table(v)),
{
    lemma_tag_literals();
    reveal_strlit("table");
    reveal_strlit("th");
    reveal_strlit("tr");
}

/// The names of the Dublin Core elements are words, and each resolves to its
/// element.
proof fn lemma_dc_names(v: Dc)
    ensures
        is_word_text(v.spec_name()),
        Dc::resolve(v.spec_name()) == Some(v),
{
    lemma_dc_literals();
    reveal_strlit("contributor");
    reveal_strlit("coverage");
    reveal_strlit("creator");
    reveal_strlit("date");
    reveal_strlit("description");
    reveal_strlit("format");
    reveal_strlit("identifier");
    reveal_strlit("language");
    reveal_strlit("publisher");
    reveal_strlit("relation");
    reveal_strlit("rights");
    reveal_strlit("source");
    reveal_strlit("subject");
    reveal_strlit("title");
    reveal_strlit("type");
}

/// The name of a tag that can be written resolves to the tag: a simple name
/// in the vocabulary of tags, the second half of a compound name in the
/// vocabulary of Dublin Core elements.
pub proof fn lemma_name_resolves(t: TagType)
    requires
        is_written(t),
    ensures
        match t {
            TagType::Meta(Meta::Dc(d)) => t.spec_name() == "dc:"@ + d.spec_name() && Dc::resolve(
                d.spec_name(),
            ) == Some(d),
            _ => TagType::resolve(t.spec_name()) == Some(t),
        },
{
    match t {
        TagType::Primitive(v) => {
            lemma_primitive_names(v);
        },
        TagType::Core(v) => {
            lemma_core_names(v);
        },
        TagType::Generic(v) => {
            lemma_generic_names(v);
        },
        TagType::Doc(v) => {
            lemma_doc_names(v);
        },
        TagType::Property(v) => {
            lemma_property_names(v);
        },
        TagType::Title(v) => {
            lemma_title_names(v);
        },
        TagType::Level(v) => {
            lemma_level_names(v);
        },
        TagType::Note(v) => {
            lemma_note_names(v);
        },
        TagType::Signature(v) => {
            lemma_signature_names(v);
        },
        TagType::Appendix(v) => {
            lemma_appendix_names(v);
        },
        TagType::Other(v) => {
            lemma_other_names(v);
        },
        TagType::Meta(v) => match v {
            Meta::Dc(d) => {
                lemma_dc_names(d);
            },
            _ => {
                lemma_meta_names(v);
            },
        },
        TagType::Table(v) => {
            lemma_table_names(v);
        },
    }
}

/// A name that resolves is the name of the tag that it resolves to, and that
/// tag can be written.
pub proof fn lemma_resolved_name(s: Seq<char>)
    ensures
        TagType::resolve(s) matches Some(t) ==> t.spec_name() == s && is_written(t),
        Dc::resolve(s) matches Some(d) ==> d.spec_name() == s,
{
}

/// Resolving is a function of the name alone: the same name gives the same
/// tag, whenever and wherever it is resolved; and resolving the name of what
/// was resolved gives it again.
pub proof fn lemma_resolve_is_idempotent(s: Seq<char>)
    ensures
        TagType::resolve(s) matches Some(t) ==> TagType::resolve(t.spec_name()) == Some(t),
{
    lemma_resolved_name(s);
}

/// The bytes `64 63 3A` in front of the bytes of a word are the bytes of
/// `dc:` and the word.
proof fn lemma_compound_bytes(local: Seq<char>)
    requires
        is_word_text(local),
    ensures
        is_compound(encode_utf8("dc:"@ + local)),
        encode_utf8("dc:"@ + local).subrange(3, encode_utf8("dc:"@ + local).len() as int)
            == encode_utf8(local),
{
    reveal_strlit("dc:");
    let whole = "dc:"@ + local;
    assert(is_ascii_chars(local));
    assert(is_ascii_chars(whole)) by {
        assert forall|i: int| 0 <= i < whole.len() implies '\0' <= #[trigger] whole[i]
            <= '\u{7f}' by {
            if i >= 3 {
                assert(whole[i] == local[i - 3]);
                assert(is_alnum_char(local[i - 3]));
            }
        }
    }
    is_ascii_chars_encode_utf8(local);
    is_ascii_chars_encode_utf8(whole);
    let b = encode_utf8(whole);
    assert(b[0] == whole[0] as u8 && b[1] == whole[1] as u8 && b[2] == whole[2] as u8);
    assert(b.subrange(3, b.len() as int) =~= encode_utf8(local)) by {
        assert forall|i: int| 0 <= i < local.len() implies b[3 + i] == encode_utf8(local)[i] by {
            assert(whole[3 + i] == local[i]);
        }
    }
}

/// The name of every tag that can be written, as bytes, is how the tree
/// builder expects the tag to be written.
pub proof fn lemma_name_spells(t: TagType)
    requires
        is_written(t),
    ensures
        spells(encode_utf8(t.spec_name()), t),
{
    match t {
        TagType::Primitive(v) => {
            lemma_primitive_names(v);
            lemma_simple_spells(t);
        },
        TagType::Core(v) => {
            lemma_core_names(v);
            lemma_simple_spells(t);
        },
        TagType::Generic(v) => {
            lemma_generic_names(v);
            lemma_simple_spells(t);
        },
        TagType::Doc(v) => {
            lemma_doc_names(v);
            lemma_simple_spells(t);
        },
        TagType::Property(v) => {
            lemma_property_names(v);
            lemma_simple_spells(t);
        },
        TagType::Title(v) => {
            lemma_title_names(v);
            lemma_simple_spells(t);
        },
        TagType::Level(v) => {
            lemma_level_names(v);
            lemma_simple_spells(t);
        },
        TagType::Note(v) => {
            lemma_note_names(v);
            lemma_simple_spells(t);
        },
        TagType::Signature(v) => {
            lemma_signature_names(v);
            lemma_simple_spells(t);
        },
        TagType::Appendix(v) => {
            lemma_appendix_names(v);
            lemma_simple_spells(t);
        },
        TagType::Other(v) => {
            lemma_other_names(v);
            lemma_simple_spells(t);
        },
        TagType::Meta(v) => match v {
            Meta::Dc(d) => {
                lemma_dc_names(d);
                lemma_word_bytes(d.spec_name());
                lemma_compound_bytes(d.spec_name());
            },
            _ => {
                lemma_meta_names(v);
                lemma_simple_spells(t);
            },
        },
        TagType::Table(v) => {
            lemma_table_names(v);
            lemma_simple_spells(t);
        },
    }
}

/// A simple name, as bytes, is a word that reads back as the name.
proof fn lemma_simple_spells(t: TagType)
    requires
        is_word_text(t.spec_name()),
        t.spec_name() != "dc"@,
        TagType::resolve(t.spec_name()) == Some(t),
    ensures
        spells(encode_utf8(t.spec_name()), t),
{
    let s = t.spec_name();
    lemma_word_bytes(s);
    let b = encode_utf8(s);
    if is_compound(b) {
        assert(b[2] == s[2] as u8);
        assert(is_alnum_char(s[2]));
    }
}

/// How tag `t` is written, as bytes.
pub open spec fn written(t: TagType) -> Seq<u8> {
    encode_utf8(t.spec_name())
}

/// For every tag of the vocabulary, `<name/>` is read as the bare element of
/// the tag, to the end of the input.
pub proof fn lemma_every_self_closing_tag(t: TagType, depth: nat)
    requires
        is_written(t),
        depth >= 1,
    ensures
        tag_at(self_closing(written(t)), 0, depth) == Ok::<(TagView, int), ParseError>(
            (bare(t), self_closing(written(t)).len() as int),
        ),
{
    lemma_name_spells(t);
    lemma_self_closing_tag(written(t), t, depth);
}

/// For every tag of the vocabulary, `<name></name>` is read as the bare
/// element of the tag, to the end of the input.
pub proof fn lemma_every_empty_element(t: TagType, depth: nat)
    requires
        is_written(t),
        depth >= 1,
    ensures
        tag_at(element(written(t), Seq::empty()), 0, depth) == Ok::<(TagView, int), ParseError>(
            (bare(t), element(written(t), Seq::empty()).len() as int),
        ),
{
    lemma_name_spells(t);
    lemma_empty_element(written(t), t, depth);
}

/// For every two tags of the vocabulary, `<outer><inner/></outer>` is read as
/// the element of the outer tag whose only child is the bare element of the
/// inner tag, and which has no text.
pub proof fn lemma_every_nested_element(t: TagType, child: TagType, depth: nat)
    requires
        is_written(t),
        is_written(child),
        depth >= 2,
    ensures
        tag_at(element(written(t), self_closing(written(child))), 0, depth) == Ok::<
            (TagView, int),
            ParseError,
        >(
            (
                TagView {
                    tag_type: t,
                    attributes: Seq::empty(),
                    content: None,
                    children: seq![bare(child)],
                },
                element(written(t), self_closing(written(child))).len() as int,
            ),
        ),
{
    lemma_name_spells(t);
    lemma_name_spells(child);
    lemma_nested_element(written(t), t, written(child), child, depth);
}

/// For every tag of the vocabulary and every text of one or more characters
/// of the whitelist, `<name>TEXT</name>` is read as the element of the tag
/// with exactly that text and with no children. What looks like a character
/// reference, such as `&quot;`, is made of characters of the whitelist and so
/// is text like any other.
pub proof fn lemma_every_text_element(t: TagType, chars: Seq<char>, depth: nat)
    requires
        is_written(t),
        chars.len() > 0,
        forall|i: int| 0 <= i < chars.len() ==> is_content_char(#[trigger] chars[i]),
        depth >= 1,
    ensures
        tag_at(element(written(t), encode_utf8(chars)), 0, depth) == Ok::<
            (TagView, int),
            ParseError,
        >(
            (
                TagView {
                    tag_type: t,
                    attributes: Seq::empty(),
                    content: Some(chars),
                    children: Seq::empty(),
                },
                element(written(t), encode_utf8(chars)).len() as int,
            ),
        ),
{
    lemma_name_spells(t);
    lemma_whitelist_is_text(chars);
    encode_utf8_decode_utf8(chars);
    assert(encode_utf8(chars).len() > 0) by {
        assert(is_content_char(chars[0]));
        char_is_scalar(chars[0]);
    }
    lemma_text_element(written(t), t, encode_utf8(chars), depth);
}

/// The name of every attribute key resolves to the key.
pub proof fn lemma_key_name_resolves(k: AttributeKey)
    ensures
        AttributeKey::resolve(k.spec_name()) == Some(k),
{
    lemma_key_literals();
}

/// A text that resolves to an attribute key is the name of that key.
pub proof fn lemma_resolved_key(s: Seq<char>)
    ensures
        AttributeKey::resolve(s) matches Some(k) ==> k.spec_name() == s,
{
}

/// The names of the header instructions resolve to them, and a name that
/// resolves is the name of what it resolves to.
pub proof fn lemma_header_names(v: HeaderTagType, s: Seq<char>)
    ensures
        HeaderTagType::resolve(v.spec_name()) == Some(v),
        HeaderTagType::resolve(s) matches Some(x) ==> x.spec_name() == s,
{
    reveal_strlit("xml");
    reveal_strlit("xml-stylesheet");
    assert("xml"@.len() == 3 && "xml-stylesheet"@.len() == 14);
}

} // verus!
