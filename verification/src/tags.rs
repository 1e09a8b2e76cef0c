//! Elements: the closed vocabulary of tag names and the tree builder.
//!
//! The vocabulary maps a tag's name to its typed variant and back. The tree
//! builder reads one element (name, attributes, children, text, closing tag)
//! or a sequence of sibling elements, by recursive descent. Its grammar is
//! the pair of functions [`tag_at`] and [`siblings_at`] over the input's
//! bytes; the readers return exactly what those functions say.

use vstd::prelude::*;
use vstd::string::*;
use vstd::utf8::*;
use crate::attributes::{attribute_views, type_attributes, typed_all, Attribute, AttributeView};
use crate::common::{
    content_from, content_len, cut_pairs, kvs_at, kvs_pieces, lemma_content_cut, lemma_kvs_cuts,
    lemma_run_cut, pair_texts, pair_views, raw_texts, run_from, run_len, token_cuts, Class, Pair,
    Piece, COLON, GT, LT, SLASH, SPACE,
};
use crate::error::{failure, AttributeError, ErrorKind, ParseError};
use crate::text::{cut, lemma_cut_ascii, lemma_str_bytes, rest_of, slice, str_eq, tail, text};

verus! {

/// A tag name: its category and the variant within it.
#[derive(Debug, Clone, Copy, PartialEq, Eq, Structural)]
pub enum TagType {
    Primitive(Primitive),
    Core(Core),
    Generic(Generic),
    Doc(Doc),
    Property(Property),
    Title(Title),
    Level(Level),
    Note(Note),
    Signature(Signature),
    Appendix(Appendix),
    Other(Other),
    Meta(Meta),
    Table(Table),
}

/// The primitive element kinds.
#[derive(Debug, Clone, Copy, PartialEq, Eq, Structural)]
pub enum Primitive {
    Marker,
    Inline,
    Block,
    Content,
}

/// The structural elements.
#[derive(Debug, Clone, Copy, PartialEq, Eq, Structural)]
pub enum Core {
    LawDoc,
    Document,
    Meta,
    Property,
    SetElement,
    Toc,
    TocItem,
    Main,
    Statement,
    Preamble,
    Recital,
    EnactingFormula,
    Level,
    Num,
    Text,
    Heading,
    Subheading,
    Crossheading,
    Instruction,
    Action,
    Notes,
    Note,
    Appendix,
    Signatures,
    Signature,
    Ref,
    Date,
    QuotedText,
    QuotedContent,
}

/// The generic layout elements.
#[derive(Debug, Clone, Copy, PartialEq, Eq, Structural)]
pub enum Generic {
    Layout,
    Header,
    Row,
    Column,
    B,
    I,
}

/// The document roots.
#[derive(Debug, Clone, Copy, PartialEq, Eq, Structural)]
pub enum Doc {
    Bill,
    Statute,
    Resolution,
    Amendment,
    UscDoc,
}

/// The document properties.
#[derive(Debug, Clone, Copy, PartialEq, Eq, Structural)]
pub enum Property {
    DocNumber,
    DocPublicationName,
    DocReleasePoint,
}

/// The document titles.
#[derive(Debug, Clone, Copy, PartialEq, Eq, Structural)]
pub enum Title {
    DocTitle,
    LongTitle,
    ShortTitle,
}

/// The hierarchical levels.
#[derive(Debug, Clone, Copy, PartialEq, Eq, Structural)]
pub enum Level {
    Preliminary,
    Title,
    Subtitle,
    Chapter,
    Subchapter,
    Part,
    Subpart,
    Division,
    Subdivision,
    Article,
    Subarticle,
    Section,
    Subsection,
    Paragraph,
    Subparagraph,
    Clause,
    Subclause,
    Item,
    Subitem,
    Subsubitem,
    CompiledAct,
    CourtRules,
    CourtRule,
    ReorganizationPlans,
    ReorganizationPlan,
}

/// The kinds of note.
#[derive(Debug, Clone, Copy, PartialEq, Eq, Structural)]
pub enum Note {
    SourceCredit,
    StatutoryNote,
    EditorialNote,
    ChangeNote,
}

/// The elements of a signature block.
#[derive(Debug, Clone, Copy, PartialEq, Eq, Structural)]
pub enum Signature {
    Made,
    Approved,
}

/// The kinds of appendix.
#[derive(Debug, Clone, Copy, PartialEq, Eq, Structural)]
pub enum Appendix {
    Schedule,
}

/// Further elements of a level's text.
#[derive(Debug, Clone, Copy, PartialEq, Eq, Structural)]
pub enum Other {
    Def,
    Term,
    Chapeau,
    Continuation,
    Proviso,
}

/// The metadata elements. The Dublin Core elements form a vocabulary of their
/// own, reached by the compound name `dc:` and the element's name. The names
/// `docPublicationName` and `docReleasePoint` stand for document properties,
/// so no name resolves to the two variants here that are called alike.
#[derive(Debug, Clone, Copy, PartialEq, Eq, Structural)]
pub enum Meta {
    Dc(Dc),
    DocStage,
    DocPublicationName,
    DocReleasePoint,
    CitableAs,
    CurrentChamber,
    ProcessedBy,
    ProcessedDate,
    Congress,
    Session,
    RelatedDocument,
    PublicPrivate,
    Img,
}

/// The Dublin Core metadata elements, written `dc:` and the element's name.
#[derive(Debug, Clone, Copy, PartialEq, Eq, Structural)]
pub enum Dc {
    Contributor,
    Coverage,
    Creator,
    Date,
    Description,
    Format,
    Identifier,
    Language,
    Publisher,
    Relation,
    Rights,
    Source,
    Subject,
    Title,
    Type,
}

/// The table elements.
#[derive(Debug, Clone, Copy, PartialEq, Eq, Structural)]
pub enum Table {
    Table,
    Th,
    Tr,
}

/// The compound names of the Dublin Core elements are `dc:` and the
/// element's own name.
proof fn lemma_compound_names()
    ensures
        "dc:contributor"@ == "dc:"@ + "contributor"@,
        "dc:coverage"@ == "dc:"@ + "coverage"@,
        "dc:creator"@ == "dc:"@ + "creator"@,
        "dc:date"@ == "dc:"@ + "date"@,
        "dc:description"@ == "dc:"@ + "description"@,
        "dc:format"@ == "dc:"@ + "format"@,
        "dc:identifier"@ == "dc:"@ + "identifier"@,
        "dc:language"@ == "dc:"@ + "language"@,
        "dc:publisher"@ == "dc:"@ + "publisher"@,
        "dc:relation"@ == "dc:"@ + "relation"@,
        "dc:rights"@ == "dc:"@ + "rights"@,
        "dc:source"@ == "dc:"@ + "source"@,
        "dc:subject"@ == "dc:"@ + "subject"@,
        "dc:title"@ == "dc:"@ + "title"@,
        "dc:type"@ == "dc:"@ + "type"@,
{
    reveal_strlit("dc:");
    reveal_strlit("dc:contributor");
    reveal_strlit("contributor");
    assert("dc:contributor"@ =~= "dc:"@ + "contributor"@);
    reveal_strlit("dc:coverage");
    reveal_strlit("coverage");
    assert("dc:coverage"@ =~= "dc:"@ + "coverage"@);
    reveal_strlit("dc:creator");
    reveal_strlit("creator");
    assert("dc:creator"@ =~= "dc:"@ + "creator"@);
    reveal_strlit("dc:date");
    reveal_strlit("date");
    assert("dc:date"@ =~= "dc:"@ + "date"@);
    reveal_strlit("dc:description");
    reveal_strlit("description");
    assert("dc:description"@ =~= "dc:"@ + "description"@);
    reveal_strlit("dc:format");
    reveal_strlit("format");
    assert("dc:format"@ =~= "dc:"@ + "format"@);
    reveal_strlit("dc:identifier");
    reveal_strlit("identifier");
    assert("dc:identifier"@ =~= "dc:"@ + "identifier"@);
    reveal_strlit("dc:language");
    reveal_strlit("language");
    assert("dc:language"@ =~= "dc:"@ + "language"@);
    reveal_strlit("dc:publisher");
    reveal_strlit("publisher");
    assert("dc:publisher"@ =~= "dc:"@ + "publisher"@);
    reveal_strlit("dc:relation");
    reveal_strlit("relation");
    assert("dc:relation"@ =~= "dc:"@ + "relation"@);
    reveal_strlit("dc:rights");
    reveal_strlit("rights");
    assert("dc:rights"@ =~= "dc:"@ + "rights"@);
    reveal_strlit("dc:source");
    reveal_strlit("source");
    assert("dc:source"@ =~= "dc:"@ + "source"@);
    reveal_strlit("dc:subject");
    reveal_strlit("subject");
    assert("dc:subject"@ =~= "dc:"@ + "subject"@);
    reveal_strlit("dc:title");
    reveal_strlit("title");
    assert("dc:title"@ =~= "dc:"@ + "title"@);
    reveal_strlit("dc:type");
    reveal_strlit("type");
    assert("dc:type"@ =~= "dc:"@ + "type"@);
}

impl Primitive {
    /// The variant that a name stands for, if it stands for one.
    pub open spec fn resolve(s: Seq<char>) -> Option<Primitive> {
        if s == "marker"@ {
            Some(Primitive::Marker)
        } else if s == "inline"@ {
            Some(Primitive::Inline)
        } else if s == "block"@ {
            Some(Primitive::Block)
        } else if s == "content"@ {
            Some(Primitive::Content)
        } else {
            None
        }
    }

    /// The name that stands for this variant.
    pub open spec fn spec_name(self) -> Seq<char> {
        match self {
            Primitive::Marker => "marker"@,
            Primitive::Inline => "inline"@,
            Primitive::Block => "block"@,
            Primitive::Content => "content"@,
        }
    }

    /// Looks a name up. A name outside the vocabulary is an error.
    pub fn from_str(s: &str) -> (r: Result<Primitive, ErrorKind>)
        ensures
            r == match Primitive::resolve(s@) {
                Some(v) => Ok::<Primitive, ErrorKind>(v),
                None => Err(ErrorKind::UnknownTagName),
            },
    {
        if str_eq(s, "marker") {
            Ok(Primitive::Marker)
        } else if str_eq(s, "inline") {
            Ok(Primitive::Inline)
        } else if str_eq(s, "block") {
            Ok(Primitive::Block)
        } else if str_eq(s, "content") {
            Ok(Primitive::Content)
        } else {
            Err(ErrorKind::UnknownTagName)
        }
    }

    /// The name that stands for this variant.
    pub fn name(&self) -> (r: &'static str)
        ensures
            r@ == self.spec_name(),
    {
        match self {
            Primitive::Marker => "marker",
            Primitive::Inline => "inline",
            Primitive::Block => "block",
            Primitive::Content => "content",
        }
    }
}

impl Core {
    /// The variant that a name stands for, if it stands for one.
    pub open spec fn resolve(s: Seq<char>) -> Option<Core> {
        if s == "lawDoc"@ {
            Some(Core::LawDoc)
        } else if s == "document"@ {
            Some(Core::Document)
        } else if s == "meta"@ {
            Some(Core::Meta)
        } else if s == "property"@ {
            Some(Core::Property)
        } else if s == "set"@ {
            Some(Core::SetElement)
        } else if s == "toc"@ {
            Some(Core::Toc)
        } else if s == "tocItem"@ {
            Some(Core::TocItem)
        } else if s == "main"@ {
            Some(Core::Main)
        } else if s == "statement"@ {
            Some(Core::Statement)
        } else if s == "preamble"@ {
            Some(Core::Preamble)
        } else if s == "recital"@ {
            Some(Core::Recital)
        } else if s == "enactingFormula"@ {
            Some(Core::EnactingFormula)
        } else if s == "level"@ {
            Some(Core::Level)
        } else if s == "num"@ {
            Some(Core::Num)
        } else if s == "text"@ {
            Some(Core::Text)
        } else if s == "heading"@ {
            Some(Core::Heading)
        } else if s == "subheading"@ {
            Some(Core::Subheading)
        } else if s == "crossheading"@ {
            Some(Core::Crossheading)
        } else if s == "instruction"@ {
            Some(Core::Instruction)
        } else if s == "action"@ {
            Some(Core::Action)
        } else if s == "notes"@ {
            Some(Core::Notes)
        } else if s == "note"@ {
            Some(Core::Note)
        } else if s == "appendix"@ {
            Some(Core::Appendix)
        } else if s == "signatures"@ {
            Some(Core::Signatures)
        } else if s == "signature"@ {
            Some(Core::Signature)
        } else if s == "ref"@ {
            Some(Core::Ref)
        } else if s == "date"@ {
            Some(Core::Date)
        } else if s == "quotedText"@ {
            Some(Core::QuotedText)
        } else if s == "quotedContent"@ {
            Some(Core::QuotedContent)
        } else {
            None
        }
    }

    /// The name that stands for this variant.
    pub open spec fn spec_name(self) -> Seq<char> {
        match self {
            Core::LawDoc => "lawDoc"@,
            Core::Document => "document"@,
            Core::Meta => "meta"@,
            Core::Property => "property"@,
            Core::SetElement => "set"@,
            Core::Toc => "toc"@,
            Core::TocItem => "tocItem"@,
            Core::Main => "main"@,
            Core::Statement => "statement"@,
            Core::Preamble => "preamble"@,
            Core::Recital => "recital"@,
            Core::EnactingFormula => "enactingFormula"@,
            Core::Level => "level"@,
            Core::Num => "num"@,
            Core::Text => "text"@,
            Core::Heading => "heading"@,
            Core::Subheading => "subheading"@,
            Core::Crossheading => "crossheading"@,
            Core::Instruction => "instruction"@,
            Core::Action => "action"@,
            Core::Notes => "notes"@,
            Core::Note => "note"@,
            Core::Appendix => "appendix"@,
            Core::Signatures => "signatures"@,
            Core::Signature => "signature"@,
            Core::Ref => "ref"@,
            Core::Date => "date"@,
            Core::QuotedText => "quotedText"@,
            Core::QuotedContent => "quotedContent"@,
        }
    }

    /// Looks a name up. A name outside the vocabulary is an error.
    pub fn from_str(s: &str) -> (r: Result<Core, ErrorKind>)
        ensures
            r == match Core::resolve(s@) {
                Some(v) => Ok::<Core, ErrorKind>(v),
                None => Err(ErrorKind::UnknownTagName),
            },
    {
        if str_eq(s, "lawDoc") {
            Ok(Core::LawDoc)
        } else if str_eq(s, "document") {
            Ok(Core::Document)
        } else if str_eq(s, "meta") {
            Ok(Core::Meta)
        } else if str_eq(s, "property") {
            Ok(Core::Property)
        } else if str_eq(s, "set") {
            Ok(Core::SetElement)
        } else if str_eq(s, "toc") {
            Ok(Core::Toc)
        } else if str_eq(s, "tocItem") {
            Ok(Core::TocItem)
        } else if str_eq(s, "main") {
            Ok(Core::Main)
        } else if str_eq(s, "statement") {
            Ok(Core::Statement)
        } else if str_eq(s, "preamble") {
            Ok(Core::Preamble)
        } else if str_eq(s, "recital") {
            Ok(Core::Recital)
        } else if str_eq(s, "enactingFormula") {
            Ok(Core::EnactingFormula)
        } else if str_eq(s, "level") {
            Ok(Core::Level)
        } else if str_eq(s, "num") {
            Ok(Core::Num)
        } else if str_eq(s, "text") {
            Ok(Core::Text)
        } else if str_eq(s, "heading") {
            Ok(Core::Heading)
        } else if str_eq(s, "subheading") {
            Ok(Core::Subheading)
        } else if str_eq(s, "crossheading") {
            Ok(Core::Crossheading)
        } else if str_eq(s, "instruction") {
            Ok(Core::Instruction)
        } else if str_eq(s, "action") {
            Ok(Core::Action)
        } else if str_eq(s, "notes") {
            Ok(Core::Notes)
        } else if str_eq(s, "note") {
            Ok(Core::Note)
        } else if str_eq(s, "appendix") {
            Ok(Core::Appendix)
        } else if str_eq(s, "signatures") {
            Ok(Core::Signatures)
        } else if str_eq(s, "signature") {
            Ok(Core::Signature)
        } else if str_eq(s, "ref") {
            Ok(Core::Ref)
        } else if str_eq(s, "date") {
            Ok(Core::Date)
        } else if str_eq(s, "quotedText") {
            Ok(Core::QuotedText)
        } else if str_eq(s, "quotedContent") {
            Ok(Core::QuotedContent)
        } else {
            Err(ErrorKind::UnknownTagName)
        }
    }

    /// The name that stands for this variant.
    pub fn name(&self) -> (r: &'static str)
        ensures
            r@ == self.spec_name(),
    {
        match self {
            Core::LawDoc => "lawDoc",
            Core::Document => "document",
            Core::Meta => "meta",
            Core::Property => "property",
            Core::SetElement => "set",
            Core::Toc => "toc",
            Core::TocItem => "tocItem",
            Core::Main => "main",
            Core::Statement => "statement",
            Core::Preamble => "preamble",
            Core::Recital => "recital",
            Core::EnactingFormula => "enactingFormula",
            Core::Level => "level",
            Core::Num => "num",
            Core::Text => "text",
            Core::Heading => "heading",
            Core::Subheading => "subheading",
            Core::Crossheading => "crossheading",
            Core::Instruction => "instruction",
            Core::Action => "action",
            Core::Notes => "notes",
            Core::Note => "note",
            Core::Appendix => "appendix",
            Core::Signatures => "signatures",
            Core::Signature => "signature",
            Core::Ref => "ref",
            Core::Date => "date",
            Core::QuotedText => "quotedText",
            Core::QuotedContent => "quotedContent",
        }
    }
}

impl Generic {
    /// The variant that a name stands for, if it stands for one.
    pub open spec fn resolve(s: Seq<char>) -> Option<Generic> {
        if s == "layout"@ {
            Some(Generic::Layout)
        } else if s == "header"@ {
            Some(Generic::Header)
        } else if s == "row"@ {
            Some(Generic::Row)
        } else if s == "column"@ {
            Some(Generic::Column)
        } else if s == "b"@ {
            Some(Generic::B)
        } else if s == "i"@ {
            Some(Generic::I)
        } else {
            None
        }
    }

    /// The name that stands for this variant.
    pub open spec fn spec_name(self) -> Seq<char> {
        match self {
            Generic::Layout => "layout"@,
            Generic::Header => "header"@,
            Generic::Row => "row"@,
            Generic::Column => "column"@,
            Generic::B => "b"@,
            Generic::I => "i"@,
        }
    }

    /// Looks a name up. A name outside the vocabulary is an error.
    pub fn from_str(s: &str) -> (r: Result<Generic, ErrorKind>)
        ensures
            r == match Generic::resolve(s@) {
                Some(v) => Ok::<Generic, ErrorKind>(v),
                None => Err(ErrorKind::UnknownTagName),
            },
    {
        if str_eq(s, "layout") {
            Ok(Generic::Layout)
        } else if str_eq(s, "header") {
            Ok(Generic::Header)
        } else if str_eq(s, "row") {
            Ok(Generic::Row)
        } else if str_eq(s, "column") {
            Ok(Generic::Column)
        } else if str_eq(s, "b") {
            Ok(Generic::B)
        } else if str_eq(s, "i") {
            Ok(Generic::I)
        } else {
            Err(ErrorKind::UnknownTagName)
        }
    }

    /// The name that stands for this variant.
    pub fn name(&self) -> (r: &'static str)
        ensures
            r@ == self.spec_name(),
    {
        match self {
            Generic::Layout => "layout",
            Generic::Header => "header",
            Generic::Row => "row",
            Generic::Column => "column",
            Generic::B => "b",
            Generic::I => "i",
        }
    }
}

impl Doc {
    /// The variant that a name stands for, if it stands for one.
    pub open spec fn resolve(s: Seq<char>) -> Option<Doc> {
        if s == "bill"@ {
            Some(Doc::Bill)
        } else if s == "statute"@ {
            Some(Doc::Statute)
        } else if s == "resolution"@ {
            Some(Doc::Resolution)
        } else if s == "amendment"@ {
            Some(Doc::Amendment)
        } else if s == "uscDoc"@ {
            Some(Doc::UscDoc)
        } else {
            None
        }
    }

    /// The name that stands for this variant.
    pub open spec fn spec_name(self) -> Seq<char> {
        match self {
            Doc::Bill => "bill"@,
            Doc::Statute => "statute"@,
            Doc::Resolution => "resolution"@,
            Doc::Amendment => "amendment"@,
            Doc::UscDoc => "uscDoc"@,
        }
    }

    /// Looks a name up. A name outside the vocabulary is an error.
    pub fn from_str(s: &str) -> (r: Result<Doc, ErrorKind>)
        ensures
            r == match Doc::resolve(s@) {
                Some(v) => Ok::<Doc, ErrorKind>(v),
                None => Err(ErrorKind::UnknownTagName),
            },
    {
        if str_eq(s, "bill") {
            Ok(Doc::Bill)
        } else if str_eq(s, "statute") {
            Ok(Doc::Statute)
        } else if str_eq(s, "resolution") {
            Ok(Doc::Resolution)
        } else if str_eq(s, "amendment") {
            Ok(Doc::Amendment)
        } else if str_eq(s, "uscDoc") {
            Ok(Doc::UscDoc)
        } else {
            Err(ErrorKind::UnknownTagName)
        }
    }

    /// The name that stands for this variant.
    pub fn name(&self) -> (r: &'static str)
        ensures
            r@ == self.spec_name(),
    {
        match self {
            Doc::Bill => "bill",
            Doc::Statute => "statute",
            Doc::Resolution => "resolution",
            Doc::Amendment => "amendment",
            Doc::UscDoc => "uscDoc",
        }
    }
}

impl Property {
    /// The variant that a name stands for, if it stands for one.
    pub open spec fn resolve(s: Seq<char>) -> Option<Property> {
        if s == "docNumber"@ {
            Some(Property::DocNumber)
        } else if s == "docPublicationName"@ {
            Some(Property::DocPublicationName)
        } else if s == "docReleasePoint"@ {
            Some(Property::DocReleasePoint)
        } else {
            None
        }
    }

    /// The name that stands for this variant.
    pub open spec fn spec_name(self) -> Seq<char> {
        match self {
            Property::DocNumber => "docNumber"@,
            Property::DocPublicationName => "docPublicationName"@,
            Property::DocReleasePoint => "docReleasePoint"@,
        }
    }

    /// Looks a name up. A name outside the vocabulary is an error.
    pub fn from_str(s: &str) -> (r: Result<Property, ErrorKind>)
        ensures
            r == match Property::resolve(s@) {
                Some(v) => Ok::<Property, ErrorKind>(v),
                None => Err(ErrorKind::UnknownTagName),
            },
    {
        if str_eq(s, "docNumber") {
            Ok(Property::DocNumber)
        } else if str_eq(s, "docPublicationName") {
            Ok(Property::DocPublicationName)
        } else if str_eq(s, "docReleasePoint") {
            Ok(Property::DocReleasePoint)
        } else {
            Err(ErrorKind::UnknownTagName)
        }
    }

    /// The name that stands for this variant.
    pub fn name(&self) -> (r: &'static str)
        ensures
            r@ == self.spec_name(),
    {
        match self {
            Property::DocNumber => "docNumber",
            Property::DocPublicationName => "docPublicationName",
            Property::DocReleasePoint => "docReleasePoint",
        }
    }
}

impl Title {
    /// The variant that a name stands for, if it stands for one.
    pub open spec fn resolve(s: Seq<char>) -> Option<Title> {
        if s == "docTitle"@ {
            Some(Title::DocTitle)
        } else if s == "longTitle"@ {
            Some(Title::LongTitle)
        } else if s == "shortTitle"@ {
            Some(Title::ShortTitle)
        } else {
            None
        }
    }

    /// The name that stands for this variant.
    pub open spec fn spec_name(self) -> Seq<char> {
        match self {
            Title::DocTitle => "docTitle"@,
            Title::LongTitle => "longTitle"@,
            Title::ShortTitle => "shortTitle"@,
        }
    }

    /// Looks a name up. A name outside the vocabulary is an error.
    pub fn from_str(s: &str) -> (r: Result<Title, ErrorKind>)
        ensures
            r == match Title::resolve(s@) {
                Some(v) => Ok::<Title, ErrorKind>(v),
                None => Err(ErrorKind::UnknownTagName),
            },
    {
        if str_eq(s, "docTitle") {
            Ok(Title::DocTitle)
        } else if str_eq(s, "longTitle") {
            Ok(Title::LongTitle)
        } else if str_eq(s, "shortTitle") {
            Ok(Title::ShortTitle)
        } else {
            Err(ErrorKind::UnknownTagName)
        }
    }

    /// The name that stands for this variant.
    pub fn name(&self) -> (r: &'static str)
        ensures
            r@ == self.spec_name(),
    {
        match self {
            Title::DocTitle => "docTitle",
            Title::LongTitle => "longTitle",
            Title::ShortTitle => "shortTitle",
        }
    }
}

impl Level {
    /// The variant that a name stands for, if it stands for one.
    pub open spec fn resolve(s: Seq<char>) -> Option<Level> {
        if s == "preliminary"@ {
            Some(Level::Preliminary)
        } else if s == "title"@ {
            Some(Level::Title)
        } else if s == "subtitle"@ {
            Some(Level::Subtitle)
        } else if s == "chapter"@ {
            Some(Level::Chapter)
        } else if s == "subchapter"@ {
            Some(Level::Subchapter)
        } else if s == "part"@ {
            Some(Level::Part)
        } else if s == "subpart"@ {
            Some(Level::Subpart)
        } else if s == "division"@ {
            Some(Level::Division)
        } else if s == "subdivision"@ {
            Some(Level::Subdivision)
        } else if s == "article"@ {
            Some(Level::Article)
        } else if s == "subarticle"@ {
            Some(Level::Subarticle)
        } else if s == "section"@ {
            Some(Level::Section)
        } else if s == "subsection"@ {
            Some(Level::Subsection)
        } else if s == "paragraph"@ {
            Some(Level::Paragraph)
        } else if s == "subparagraph"@ {
            Some(Level::Subparagraph)
        } else if s == "clause"@ {
            Some(Level::Clause)
        } else if s == "subclause"@ {
            Some(Level::Subclause)
        } else if s == "item"@ {
            Some(Level::Item)
        } else if s == "subitem"@ {
            Some(Level::Subitem)
        } else if s == "subsubitem"@ {
            Some(Level::Subsubitem)
        } else if s == "compiledAct"@ {
            Some(Level::CompiledAct)
        } else if s == "courtRules"@ {
            Some(Level::CourtRules)
        } else if s == "courtRule"@ {
            Some(Level::CourtRule)
        } else if s == "reorganizationPlans"@ {
            Some(Level::ReorganizationPlans)
        } else if s == "reorganizationPlan"@ {
            Some(Level::ReorganizationPlan)
        } else {
            None
        }
    }

    /// The name that stands for this variant.
    pub open spec fn spec_name(self) -> Seq<char> {
        match self {
            Level::Preliminary => "preliminary"@,
            Level::Title => "title"@,
            Level::Subtitle => "subtitle"@,
            Level::Chapter => "chapter"@,
            Level::Subchapter => "subchapter"@,
            Level::Part => "part"@,
            Level::Subpart => "subpart"@,
            Level::Division => "division"@,
            Level::Subdivision => "subdivision"@,
            Level::Article => "article"@,
            Level::Subarticle => "subarticle"@,
            Level::Section => "section"@,
            Level::Subsection => "subsection"@,
            Level::Paragraph => "paragraph"@,
            Level::Subparagraph => "subparagraph"@,
            Level::Clause => "clause"@,
            Level::Subclause => "subclause"@,
            Level::Item => "item"@,
            Level::Subitem => "subitem"@,
            Level::Subsubitem => "subsubitem"@,
            Level::CompiledAct => "compiledAct"@,
            Level::CourtRules => "courtRules"@,
            Level::CourtRule => "courtRule"@,
            Level::ReorganizationPlans => "reorganizationPlans"@,
            Level::ReorganizationPlan => "reorganizationPlan"@,
        }
    }

    /// Looks a name up. A name outside the vocabulary is an error.
    pub fn from_str(s: &str) -> (r: Result<Level, ErrorKind>)
        ensures
            r == match Level::resolve(s@) {
                Some(v) => Ok::<Level, ErrorKind>(v),
                None => Err(ErrorKind::UnknownTagName),
            },
    {
        if str_eq(s, "preliminary") {
            Ok(Level::Preliminary)
        } else if str_eq(s, "title") {
            Ok(Level::Title)
        } else if str_eq(s, "subtitle") {
            Ok(Level::Subtitle)
        } else if str_eq(s, "chapter") {
            Ok(Level::Chapter)
        } else if str_eq(s, "subchapter") {
            Ok(Level::Subchapter)
        } else if str_eq(s, "part") {
            Ok(Level::Part)
        } else if str_eq(s, "subpart") {
            Ok(Level::Subpart)
        } else if str_eq(s, "division") {
            Ok(Level::Division)
        } else if str_eq(s, "subdivision") {
            Ok(Level::Subdivision)
        } else if str_eq(s, "article") {
            Ok(Level::Article)
        } else if str_eq(s, "subarticle") {
            Ok(Level::Subarticle)
        } else if str_eq(s, "section") {
            Ok(Level::Section)
        } else if str_eq(s, "subsection") {
            Ok(Level::Subsection)
        } else if str_eq(s, "paragraph") {
            Ok(Level::Paragraph)
        } else if str_eq(s, "subparagraph") {
            Ok(Level::Subparagraph)
        } else if str_eq(s, "clause") {
            Ok(Level::Clause)
        } else if str_eq(s, "subclause") {
            Ok(Level::Subclause)
        } else if str_eq(s, "item") {
            Ok(Level::Item)
        } else if str_eq(s, "subitem") {
            Ok(Level::Subitem)
        } else if str_eq(s, "subsubitem") {
            Ok(Level::Subsubitem)
        } else if str_eq(s, "compiledAct") {
            Ok(Level::CompiledAct)
        } else if str_eq(s, "courtRules") {
            Ok(Level::CourtRules)
        } else if str_eq(s, "courtRule") {
            Ok(Level::CourtRule)
        } else if str_eq(s, "reorganizationPlans") {
            Ok(Level::ReorganizationPlans)
        } else if str_eq(s, "reorganizationPlan") {
            Ok(Level::ReorganizationPlan)
        } else {
            Err(ErrorKind::UnknownTagName)
        }
    }

    /// The name that stands for this variant.
    pub fn name(&self) -> (r: &'static str)
        ensures
            r@ == self.spec_name(),
    {
        match self {
            Level::Preliminary => "preliminary",
            Level::Title => "title",
            Level::Subtitle => "subtitle",
            Level::Chapter => "chapter",
            Level::Subchapter => "subchapter",
            Level::Part => "part",
            Level::Subpart => "subpart",
            Level::Division => "division",
            Level::Subdivision => "subdivision",
            Level::Article => "article",
            Level::Subarticle => "subarticle",
            Level::Section => "section",
            Level::Subsection => "subsection",
            Level::Paragraph => "paragraph",
            Level::Subparagraph => "subparagraph",
            Level::Clause => "clause",
            Level::Subclause => "subclause",
            Level::Item => "item",
            Level::Subitem => "subitem",
            Level::Subsubitem => "subsubitem",
            Level::CompiledAct => "compiledAct",
            Level::CourtRules => "courtRules",
            Level::CourtRule => "courtRule",
            Level::ReorganizationPlans => "reorganizationPlans",
            Level::ReorganizationPlan => "reorganizationPlan",
        }
    }
}

impl Note {
    /// The variant that a name stands for, if it stands for one.
    pub open spec fn resolve(s: Seq<char>) -> Option<Note> {
        if s == "sourceCredit"@ {
            Some(Note::SourceCredit)
        } else if s == "statutoryNote"@ {
            Some(Note::StatutoryNote)
        } else if s == "editorialNote"@ {
            Some(Note::EditorialNote)
        } else if s == "changeNote"@ {
            Some(Note::ChangeNote)
        } else {
            None
        }
    }

    /// The name that stands for this variant.
    pub open spec fn spec_name(self) -> Seq<char> {
        match self {
            Note::SourceCredit => "sourceCredit"@,
            Note::StatutoryNote => "statutoryNote"@,
            Note::EditorialNote => "editorialNote"@,
            Note::ChangeNote => "changeNote"@,
        }
    }

    /// Looks a name up. A name outside the vocabulary is an error.
    pub fn from_str(s: &str) -> (r: Result<Note, ErrorKind>)
        ensures
            r == match Note::resolve(s@) {
                Some(v) => Ok::<Note, ErrorKind>(v),
                None => Err(ErrorKind::UnknownTagName),
            },
    {
        if str_eq(s, "sourceCredit") {
            Ok(Note::SourceCredit)
        } else if str_eq(s, "statutoryNote") {
            Ok(Note::StatutoryNote)
        } else if str_eq(s, "editorialNote") {
            Ok(Note::EditorialNote)
        } else if str_eq(s, "changeNote") {
            Ok(Note::ChangeNote)
        } else {
            Err(ErrorKind::UnknownTagName)
        }
    }

    /// The name that stands for this variant.
    pub fn name(&self) -> (r: &'static str)
        ensures
            r@ == self.spec_name(),
    {
        match self {
            Note::SourceCredit => "sourceCredit",
            Note::StatutoryNote => "statutoryNote",
            Note::EditorialNote => "editorialNote",
            Note::ChangeNote => "changeNote",
        }
    }
}

impl Signature {
    /// The variant that a name stands for, if it stands for one.
    pub open spec fn resolve(s: Seq<char>) -> Option<Signature> {
        if s == "made"@ {
            Some(Signature::Made)
        } else if s == "approved"@ {
            Some(Signature::Approved)
        } else {
            None
        }
    }

    /// The name that stands for this variant.
    pub open spec fn spec_name(self) -> Seq<char> {
        match self {
            Signature::Made => "made"@,
            Signature::Approved => "approved"@,
        }
    }

    /// Looks a name up. A name outside the vocabulary is an error.
    pub fn from_str(s: &str) -> (r: Result<Signature, ErrorKind>)
        ensures
            r == match Signature::resolve(s@) {
                Some(v) => Ok::<Signature, ErrorKind>(v),
                None => Err(ErrorKind::UnknownTagName),
            },
    {
        if str_eq(s, "made") {
            Ok(Signature::Made)
        } else if str_eq(s, "approved") {
            Ok(Signature::Approved)
        } else {
            Err(ErrorKind::UnknownTagName)
        }
    }

    /// The name that stands for this variant.
    pub fn name(&self) -> (r: &'static str)
        ensures
            r@ == self.spec_name(),
    {
        match self {
            Signature::Made => "made",
            Signature::Approved => "approved",
        }
    }
}

impl Appendix {
    /// The variant that a name stands for, if it stands for one.
    pub open spec fn resolve(s: Seq<char>) -> Option<Appendix> {
        if s == "schedule"@ {
            Some(Appendix::Schedule)
        } else {
            None
        }
    }

    /// The name that stands for this variant.
    pub open spec fn spec_name(self) -> Seq<char> {
        match self {
            Appendix::Schedule => "schedule"@,
        }
    }

    /// Looks a name up. A name outside the vocabulary is an error.
    pub fn from_str(s: &str) -> (r: Result<Appendix, ErrorKind>)
        ensures
            r == match Appendix::resolve(s@) {
                Some(v) => Ok::<Appendix, ErrorKind>(v),
                None => Err(ErrorKind::UnknownTagName),
            },
    {
        if str_eq(s, "schedule") {
            Ok(Appendix::Schedule)
        } else {
            Err(ErrorKind::UnknownTagName)
        }
    }

    /// The name that stands for this variant.
    pub fn name(&self) -> (r: &'static str)
        ensures
            r@ == self.spec_name(),
    {
        match self {
            Appendix::Schedule => "schedule",
        }
    }
}

impl Other {
    /// The variant that a name stands for, if it stands for one.
    pub open spec fn resolve(s: Seq<char>) -> Option<Other> {
        if s == "def"@ {
            Some(Other::Def)
        } else if s == "term"@ {
            Some(Other::Term)
        } else if s == "chapeau"@ {
            Some(Other::Chapeau)
        } else if s == "continuation"@ {
            Some(Other::Continuation)
        } else if s == "proviso"@ {
            Some(Other::Proviso)
        } else {
            None
        }
    }

    /// The name that stands for this variant.
    pub open spec fn spec_name(self) -> Seq<char> {
        match self {
            Other::Def => "def"@,
            Other::Term => "term"@,
            Other::Chapeau => "chapeau"@,
            Other::Continuation => "continuation"@,
            Other::Proviso => "proviso"@,
        }
    }

    /// Looks a name up. A name outside the vocabulary is an error.
    pub fn from_str(s: &str) -> (r: Result<Other, ErrorKind>)
        ensures
            r == match Other::resolve(s@) {
                Some(v) => Ok::<Other, ErrorKind>(v),
                None => Err(ErrorKind::UnknownTagName),
            },
    {
        if str_eq(s, "def") {
            Ok(Other::Def)
        } else if str_eq(s, "term") {
            Ok(Other::Term)
        } else if str_eq(s, "chapeau") {
            Ok(Other::Chapeau)
        } else if str_eq(s, "continuation") {
            Ok(Other::Continuation)
        } else if str_eq(s, "proviso") {
            Ok(Other::Proviso)
        } else {
            Err(ErrorKind::UnknownTagName)
        }
    }

    /// The name that stands for this variant.
    pub fn name(&self) -> (r: &'static str)
        ensures
            r@ == self.spec_name(),
    {
        match self {
            Other::Def => "def",
            Other::Term => "term",
            Other::Chapeau => "chapeau",
            Other::Continuation => "continuation",
            Other::Proviso => "proviso",
        }
    }
}

impl Meta {
    /// The variant that a name stands for, if it stands for one.
    pub open spec fn resolve(s: Seq<char>) -> Option<Meta> {
        if s == "citableAs"@ {
            Some(Meta::CitableAs)
        } else if s == "docStage"@ {
            Some(Meta::DocStage)
        } else if s == "currentChamber"@ {
            Some(Meta::CurrentChamber)
        } else if s == "processedBy"@ {
            Some(Meta::ProcessedBy)
        } else if s == "processedDate"@ {
            Some(Meta::ProcessedDate)
        } else if s == "congress"@ {
            Some(Meta::Congress)
        } else if s == "session"@ {
            Some(Meta::Session)
        } else if s == "relatedDocument"@ {
            Some(Meta::RelatedDocument)
        } else if s == "publicPrivate"@ {
            Some(Meta::PublicPrivate)
        } else if s == "img"@ {
            Some(Meta::Img)
        } else {
            None
        }
    }

    /// The name that stands for this variant.
    pub open spec fn spec_name(self) -> Seq<char> {
        match self {
            Meta::Dc(d) => "dc:"@ + d.spec_name(),
            Meta::DocPublicationName => "docPublicationName"@,
            Meta::DocReleasePoint => "docReleasePoint"@,
            Meta::CitableAs => "citableAs"@,
            Meta::DocStage => "docStage"@,
            Meta::CurrentChamber => "currentChamber"@,
            Meta::ProcessedBy => "processedBy"@,
            Meta::ProcessedDate => "processedDate"@,
            Meta::Congress => "congress"@,
            Meta::Session => "session"@,
            Meta::RelatedDocument => "relatedDocument"@,
            Meta::PublicPrivate => "publicPrivate"@,
            Meta::Img => "img"@,
        }
    }

    /// Looks a name up. A name outside the vocabulary is an error.
    pub fn from_str(s: &str) -> (r: Result<Meta, ErrorKind>)
        ensures
            r == match Meta::resolve(s@) {
                Some(v) => Ok::<Meta, ErrorKind>(v),
                None => Err(ErrorKind::UnknownTagName),
            },
    {
        if str_eq(s, "citableAs") {
            Ok(Meta::CitableAs)
        } else if str_eq(s, "docStage") {
            Ok(Meta::DocStage)
        } else if str_eq(s, "currentChamber") {
            Ok(Meta::CurrentChamber)
        } else if str_eq(s, "processedBy") {
            Ok(Meta::ProcessedBy)
        } else if str_eq(s, "processedDate") {
            Ok(Meta::ProcessedDate)
        } else if str_eq(s, "congress") {
            Ok(Meta::Congress)
        } else if str_eq(s, "session") {
            Ok(Meta::Session)
        } else if str_eq(s, "relatedDocument") {
            Ok(Meta::RelatedDocument)
        } else if str_eq(s, "publicPrivate") {
            Ok(Meta::PublicPrivate)
        } else if str_eq(s, "img") {
            Ok(Meta::Img)
        } else {
            Err(ErrorKind::UnknownTagName)
        }
    }

    /// The name that stands for this variant.
    pub fn name(&self) -> (r: &'static str)
        ensures
            r@ == self.spec_name(),
    {
        proof {
            lemma_compound_names();
        }
        match self {
            Meta::Dc(d) => match d {
                Dc::Contributor => "dc:contributor",
                Dc::Coverage => "dc:coverage",
                Dc::Creator => "dc:creator",
                Dc::Date => "dc:date",
                Dc::Description => "dc:description",
                Dc::Format => "dc:format",
                Dc::Identifier => "dc:identifier",
                Dc::Language => "dc:language",
                Dc::Publisher => "dc:publisher",
                Dc::Relation => "dc:relation",
                Dc::Rights => "dc:rights",
                Dc::Source => "dc:source",
                Dc::Subject => "dc:subject",
                Dc::Title => "dc:title",
                Dc::Type => "dc:type",
            },
            Meta::DocPublicationName => "docPublicationName",
            Meta::DocReleasePoint => "docReleasePoint",
            Meta::CitableAs => "citableAs",
            Meta::DocStage => "docStage",
            Meta::CurrentChamber => "currentChamber",
            Meta::ProcessedBy => "processedBy",
            Meta::ProcessedDate => "processedDate",
            Meta::Congress => "congress",
            Meta::Session => "session",
            Meta::RelatedDocument => "relatedDocument",
            Meta::PublicPrivate => "publicPrivate",
            Meta::Img => "img",
        }
    }
}

impl Dc {
    /// The variant that a name stands for, if it stands for one.
    pub open spec fn resolve(s: Seq<char>) -> Option<Dc> {
        if s == "contributor"@ {
            Some(Dc::Contributor)
        } else if s == "coverage"@ {
            Some(Dc::Coverage)
        } else if s == "creator"@ {
            Some(Dc::Creator)
        } else if s == "date"@ {
            Some(Dc::Date)
        } else if s == "description"@ {
            Some(Dc::Description)
        } else if s == "format"@ {
            Some(Dc::Format)
        } else if s == "identifier"@ {
            Some(Dc::Identifier)
        } else if s == "language"@ {
            Some(Dc::Language)
        } else if s == "publisher"@ {
            Some(Dc::Publisher)
        } else if s == "relation"@ {
            Some(Dc::Relation)
        } else if s == "rights"@ {
            Some(Dc::Rights)
        } else if s == "source"@ {
            Some(Dc::Source)
        } else if s == "subject"@ {
            Some(Dc::Subject)
        } else if s == "title"@ {
            Some(Dc::Title)
        } else if s == "type"@ {
            Some(Dc::Type)
        } else {
            None
        }
    }

    /// The name that stands for this variant.
    pub open spec fn spec_name(self) -> Seq<char> {
        match self {
            Dc::Contributor => "contributor"@,
            Dc::Coverage => "coverage"@,
            Dc::Creator => "creator"@,
            Dc::Date => "date"@,
            Dc::Description => "description"@,
            Dc::Format => "format"@,
            Dc::Identifier => "identifier"@,
            Dc::Language => "language"@,
            Dc::Publisher => "publisher"@,
            Dc::Relation => "relation"@,
            Dc::Rights => "rights"@,
            Dc::Source => "source"@,
            Dc::Subject => "subject"@,
            Dc::Title => "title"@,
            Dc::Type => "type"@,
        }
    }

    /// Looks a name up. A name outside the vocabulary is an error.
    pub fn from_str(s: &str) -> (r: Result<Dc, ErrorKind>)
        ensures
            r == match Dc::resolve(s@) {
                Some(v) => Ok::<Dc, ErrorKind>(v),
                None => Err(ErrorKind::UnknownTagName),
            },
    {
        if str_eq(s, "contributor") {
            Ok(Dc::Contributor)
        } else if str_eq(s, "coverage") {
            Ok(Dc::Coverage)
        } else if str_eq(s, "creator") {
            Ok(Dc::Creator)
        } else if str_eq(s, "date") {
            Ok(Dc::Date)
        } else if str_eq(s, "description") {
            Ok(Dc::Description)
        } else if str_eq(s, "format") {
            Ok(Dc::Format)
        } else if str_eq(s, "identifier") {
            Ok(Dc::Identifier)
        } else if str_eq(s, "language") {
            Ok(Dc::Language)
        } else if str_eq(s, "publisher") {
            Ok(Dc::Publisher)
        } else if str_eq(s, "relation") {
            Ok(Dc::Relation)
        } else if str_eq(s, "rights") {
            Ok(Dc::Rights)
        } else if str_eq(s, "source") {
            Ok(Dc::Source)
        } else if str_eq(s, "subject") {
            Ok(Dc::Subject)
        } else if str_eq(s, "title") {
            Ok(Dc::Title)
        } else if str_eq(s, "type") {
            Ok(Dc::Type)
        } else {
            Err(ErrorKind::UnknownTagName)
        }
    }

    /// The name that stands for this variant.
    pub fn name(&self) -> (r: &'static str)
        ensures
            r@ == self.spec_name(),
    {
        match self {
            Dc::Contributor => "contributor",
            Dc::Coverage => "coverage",
            Dc::Creator => "creator",
            Dc::Date => "date",
            Dc::Description => "description",
            Dc::Format => "format",
            Dc::Identifier => "identifier",
            Dc::Language => "language",
            Dc::Publisher => "publisher",
            Dc::Relation => "relation",
            Dc::Rights => "rights",
            Dc::Source => "source",
            Dc::Subject => "subject",
            Dc::Title => "title",
            Dc::Type => "type",
        }
    }
}

impl Table {
    /// The variant that a name stands for, if it stands for one.
    pub open spec fn resolve(s: Seq<char>) -> Option<Table> {
        if s == "table"@ {
            Some(Table::Table)
        } else if s == "th"@ {
            Some(Table::Th)
        } else if s == "tr"@ {
            Some(Table::Tr)
        } else {
            None
        }
    }

    /// The name that stands for this variant.
    pub open spec fn spec_name(self) -> Seq<char> {
        match self {
            Table::Table => "table"@,
            Table::Th => "th"@,
            Table::Tr => "tr"@,
        }
    }

    /// Looks a name up. A name outside the vocabulary is an error.
    pub fn from_str(s: &str) -> (r: Result<Table, ErrorKind>)
        ensures
            r == match Table::resolve(s@) {
                Some(v) => Ok::<Table, ErrorKind>(v),
                None => Err(ErrorKind::UnknownTagName),
            },
    {
        if str_eq(s, "table") {
            Ok(Table::Table)
        } else if str_eq(s, "th") {
            Ok(Table::Th)
        } else if str_eq(s, "tr") {
            Ok(Table::Tr)
        } else {
            Err(ErrorKind::UnknownTagName)
        }
    }

    /// The name that stands for this variant.
    pub fn name(&self) -> (r: &'static str)
        ensures
            r@ == self.spec_name(),
    {
        match self {
            Table::Table => "table",
            Table::Th => "th",
            Table::Tr => "tr",
        }
    }
}

impl TagType {
    /// The tag that a simple name stands for, if it stands for one. The
    /// categories are tried in turn; no name belongs to two of them. The
    /// compound names of the Dublin Core elements are not simple names: see
    /// [`name_at`].
    pub open spec fn resolve(s: Seq<char>) -> Option<TagType> {
        if let Some(v) = Primitive::resolve(s) {
            Some(TagType::Primitive(v))
        } else if let Some(v) = Core::resolve(s) {
            Some(TagType::Core(v))
        } else if let Some(v) = Generic::resolve(s) {
            Some(TagType::Generic(v))
        } else if let Some(v) = Doc::resolve(s) {
            Some(TagType::Doc(v))
        } else if let Some(v) = Property::resolve(s) {
            Some(TagType::Property(v))
        } else if let Some(v) = Title::resolve(s) {
            Some(TagType::Title(v))
        } else if let Some(v) = Level::resolve(s) {
            Some(TagType::Level(v))
        } else if let Some(v) = Note::resolve(s) {
            Some(TagType::Note(v))
        } else if let Some(v) = Signature::resolve(s) {
            Some(TagType::Signature(v))
        } else if let Some(v) = Appendix::resolve(s) {
            Some(TagType::Appendix(v))
        } else if let Some(v) = Other::resolve(s) {
            Some(TagType::Other(v))
        } else if let Some(v) = Meta::resolve(s) {
            Some(TagType::Meta(v))
        } else if let Some(v) = Table::resolve(s) {
            Some(TagType::Table(v))
        } else {
            None
        }
    }

    /// The name that stands for this tag.
    pub open spec fn spec_name(self) -> Seq<char> {
        match self {
            TagType::Primitive(v) => v.spec_name(),
            TagType::Core(v) => v.spec_name(),
            TagType::Generic(v) => v.spec_name(),
            TagType::Doc(v) => v.spec_name(),
            TagType::Property(v) => v.spec_name(),
            TagType::Title(v) => v.spec_name(),
            TagType::Level(v) => v.spec_name(),
            TagType::Note(v) => v.spec_name(),
            TagType::Signature(v) => v.spec_name(),
            TagType::Appendix(v) => v.spec_name(),
            TagType::Other(v) => v.spec_name(),
            TagType::Meta(v) => v.spec_name(),
            TagType::Table(v) => v.spec_name(),
        }
    }

    /// Looks a simple name up. A name outside the vocabulary is an error.
    pub fn from_str(s: &str) -> (r: Result<TagType, ErrorKind>)
        ensures
            r == match TagType::resolve(s@) {
                Some(v) => Ok::<TagType, ErrorKind>(v),
                None => Err(ErrorKind::UnknownTagName),
            },
    {
        if let Ok(v) = Primitive::from_str(s) {
            return Ok(TagType::Primitive(v));
        }
        if let Ok(v) = Core::from_str(s) {
            return Ok(TagType::Core(v));
        }
        if let Ok(v) = Generic::from_str(s) {
            return Ok(TagType::Generic(v));
        }
        if let Ok(v) = Doc::from_str(s) {
            return Ok(TagType::Doc(v));
        }
        if let Ok(v) = Property::from_str(s) {
            return Ok(TagType::Property(v));
        }
        if let Ok(v) = Title::from_str(s) {
            return Ok(TagType::Title(v));
        }
        if let Ok(v) = Level::from_str(s) {
            return Ok(TagType::Level(v));
        }
        if let Ok(v) = Note::from_str(s) {
            return Ok(TagType::Note(v));
        }
        if let Ok(v) = Signature::from_str(s) {
            return Ok(TagType::Signature(v));
        }
        if let Ok(v) = Appendix::from_str(s) {
            return Ok(TagType::Appendix(v));
        }
        if let Ok(v) = Other::from_str(s) {
            return Ok(TagType::Other(v));
        }
        if let Ok(v) = Meta::from_str(s) {
            return Ok(TagType::Meta(v));
        }
        if let Ok(v) = Table::from_str(s) {
            return Ok(TagType::Table(v));
        }
        Err(ErrorKind::UnknownTagName)
    }

    /// The name that stands for this tag.
    pub fn name(&self) -> (r: &'static str)
        ensures
            r@ == self.spec_name(),
    {
        match self {
            TagType::Primitive(v) => v.name(),
            TagType::Core(v) => v.name(),
            TagType::Generic(v) => v.name(),
            TagType::Doc(v) => v.name(),
            TagType::Property(v) => v.name(),
            TagType::Title(v) => v.name(),
            TagType::Level(v) => v.name(),
            TagType::Note(v) => v.name(),
            TagType::Signature(v) => v.name(),
            TagType::Appendix(v) => v.name(),
            TagType::Other(v) => v.name(),
            TagType::Meta(v) => v.name(),
            TagType::Table(v) => v.name(),
        }
    }
}

/// The deepest nesting of elements that the readers follow. An element
/// nested deeper fails the read, so that hostile input cannot exhaust the
/// call stack.
pub const MAX_DEPTH: usize = 256;

/// One element of the tree: its tag, its attributes in source order, its text
/// if it has any, and its children in source order.
#[derive(Debug, PartialEq, Eq)]
pub struct Tag<'s> {
    pub tag_type: TagType,
    pub attributes: Vec<Attribute<'s>>,
    pub content: Option<&'s str>,
    pub children: Vec<Tag<'s>>,
}

/// An element, as contracts speak of it.
pub struct TagView {
    pub tag_type: TagType,
    pub attributes: Seq<AttributeView>,
    pub content: Option<Seq<char>>,
    pub children: Seq<TagView>,
}

impl<'s> Tag<'s> {
    /// The element as contracts speak of it.
    pub open spec fn model(&self) -> TagView
        decreases self,
    {
        TagView {
            tag_type: self.tag_type,
            attributes: attribute_views(self.attributes@),
            content: match self.content {
                Some(t) => Some(t@),
                None => None,
            },
            children: Seq::new(
                self.children@.len(),
                |i: int|
                    if 0 <= i < self.children@.len() {
                        self.children@[i].model()
                    } else {
                        arbitrary()
                    },
            ),
        }
    }
}

impl<'s> View for Tag<'s> {
    type V = TagView;

    open spec fn view(&self) -> TagView {
        self.model()
    }
}

/// The views of a list of elements, in order.
pub open spec fn tag_views(v: Seq<Tag>) -> Seq<TagView> {
    Seq::new(v.len(), |i: int| v[i]@)
}

/// The children of an element's view are the views of its children.
pub proof fn lemma_children_views(t: Tag)
    ensures
        t@.children == tag_views(t.children@),
{
    assert(t@.children =~= tag_views(t.children@));
}

/// Byte `b` stands at position `p`.
pub open spec fn at(s: Seq<u8>, p: int, b: u8) -> bool {
    0 <= p < s.len() && s[p] == b
}

/// The failure to find a piece of a closing sequence at `p`: the tag is
/// unterminated where the input ends there, and a lexical error otherwise.
pub open spec fn missing(s: Seq<u8>, p: int) -> ParseError {
    failure(
        if p >= s.len() {
            ErrorKind::UnterminatedTag
        } else {
            ErrorKind::LexError
        },
        p,
        0,
    )
}

/// The second half of a compound name at `p`: `:` and a run of letters and
/// digits that names a Dublin Core element.
pub open spec fn dc_at(s: Seq<u8>, p: int) -> Result<(TagType, int), ParseError> {
    if at(s, p, COLON) {
        let n = run_len(s, p + 1, Class::Alnum);
        match Dc::resolve(text(s, p + 1, p + 1 + n)) {
            Some(d) => Ok((TagType::Meta(Meta::Dc(d)), p + 1 + n)),
            None => Err(failure(ErrorKind::UnknownTagName, p + 1, n as int)),
        }
    } else {
        Err(failure(ErrorKind::LexError, p, 0))
    }
}

/// A tag name at `p`: a run of letters and digits, resolved in the
/// vocabulary; where the run is `dc`, the compound name that it starts.
pub open spec fn name_at(s: Seq<u8>, p: int) -> Result<(TagType, int), ParseError> {
    let e = p + run_len(s, p, Class::Alnum);
    if text(s, p, e) == "dc"@ {
        dc_at(s, e)
    } else {
        match TagType::resolve(text(s, p, e)) {
            Some(t) => Ok((t, e)),
            None => Err(failure(ErrorKind::UnknownTagName, p, e - p)),
        }
    }
}

/// The start of an opening tag at `p`: `<` and a tag name.
pub open spec fn opening_at(s: Seq<u8>, p: int) -> Result<(TagType, int), ParseError> {
    if at(s, p, LT) {
        name_at(s, p + 1)
    } else {
        Err(failure(ErrorKind::LexError, p, 0))
    }
}

/// A closing tag at `p`: `</`, a tag name and `>`. A simple name is resolved
/// once the `>` has been found.
pub open spec fn closing_at(s: Seq<u8>, p: int) -> Result<(TagType, int), ParseError> {
    if !at(s, p, LT) {
        Err(missing(s, p))
    } else if !at(s, p + 1, SLASH) {
        Err(missing(s, p + 1))
    } else {
        let e = p + 2 + run_len(s, p + 2, Class::Alnum);
        if text(s, p + 2, e) == "dc"@ {
            if at(s, e, COLON) {
                match dc_at(s, e) {
                    Ok((t, e2)) => if at(s, e2, GT) {
                        Ok((t, e2 + 1))
                    } else {
                        Err(missing(s, e2))
                    },
                    Err(x) => Err(x),
                }
            } else {
                Err(missing(s, e))
            }
        } else if at(s, e, GT) {
            match TagType::resolve(text(s, p + 2, e)) {
                Some(t) => Ok((t, e + 1)),
                None => Err(failure(ErrorKind::UnknownTagName, p + 2, e - (p + 2))),
            }
        } else {
            Err(missing(s, e))
        }
    }
}

/// What follows the name in an opening tag: the raw attribute pairs, whether
/// the tag closes itself, and the position behind the tag.
pub struct Head {
    pub pairs: Seq<Pair>,
    pub closed: bool,
    pub next: int,
}

/// The end of a tag without attributes at `p`: `>`.
pub open spec fn tag_close_at(s: Seq<u8>, p: int) -> Result<Head, ParseError> {
    if at(s, p, GT) {
        Ok(Head { pairs: Seq::empty(), closed: false, next: p + 1 })
    } else {
        Err(failure(ErrorKind::LexError, p, 0))
    }
}

/// The attributes of a tag at `p`: a space, a pair sequence and `>`.
pub open spec fn tag_open_at(s: Seq<u8>, p: int) -> Result<Head, ParseError> {
    if at(s, p, SPACE) {
        let (pairs, e) = kvs_at(s, p + 1);
        if at(s, e, GT) {
            Ok(Head { pairs, closed: false, next: e + 1 })
        } else {
            Err(failure(ErrorKind::LexError, e, 0))
        }
    } else {
        Err(failure(ErrorKind::LexError, p, 0))
    }
}

/// The end of a self-closing tag at `p`: `/>`.
pub open spec fn self_closing_at(s: Seq<u8>, p: int) -> Result<Head, ParseError> {
    if at(s, p, SLASH) {
        if at(s, p + 1, GT) {
            Ok(Head { pairs: Seq::empty(), closed: true, next: p + 2 })
        } else {
            Err(failure(ErrorKind::LexError, p + 1, 0))
        }
    } else {
        Err(failure(ErrorKind::LexError, p, 0))
    }
}

/// The shape of the tag whose name ends at `p`, decided by the character
/// there: `>`, a space or `/`. Anything else is an unexpected shape.
pub open spec fn head_at(s: Seq<u8>, p: int) -> Result<Head, ParseError> {
    if at(s, p, GT) {
        tag_close_at(s, p)
    } else if at(s, p, SPACE) {
        tag_open_at(s, p)
    } else if at(s, p, SLASH) {
        self_closing_at(s, p)
    } else {
        Err(failure(ErrorKind::UnexpectedTagShape, p, 0))
    }
}

/// Where a failed typing lies in the input: at the key of the pair for an
/// unknown key, at its value for a malformed value.
pub open spec fn attribute_failure(pairs: Seq<Pair>, e: AttributeError) -> ParseError {
    let pair = pairs[e.index as int];
    if e.kind == ErrorKind::UnknownAttributeKey {
        failure(e.kind, pair.key.start, pair.key.end - pair.key.start)
    } else {
        failure(e.kind, pair.value.start, pair.value.end - pair.value.start)
    }
}

/// The typed attributes of a tag with the raw pairs `pairs`.
pub open spec fn attributes_at(s: Seq<u8>, pairs: Seq<Pair>) -> Result<
    Seq<AttributeView>,
    ParseError,
> {
    match typed_all(pair_texts(s, pairs)) {
        Ok(v) => Ok(v),
        Err(e) => Err(attribute_failure(pairs, e)),
    }
}

/// The text of an element, if any, and its closing tag, at `p`. The closing
/// tag must name the element that it closes.
pub open spec fn finish_at(
    s: Seq<u8>,
    p: int,
    tag_type: TagType,
    attributes: Seq<AttributeView>,
    children: Seq<TagView>,
) -> Result<(TagView, int), ParseError> {
    let q = p + content_len(s, p);
    let content = if q > p {
        Some(text(s, p, q))
    } else {
        None
    };
    match closing_at(s, q) {
        Ok((closing, e)) => if closing == tag_type {
            Ok((TagView { tag_type, attributes, content, children }, e))
        } else {
            Err(failure(ErrorKind::MismatchedClosingTag, q, e - q))
        },
        Err(x) => Err(x),
    }
}

/// One element at `p`, with `depth` levels of nesting left, and the position
/// behind it. In order: the opening tag's name; its shape and raw attributes;
/// their typing; then, unless the tag closes itself, the children, the text
/// and the closing tag.
pub open spec fn tag_at(s: Seq<u8>, p: int, depth: nat) -> Result<(TagView, int), ParseError>
    decreases depth, 0nat,
{
    if depth == 0 {
        Err(failure(ErrorKind::NestingTooDeep, p, 0))
    } else {
        match opening_at(s, p) {
            Err(x) => Err(x),
            Ok((tag_type, after_name)) => match head_at(s, after_name) {
                Err(x) => Err(x),
                Ok(head) => match attributes_at(s, head.pairs) {
                    Err(x) => Err(x),
                    Ok(attributes) => if head.closed {
                        Ok(
                            (
                                TagView {
                                    tag_type,
                                    attributes,
                                    content: None,
                                    children: Seq::empty(),
                                },
                                head.next,
                            ),
                        )
                    } else {
                        match siblings_at(s, head.next, (depth - 1) as nat) {
                            Err(x) => Err(x),
                            Ok((children, after_children)) => finish_at(s, after_children, tag_type, attributes, children),
                        }
                    },
                },
            },
        }
    }
}

/// Whether an element starts at `p`: a `<` that does not start a closing tag.
pub open spec fn starts_tag(s: Seq<u8>, p: int) -> bool {
    at(s, p, LT) && !at(s, p + 1, SLASH)
}

/// The sibling elements at `p`, with `depth` levels of nesting left, and the
/// position behind them. Whitespace before and after each element is skipped.
/// The sequence ends where, after whitespace, no element starts; that
/// whitespace is then not consumed. A failure inside an element fails the
/// sequence.
///
/// An element is never empty (see [`lemma_tag_moves_on`]), so the sequence
/// always goes on behind it.
pub open spec fn siblings_at(s: Seq<u8>, p: int, depth: nat) -> Result<
    (Seq<TagView>, int),
    ParseError,
>
    decreases depth, (s.len() - p + 1) as nat,
{
    let q = p + run_len(s, p, Class::Blank);
    if starts_tag(s, q) {
        match tag_at(s, q, depth) {
            Err(x) => Err(x),
            Ok((first, e)) => {
                let e2 = e + run_len(s, e, Class::Blank);
                if p < e2 <= s.len() {
                    match siblings_at(s, e2, depth) {
                        Err(x) => Err(x),
                        Ok((rest, end)) => Ok((seq![first] + rest, end)),
                    }
                } else {
                    Ok((seq![first], e2))
                }
            },
        }
    } else {
        Ok((Seq::empty(), p))
    }
}

/// `r` is the outcome `want`, position included.
pub open spec fn lands<T>(r: Result<(T, usize), ParseError>, want: Result<(T, int), ParseError>) -> bool {
    match want {
        Ok((t, n)) => r matches Ok((x, m)) && x == t && m as int == n,
        Err(e) => r matches Err(x) && x == e,
    }
}

/// `r` is the outcome `want`, read through the view, position included.
pub open spec fn lands_tag(
    r: Result<(Tag, usize), ParseError>,
    want: Result<(TagView, int), ParseError>,
) -> bool {
    match want {
        Ok((t, n)) => r matches Ok((x, m)) && x@ == t && m as int == n,
        Err(e) => r matches Err(x) && x == e,
    }
}

/// `r` is the outcome `want`, read through the views, position included.
pub open spec fn lands_tags(
    r: Result<(Vec<Tag>, usize), ParseError>,
    want: Result<(Seq<TagView>, int), ParseError>,
) -> bool {
    match want {
        Ok((t, n)) => r matches Ok((x, m)) && tag_views(x@) == t && m as int == n,
        Err(e) => r matches Err(x) && x == e,
    }
}

/// The outcome `r` with the elements `acc` put in front.
pub open spec fn after(acc: Seq<TagView>, r: Result<(Seq<TagView>, int), ParseError>) -> Result<
    (Seq<TagView>, int),
    ParseError,
> {
    match r {
        Ok((rest, end)) => Ok((acc + rest, end)),
        Err(e) => Err(e),
    }
}

/// The successful outcome of a reader at position `pos` leaves a place where
/// the text may be cut, at or behind `pos`.
pub open spec fn lands_on_cut<T>(s: Seq<u8>, pos: usize, r: Result<(T, usize), ParseError>) -> bool {
    r matches Ok((_, n)) ==> pos <= n && cut(s, n as int)
}

fn dc_from<'s>(src: &'s str, pos: usize) -> (r: Result<(TagType, usize), ParseError>)
    requires
        pos <= src.spec_bytes().len(),
    ensures
        lands(r, dc_at(src.spec_bytes(), pos as int)),
        lands_on_cut(src.spec_bytes(), pos, r),
{
    let bytes = src.as_bytes();
    if pos < bytes.len() && bytes[pos] == COLON {
        let e = run_from(bytes, pos + 1, Class::Alnum);
        proof {
            lemma_str_bytes(src);
            lemma_cut_ascii(src.spec_bytes(), pos as int);
            lemma_run_cut(src.spec_bytes(), pos + 1, Class::Alnum);
        }
        let word = slice(src, pos + 1, e);
        match Dc::from_str(word) {
            Ok(d) => Ok((TagType::Meta(Meta::Dc(d)), e)),
            Err(_) => Err(ParseError::new(ErrorKind::UnknownTagName, pos + 1, e)),
        }
    } else {
        Err(ParseError::new(ErrorKind::LexError, pos, pos))
    }
}

fn name_from<'s>(src: &'s str, pos: usize) -> (r: Result<(TagType, usize), ParseError>)
    requires
        cut(src.spec_bytes(), pos as int),
    ensures
        lands(r, name_at(src.spec_bytes(), pos as int)),
        lands_on_cut(src.spec_bytes(), pos, r),
{
    let bytes = src.as_bytes();
    let e = run_from(bytes, pos, Class::Alnum);
    proof {
        lemma_str_bytes(src);
        lemma_run_cut(src.spec_bytes(), pos as int, Class::Alnum);
    }
    let word = slice(src, pos, e);
    if str_eq(word, "dc") {
        dc_from(src, e)
    } else {
        match TagType::from_str(word) {
            Ok(t) => Ok((t, e)),
            Err(_) => Err(ParseError::new(ErrorKind::UnknownTagName, pos, e)),
        }
    }
}

fn opening_from<'s>(src: &'s str, pos: usize) -> (r: Result<(TagType, usize), ParseError>)
    requires
        pos <= src.spec_bytes().len(),
    ensures
        lands(r, opening_at(src.spec_bytes(), pos as int)),
        r matches Ok((_, n)) ==> pos < n && cut(src.spec_bytes(), n as int),
{
    let bytes = src.as_bytes();
    if pos < bytes.len() && bytes[pos] == LT {
        proof {
            lemma_str_bytes(src);
            lemma_cut_ascii(src.spec_bytes(), pos as int);
        }
        name_from(src, pos + 1)
    } else {
        Err(ParseError::new(ErrorKind::LexError, pos, pos))
    }
}

fn missing_from(bytes: &[u8], pos: usize) -> (e: ParseError)
    ensures
        e == missing(bytes@, pos as int),
{
    if pos >= bytes.len() {
        ParseError::new(ErrorKind::UnterminatedTag, pos, pos)
    } else {
        ParseError::new(ErrorKind::LexError, pos, pos)
    }
}

fn closing_from<'s>(src: &'s str, pos: usize) -> (r: Result<(TagType, usize), ParseError>)
    requires
        pos <= src.spec_bytes().len(),
    ensures
        lands(r, closing_at(src.spec_bytes(), pos as int)),
        r matches Ok((_, n)) ==> pos < n && cut(src.spec_bytes(), n as int),
{
    let bytes = src.as_bytes();
    let n = bytes.len();
    if !(pos < n && bytes[pos] == LT) {
        return Err(missing_from(bytes, pos));
    }
    if !(pos + 1 < n && bytes[pos + 1] == SLASH) {
        return Err(missing_from(bytes, pos + 1));
    }
    let e = run_from(bytes, pos + 2, Class::Alnum);
    proof {
        lemma_str_bytes(src);
        lemma_cut_ascii(src.spec_bytes(), pos + 1);
        lemma_run_cut(src.spec_bytes(), pos + 2, Class::Alnum);
    }
    let word = slice(src, pos + 2, e);
    if str_eq(word, "dc") {
        if !(e < n && bytes[e] == COLON) {
            return Err(missing_from(bytes, e));
        }
        match dc_from(src, e) {
            Ok((t, e2)) => {
                if e2 < n && bytes[e2] == GT {
                    proof {
                        lemma_cut_ascii(src.spec_bytes(), e2 as int);
                    }
                    Ok((t, e2 + 1))
                } else {
                    Err(missing_from(bytes, e2))
                }
            },
            Err(x) => Err(x),
        }
    } else if e < n && bytes[e] == GT {
        proof {
            lemma_cut_ascii(src.spec_bytes(), e as int);
        }
        match TagType::from_str(word) {
            Ok(t) => Ok((t, e + 1)),
            Err(_) => Err(ParseError::new(ErrorKind::UnknownTagName, pos + 2, e)),
        }
    } else {
        Err(missing_from(bytes, e))
    }
}

/// `r` is the head `want`.
pub open spec fn lands_head(
    r: Result<(Vec<(Piece, Piece)>, bool, usize), ParseError>,
    want: Result<Head, ParseError>,
) -> bool {
    match want {
        Ok(h) => r matches Ok((pieces, closed, n)) && pair_views(pieces@) == h.pairs && closed
            == h.closed && n as int == h.next,
        Err(e) => r matches Err(x) && x == e,
    }
}

/// The pieces of a head lie between places where the text may be cut, and so
/// does its end.
pub open spec fn head_cuts(
    s: Seq<u8>,
    pos: usize,
    r: Result<(Vec<(Piece, Piece)>, bool, usize), ParseError>,
) -> bool {
    r matches Ok((pieces, _, n)) ==> {
        &&& pos < n
        &&& cut(s, n as int)
        &&& forall|i: int|
            0 <= i < pieces@.len() ==> token_cuts(s, (#[trigger] pieces@[i]).0@) && token_cuts(
                s,
                pieces@[i].1@,
            )
    }
}

fn tag_close_from<'s>(src: &'s str, pos: usize) -> (r: Result<
    (Vec<(Piece, Piece)>, bool, usize),
    ParseError,
>)
    requires
        pos <= src.spec_bytes().len(),
    ensures
        lands_head(r, tag_close_at(src.spec_bytes(), pos as int)),
        head_cuts(src.spec_bytes(), pos, r),
{
    let bytes = src.as_bytes();
    if pos < bytes.len() && bytes[pos] == GT {
        proof {
            lemma_str_bytes(src);
            lemma_cut_ascii(src.spec_bytes(), pos as int);
        }
        let pieces: Vec<(Piece, Piece)> = Vec::new();
        assert(pair_views(pieces@) =~= Seq::<Pair>::empty());
        Ok((pieces, false, pos + 1))
    } else {
        Err(ParseError::new(ErrorKind::LexError, pos, pos))
    }
}

fn tag_open_from<'s>(src: &'s str, pos: usize) -> (r: Result<
    (Vec<(Piece, Piece)>, bool, usize),
    ParseError,
>)
    requires
        pos <= src.spec_bytes().len(),
    ensures
        lands_head(r, tag_open_at(src.spec_bytes(), pos as int)),
        head_cuts(src.spec_bytes(), pos, r),
{
    let bytes = src.as_bytes();
    if pos < bytes.len() && bytes[pos] == SPACE {
        let (pieces, e) = kvs_pieces(bytes, pos + 1);
        proof {
            lemma_str_bytes(src);
            lemma_cut_ascii(src.spec_bytes(), pos as int);
            lemma_kvs_cuts(src.spec_bytes(), pos + 1);
            assert forall|i: int| 0 <= i < pieces@.len() implies token_cuts(
                src.spec_bytes(),
                (#[trigger] pieces@[i]).0@,
            ) && token_cuts(src.spec_bytes(), pieces@[i].1@) by {
                assert(pair_views(pieces@)[i] == crate::common::pair_view(pieces@[i]));
            }
        }
        if e < bytes.len() && bytes[e] == GT {
            proof {
                lemma_cut_ascii(src.spec_bytes(), e as int);
            }
            Ok((pieces, false, e + 1))
        } else {
            Err(ParseError::new(ErrorKind::LexError, e, e))
        }
    } else {
        Err(ParseError::new(ErrorKind::LexError, pos, pos))
    }
}

fn self_closing_from<'s>(src: &'s str, pos: usize) -> (r: Result<
    (Vec<(Piece, Piece)>, bool, usize),
    ParseError,
>)
    requires
        pos <= src.spec_bytes().len(),
    ensures
        lands_head(r, self_closing_at(src.spec_bytes(), pos as int)),
        head_cuts(src.spec_bytes(), pos, r),
{
    let bytes = src.as_bytes();
    if pos < bytes.len() && bytes[pos] == SLASH {
        if pos + 1 < bytes.len() && bytes[pos + 1] == GT {
            proof {
                lemma_str_bytes(src);
                lemma_cut_ascii(src.spec_bytes(), pos + 1);
            }
            let pieces: Vec<(Piece, Piece)> = Vec::new();
            assert(pair_views(pieces@) =~= Seq::<Pair>::empty());
            Ok((pieces, true, pos + 2))
        } else {
            Err(ParseError::new(ErrorKind::LexError, pos + 1, pos + 1))
        }
    } else {
        Err(ParseError::new(ErrorKind::LexError, pos, pos))
    }
}

fn head_from<'s>(src: &'s str, pos: usize) -> (r: Result<
    (Vec<(Piece, Piece)>, bool, usize),
    ParseError,
>)
    requires
        pos <= src.spec_bytes().len(),
    ensures
        lands_head(r, head_at(src.spec_bytes(), pos as int)),
        head_cuts(src.spec_bytes(), pos, r),
{
    let bytes = src.as_bytes();
    if pos < bytes.len() && bytes[pos] == GT {
        tag_close_from(src, pos)
    } else if pos < bytes.len() && bytes[pos] == SPACE {
        tag_open_from(src, pos)
    } else if pos < bytes.len() && bytes[pos] == SLASH {
        self_closing_from(src, pos)
    } else {
        Err(ParseError::new(ErrorKind::UnexpectedTagShape, pos, pos))
    }
}

/// `r` is the outcome `want`, read through the views.
pub open spec fn typed_like(
    r: Result<Vec<Attribute>, ParseError>,
    want: Result<Seq<AttributeView>, ParseError>,
) -> bool {
    match want {
        Ok(v) => r is Ok && attribute_views(r.unwrap()@) == v,
        Err(e) => r matches Err(x) && x == e,
    }
}

pub(crate) fn attributes_from<'s>(src: &'s str, pieces: &Vec<(Piece, Piece)>) -> (r: Result<
    Vec<Attribute<'s>>,
    ParseError,
>)
    requires
        forall|i: int|
            0 <= i < pieces@.len() ==> token_cuts(src.spec_bytes(), (#[trigger] pieces@[i]).0@)
                && token_cuts(src.spec_bytes(), pieces@[i].1@),
    ensures
        typed_like(r, attributes_at(src.spec_bytes(), pair_views(pieces@))),
{
    let raw = cut_pairs(src, pieces);
    let count = raw.len();
    proof {
        assert(raw_texts(raw@).len() == count);
        crate::attributes::lemma_failure_index(raw_texts(raw@), 0);
    }
    match type_attributes(&raw) {
        Ok(v) => Ok(v),
        Err(e) => {
            let pair = pieces[e.index];
            assert(pair_views(pieces@)[e.index as int] == crate::common::pair_view(pair));
            if e.kind == ErrorKind::UnknownAttributeKey {
                Err(ParseError::new(e.kind, pair.0.start, pair.0.end))
            } else {
                Err(ParseError::new(e.kind, pair.1.start, pair.1.end))
            }
        },
    }
}

fn finish_from<'s>(
    src: &'s str,
    pos: usize,
    tag_type: TagType,
    attributes: Vec<Attribute<'s>>,
    children: Vec<Tag<'s>>,
) -> (r: Result<(Tag<'s>, usize), ParseError>)
    requires
        cut(src.spec_bytes(), pos as int),
    ensures
        lands_tag(
            r,
            finish_at(
                src.spec_bytes(),
                pos as int,
                tag_type,
                attribute_views(attributes@),
                tag_views(children@),
            ),
        ),
        r matches Ok((_, n)) ==> pos < n && cut(src.spec_bytes(), n as int),
{
    let bytes = src.as_bytes();
    let q = content_from(bytes, pos);
    proof {
        lemma_str_bytes(src);
        lemma_content_cut(src.spec_bytes(), pos as int);
    }
    let content = if q > pos {
        Some(slice(src, pos, q))
    } else {
        None
    };
    match closing_from(src, q) {
        Ok((closing, e)) => {
            if closing == tag_type {
                let tag = Tag { tag_type, attributes, content, children };
                proof {
                    lemma_children_views(tag);
                }
                Ok((tag, e))
            } else {
                Err(ParseError::new(ErrorKind::MismatchedClosingTag, q, e))
            }
        },
        Err(x) => Err(x),
    }
}

pub(crate) fn tag_from<'s>(src: &'s str, pos: usize, depth: usize) -> (r: Result<(Tag<'s>, usize), ParseError>)
    requires
        pos <= src.spec_bytes().len(),
    ensures
        lands_tag(r, tag_at(src.spec_bytes(), pos as int, depth as nat)),
        r matches Ok((_, n)) ==> pos < n && cut(src.spec_bytes(), n as int),
    decreases depth, 0nat,
{
    if depth == 0 {
        return Err(ParseError::new(ErrorKind::NestingTooDeep, pos, pos));
    }
    let (tag_type, after_name) = match opening_from(src, pos) {
        Ok(x) => x,
        Err(e) => {
            return Err(e);
        },
    };
    let (pieces, closed, after_head) = match head_from(src, after_name) {
        Ok(x) => x,
        Err(e) => {
            return Err(e);
        },
    };
    let attributes = match attributes_from(src, &pieces) {
        Ok(x) => x,
        Err(e) => {
            return Err(e);
        },
    };
    if closed {
        let tag = Tag { tag_type, attributes, content: None, children: Vec::new() };
        proof {
            lemma_children_views(tag);
            assert(tag_views(tag.children@) =~= Seq::<TagView>::empty());
        }
        return Ok((tag, after_head));
    }
    let (children, after_children) = match siblings_from(src, after_head, depth - 1) {
        Ok(x) => x,
        Err(e) => {
            return Err(e);
        },
    };
    finish_from(src, after_children, tag_type, attributes, children)
}

pub(crate) fn siblings_from<'s>(src: &'s str, pos: usize, depth: usize) -> (r: Result<
    (Vec<Tag<'s>>, usize),
    ParseError,
>)
    requires
        cut(src.spec_bytes(), pos as int),
    ensures
        lands_tags(r, siblings_at(src.spec_bytes(), pos as int, depth as nat)),
        lands_on_cut(src.spec_bytes(), pos, r),
    decreases depth, 1nat,
{
    let ghost s = src.spec_bytes();
    let bytes = src.as_bytes();
    let n = bytes.len();
    let mut out: Vec<Tag<'s>> = Vec::new();
    let mut cur = pos;
    proof {
        lemma_str_bytes(src);
        assert(tag_views(out@) =~= Seq::<TagView>::empty());
        let whole = siblings_at(s, pos as int, depth as nat);
        match whole {
            Ok((rest, end)) => {
                assert(tag_views(out@) + rest =~= rest);
            },
            Err(e) => {},
        }
    }
    loop
        invariant
            s == src.spec_bytes(),
            bytes@ == s,
            n == s.len(),
            valid_utf8(s),
            pos <= cur <= n,
            cut(s, cur as int),
            siblings_at(s, pos as int, depth as nat) == after(
                tag_views(out@),
                siblings_at(s, cur as int, depth as nat),
            ),
        decreases n - cur,
    {
        let q = run_from(bytes, cur, Class::Blank);
        if !(q < n && bytes[q] == LT && !(q + 1 < n && bytes[q + 1] == SLASH)) {
            assert(tag_views(out@) + Seq::<TagView>::empty() =~= tag_views(out@));
            return Ok((out, cur));
        }
        match tag_from(src, q, depth) {
            Ok((node, e)) => {
                let e2 = run_from(bytes, e, Class::Blank);
                proof {
                    lemma_run_cut(s, e as int, Class::Blank);
                    let before = tag_views(out@);
                    let first = node@;
                    match siblings_at(s, e2 as int, depth as nat) {
                        Ok((rest, end)) => {
                            assert(before + (seq![first] + rest) =~= before.push(first) + rest);
                        },
                        Err(x) => {},
                    }
                    assert(tag_views(out@.push(node)) =~= before.push(first));
                }
                out.push(node);
                cur = e2;
            },
            Err(x) => {
                return Err(x);
            },
        }
    }
}

/// What a reader of a tag name or a closing tag returns for what its grammar
/// finds at the front of `old`: the tag, with the cursor moved behind what
/// was read; or the failure, with the cursor where it was.
pub open spec fn named(
    want: Result<(TagType, int), ParseError>,
    old: &str,
    r: Result<TagType, ParseError>,
    new: &str,
) -> bool {
    match want {
        Ok((t, n)) => r == Ok::<TagType, ParseError>(t) && rest_of(old, n, new),
        Err(e) => r == Err::<TagType, ParseError>(e) && new == old,
    }
}

fn land<'s>(input: &mut &'s str, r: Result<(TagType, usize), ParseError>) -> (out: Result<
    TagType,
    ParseError,
>)
    requires
        r matches Ok((_, n)) ==> cut(old(input).spec_bytes(), n as int),
    ensures
        match r {
            Ok((t, n)) => out == Ok::<TagType, ParseError>(t) && rest_of(
                *old(input),
                n as int,
                *final(input),
            ),
            Err(e) => out == Err::<TagType, ParseError>(e) && *final(input) == *old(input),
        },
{
    match r {
        Ok((t, n)) => {
            let src: &'s str = *input;
            *input = tail(src, n);
            Ok(t)
        },
        Err(e) => Err(e),
    }
}

/// Reads the second half of a compound name: `:` and the name of a Dublin
/// Core element.
pub fn dc<'s>(input: &mut &'s str) -> (r: Result<TagType, ParseError>)
    ensures
        named(dc_at(old(input).spec_bytes(), 0), *old(input), r, *final(input)),
{
    let src: &'s str = *input;
    let r = dc_from(src, 0);
    land(input, r)
}

/// Reads the start of an opening tag: `<` and the tag's name.
pub fn opening_tag<'s>(input: &mut &'s str) -> (r: Result<TagType, ParseError>)
    ensures
        named(opening_at(old(input).spec_bytes(), 0), *old(input), r, *final(input)),
{
    let src: &'s str = *input;
    let r = opening_from(src, 0);
    land(input, r)
}

/// Reads a closing tag: `</`, the tag's name and `>`.
pub fn closing_tag<'s>(input: &mut &'s str) -> (r: Result<TagType, ParseError>)
    ensures
        named(closing_at(old(input).spec_bytes(), 0), *old(input), r, *final(input)),
{
    let src: &'s str = *input;
    let r = closing_from(src, 0);
    land(input, r)
}

/// What a reader of a tag's head returns for what its grammar finds at the
/// front of `old`: the raw attribute pairs, with the cursor moved behind the
/// head; or the failure, with the cursor where it was.
pub open spec fn headed(
    want: Result<Head, ParseError>,
    old: &str,
    r: Result<Vec<(&str, &str)>, ParseError>,
    new: &str,
) -> bool {
    match want {
        Ok(h) => r is Ok && raw_texts(r.unwrap()@) == pair_texts(old.spec_bytes(), h.pairs)
            && rest_of(old, h.next, new),
        Err(e) => (r matches Err(x) && x == e) && new == old,
    }
}

fn land_head<'s>(
    input: &mut &'s str,
    r: Result<(Vec<(Piece, Piece)>, bool, usize), ParseError>,
) -> (out: Result<Vec<(&'s str, &'s str)>, ParseError>)
    requires
        head_cuts(old(input).spec_bytes(), 0, r),
    ensures
        match r {
            Ok((pieces, _, n)) => out is Ok && raw_texts(out.unwrap()@) == pair_texts(
                old(input).spec_bytes(),
                pair_views(pieces@),
            ) && rest_of(*old(input), n as int, *final(input)),
            Err(e) => (out matches Err(x) && x == e) && *final(input) == *old(input),
        },
{
    match r {
        Ok((pieces, _, n)) => {
            let src: &'s str = *input;
            let raw = cut_pairs(src, &pieces);
            *input = tail(src, n);
            Ok(raw)
        },
        Err(e) => Err(e),
    }
}

/// Reads the `>` that ends a tag without attributes, and hands back the empty
/// list of raw pairs.
pub fn tag_close<'s>(input: &mut &'s str) -> (r: Result<Vec<(&'s str, &'s str)>, ParseError>)
    ensures
        headed(tag_close_at(old(input).spec_bytes(), 0), *old(input), r, *final(input)),
{
    let src: &'s str = *input;
    let r = tag_close_from(src, 0);
    land_head(input, r)
}

/// Reads the attributes of a tag: a space, a pair sequence and `>`; and hands
/// back the raw pairs.
pub fn tag_open<'s>(input: &mut &'s str) -> (r: Result<Vec<(&'s str, &'s str)>, ParseError>)
    ensures
        headed(tag_open_at(old(input).spec_bytes(), 0), *old(input), r, *final(input)),
{
    let src: &'s str = *input;
    let r = tag_open_from(src, 0);
    land_head(input, r)
}

/// Reads the `/>` that ends a self-closing tag, and hands back the empty list
/// of raw pairs.
pub fn self_closing_tag<'s>(input: &mut &'s str) -> (r: Result<
    Vec<(&'s str, &'s str)>,
    ParseError,
>)
    ensures
        headed(self_closing_at(old(input).spec_bytes(), 0), *old(input), r, *final(input)),
{
    let src: &'s str = *input;
    let r = self_closing_from(src, 0);
    land_head(input, r)
}

/// Reads one element at the front of the input, nested no deeper than
/// `depth` levels: the element that [`tag_at`] describes. On success the
/// cursor stands behind the element's closing tag; on failure it has not
/// moved.
pub fn tag_within<'s>(input: &mut &'s str, depth: usize) -> (r: Result<Tag<'s>, ParseError>)
    ensures
        match tag_at(old(input).spec_bytes(), 0, depth as nat) {
            Ok((t, n)) => r is Ok && r.unwrap()@ == t && rest_of(*old(input), n, *final(input)),
            Err(e) => (r matches Err(x) && x == e) && *final(input) == *old(input),
        },
{
    let src: &'s str = *input;
    match tag_from(src, 0, depth) {
        Ok((t, n)) => {
            *input = tail(src, n);
            Ok(t)
        },
        Err(e) => Err(e),
    }
}

/// Reads one element at the front of the input, nested no deeper than
/// [`MAX_DEPTH`] levels.
pub fn tag<'s>(input: &mut &'s str) -> (r: Result<Tag<'s>, ParseError>)
    ensures
        match tag_at(old(input).spec_bytes(), 0, MAX_DEPTH as nat) {
            Ok((t, n)) => r is Ok && r.unwrap()@ == t && rest_of(*old(input), n, *final(input)),
            Err(e) => (r matches Err(x) && x == e) && *final(input) == *old(input),
        },
{
    tag_within(input, MAX_DEPTH)
}

/// Reads the sibling elements at the front of the input, nested no deeper
/// than `depth` levels: the sequence that [`siblings_at`] describes. On
/// success the cursor stands behind the last element and the whitespace after
/// it; on failure it has not moved.
pub fn parse_within<'s>(input: &mut &'s str, depth: usize) -> (r: Result<Vec<Tag<'s>>, ParseError>)
    ensures
        match siblings_at(old(input).spec_bytes(), 0, depth as nat) {
            Ok((t, n)) => r is Ok && tag_views(r.unwrap()@) == t && rest_of(
                *old(input),
                n,
                *final(input),
            ),
            Err(e) => (r matches Err(x) && x == e) && *final(input) == *old(input),
        },
{
    let src: &'s str = *input;
    proof {
        lemma_str_bytes(src);
    }
    match siblings_from(src, 0, depth) {
        Ok((t, n)) => {
            *input = tail(src, n);
            Ok(t)
        },
        Err(e) => Err(e),
    }
}

/// Reads the sibling elements at the front of the input, nested no deeper
/// than [`MAX_DEPTH`] levels.
pub fn parse<'s>(input: &mut &'s str) -> (r: Result<Vec<Tag<'s>>, ParseError>)
    ensures
        match siblings_at(old(input).spec_bytes(), 0, MAX_DEPTH as nat) {
            Ok((t, n)) => r is Ok && tag_views(r.unwrap()@) == t && rest_of(
                *old(input),
                n,
                *final(input),
            ),
            Err(e) => (r matches Err(x) && x == e) && *final(input) == *old(input),
        },
{
    parse_within(input, MAX_DEPTH)
}

} // verus!
