//! Typed attributes: the closed vocabulary of attribute keys, the shape of
//! value that each key requires, and the typing of raw key/value pairs.
//!
//! URLs and MIME types are checked and normalised by the `url` and `mime`
//! crates. What those crates return for a text is not restated here: it is
//! given a name, [`url_parse`] and [`mime_parse`], and the contracts say what
//! this module makes of it.

use vstd::prelude::*;
use crate::error::{AttributeError, ErrorKind};
use crate::text::str_eq;

verus! {

/// The XML versions that a declaration may name.
#[derive(Debug, Clone, Copy, PartialEq, Eq, Structural)]
pub enum Version {
    One,
}

/// The encodings that a declaration may name.
#[derive(Debug, Clone, Copy, PartialEq, Eq, Structural)]
pub enum Encoding {
    Utf8,
}

impl Version {
    /// The version that a text names: `1.0` and nothing else.
    pub open spec fn resolve(s: Seq<char>) -> Option<Version> {
        if s == "1.0"@ {
            Some(Version::One)
        } else {
            None
        }
    }

    /// Reads a version token.
    pub fn from_str(s: &str) -> (r: Result<Version, ErrorKind>)
        ensures
            r == match Version::resolve(s@) {
                Some(v) => Ok::<Version, ErrorKind>(v),
                None => Err(ErrorKind::MalformedAttributeValue),
            },
    {
        if str_eq(s, "1.0") {
            Ok(Version::One)
        } else {
            Err(ErrorKind::MalformedAttributeValue)
        }
    }
}

impl Encoding {
    /// The encoding that a text names: `UTF-8` and nothing else.
    pub open spec fn resolve(s: Seq<char>) -> Option<Encoding> {
        if s == "UTF-8"@ {
            Some(Encoding::Utf8)
        } else {
            None
        }
    }

    /// Reads an encoding token.
    pub fn from_str(s: &str) -> (r: Result<Encoding, ErrorKind>)
        ensures
            r == match Encoding::resolve(s@) {
                Some(v) => Ok::<Encoding, ErrorKind>(v),
                None => Err(ErrorKind::MalformedAttributeValue),
            },
    {
        if str_eq(s, "UTF-8") {
            Ok(Encoding::Utf8)
        } else {
            Err(ErrorKind::MalformedAttributeValue)
        }
    }
}

/// What `url::Url::parse` makes of a text: the serialization of the URL it
/// parses to, or `None` where it reports an error.
pub uninterp spec fn url_parse(s: Seq<char>) -> Option<Seq<char>>;

/// What `mime::Mime::from_str` makes of a text: the source text that the
/// parsed media type keeps, or `None` where it reports an error.
pub uninterp spec fn mime_parse(s: Seq<char>) -> Option<Seq<char>>;

/// Calls `url::Url::parse` and hands back the serialization of the URL, or
/// `None` for a parse error. The contract only names the outcome: it is
/// [`url_parse`] of the text, and nothing more is claimed of it.
#[verifier::external_body]
fn url_serialization(s: &str) -> (r: Option<String>)
    ensures
        match url_parse(s@) {
            Some(t) => r is Some && r.unwrap()@ == t,
            None => r is None,
        },
{
    match url::Url::parse(s) {
        Ok(u) => Some(String::from(u)),
        Err(_) => None,
    }
}

/// Calls `mime::Mime::from_str` and hands back the text that the media type
/// keeps as its source (what its `as_ref` returns), or `None` for a parse
/// error. The contract only names the outcome: it is [`mime_parse`] of the
/// text, and nothing more is claimed of it.
#[verifier::external_body]
fn mime_source(s: &str) -> (r: Option<String>)
    ensures
        match mime_parse(s@) {
            Some(t) => r is Some && r.unwrap()@ == t,
            None => r is None,
        },
{
    match s.parse::<mime::Mime>() {
        Ok(m) => Some(String::from(m.as_ref())),
        Err(_) => None,
    }
}

/// A parsed URL, held as its serialization.
#[derive(Debug, Clone, PartialEq, Eq)]
pub struct Url {
    serialization: String,
}

/// A parsed media type, held as its source text.
#[derive(Debug, Clone, PartialEq, Eq)]
pub struct Mime {
    source: String,
}

impl View for Url {
    type V = Seq<char>;

    closed spec fn view(&self) -> Seq<char> {
        self.serialization@
    }
}

impl View for Mime {
    type V = Seq<char>;

    closed spec fn view(&self) -> Seq<char> {
        self.source@
    }
}

/// The view of an optional URL or media type.
pub open spec fn some_view<T: View>(v: Option<T>) -> Option<T::V> {
    match v {
        Some(t) => Some(t@),
        None => None,
    }
}

impl Url {
    /// Parses a URL. `None` where the text is no URL.
    pub fn parse(s: &str) -> (r: Option<Url>)
        ensures
            some_view(r) == url_parse(s@),
    {
        match url_serialization(s) {
            Some(serialization) => Some(Url { serialization }),
            None => None,
        }
    }

    /// The URL's serialization.
    pub fn as_str(&self) -> (r: &str)
        ensures
            r@ == self@,
    {
        self.serialization.as_str()
    }
}

impl Mime {
    /// Parses a media type. `None` where the text is none.
    pub fn parse(s: &str) -> (r: Option<Mime>)
        ensures
            some_view(r) == mime_parse(s@),
    {
        match mime_source(s) {
            Some(source) => Some(Mime { source }),
            None => None,
        }
    }

    /// The media type as text.
    pub fn as_str(&self) -> (r: &str)
        ensures
            r@ == self@,
    {
        self.source.as_str()
    }
}

/// The shape of value that a key requires.
#[derive(Debug, Clone, Copy, PartialEq, Eq, Structural)]
pub enum ValueShape {
    /// Any text, kept as written.
    Text,
    /// A URL.
    Url,
    /// A media type.
    Mime,
    /// A version token.
    Version,
    /// An encoding token.
    Encoding,
}

/// The closed vocabulary of attribute keys.
#[derive(Debug, Clone, Copy, PartialEq, Eq, Structural)]
pub enum AttributeKey {
    Version,
    Encoding,
    Name,
    Type,
    Style,
    StyleType,
    Href,
    Xmlns,
    XmlBase,
    XmlnsDc,
    XmlnsHtml,
    XmlnsiUslm,
    XmlnsiXsi,
    XsiSchemaLocation,
    XmlLang,
    Id,
    Role,
    Value,
    StartValue,
    EndValue,
    Display,
    Class,
    Identifier,
    SenateId,
    Leaders,
    Title,
    Status,
    TemporalId,
    Pos,
    PosText,
    PosCount,
    Idref,
    Src,
    Note,
    Alt,
    Meta,
    Misc,
    DraftingTip,
    CodificationTip,
    Brief,
    SortOrder,
    Portion,
    Occurrence,
    CommencementDate,
    Date,
    BeginDate,
    EndDate,
    StartPeriod,
    EndPeriod,
    Partial,
    ColSpan,
    RowSpan,
    Topic,
    Orientation,
}

/// A typed attribute: its key, and the value in the shape that the key
/// requires.
#[derive(Debug, PartialEq, Eq)]
pub enum Attribute<'s> {
    Version(Version),
    Encoding(Encoding),
    Name(&'s str),
    Type(Mime),
    Style(&'s str),
    StyleType(&'s str),
    Href(&'s str),
    Xmlns(Url),
    XmlBase(Url),
    XmlnsDc(Url),
    XmlnsHtml(Url),
    XmlnsiUslm(Url),
    XmlnsiXsi(Url),
    XsiSchemaLocation(Url),
    XmlLang(&'s str),
    Id(&'s str),
    Role(&'s str),
    Value(&'s str),
    StartValue(&'s str),
    EndValue(&'s str),
    Display(&'s str),
    Class(&'s str),
    Identifier(&'s str),
    SenateId(&'s str),
    Leaders(&'s str),
    Title(&'s str),
    Status(&'s str),
    TemporalId(&'s str),
    Pos(&'s str),
    PosText(&'s str),
    PosCount(&'s str),
    Idref(&'s str),
    Src(&'s str),
    Note(&'s str),
    Alt(&'s str),
    Meta(&'s str),
    Misc(&'s str),
    DraftingTip(&'s str),
    CodificationTip(&'s str),
    Brief(&'s str),
    SortOrder(&'s str),
    Portion(&'s str),
    Occurrence(&'s str),
    CommencementDate(&'s str),
    Date(&'s str),
    BeginDate(&'s str),
    EndDate(&'s str),
    StartPeriod(&'s str),
    EndPeriod(&'s str),
    Partial(&'s str),
    ColSpan(&'s str),
    RowSpan(&'s str),
    Topic(&'s str),
    Orientation(&'s str),
}

/// A typed value, as contracts speak of it.
pub enum AttributeValue {
    Text(Seq<char>),
    Url(Seq<char>),
    Mime(Seq<char>),
    Version(Version),
    Encoding(Encoding),
}

/// A typed attribute, as contracts speak of it: a key and a value.
pub struct AttributeView {
    pub key: AttributeKey,
    pub value: AttributeValue,
}

impl AttributeKey {
    /// The key that a text names, if the vocabulary holds it.
    pub open spec fn resolve(s: Seq<char>) -> Option<AttributeKey> {
        if s == "version"@ {
            Some(AttributeKey::Version)
        } else if s == "encoding"@ {
            Some(AttributeKey::Encoding)
        } else if s == "name"@ {
            Some(AttributeKey::Name)
        } else if s == "type"@ {
            Some(AttributeKey::Type)
        } else if s == "style"@ {
            Some(AttributeKey::Style)
        } else if s == "styleType"@ {
            Some(AttributeKey::StyleType)
        } else if s == "href"@ {
            Some(AttributeKey::Href)
        } else if s == "xmlns"@ {
            Some(AttributeKey::Xmlns)
        } else if s == "xml:base"@ {
            Some(AttributeKey::XmlBase)
        } else if s == "xmlns:dc"@ {
            Some(AttributeKey::XmlnsDc)
        } else if s == "xmlns:html"@ {
            Some(AttributeKey::XmlnsHtml)
        } else if s == "xmlns:uslm"@ {
            Some(AttributeKey::XmlnsiUslm)
        } else if s == "xmlns:xsi"@ {
            Some(AttributeKey::XmlnsiXsi)
        } else if s == "xsi:schemaLocation"@ {
            Some(AttributeKey::XsiSchemaLocation)
        } else if s == "xml:lang"@ {
            Some(AttributeKey::XmlLang)
        } else if s == "id"@ {
            Some(AttributeKey::Id)
        } else if s == "role"@ {
            Some(AttributeKey::Role)
        } else if s == "value"@ {
            Some(AttributeKey::Value)
        } else if s == "startValue"@ {
            Some(AttributeKey::StartValue)
        } else if s == "endValue"@ {
            Some(AttributeKey::EndValue)
        } else if s == "display"@ {
            Some(AttributeKey::Display)
        } else if s == "class"@ {
            Some(AttributeKey::Class)
        } else if s == "identifier"@ {
            Some(AttributeKey::Identifier)
        } else if s == "senateId"@ {
            Some(AttributeKey::SenateId)
        } else if s == "leaders"@ {
            Some(AttributeKey::Leaders)
        } else if s == "title"@ {
            Some(AttributeKey::Title)
        } else if s == "status"@ {
            Some(AttributeKey::Status)
        } else if s == "temporalId"@ {
            Some(AttributeKey::TemporalId)
        } else if s == "pos"@ {
            Some(AttributeKey::Pos)
        } else if s == "posText"@ {
            Some(AttributeKey::PosText)
        } else if s == "posCount"@ {
            Some(AttributeKey::PosCount)
        } else if s == "idref"@ {
            Some(AttributeKey::Idref)
        } else if s == "src"@ {
            Some(AttributeKey::Src)
        } else if s == "note"@ {
            Some(AttributeKey::Note)
        } else if s == "alt"@ {
            Some(AttributeKey::Alt)
        } else if s == "meta"@ {
            Some(AttributeKey::Meta)
        } else if s == "misc"@ {
            Some(AttributeKey::Misc)
        } else if s == "draftingTip"@ {
            Some(AttributeKey::DraftingTip)
        } else if s == "codificationTip"@ {
            Some(AttributeKey::CodificationTip)
        } else if s == "brief"@ {
            Some(AttributeKey::Brief)
        } else if s == "sortOrder"@ {
            Some(AttributeKey::SortOrder)
        } else if s == "portion"@ {
            Some(AttributeKey::Portion)
        } else if s == "occurrence"@ {
            Some(AttributeKey::Occurrence)
        } else if s == "commencementDate"@ {
            Some(AttributeKey::CommencementDate)
        } else if s == "date"@ {
            Some(AttributeKey::Date)
        } else if s == "beginDate"@ {
            Some(AttributeKey::BeginDate)
        } else if s == "endDate"@ {
            Some(AttributeKey::EndDate)
        } else if s == "startPeriod"@ {
            Some(AttributeKey::StartPeriod)
        } else if s == "endPeriod"@ {
            Some(AttributeKey::EndPeriod)
        } else if s == "partial"@ {
            Some(AttributeKey::Partial)
        } else if s == "colspan"@ {
            Some(AttributeKey::ColSpan)
        } else if s == "rowspan"@ {
            Some(AttributeKey::RowSpan)
        } else if s == "topic"@ {
            Some(AttributeKey::Topic)
        } else if s == "orientation"@ {
            Some(AttributeKey::Orientation)
        } else {
            None
        }
    }

    /// The text that names this key.
    pub open spec fn spec_name(self) -> Seq<char> {
        match self {
            AttributeKey::Version => "version"@,
            AttributeKey::Encoding => "encoding"@,
            AttributeKey::Name => "name"@,
            AttributeKey::Type => "type"@,
            AttributeKey::Style => "style"@,
            AttributeKey::StyleType => "styleType"@,
            AttributeKey::Href => "href"@,
            AttributeKey::Xmlns => "xmlns"@,
            AttributeKey::XmlBase => "xml:base"@,
            AttributeKey::XmlnsDc => "xmlns:dc"@,
            AttributeKey::XmlnsHtml => "xmlns:html"@,
            AttributeKey::XmlnsiUslm => "xmlns:uslm"@,
            AttributeKey::XmlnsiXsi => "xmlns:xsi"@,
            AttributeKey::XsiSchemaLocation => "xsi:schemaLocation"@,
            AttributeKey::XmlLang => "xml:lang"@,
            AttributeKey::Id => "id"@,
            AttributeKey::Role => "role"@,
            AttributeKey::Value => "value"@,
            AttributeKey::StartValue => "startValue"@,
            AttributeKey::EndValue => "endValue"@,
            AttributeKey::Display => "display"@,
            AttributeKey::Class => "class"@,
            AttributeKey::Identifier => "identifier"@,
            AttributeKey::SenateId => "senateId"@,
            AttributeKey::Leaders => "leaders"@,
            AttributeKey::Title => "title"@,
            AttributeKey::Status => "status"@,
            AttributeKey::TemporalId => "temporalId"@,
            AttributeKey::Pos => "pos"@,
            AttributeKey::PosText => "posText"@,
            AttributeKey::PosCount => "posCount"@,
            AttributeKey::Idref => "idref"@,
            AttributeKey::Src => "src"@,
            AttributeKey::Note => "note"@,
            AttributeKey::Alt => "alt"@,
            AttributeKey::Meta => "meta"@,
            AttributeKey::Misc => "misc"@,
            AttributeKey::DraftingTip => "draftingTip"@,
            AttributeKey::CodificationTip => "codificationTip"@,
            AttributeKey::Brief => "brief"@,
            AttributeKey::SortOrder => "sortOrder"@,
            AttributeKey::Portion => "portion"@,
            AttributeKey::Occurrence => "occurrence"@,
            AttributeKey::CommencementDate => "commencementDate"@,
            AttributeKey::Date => "date"@,
            AttributeKey::BeginDate => "beginDate"@,
            AttributeKey::EndDate => "endDate"@,
            AttributeKey::StartPeriod => "startPeriod"@,
            AttributeKey::EndPeriod => "endPeriod"@,
            AttributeKey::Partial => "partial"@,
            AttributeKey::ColSpan => "colspan"@,
            AttributeKey::RowSpan => "rowspan"@,
            AttributeKey::Topic => "topic"@,
            AttributeKey::Orientation => "orientation"@,
        }
    }

    /// The shape of value that this key requires.
    pub open spec fn spec_shape(self) -> ValueShape {
        match self {
            AttributeKey::Version => ValueShape::Version,
            AttributeKey::Encoding => ValueShape::Encoding,
            AttributeKey::Type => ValueShape::Mime,
            AttributeKey::Xmlns | AttributeKey::XmlBase | AttributeKey::XmlnsDc | AttributeKey::XmlnsHtml | AttributeKey::XmlnsiUslm | AttributeKey::XmlnsiXsi | AttributeKey::XsiSchemaLocation => ValueShape::Url,
            _ => ValueShape::Text,
        }
    }

    /// Looks a key up in the vocabulary.
    pub fn from_str(s: &str) -> (r: Result<AttributeKey, ErrorKind>)
        ensures
            r == match AttributeKey::resolve(s@) {
                Some(k) => Ok::<AttributeKey, ErrorKind>(k),
                None => Err(ErrorKind::UnknownAttributeKey),
            },
    {
        if str_eq(s, "version") {
            Ok(AttributeKey::Version)
        } else if str_eq(s, "encoding") {
            Ok(AttributeKey::Encoding)
        } else if str_eq(s, "name") {
            Ok(AttributeKey::Name)
        } else if str_eq(s, "type") {
            Ok(AttributeKey::Type)
        } else if str_eq(s, "style") {
            Ok(AttributeKey::Style)
        } else if str_eq(s, "styleType") {
            Ok(AttributeKey::StyleType)
        } else if str_eq(s, "href") {
            Ok(AttributeKey::Href)
        } else if str_eq(s, "xmlns") {
            Ok(AttributeKey::Xmlns)
        } else if str_eq(s, "xml:base") {
            Ok(AttributeKey::XmlBase)
        } else if str_eq(s, "xmlns:dc") {
            Ok(AttributeKey::XmlnsDc)
        } else if str_eq(s, "xmlns:html") {
            Ok(AttributeKey::XmlnsHtml)
        } else if str_eq(s, "xmlns:uslm") {
            Ok(AttributeKey::XmlnsiUslm)
        } else if str_eq(s, "xmlns:xsi") {
            Ok(AttributeKey::XmlnsiXsi)
        } else if str_eq(s, "xsi:schemaLocation") {
            Ok(AttributeKey::XsiSchemaLocation)
        } else if str_eq(s, "xml:lang") {
            Ok(AttributeKey::XmlLang)
        } else if str_eq(s, "id") {
            Ok(AttributeKey::Id)
        } else if str_eq(s, "role") {
            Ok(AttributeKey::Role)
        } else if str_eq(s, "value") {
            Ok(AttributeKey::Value)
        } else if str_eq(s, "startValue") {
            Ok(AttributeKey::StartValue)
        } else if str_eq(s, "endValue") {
            Ok(AttributeKey::EndValue)
        } else if str_eq(s, "display") {
            Ok(AttributeKey::Display)
        } else if str_eq(s, "class") {
            Ok(AttributeKey::Class)
        } else if str_eq(s, "identifier") {
            Ok(AttributeKey::Identifier)
        } else if str_eq(s, "senateId") {
            Ok(AttributeKey::SenateId)
        } else if str_eq(s, "leaders") {
            Ok(AttributeKey::Leaders)
        } else if str_eq(s, "title") {
            Ok(AttributeKey::Title)
        } else if str_eq(s, "status") {
            Ok(AttributeKey::Status)
        } else if str_eq(s, "temporalId") {
            Ok(AttributeKey::TemporalId)
        } else if str_eq(s, "pos") {
            Ok(AttributeKey::Pos)
        } else if str_eq(s, "posText") {
            Ok(AttributeKey::PosText)
        } else if str_eq(s, "posCount") {
            Ok(AttributeKey::PosCount)
        } else if str_eq(s, "idref") {
            Ok(AttributeKey::Idref)
        } else if str_eq(s, "src") {
            Ok(AttributeKey::Src)
        } else if str_eq(s, "note") {
            Ok(AttributeKey::Note)
        } else if str_eq(s, "alt") {
            Ok(AttributeKey::Alt)
        } else if str_eq(s, "meta") {
            Ok(AttributeKey::Meta)
        } else if str_eq(s, "misc") {
            Ok(AttributeKey::Misc)
        } else if str_eq(s, "draftingTip") {
            Ok(AttributeKey::DraftingTip)
        } else if str_eq(s, "codificationTip") {
            Ok(AttributeKey::CodificationTip)
        } else if str_eq(s, "brief") {
            Ok(AttributeKey::Brief)
        } else if str_eq(s, "sortOrder") {
            Ok(AttributeKey::SortOrder)
        } else if str_eq(s, "portion") {
            Ok(AttributeKey::Portion)
        } else if str_eq(s, "occurrence") {
            Ok(AttributeKey::Occurrence)
        } else if str_eq(s, "commencementDate") {
            Ok(AttributeKey::CommencementDate)
        } else if str_eq(s, "date") {
            Ok(AttributeKey::Date)
        } else if str_eq(s, "beginDate") {
            Ok(AttributeKey::BeginDate)
        } else if str_eq(s, "endDate") {
            Ok(AttributeKey::EndDate)
        } else if str_eq(s, "startPeriod") {
            Ok(AttributeKey::StartPeriod)
        } else if str_eq(s, "endPeriod") {
            Ok(AttributeKey::EndPeriod)
        } else if str_eq(s, "partial") {
            Ok(AttributeKey::Partial)
        } else if str_eq(s, "colspan") {
            Ok(AttributeKey::ColSpan)
        } else if str_eq(s, "rowspan") {
            Ok(AttributeKey::RowSpan)
        } else if str_eq(s, "topic") {
            Ok(AttributeKey::Topic)
        } else if str_eq(s, "orientation") {
            Ok(AttributeKey::Orientation)
        } else {
            Err(ErrorKind::UnknownAttributeKey)
        }
    }

    /// The text that names this key.
    pub fn name(&self) -> (r: &'static str)
        ensures
            r@ == self.spec_name(),
    {
        match self {
            AttributeKey::Version => "version",
            AttributeKey::Encoding => "encoding",
            AttributeKey::Name => "name",
            AttributeKey::Type => "type",
            AttributeKey::Style => "style",
            AttributeKey::StyleType => "styleType",
            AttributeKey::Href => "href",
            AttributeKey::Xmlns => "xmlns",
            AttributeKey::XmlBase => "xml:base",
            AttributeKey::XmlnsDc => "xmlns:dc",
            AttributeKey::XmlnsHtml => "xmlns:html",
            AttributeKey::XmlnsiUslm => "xmlns:uslm",
            AttributeKey::XmlnsiXsi => "xmlns:xsi",
            AttributeKey::XsiSchemaLocation => "xsi:schemaLocation",
            AttributeKey::XmlLang => "xml:lang",
            AttributeKey::Id => "id",
            AttributeKey::Role => "role",
            AttributeKey::Value => "value",
            AttributeKey::StartValue => "startValue",
            AttributeKey::EndValue => "endValue",
            AttributeKey::Display => "display",
            AttributeKey::Class => "class",
            AttributeKey::Identifier => "identifier",
            AttributeKey::SenateId => "senateId",
            AttributeKey::Leaders => "leaders",
            AttributeKey::Title => "title",
            AttributeKey::Status => "status",
            AttributeKey::TemporalId => "temporalId",
            AttributeKey::Pos => "pos",
            AttributeKey::PosText => "posText",
            AttributeKey::PosCount => "posCount",
            AttributeKey::Idref => "idref",
            AttributeKey::Src => "src",
            AttributeKey::Note => "note",
            AttributeKey::Alt => "alt",
            AttributeKey::Meta => "meta",
            AttributeKey::Misc => "misc",
            AttributeKey::DraftingTip => "draftingTip",
            AttributeKey::CodificationTip => "codificationTip",
            AttributeKey::Brief => "brief",
            AttributeKey::SortOrder => "sortOrder",
            AttributeKey::Portion => "portion",
            AttributeKey::Occurrence => "occurrence",
            AttributeKey::CommencementDate => "commencementDate",
            AttributeKey::Date => "date",
            AttributeKey::BeginDate => "beginDate",
            AttributeKey::EndDate => "endDate",
            AttributeKey::StartPeriod => "startPeriod",
            AttributeKey::EndPeriod => "endPeriod",
            AttributeKey::Partial => "partial",
            AttributeKey::ColSpan => "colspan",
            AttributeKey::RowSpan => "rowspan",
            AttributeKey::Topic => "topic",
            AttributeKey::Orientation => "orientation",
        }
    }

    /// The shape of value that this key requires.
    pub fn shape(&self) -> (r: ValueShape)
        ensures
            r == self.spec_shape(),
    {
        match self {
            AttributeKey::Version => ValueShape::Version,
            AttributeKey::Encoding => ValueShape::Encoding,
            AttributeKey::Type => ValueShape::Mime,
            AttributeKey::Xmlns | AttributeKey::XmlBase | AttributeKey::XmlnsDc | AttributeKey::XmlnsHtml | AttributeKey::XmlnsiUslm | AttributeKey::XmlnsiXsi | AttributeKey::XsiSchemaLocation => ValueShape::Url,
            _ => ValueShape::Text,
        }
    }
}

impl<'s> View for Attribute<'s> {
    type V = AttributeView;

    open spec fn view(&self) -> AttributeView {
        match *self {
            Attribute::Version(x) => AttributeView { key: AttributeKey::Version, value: AttributeValue::Version(x) },
            Attribute::Encoding(x) => AttributeView { key: AttributeKey::Encoding, value: AttributeValue::Encoding(x) },
            Attribute::Name(x) => AttributeView { key: AttributeKey::Name, value: AttributeValue::Text(x@) },
            Attribute::Type(x) => AttributeView { key: AttributeKey::Type, value: AttributeValue::Mime(x@) },
            Attribute::Style(x) => AttributeView { key: AttributeKey::Style, value: AttributeValue::Text(x@) },
            Attribute::StyleType(x) => AttributeView { key: AttributeKey::StyleType, value: AttributeValue::Text(x@) },
            Attribute::Href(x) => AttributeView { key: AttributeKey::Href, value: AttributeValue::Text(x@) },
            Attribute::Xmlns(x) => AttributeView { key: AttributeKey::Xmlns, value: AttributeValue::Url(x@) },
            Attribute::XmlBase(x) => AttributeView { key: AttributeKey::XmlBase, value: AttributeValue::Url(x@) },
            Attribute::XmlnsDc(x) => AttributeView { key: AttributeKey::XmlnsDc, value: AttributeValue::Url(x@) },
            Attribute::XmlnsHtml(x) => AttributeView { key: AttributeKey::XmlnsHtml, value: AttributeValue::Url(x@) },
            Attribute::XmlnsiUslm(x) => AttributeView { key: AttributeKey::XmlnsiUslm, value: AttributeValue::Url(x@) },
            Attribute::XmlnsiXsi(x) => AttributeView { key: AttributeKey::XmlnsiXsi, value: AttributeValue::Url(x@) },
            Attribute::XsiSchemaLocation(x) => AttributeView { key: AttributeKey::XsiSchemaLocation, value: AttributeValue::Url(x@) },
            Attribute::XmlLang(x) => AttributeView { key: AttributeKey::XmlLang, value: AttributeValue::Text(x@) },
            Attribute::Id(x) => AttributeView { key: AttributeKey::Id, value: AttributeValue::Text(x@) },
            Attribute::Role(x) => AttributeView { key: AttributeKey::Role, value: AttributeValue::Text(x@) },
            Attribute::Value(x) => AttributeView { key: AttributeKey::Value, value: AttributeValue::Text(x@) },
            Attribute::StartValue(x) => AttributeView { key: AttributeKey::StartValue, value: AttributeValue::Text(x@) },
            Attribute::EndValue(x) => AttributeView { key: AttributeKey::EndValue, value: AttributeValue::Text(x@) },
            Attribute::Display(x) => AttributeView { key: AttributeKey::Display, value: AttributeValue::Text(x@) },
            Attribute::Class(x) => AttributeView { key: AttributeKey::Class, value: AttributeValue::Text(x@) },
            Attribute::Identifier(x) => AttributeView { key: AttributeKey::Identifier, value: AttributeValue::Text(x@) },
            Attribute::SenateId(x) => AttributeView { key: AttributeKey::SenateId, value: AttributeValue::Text(x@) },
            Attribute::Leaders(x) => AttributeView { key: AttributeKey::Leaders, value: AttributeValue::Text(x@) },
            Attribute::Title(x) => AttributeView { key: AttributeKey::Title, value: AttributeValue::Text(x@) },
            Attribute::Status(x) => AttributeView { key: AttributeKey::Status, value: AttributeValue::Text(x@) },
            Attribute::TemporalId(x) => AttributeView { key: AttributeKey::TemporalId, value: AttributeValue::Text(x@) },
            Attribute::Pos(x) => AttributeView { key: AttributeKey::Pos, value: AttributeValue::Text(x@) },
            Attribute::PosText(x) => AttributeView { key: AttributeKey::PosText, value: AttributeValue::Text(x@) },
            Attribute::PosCount(x) => AttributeView { key: AttributeKey::PosCount, value: AttributeValue::Text(x@) },
            Attribute::Idref(x) => AttributeView { key: AttributeKey::Idref, value: AttributeValue::Text(x@) },
            Attribute::Src(x) => AttributeView { key: AttributeKey::Src, value: AttributeValue::Text(x@) },
            Attribute::Note(x) => AttributeView { key: AttributeKey::Note, value: AttributeValue::Text(x@) },
            Attribute::Alt(x) => AttributeView { key: AttributeKey::Alt, value: AttributeValue::Text(x@) },
            Attribute::Meta(x) => AttributeView { key: AttributeKey::Meta, value: AttributeValue::Text(x@) },
            Attribute::Misc(x) => AttributeView { key: AttributeKey::Misc, value: AttributeValue::Text(x@) },
            Attribute::DraftingTip(x) => AttributeView { key: AttributeKey::DraftingTip, value: AttributeValue::Text(x@) },
            Attribute::CodificationTip(x) => AttributeView { key: AttributeKey::CodificationTip, value: AttributeValue::Text(x@) },
            Attribute::Brief(x) => AttributeView { key: AttributeKey::Brief, value: AttributeValue::Text(x@) },
            Attribute::SortOrder(x) => AttributeView { key: AttributeKey::SortOrder, value: AttributeValue::Text(x@) },
            Attribute::Portion(x) => AttributeView { key: AttributeKey::Portion, value: AttributeValue::Text(x@) },
            Attribute::Occurrence(x) => AttributeView { key: AttributeKey::Occurrence, value: AttributeValue::Text(x@) },
            Attribute::CommencementDate(x) => AttributeView { key: AttributeKey::CommencementDate, value: AttributeValue::Text(x@) },
            Attribute::Date(x) => AttributeView { key: AttributeKey::Date, value: AttributeValue::Text(x@) },
            Attribute::BeginDate(x) => AttributeView { key: AttributeKey::BeginDate, value: AttributeValue::Text(x@) },
            Attribute::EndDate(x) => AttributeView { key: AttributeKey::EndDate, value: AttributeValue::Text(x@) },
            Attribute::StartPeriod(x) => AttributeView { key: AttributeKey::StartPeriod, value: AttributeValue::Text(x@) },
            Attribute::EndPeriod(x) => AttributeView { key: AttributeKey::EndPeriod, value: AttributeValue::Text(x@) },
            Attribute::Partial(x) => AttributeView { key: AttributeKey::Partial, value: AttributeValue::Text(x@) },
            Attribute::ColSpan(x) => AttributeView { key: AttributeKey::ColSpan, value: AttributeValue::Text(x@) },
            Attribute::RowSpan(x) => AttributeView { key: AttributeKey::RowSpan, value: AttributeValue::Text(x@) },
            Attribute::Topic(x) => AttributeView { key: AttributeKey::Topic, value: AttributeValue::Text(x@) },
            Attribute::Orientation(x) => AttributeView { key: AttributeKey::Orientation, value: AttributeValue::Text(x@) },
        }
    }
}

/// The typed attribute for `key`, given the value's text and what the URL and
/// media-type parsers made of that text. Only the outcome that the key's shape
/// calls for is looked at.
pub open spec fn assemble(
    key: AttributeKey,
    value: Seq<char>,
    url: Option<Seq<char>>,
    mime: Option<Seq<char>>,
) -> Result<AttributeView, ErrorKind> {
    let typed = match key.spec_shape() {
        ValueShape::Text => Some(AttributeValue::Text(value)),
        ValueShape::Url => match url {
            Some(u) => Some(AttributeValue::Url(u)),
            None => None,
        },
        ValueShape::Mime => match mime {
            Some(m) => Some(AttributeValue::Mime(m)),
            None => None,
        },
        ValueShape::Version => match Version::resolve(value) {
            Some(v) => Some(AttributeValue::Version(v)),
            None => None,
        },
        ValueShape::Encoding => match Encoding::resolve(value) {
            Some(e) => Some(AttributeValue::Encoding(e)),
            None => None,
        },
    };
    match typed {
        Some(value) => Ok(AttributeView { key, value }),
        None => Err(ErrorKind::MalformedAttributeValue),
    }
}

/// The typed attribute for a raw pair: the key must be in the vocabulary and
/// the value must have the shape that the key requires.
pub open spec fn typed(key: Seq<char>, value: Seq<char>) -> Result<AttributeView, ErrorKind> {
    match AttributeKey::resolve(key) {
        Some(k) => assemble(k, value, url_parse(value), mime_parse(value)),
        None => Err(ErrorKind::UnknownAttributeKey),
    }
}

/// The typed attributes for the raw pairs from index `i` on, or the first
/// failure with the index of its pair.
pub open spec fn typed_from(pairs: Seq<(Seq<char>, Seq<char>)>, i: int) -> Result<
    Seq<AttributeView>,
    AttributeError,
>
    decreases pairs.len() - i,
{
    if 0 <= i < pairs.len() {
        match typed(pairs[i].0, pairs[i].1) {
            Ok(a) => match typed_from(pairs, i + 1) {
                Ok(rest) => Ok(seq![a] + rest),
                Err(e) => Err(e),
            },
            Err(kind) => Err(AttributeError { kind, index: i as usize }),
        }
    } else {
        Ok(Seq::empty())
    }
}

/// A failure names a pair of the list, at or behind the index where typing
/// started.
pub proof fn lemma_failure_index(pairs: Seq<(Seq<char>, Seq<char>)>, i: int)
    requires
        0 <= i,
        pairs.len() <= usize::MAX,
    ensures
        typed_from(pairs, i) matches Err(e) ==> i <= e.index < pairs.len(),
    decreases pairs.len() - i,
{
    if i < pairs.len() {
        lemma_failure_index(pairs, i + 1);
    }
}

/// The typed attributes for a list of raw pairs, or the first failure.
pub open spec fn typed_all(pairs: Seq<(Seq<char>, Seq<char>)>) -> Result<
    Seq<AttributeView>,
    AttributeError,
> {
    typed_from(pairs, 0)
}

/// Typing from index `i` on keeps the pairs in their places.
proof fn lemma_typed_from_keeps_order(pairs: Seq<(Seq<char>, Seq<char>)>, i: int)
    requires
        0 <= i <= pairs.len(),
        pairs.len() <= usize::MAX,
    ensures
        match typed_from(pairs, i) {
            Ok(v) => {
                &&& v.len() == pairs.len() - i
                &&& forall|k: int|
                    0 <= k < v.len() ==> typed(pairs[i + k].0, pairs[i + k].1) == Ok::<
                        AttributeView,
                        ErrorKind,
                    >(#[trigger] v[k])
            },
            Err(e) => {
                &&& i <= e.index < pairs.len()
                &&& typed(pairs[e.index as int].0, pairs[e.index as int].1) == Err::<
                    AttributeView,
                    ErrorKind,
                >(e.kind)
                &&& forall|j: int|
                    i <= j < e.index ==> (#[trigger] typed(pairs[j].0, pairs[j].1)) is Ok
            },
        },
    decreases pairs.len() - i,
{
    if i < pairs.len() {
        lemma_typed_from_keeps_order(pairs, i + 1);
        match typed(pairs[i].0, pairs[i].1) {
            Ok(a) => match typed_from(pairs, i + 1) {
                Ok(rest) => {
                    let v = seq![a] + rest;
                    assert forall|k: int| 0 <= k < v.len() implies typed(
                        pairs[i + k].0,
                        pairs[i + k].1,
                    ) == Ok::<AttributeView, ErrorKind>(#[trigger] v[k]) by {
                        if k > 0 {
                            assert(v[k] == rest[k - 1]);
                        }
                    }
                },
                Err(e) => {},
            },
            Err(kind) => {},
        }
    }
}

/// Typing keeps order and repetition. Where it succeeds, there is one
/// attribute for each pair, at the pair's index: the typing of that pair, under
/// the key that the pair names. Nothing is sorted and nothing is dropped, so a
/// key that occurs twice in the pairs occurs twice in the attributes. Where it
/// fails, the failure is that of the first pair that cannot be typed.
pub proof fn lemma_typing_keeps_order(pairs: Seq<(Seq<char>, Seq<char>)>)
    requires
        pairs.len() <= usize::MAX,
    ensures
        match typed_all(pairs) {
            Ok(v) => {
                &&& v.len() == pairs.len()
                &&& forall|i: int|
                    0 <= i < v.len() ==> typed(pairs[i].0, pairs[i].1) == Ok::<
                        AttributeView,
                        ErrorKind,
                    >(#[trigger] v[i]) && v[i].key.spec_name() == pairs[i].0
            },
            Err(e) => {
                &&& e.index < pairs.len()
                &&& typed(pairs[e.index as int].0, pairs[e.index as int].1) == Err::<
                    AttributeView,
                    ErrorKind,
                >(e.kind)
                &&& forall|j: int|
                    0 <= j < e.index ==> (#[trigger] typed(pairs[j].0, pairs[j].1)) is Ok
            },
        },
{
    lemma_typed_from_keeps_order(pairs, 0);
}

/// The views of a list of attributes, in order.
pub open spec fn attribute_views(v: Seq<Attribute>) -> Seq<AttributeView> {
    Seq::new(v.len(), |i: int| v[i]@)
}

/// `r` is the outcome `want`, read through the view.
pub open spec fn typed_as(r: Result<Attribute, ErrorKind>, want: Result<AttributeView, ErrorKind>) -> bool {
    match want {
        Ok(v) => r is Ok && r.unwrap()@ == v,
        Err(e) => r matches Err(x) && x == e,
    }
}

/// `r` is the outcome `want`, read through the view.
pub open spec fn typed_all_as(
    r: Result<Vec<Attribute>, AttributeError>,
    want: Result<Seq<AttributeView>, AttributeError>,
) -> bool {
    match want {
        Ok(v) => r is Ok && attribute_views(r.unwrap()@) == v,
        Err(e) => r matches Err(x) && x == e,
    }
}

impl<'s> Attribute<'s> {
    /// Puts a typed attribute together from its key, the text of its value,
    /// and the outcomes of the URL and media-type parsers on that text. Only
    /// the outcome that the key's shape calls for is used; the others may be
    /// `None`.
    pub fn typed(key: AttributeKey, value: &'s str, url: Option<Url>, mime: Option<Mime>) -> (r:
        Result<Attribute<'s>, ErrorKind>)
        ensures
            typed_as(r, assemble(key, value@, some_view(url), some_view(mime))),
    {
        match key {
            AttributeKey::Version => match Version::from_str(value) {
                Ok(x) => Ok(Attribute::Version(x)),
                Err(e) => Err(e),
            },
            AttributeKey::Encoding => match Encoding::from_str(value) {
                Ok(x) => Ok(Attribute::Encoding(x)),
                Err(e) => Err(e),
            },
            AttributeKey::Name => Ok(Attribute::Name(value)),
            AttributeKey::Type => match mime {
                Some(m) => Ok(Attribute::Type(m)),
                None => Err(ErrorKind::MalformedAttributeValue),
            },
            AttributeKey::Style => Ok(Attribute::Style(value)),
            AttributeKey::StyleType => Ok(Attribute::StyleType(value)),
            AttributeKey::Href => Ok(Attribute::Href(value)),
            AttributeKey::Xmlns => match url {
                Some(u) => Ok(Attribute::Xmlns(u)),
                None => Err(ErrorKind::MalformedAttributeValue),
            },
            AttributeKey::XmlBase => match url {
                Some(u) => Ok(Attribute::XmlBase(u)),
                None => Err(ErrorKind::MalformedAttributeValue),
            },
            AttributeKey::XmlnsDc => match url {
                Some(u) => Ok(Attribute::XmlnsDc(u)),
                None => Err(ErrorKind::MalformedAttributeValue),
            },
            AttributeKey::XmlnsHtml => match url {
                Some(u) => Ok(Attribute::XmlnsHtml(u)),
                None => Err(ErrorKind::MalformedAttributeValue),
            },
            AttributeKey::XmlnsiUslm => match url {
                Some(u) => Ok(Attribute::XmlnsiUslm(u)),
                None => Err(ErrorKind::MalformedAttributeValue),
            },
            AttributeKey::XmlnsiXsi => match url {
                Some(u) => Ok(Attribute::XmlnsiXsi(u)),
                None => Err(ErrorKind::MalformedAttributeValue),
            },
            AttributeKey::XsiSchemaLocation => match url {
                Some(u) => Ok(Attribute::XsiSchemaLocation(u)),
                None => Err(ErrorKind::MalformedAttributeValue),
            },
            AttributeKey::XmlLang => Ok(Attribute::XmlLang(value)),
            AttributeKey::Id => Ok(Attribute::Id(value)),
            AttributeKey::Role => Ok(Attribute::Role(value)),
            AttributeKey::Value => Ok(Attribute::Value(value)),
            AttributeKey::StartValue => Ok(Attribute::StartValue(value)),
            AttributeKey::EndValue => Ok(Attribute::EndValue(value)),
            AttributeKey::Display => Ok(Attribute::Display(value)),
            AttributeKey::Class => Ok(Attribute::Class(value)),
            AttributeKey::Identifier => Ok(Attribute::Identifier(value)),
            AttributeKey::SenateId => Ok(Attribute::SenateId(value)),
            AttributeKey::Leaders => Ok(Attribute::Leaders(value)),
            AttributeKey::Title => Ok(Attribute::Title(value)),
            AttributeKey::Status => Ok(Attribute::Status(value)),
            AttributeKey::TemporalId => Ok(Attribute::TemporalId(value)),
            AttributeKey::Pos => Ok(Attribute::Pos(value)),
            AttributeKey::PosText => Ok(Attribute::PosText(value)),
            AttributeKey::PosCount => Ok(Attribute::PosCount(value)),
            AttributeKey::Idref => Ok(Attribute::Idref(value)),
            AttributeKey::Src => Ok(Attribute::Src(value)),
            AttributeKey::Note => Ok(Attribute::Note(value)),
            AttributeKey::Alt => Ok(Attribute::Alt(value)),
            AttributeKey::Meta => Ok(Attribute::Meta(value)),
            AttributeKey::Misc => Ok(Attribute::Misc(value)),
            AttributeKey::DraftingTip => Ok(Attribute::DraftingTip(value)),
            AttributeKey::CodificationTip => Ok(Attribute::CodificationTip(value)),
            AttributeKey::Brief => Ok(Attribute::Brief(value)),
            AttributeKey::SortOrder => Ok(Attribute::SortOrder(value)),
            AttributeKey::Portion => Ok(Attribute::Portion(value)),
            AttributeKey::Occurrence => Ok(Attribute::Occurrence(value)),
            AttributeKey::CommencementDate => Ok(Attribute::CommencementDate(value)),
            AttributeKey::Date => Ok(Attribute::Date(value)),
            AttributeKey::BeginDate => Ok(Attribute::BeginDate(value)),
            AttributeKey::EndDate => Ok(Attribute::EndDate(value)),
            AttributeKey::StartPeriod => Ok(Attribute::StartPeriod(value)),
            AttributeKey::EndPeriod => Ok(Attribute::EndPeriod(value)),
            AttributeKey::Partial => Ok(Attribute::Partial(value)),
            AttributeKey::ColSpan => Ok(Attribute::ColSpan(value)),
            AttributeKey::RowSpan => Ok(Attribute::RowSpan(value)),
            AttributeKey::Topic => Ok(Attribute::Topic(value)),
            AttributeKey::Orientation => Ok(Attribute::Orientation(value)),
        }
    }

    /// The key of this attribute.
    pub fn key(&self) -> (r: AttributeKey)
        ensures
            r == self@.key,
    {
        match self {
            Attribute::Version(_) => AttributeKey::Version,
            Attribute::Encoding(_) => AttributeKey::Encoding,
            Attribute::Name(_) => AttributeKey::Name,
            Attribute::Type(_) => AttributeKey::Type,
            Attribute::Style(_) => AttributeKey::Style,
            Attribute::StyleType(_) => AttributeKey::StyleType,
            Attribute::Href(_) => AttributeKey::Href,
            Attribute::Xmlns(_) => AttributeKey::Xmlns,
            Attribute::XmlBase(_) => AttributeKey::XmlBase,
            Attribute::XmlnsDc(_) => AttributeKey::XmlnsDc,
            Attribute::XmlnsHtml(_) => AttributeKey::XmlnsHtml,
            Attribute::XmlnsiUslm(_) => AttributeKey::XmlnsiUslm,
            Attribute::XmlnsiXsi(_) => AttributeKey::XmlnsiXsi,
            Attribute::XsiSchemaLocation(_) => AttributeKey::XsiSchemaLocation,
            Attribute::XmlLang(_) => AttributeKey::XmlLang,
            Attribute::Id(_) => AttributeKey::Id,
            Attribute::Role(_) => AttributeKey::Role,
            Attribute::Value(_) => AttributeKey::Value,
            Attribute::StartValue(_) => AttributeKey::StartValue,
            Attribute::EndValue(_) => AttributeKey::EndValue,
            Attribute::Display(_) => AttributeKey::Display,
            Attribute::Class(_) => AttributeKey::Class,
            Attribute::Identifier(_) => AttributeKey::Identifier,
            Attribute::SenateId(_) => AttributeKey::SenateId,
            Attribute::Leaders(_) => AttributeKey::Leaders,
            Attribute::Title(_) => AttributeKey::Title,
            Attribute::Status(_) => AttributeKey::Status,
            Attribute::TemporalId(_) => AttributeKey::TemporalId,
            Attribute::Pos(_) => AttributeKey::Pos,
            Attribute::PosText(_) => AttributeKey::PosText,
            Attribute::PosCount(_) => AttributeKey::PosCount,
            Attribute::Idref(_) => AttributeKey::Idref,
            Attribute::Src(_) => AttributeKey::Src,
            Attribute::Note(_) => AttributeKey::Note,
            Attribute::Alt(_) => AttributeKey::Alt,
            Attribute::Meta(_) => AttributeKey::Meta,
            Attribute::Misc(_) => AttributeKey::Misc,
            Attribute::DraftingTip(_) => AttributeKey::DraftingTip,
            Attribute::CodificationTip(_) => AttributeKey::CodificationTip,
            Attribute::Brief(_) => AttributeKey::Brief,
            Attribute::SortOrder(_) => AttributeKey::SortOrder,
            Attribute::Portion(_) => AttributeKey::Portion,
            Attribute::Occurrence(_) => AttributeKey::Occurrence,
            Attribute::CommencementDate(_) => AttributeKey::CommencementDate,
            Attribute::Date(_) => AttributeKey::Date,
            Attribute::BeginDate(_) => AttributeKey::BeginDate,
            Attribute::EndDate(_) => AttributeKey::EndDate,
            Attribute::StartPeriod(_) => AttributeKey::StartPeriod,
            Attribute::EndPeriod(_) => AttributeKey::EndPeriod,
            Attribute::Partial(_) => AttributeKey::Partial,
            Attribute::ColSpan(_) => AttributeKey::ColSpan,
            Attribute::RowSpan(_) => AttributeKey::RowSpan,
            Attribute::Topic(_) => AttributeKey::Topic,
            Attribute::Orientation(_) => AttributeKey::Orientation,
        }
    }

    /// Types one raw pair: looks the key up and reads the value in the shape
    /// that the key requires.
    pub fn from_pair(key: &str, value: &'s str) -> (r: Result<Attribute<'s>, ErrorKind>)
        ensures
            typed_as(r, typed(key@, value@)),
    {
        match AttributeKey::from_str(key) {
            Ok(k) => match k.shape() {
                ValueShape::Url => Attribute::typed(k, value, Url::parse(value), None),
                ValueShape::Mime => Attribute::typed(k, value, None, Mime::parse(value)),
                _ => Attribute::typed(k, value, None, None),
            },
            Err(e) => Err(e),
        }
    }
}

/// Types a list of raw pairs, in order. The list that comes back has one
/// attribute for each pair, at the pair's index, repeated keys included. The
/// first pair whose key is unknown or whose value is malformed fails the
/// whole list, and the failure names its index.
pub fn type_attributes<'s>(pairs: &Vec<(&'s str, &'s str)>) -> (r: Result<
    Vec<Attribute<'s>>,
    AttributeError,
>)
    ensures
        typed_all_as(r, typed_all(crate::common::raw_texts(pairs@))),
{
    let ghost texts = crate::common::raw_texts(pairs@);
    let mut out: Vec<Attribute<'s>> = Vec::new();
    let mut i: usize = 0;
    while i < pairs.len()
        invariant
            i <= pairs@.len(),
            texts == crate::common::raw_texts(pairs@),
            out@.len() == i,
            typed_all(texts) == match typed_from(texts, i as int) {
                Ok(rest) => Ok::<Seq<AttributeView>, AttributeError>(attribute_views(out@) + rest),
                Err(e) => Err(e),
            },
        decreases pairs@.len() - i,
    {
        let (k, v) = pairs[i];
        match Attribute::from_pair(k, v) {
            Ok(a) => {
                let ghost before = attribute_views(out@);
                out.push(a);
                proof {
                    match typed_from(texts, i + 1) {
                        Ok(rest) => {
                            assert(before + (seq![a@] + rest) =~= attribute_views(out@) + rest);
                        },
                        Err(e) => {},
                    }
                }
            },
            Err(kind) => {
                return Err(AttributeError { kind, index: i });
            },
        }
        i += 1;
    }
    assert(attribute_views(out@) + Seq::<AttributeView>::empty() =~= attribute_views(out@));
    Ok(out)
}

/// Typing as a method of the list of raw pairs.
pub trait VecExt<'s>: Sized {
    /// The texts of the raw pairs.
    spec fn texts(&self) -> Seq<(Seq<char>, Seq<char>)>;

    /// Types the pairs, in order; see [`type_attributes`].
    fn into_attributes(self) -> (r: Result<Vec<Attribute<'s>>, AttributeError>)
        ensures
            typed_all_as(r, typed_all(self.texts())),
    ;
}

impl<'s> VecExt<'s> for Vec<(&'s str, &'s str)> {
    open spec fn texts(&self) -> Seq<(Seq<char>, Seq<char>)> {
        crate::common::raw_texts(self@)
    }

    fn into_attributes(self) -> (r: Result<Vec<Attribute<'s>>, AttributeError>) {
        type_attributes(&self)
    }
}

} // verus!
