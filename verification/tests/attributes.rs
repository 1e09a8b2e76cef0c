use uslm::attributes::{
    type_attributes, Attribute, AttributeKey, Encoding, Mime, Url, ValueShape, VecExt, Version,
};
use uslm::common::kvs;
use uslm::error::{AttributeError, ErrorKind};

#[test]
fn doc_test_parse_attribute_kvs_single() {
    let mut input = r#"xmlns="http://schemas.gpo.gov/xml/uslm""#;

    let output = kvs(&mut input).unwrap();

    assert_eq!(input, "");
    assert_eq!(output, vec![("xmlns", "http://schemas.gpo.gov/xml/uslm")]);
}

#[test]
fn test_parse_attribute_single() {
    let mut input = r#"xmlns="http://schemas.gpo.gov/xml/uslm""#;

    let output = kvs(&mut input).unwrap().into_attributes().unwrap();

    assert_eq!(input, "");
    assert_eq!(
        output,
        vec![Attribute::Xmlns(
            Url::parse("http://schemas.gpo.gov/xml/uslm").unwrap()
        )]
    );
}

#[test]
fn test_parse_attribute_multiple() {
    let mut input = r#"xmlns="http://schemas.gpo.gov/xml/uslm" xmlns:dc="http://purl.org/dc/elements/1.1/""#;

    let output = kvs(&mut input).unwrap().into_attributes().unwrap();

    assert_eq!(input, "");
    assert_eq!(
        output,
        vec![
            Attribute::Xmlns(Url::parse("http://schemas.gpo.gov/xml/uslm").unwrap()),
            Attribute::XmlnsDc(Url::parse("http://purl.org/dc/elements/1.1/").unwrap())
        ]
    );
}

#[test]
fn version_and_encoding_tokens() {
    assert_eq!(Version::from_str("1.0"), Ok(Version::One));
    assert_eq!(Version::from_str("1.1"), Err(ErrorKind::MalformedAttributeValue));
    assert_eq!(Version::from_str(""), Err(ErrorKind::MalformedAttributeValue));
    assert_eq!(Encoding::from_str("UTF-8"), Ok(Encoding::Utf8));
    assert_eq!(Encoding::from_str("utf-8"), Err(ErrorKind::MalformedAttributeValue));
}

#[test]
fn url_is_what_the_url_crate_parses() {
    let ours = Url::parse("HTTP://Example.COM/a/../b").unwrap();
    let theirs = url::Url::parse("HTTP://Example.COM/a/../b").unwrap();
    assert_eq!(ours.as_str(), theirs.as_str());
    assert_eq!(ours.as_str(), "http://example.com/b");

    // The serialization is not the text that was handed in.
    assert_eq!(
        Url::parse("http://resolver.mydomain.com").unwrap().as_str(),
        "http://resolver.mydomain.com/"
    );

    assert_eq!(Url::parse("/us/usc/t5"), None);
    assert!(url::Url::parse("/us/usc/t5").is_err());
    assert_eq!(Url::parse(""), None);
}

#[test]
fn mime_is_what_the_mime_crate_parses() {
    let ours = Mime::parse("Text/CSS").unwrap();
    let theirs: mime::Mime = "Text/CSS".parse().unwrap();
    assert_eq!(ours.as_str(), theirs.as_ref());
    assert_eq!(ours.as_str(), "text/css");
    assert_eq!(ours.as_str(), mime::TEXT_CSS.as_ref());
    assert_eq!(ours, Mime::parse("text/css").unwrap());

    assert_eq!(Mime::parse("text"), None);
    assert!("text".parse::<mime::Mime>().is_err());
    assert_eq!(Mime::parse(""), None);
}

#[test]
fn keys_resolve_and_name_themselves() {
    assert_eq!(AttributeKey::from_str("xsi:schemaLocation"), Ok(AttributeKey::XsiSchemaLocation));
    assert_eq!(AttributeKey::from_str("colspan"), Ok(AttributeKey::ColSpan));
    assert_eq!(AttributeKey::from_str("colSpan"), Err(ErrorKind::UnknownAttributeKey));
    assert_eq!(AttributeKey::from_str(""), Err(ErrorKind::UnknownAttributeKey));
    for name in ["version", "encoding", "type", "xmlns", "xml:base", "xmlns:uslm", "id", "orientation"] {
        assert_eq!(AttributeKey::from_str(name).unwrap().name(), name);
    }
    assert_eq!(AttributeKey::Version.shape(), ValueShape::Version);
    assert_eq!(AttributeKey::Encoding.shape(), ValueShape::Encoding);
    assert_eq!(AttributeKey::Type.shape(), ValueShape::Mime);
    assert_eq!(AttributeKey::XmlBase.shape(), ValueShape::Url);
    assert_eq!(AttributeKey::Href.shape(), ValueShape::Text);
    assert_eq!(AttributeKey::StyleType.shape(), ValueShape::Text);
}

#[test]
fn a_pair_is_typed_by_its_key() {
    assert_eq!(Attribute::from_pair("role", "report"), Ok(Attribute::Role("report")));
    assert_eq!(Attribute::from_pair("version", "1.0"), Ok(Attribute::Version(Version::One)));
    assert_eq!(Attribute::from_pair("encoding", "UTF-8"), Ok(Attribute::Encoding(Encoding::Utf8)));
    assert_eq!(
        Attribute::from_pair("type", "text/css"),
        Ok(Attribute::Type(Mime::parse("text/css").unwrap()))
    );
    assert_eq!(
        Attribute::from_pair("xml:base", "http://resolver.mydomain.com"),
        Ok(Attribute::XmlBase(Url::parse("http://resolver.mydomain.com/").unwrap()))
    );
    // A text value is kept as written, even where it looks like a URL.
    assert_eq!(Attribute::from_pair("href", "HTTP://Example.COM"), Ok(Attribute::Href("HTTP://Example.COM")));
}

#[test]
fn an_unknown_key_is_an_error() {
    assert_eq!(Attribute::from_pair("bogus", "x"), Err(ErrorKind::UnknownAttributeKey));
    assert_eq!(
        vec![("bogus", "x")].into_attributes(),
        Err(AttributeError { kind: ErrorKind::UnknownAttributeKey, index: 0 })
    );
}

#[test]
fn a_malformed_value_is_an_error() {
    assert_eq!(Attribute::from_pair("version", "2.0"), Err(ErrorKind::MalformedAttributeValue));
    assert_eq!(Attribute::from_pair("encoding", "latin1"), Err(ErrorKind::MalformedAttributeValue));
    assert_eq!(Attribute::from_pair("type", "css"), Err(ErrorKind::MalformedAttributeValue));
    assert_eq!(Attribute::from_pair("xmlns", "uslm"), Err(ErrorKind::MalformedAttributeValue));
}

#[test]
fn typing_takes_the_outcome_that_the_key_calls_for() {
    let url = Url::parse("http://example.com/").unwrap();
    let mime = Mime::parse("text/css").unwrap();
    assert_eq!(
        Attribute::typed(AttributeKey::Xmlns, "ignored", Some(url.clone()), None),
        Ok(Attribute::Xmlns(url.clone()))
    );
    assert_eq!(
        Attribute::typed(AttributeKey::Xmlns, "http://example.com/", None, Some(mime.clone())),
        Err(ErrorKind::MalformedAttributeValue)
    );
    assert_eq!(
        Attribute::typed(AttributeKey::Type, "ignored", None, Some(mime.clone())),
        Ok(Attribute::Type(mime.clone()))
    );
    assert_eq!(
        Attribute::typed(AttributeKey::Type, "text/css", Some(url.clone()), None),
        Err(ErrorKind::MalformedAttributeValue)
    );
    assert_eq!(
        Attribute::typed(AttributeKey::Title, "Chapter 1", Some(url), Some(mime)),
        Ok(Attribute::Title("Chapter 1"))
    );
    assert_eq!(
        Attribute::typed(AttributeKey::Version, "1.0", None, None),
        Ok(Attribute::Version(Version::One))
    );
    assert_eq!(
        Attribute::typed(AttributeKey::Encoding, "1.0", None, None),
        Err(ErrorKind::MalformedAttributeValue)
    );
}

#[test]
fn typing_keeps_order_and_repeated_keys() {
    let pairs = vec![("value", "b"), ("role", "x"), ("value", "a"), ("value", "b"), ("id", "7")];
    assert_eq!(
        type_attributes(&pairs),
        Ok(vec![
            Attribute::Value("b"),
            Attribute::Role("x"),
            Attribute::Value("a"),
            Attribute::Value("b"),
            Attribute::Id("7"),
        ])
    );
    assert_eq!(Vec::<(&str, &str)>::new().into_attributes(), Ok(vec![]));
}

#[test]
fn typing_fails_at_the_first_bad_pair() {
    let pairs = vec![("id", "a"), ("version", "3"), ("bogus", "x")];
    assert_eq!(
        pairs.into_attributes(),
        Err(AttributeError { kind: ErrorKind::MalformedAttributeValue, index: 1 })
    );
    let pairs = vec![("id", "a"), ("id", "b"), ("bogus", "x"), ("version", "3")];
    assert_eq!(
        pairs.into_attributes(),
        Err(AttributeError { kind: ErrorKind::UnknownAttributeKey, index: 2 })
    );
}

#[test]
fn an_attribute_knows_its_key() {
    let pairs = vec![("xml:lang", "en"), ("version", "1.0"), ("xml:lang", "fr")];
    let typed = type_attributes(&pairs).unwrap();
    let keys: Vec<&str> = typed.iter().map(|a| a.key().name()).collect();
    assert_eq!(keys, vec!["xml:lang", "version", "xml:lang"]);
    assert_eq!(Attribute::Type(Mime::parse("text/css").unwrap()).key(), AttributeKey::Type);
}
