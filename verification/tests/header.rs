use uslm::attributes::{Attribute, Encoding, Mime, Version};
use uslm::common::inner;
use uslm::error::{ErrorKind, ParseError};
use uslm::header::{header_tag, Header, HeaderTag, HeaderTagType};

#[test]
fn test_xml_tag() {
    let input = r#"xml"#;

    let output = HeaderTagType::from_str(input).unwrap();

    assert_eq!(output, HeaderTagType::Xml);
}

#[test]
fn test_xml_stylesheet_tag() {
    let mut input = r#"xml-stylesheet"#;

    let output = HeaderTagType::from_str(inner(&mut input).unwrap()).unwrap();

    assert_eq!(input, "");
    assert_eq!(output, HeaderTagType::XmlStyleSheet);
}

#[test]
fn test_parse_header() {
    let mut input = r#"<?xml?>"#;

    let output = Header::parse(&mut input).unwrap();

    assert_eq!(input, "");
    assert_eq!(
        output,
        Header {
            tags: vec![HeaderTag {
                tag_type: HeaderTagType::Xml,
                attributes: vec![],
            }]
        }
    );
}

#[test]
fn test_parse_header_struct_xml() {
    let mut input = r#"<?xml version="1.0" encoding="UTF-8"?>"#;

    let output = Header::parse(&mut input).unwrap();

    assert_eq!(input, "");
    assert_eq!(
        output,
        Header {
            tags: vec![HeaderTag {
                tag_type: HeaderTagType::Xml,
                attributes: vec![
                    Attribute::Version(Version::One),
                    Attribute::Encoding(Encoding::Utf8)
                ],
            }]
        }
    );
}

#[test]
fn test_parse_header_struct_xml_stylesheet() {
    let mut input = r#"<?xml-stylesheet type="text/css" href="uslm.css"?>"#;

    let output = Header::parse(&mut input).unwrap();

    assert_eq!(input, "");
    assert_eq!(
        output,
        Header {
            tags: vec![HeaderTag {
                tag_type: HeaderTagType::XmlStyleSheet,
                attributes: vec![
                    Attribute::Type(Mime::parse("text/css").unwrap()),
                    Attribute::Href("uslm.css"),
                ]
            }]
        }
    );
}

#[test]
fn test_parse_multi_header() {
    let mut input = r#"<?xml version="1.0" encoding="UTF-8"?><?xml-stylesheet type="text/css" href="uslm.css"?>"#;

    let output = Header::parse(&mut input).unwrap();

    assert_eq!(
        output,
        Header {
            tags: vec![
                HeaderTag {
                    tag_type: HeaderTagType::Xml,
                    attributes: vec![
                        Attribute::Version(Version::One),
                        Attribute::Encoding(Encoding::Utf8)
                    ],
                },
                HeaderTag {
                    tag_type: HeaderTagType::XmlStyleSheet,
                    attributes: vec![
                        Attribute::Type(Mime::parse("text/css").unwrap()),
                        Attribute::Href("uslm.css"),
                    ]
                }
            ]
        }
    );
}

#[test]
fn header_names() {
    assert_eq!(HeaderTagType::from_str("xml-stylesheet"), Ok(HeaderTagType::XmlStyleSheet));
    assert_eq!(HeaderTagType::from_str("XML"), Err(ErrorKind::UnknownTagName));
    assert_eq!(HeaderTagType::Xml.name(), "xml");
    assert_eq!(HeaderTagType::XmlStyleSheet.name(), "xml-stylesheet");
}

#[test]
fn header_ends_where_no_entry_stands() {
    let mut input = "<bill></bill>";
    assert_eq!(Header::parse(&mut input), Ok(Header { tags: vec![] }));
    assert_eq!(input, "<bill></bill>");

    let mut input = "<?xml?> <?xml?>";
    assert_eq!(
        Header::parse(&mut input),
        Ok(Header { tags: vec![HeaderTag { tag_type: HeaderTagType::Xml, attributes: vec![] }] })
    );
    assert_eq!(input, " <?xml?>");

    // An entry that is not closed, or has no name, is no entry.
    let mut input = r#"<?xml?><?xml version="1.0">"#;
    assert_eq!(
        Header::parse(&mut input),
        Ok(Header { tags: vec![HeaderTag { tag_type: HeaderTagType::Xml, attributes: vec![] }] })
    );
    assert_eq!(input, r#"<?xml version="1.0">"#);
    let mut input = "<??>";
    assert_eq!(Header::parse(&mut input), Ok(Header { tags: vec![] }));
    assert_eq!(input, "<??>");
}

#[test]
fn broken_header_entry_is_an_error() {
    let mut input = "<?xml?><?php?>";
    assert_eq!(
        Header::parse(&mut input),
        Err(ParseError { kind: ErrorKind::UnknownTagName, offset: 9, len: 3 })
    );
    assert_eq!(input, "<?xml?><?php?>");

    let mut input = r#"<?xml version="1.1"?>"#;
    assert_eq!(
        Header::parse(&mut input),
        Err(ParseError { kind: ErrorKind::MalformedAttributeValue, offset: 15, len: 3 })
    );
    let mut input = r#"<?xml bogus="1.1"?>"#;
    assert_eq!(
        Header::parse(&mut input),
        Err(ParseError { kind: ErrorKind::UnknownAttributeKey, offset: 6, len: 5 })
    );
}

#[test]
fn header_tag_reads_name_and_attributes() {
    let mut input = r#"xml version="1.0"?>"#;
    assert_eq!(
        header_tag(&mut input),
        Ok(HeaderTag {
            tag_type: HeaderTagType::Xml,
            attributes: vec![Attribute::Version(Version::One)]
        })
    );
    assert_eq!(input, "?>");
    let mut input = "?>";
    assert_eq!(
        header_tag(&mut input),
        Err(ParseError { kind: ErrorKind::LexError, offset: 0, len: 0 })
    );
}
