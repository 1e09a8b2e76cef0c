use uslm::attributes::Attribute;
use uslm::error::{ErrorKind, ParseError};
use uslm::tags::{
    closing_tag, dc, opening_tag, parse, parse_within, self_closing_tag, tag, tag_close, tag_open,
    tag_within, Appendix, Core, Dc, Doc, Generic, Level, Meta, Note, Other, Primitive, Property,
    Signature, Table, Tag, TagType, Title, MAX_DEPTH,
};

fn leaf<'s>(tag_type: TagType, content: &'s str) -> Tag<'s> {
    Tag { tag_type, attributes: vec![], content: Some(content), children: vec![] }
}

fn meta_children() -> Vec<Tag<'static>> {
    vec![
        Tag { tag_type: TagType::Meta(Meta::Dc(Dc::Title)), attributes: vec![], content: Some("110 S 2062 RIS: To amend the Native American Housing Assistance and Self-Determination Act of 1996 to reauthorize that Act, and for other purposes."), children: vec![] },
        Tag { tag_type: TagType::Meta(Meta::Dc(Dc::Type)), attributes: vec![], content: Some("Senate Bill"), children: vec![] },
        Tag { tag_type: TagType::Property(Property::DocNumber), attributes: vec![], content: Some("2062"), children: vec![] },
        Tag { tag_type: TagType::Meta(Meta::CitableAs), attributes: vec![], content: Some("110 S 2062 RIS"), children: vec![] },
        Tag { tag_type: TagType::Meta(Meta::CitableAs), attributes: vec![], content: Some("110s2062ris"), children: vec![] },
        Tag { tag_type: TagType::Meta(Meta::CitableAs), attributes: vec![], content: Some("110 S. 2062 RIS"), children: vec![] },
        Tag { tag_type: TagType::Meta(Meta::DocStage), attributes: vec![], content: Some("Referral Instructions Senate"), children: vec![] },
        Tag { tag_type: TagType::Meta(Meta::CurrentChamber), attributes: vec![], content: Some("SENATE"), children: vec![] },
        Tag { tag_type: TagType::Meta(Meta::Dc(Dc::Creator)), attributes: vec![], content: Some("United States Senate"), children: vec![] },
        Tag { tag_type: TagType::Meta(Meta::ProcessedBy), attributes: vec![], content: Some("GPO XPub Bill to USLM Generator, version 0.5 + manual changes"), children: vec![] },
        Tag { tag_type: TagType::Meta(Meta::ProcessedDate), attributes: vec![], content: Some("2024-09-09"), children: vec![] },
        Tag { tag_type: TagType::Meta(Meta::Dc(Dc::Publisher)), attributes: vec![], content: Some("United States Government Publishing Office"), children: vec![] },
        Tag { tag_type: TagType::Meta(Meta::Dc(Dc::Format)), attributes: vec![], content: Some("text/xml"), children: vec![] },
        Tag { tag_type: TagType::Meta(Meta::Dc(Dc::Language)), attributes: vec![], content: Some("EN"), children: vec![] },
        Tag { tag_type: TagType::Meta(Meta::Dc(Dc::Rights)), attributes: vec![], content: Some("Pursuant to Title 17 Section 105 of the United States Code, this file is not subject to copyright protection and is in the public domain."), children: vec![] },
        Tag { tag_type: TagType::Meta(Meta::Congress), attributes: vec![], content: Some("110"), children: vec![] },
        Tag { tag_type: TagType::Meta(Meta::Session), attributes: vec![], content: Some("1"), children: vec![] },
        Tag { tag_type: TagType::Meta(Meta::RelatedDocument), attributes: vec![Attribute::Role("report"), Attribute::Href("/us/srpt/110/238"), Attribute::Value("CRPT-110srpt238")], content: Some("[Report No. 110–238]"), children: vec![] },
        Tag { tag_type: TagType::Meta(Meta::PublicPrivate), attributes: vec![], content: Some("public"), children: vec![] },
    ]
}

#[test]
fn test_bill_block() {
    let mut input = r#"<bill>

        <meta><dc:title>110 S 2062 RIS: To amend the Native American Housing Assistance and Self-Determination Act of 1996 to reauthorize that Act, and for other purposes.</dc:title>
<dc:type>Senate Bill</dc:type>
<docNumber>2062</docNumber>
<citableAs>110 S 2062 RIS</citableAs>
<citableAs>110s2062ris</citableAs>
<citableAs>110 S. 2062 RIS</citableAs>
<docStage>Referral Instructions Senate</docStage>
<currentChamber>SENATE</currentChamber>
<dc:creator>United States Senate</dc:creator>
<processedBy>GPO XPub Bill to USLM Generator, version 0.5 + manual changes</processedBy>
<processedDate>2024-09-09</processedDate>
<dc:publisher>United States Government Publishing Office</dc:publisher>
<dc:format>text/xml</dc:format>
<dc:language>EN</dc:language>
<dc:rights>Pursuant to Title 17 Section 105 of the United States Code, this file is not subject to copyright protection and is in the public domain.</dc:rights>
<congress>110</congress>
<session>1</session>
<relatedDocument role="report" href="/us/srpt/110/238" value="CRPT-110srpt238">[Report No. 110–238]</relatedDocument>
<publicPrivate>public</publicPrivate>
</meta>

</bill>"#;

    let output = parse(&mut input).unwrap();

    assert_eq!(input, "");
    assert_eq!(
        output,
        vec![Tag {
            tag_type: TagType::Doc(Doc::Bill),
            attributes: vec![],
            content: None,
            children: vec![Tag {
                tag_type: TagType::Core(Core::Meta),
                attributes: vec![],
                content: None,
                children: meta_children(),
            }]
        }]
    )
}

#[test]
fn test_parse_meta_block() {
    let mut input = r#"<meta><dc:title>110 S 2062 RIS: To amend the Native American Housing Assistance and Self-Determination Act of 1996 to reauthorize that Act, and for other purposes.</dc:title>
<dc:type>Senate Bill</dc:type>
<docNumber>2062</docNumber>
<citableAs>110 S 2062 RIS</citableAs>
<citableAs>110s2062ris</citableAs>
<citableAs>110 S. 2062 RIS</citableAs>
<docStage>Referral Instructions Senate</docStage>
<currentChamber>SENATE</currentChamber>
<dc:creator>United States Senate</dc:creator>
<processedBy>GPO XPub Bill to USLM Generator, version 0.5 + manual changes</processedBy>
<processedDate>2024-09-09</processedDate>
<dc:publisher>United States Government Publishing Office</dc:publisher>
<dc:format>text/xml</dc:format>
<dc:language>EN</dc:language>
<dc:rights>Pursuant to Title 17 Section 105 of the United States Code, this file is not subject to copyright protection and is in the public domain.</dc:rights>
<congress>110</congress>
<session>1</session>
<relatedDocument role="report" href="/us/srpt/110/238" value="CRPT-110srpt238">[Report No. 110–238]</relatedDocument>
<publicPrivate>public</publicPrivate>
</meta>"#;

    let output = parse(&mut input).unwrap();

    assert_eq!(input, "");
    assert_eq!(
        output,
        vec![Tag {
            tag_type: TagType::Core(Core::Meta),
            attributes: vec![],
            content: None,
            children: meta_children(),
        }]
    )
}

#[test]
fn test_parse_meta_tags() {
    let mut input = r#"<dc:title>110 S 2062 RIS: To amend the Native American Housing Assistance and Self-Determination Act of 1996 to reauthorize that Act, and for other purposes.</dc:title>
<dc:type>Senate Bill</dc:type>
<docNumber>2062</docNumber>
<citableAs>110 S 2062 RIS</citableAs>
<citableAs>110s2062ris</citableAs>
<citableAs>110 S. 2062 RIS</citableAs>
<docStage>Referral Instructions Senate</docStage>
<currentChamber>SENATE</currentChamber>
<dc:creator>United States Senate</dc:creator>
<processedBy>GPO XPub Bill to USLM Generator, version 0.5 + manual changes</processedBy>
<processedDate>2024-09-09</processedDate>
<dc:publisher>United States Government Publishing Office</dc:publisher>
<dc:format>text/xml</dc:format>
<dc:language>EN</dc:language>
<dc:rights>Pursuant to Title 17 Section 105 of the United States Code, this file is not subject to copyright protection and is in the public domain.</dc:rights>
<congress>110</congress>
<session>1</session>
<relatedDocument role="report" href="/us/srpt/110/238" value="CRPT-110srpt238">[Report No. 110–238]</relatedDocument>
<publicPrivate>public</publicPrivate>"#;

    let output = parse(&mut input).unwrap();

    assert_eq!(input, "");
    assert_eq!(output, meta_children())
}

#[test]
fn test_parse_meta_tag_w_kvs_content() {
    let mut input = r#"<relatedDocument role="report" href="/us/srpt/110/238" value="CRPT-110srpt238">[Report No. 110–238]</relatedDocument>"#;

    let output = parse(&mut input).unwrap();

    assert_eq!(input, "");
    assert_eq!(
        output,
        vec![Tag {
            tag_type: TagType::Meta(Meta::RelatedDocument),
            attributes: vec![
                Attribute::Role("report"),
                Attribute::Href("/us/srpt/110/238"),
                Attribute::Value("CRPT-110srpt238")
            ],
            content: Some("[Report No. 110–238]"),
            children: vec![]
        },]
    )
}

#[test]
fn test_parse_tag() {
    let mut input = "<property name=&quot;docTitle&quot;>CONTENT</property>";

    let output = tag(&mut input).unwrap();

    assert_eq!(input, "");
    assert_eq!(
        output,
        Tag {
            tag_type: TagType::Core(Core::Property),
            attributes: vec![Attribute::Name("&quot;docTitle&quot;")],
            content: Some("CONTENT"),
            children: vec![],
        }
    )
}

#[test]
fn test_parse_meta_tag() {
    let mut input = "<meta></meta>";

    let output = tag(&mut input).unwrap();

    assert_eq!(input, "");
    assert_eq!(
        output,
        Tag {
            tag_type: TagType::Core(Core::Meta),
            attributes: vec![],
            content: None,
            children: vec![],
        }
    )
}

#[test]
fn test_parse_meta_tag_content() {
    let mut input = "<meta>CONTENT</meta>";

    let output = tag(&mut input).unwrap();

    assert_eq!(input, "");
    assert_eq!(
        output,
        Tag {
            tag_type: TagType::Core(Core::Meta),
            attributes: vec![],
            content: Some("CONTENT"),
            children: vec![],
        }
    )
}

#[test]
fn test_parse_self_closing() {
    let mut input = "/>";

    let output = self_closing_tag(&mut input).unwrap();

    assert_eq!(input, "");
    assert_eq!(output, vec![],)
}

#[test]
fn test_parse_open_tag() {
    let mut input = "<property";

    let output = opening_tag(&mut input).unwrap();

    assert_eq!(input, "");
    assert_eq!(output, TagType::Core(Core::Property));
}

#[test]
fn test_parse_close_tag() {
    let mut input = "</property>";

    let output = closing_tag(&mut input).unwrap();

    assert_eq!(input, "");
    assert_eq!(output, TagType::Core(Core::Property));
}

#[test]
fn test_dc() {
    let mut input = ":title";

    let output = dc(&mut input).unwrap();

    assert_eq!(input, "");
    assert_eq!(output, TagType::Meta(Meta::Dc(Dc::Title)),);
}

#[test]
fn test_dc_tag() {
    let mut input = "<dc:title></dc:title>";

    let output = tag(&mut input).unwrap();

    assert_eq!(input, "");
    assert_eq!(
        output,
        Tag {
            tag_type: TagType::Meta(Meta::Dc(Dc::Title)),
            attributes: vec![],
            content: None,
            children: vec![]
        }
    );
}

#[test]
fn test_dc_tag_example() {
    let mut input = "<dc:title>110 S 2062 RIS: To amend the Native American Housing Assistance and Self-Determination Act of 1996 to reauthorize that Act, and for other purposes.</dc:title>";

    let output = parse(&mut input).unwrap();

    assert_eq!(input, "");
    assert_eq!(
        output,
        vec![Tag {
            tag_type: TagType::Meta(Meta::Dc(Dc::Title)),
            attributes: vec![],
            content: Some("110 S 2062 RIS: To amend the Native American Housing Assistance and Self-Determination Act of 1996 to reauthorize that Act, and for other purposes."),
            children: vec![]
        }]
    );
}

#[test]
fn test_dc_tag_content() {
    let mut input = "<dc:title>CONTENT</dc:title>";

    let output = tag(&mut input).unwrap();

    assert_eq!(input, "");
    assert_eq!(
        output,
        Tag {
            tag_type: TagType::Meta(Meta::Dc(Dc::Title)),
            attributes: vec![],
            content: Some("CONTENT"),
            children: vec![]
        }
    );
}

#[test]
fn test_parse_open() {
    let mut input = " name=&quot;docTitle&quot;>";

    let output = tag_open(&mut input).unwrap();

    assert_eq!(input, "");
    assert_eq!(output, vec![("name", "&quot;docTitle&quot;")]);
}

#[test]
fn test_parse_open_multi() {
    let mut input = " name=&quot;docTitle&quot; second=tag>";

    let output = tag_open(&mut input).unwrap();

    assert_eq!(input, "");
    assert_eq!(
        output,
        vec![("name", "&quot;docTitle&quot;"), ("second", "tag")]
    );
}

#[test]
fn test_parse_close() {
    let mut input = "> CONTENT";

    let output = tag_close(&mut input).unwrap();

    assert_eq!(input, " CONTENT");
    assert_eq!(output, Vec::new());
}

#[test]
fn test_toc_columns() {
    let mut input = r#"<column>1.</column>               <column leaders=".">General Provisions</column>
        <column>101</column>"#;

    let output = parse(&mut input).unwrap();

    assert_eq!(input, "");
    assert_eq!(
        output,
        vec![
            Tag {
                tag_type: TagType::Generic(Generic::Column),
                attributes: vec![],
                content: Some("1."),
                children: vec![]
            },
            Tag {
                tag_type: TagType::Generic(Generic::Column),
                attributes: vec![Attribute::Leaders(".")],
                content: Some("General Provisions"),
                children: vec![]
            },
            Tag {
                tag_type: TagType::Generic(Generic::Column),
                attributes: vec![],
                content: Some("101"),
                children: vec![]
            },
        ]
    );
}

#[test]
fn test_toc_item() {
    let mut input = r#"<tocItem></tocItem>"#;

    let output = parse(&mut input).unwrap();

    assert_eq!(input, "");
    assert_eq!(
        output,
        vec![Tag {
            tag_type: TagType::Core(Core::TocItem),
            attributes: vec![],
            content: None,
            children: vec![],
        },]
    );
}

#[test]
fn test_law_doc() {
    let mut input = r#"<lawDoc xmlns="http://xml.house.gov/schemas/uslm/1.0" xsi:schemaLocation="http://xml.house.gov/schemas/uslm/1.0" xml:base="http://resolver.mydomain.com" identifier="/us/usc/t5">
</lawDoc>"#;

    let _output = parse(&mut input).unwrap();
    assert_eq!(input, "");
}

fn fails_with<T: std::fmt::Debug + PartialEq>(
    r: Result<T, ParseError>,
    kind: ErrorKind,
    offset: usize,
    len: usize,
) {
    assert_eq!(r, Err(ParseError { kind, offset, len }));
}

#[test]
fn self_closing_tag_has_no_content_and_no_children() {
    let mut input = "<meta/>rest";
    assert_eq!(
        tag(&mut input),
        Ok(Tag { tag_type: TagType::Core(Core::Meta), attributes: vec![], content: None, children: vec![] })
    );
    assert_eq!(input, "rest");

    let mut input = "<dc:date/>";
    assert_eq!(
        tag(&mut input),
        Ok(Tag { tag_type: TagType::Meta(Meta::Dc(Dc::Date)), attributes: vec![], content: None, children: vec![] })
    );
    assert_eq!(input, "");
}

#[test]
fn attributes_are_closed_by_a_plain_angle_bracket() {
    // After a pair sequence the grammar asks for `>`.
    let mut input = r#"<column leaders="."/>"#;
    fails_with(tag(&mut input), ErrorKind::LexError, 19, 0);
    assert_eq!(input, r#"<column leaders="."/>"#);
}

#[test]
fn tag_without_attributes_or_body() {
    for name in ["meta", "marker", "layout", "bill", "docNumber", "docTitle", "section", "def",
        "sourceCredit", "made", "schedule", "img", "table", "dc:type", "b"] {
        let text = format!("<{name}></{name}>");
        let mut input = text.as_str();
        let output = tag(&mut input).unwrap();
        assert_eq!(input, "");
        assert_eq!(output.tag_type.name(), name);
        assert_eq!(output.attributes, vec![]);
        assert_eq!(output.content, None);
        assert_eq!(output.children, vec![]);
    }
}

#[test]
fn tag_with_nested_tags_only() {
    let mut input = "<toc><tocItem/></toc>";
    assert_eq!(
        tag(&mut input),
        Ok(Tag {
            tag_type: TagType::Core(Core::Toc),
            attributes: vec![],
            content: None,
            children: vec![Tag {
                tag_type: TagType::Core(Core::TocItem),
                attributes: vec![],
                content: None,
                children: vec![]
            }],
        })
    );
    assert_eq!(input, "");
}

#[test]
fn tag_with_text_only() {
    for text in ["TEXT", "&quot;x&quot;", " x", "   ", "\n", "[Report No. 110–238]", "a=b+c, d"] {
        let source = format!("<heading>{text}</heading>");
        let mut input = source.as_str();
        assert_eq!(tag(&mut input), Ok(leaf(TagType::Core(Core::Heading), text)));
        assert_eq!(input, "");
    }
}

#[test]
fn tag_with_children_and_text() {
    let mut input = "<level><num>1</num> tail</level>";
    assert_eq!(
        tag(&mut input),
        Ok(Tag {
            tag_type: TagType::Core(Core::Level),
            attributes: vec![],
            content: Some("tail"),
            children: vec![leaf(TagType::Core(Core::Num), "1")],
        })
    );
    assert_eq!(input, "");
}

#[test]
fn whitespace_before_a_closing_tag_is_text() {
    let mut input = "<content>\n  </content>";
    assert_eq!(tag(&mut input), Ok(leaf(TagType::Primitive(Primitive::Content), "\n  ")));
}

#[test]
fn unknown_tag_name() {
    let mut input = "<bogus></bogus>";
    fails_with(tag(&mut input), ErrorKind::UnknownTagName, 1, 5);
    assert_eq!(input, "<bogus></bogus>");
    fails_with(parse(&mut input), ErrorKind::UnknownTagName, 1, 5);
    assert_eq!(input, "<bogus></bogus>");

    let mut input = "<dc:bogus/>";
    fails_with(tag(&mut input), ErrorKind::UnknownTagName, 4, 5);
    let mut input = "<meta><Meta/></meta>";
    fails_with(tag(&mut input), ErrorKind::UnknownTagName, 7, 4);
    let mut input = "<>";
    fails_with(tag(&mut input), ErrorKind::UnknownTagName, 1, 0);
    let mut input = "<meta></bogus>";
    fails_with(tag(&mut input), ErrorKind::UnknownTagName, 8, 5);
    let mut input = "</bogus>";
    fails_with(closing_tag(&mut input), ErrorKind::UnknownTagName, 2, 5);
    let mut input = "<bogus";
    fails_with(opening_tag(&mut input), ErrorKind::UnknownTagName, 1, 5);
}

#[test]
fn unknown_attribute_key() {
    let mut input = r#"<property bogus="x"></property>"#;
    fails_with(tag(&mut input), ErrorKind::UnknownAttributeKey, 10, 5);
    assert_eq!(input, r#"<property bogus="x"></property>"#);

    let mut input = r#"<property id="a" bogus="x"></property>"#;
    fails_with(tag(&mut input), ErrorKind::UnknownAttributeKey, 17, 5);
}

#[test]
fn malformed_attribute_value() {
    let mut input = r#"<bill id="a" xmlns="uslm"></bill>"#;
    fails_with(tag(&mut input), ErrorKind::MalformedAttributeValue, 20, 4);
    let mut input = "<bill version=2></bill>";
    fails_with(tag(&mut input), ErrorKind::MalformedAttributeValue, 14, 1);
    let mut input = r#"<img type="png"></img>"#;
    fails_with(tag(&mut input), ErrorKind::MalformedAttributeValue, 11, 3);
}

#[test]
fn unexpected_tag_shape() {
    let mut input = "<meta?>";
    fails_with(tag(&mut input), ErrorKind::UnexpectedTagShape, 5, 0);
    let mut input = "<meta";
    fails_with(tag(&mut input), ErrorKind::UnexpectedTagShape, 5, 0);
    let mut input = "<meta\n>";
    fails_with(tag(&mut input), ErrorKind::UnexpectedTagShape, 5, 0);
    let mut input = "<méta>";
    fails_with(tag(&mut input), ErrorKind::UnknownTagName, 1, 1);
}

#[test]
fn unterminated_tag() {
    let mut input = "<meta>";
    fails_with(tag(&mut input), ErrorKind::UnterminatedTag, 6, 0);
    let mut input = "<meta>text";
    fails_with(tag(&mut input), ErrorKind::UnterminatedTag, 10, 0);
    let mut input = "<meta><";
    fails_with(tag(&mut input), ErrorKind::UnknownTagName, 7, 0);
    let mut input = "<meta>text<";
    fails_with(tag(&mut input), ErrorKind::UnterminatedTag, 11, 0);
    let mut input = "<meta></meta";
    fails_with(tag(&mut input), ErrorKind::UnterminatedTag, 12, 0);
    let mut input = "<meta></dc";
    fails_with(tag(&mut input), ErrorKind::UnterminatedTag, 10, 0);
    let mut input = "<dc:title></dc:title";
    fails_with(tag(&mut input), ErrorKind::UnterminatedTag, 20, 0);
    let mut input = "";
    fails_with(closing_tag(&mut input), ErrorKind::UnterminatedTag, 0, 0);
}

#[test]
fn lexical_errors() {
    let mut input = "meta";
    fails_with(tag(&mut input), ErrorKind::LexError, 0, 0);
    fails_with(opening_tag(&mut input), ErrorKind::LexError, 0, 0);
    fails_with(closing_tag(&mut input), ErrorKind::LexError, 0, 0);
    fails_with(dc(&mut input), ErrorKind::LexError, 0, 0);
    fails_with(tag_close(&mut input), ErrorKind::LexError, 0, 0);
    fails_with(tag_open(&mut input), ErrorKind::LexError, 0, 0);
    fails_with(self_closing_tag(&mut input), ErrorKind::LexError, 0, 0);
    assert_eq!(input, "meta");

    let mut input = "<dc>";
    fails_with(tag(&mut input), ErrorKind::LexError, 3, 0);
    let mut input = r#"<toc title="Chapter 1"></toc>"#;
    fails_with(tag(&mut input), ErrorKind::LexError, 5, 0);
    let mut input = "<toc id=a";
    fails_with(tag(&mut input), ErrorKind::LexError, 9, 0);
    let mut input = "<toc/ >";
    fails_with(tag(&mut input), ErrorKind::LexError, 5, 0);
    let mut input = "<toc>text<b>x</b></toc>";
    fails_with(tag(&mut input), ErrorKind::LexError, 10, 0);
    let mut input = "<toc>a(b</toc>";
    fails_with(tag(&mut input), ErrorKind::LexError, 6, 0);
    let mut input = "<toc></toc >";
    fails_with(tag(&mut input), ErrorKind::LexError, 10, 0);
    let mut input = " id=a";
    fails_with(tag_open(&mut input), ErrorKind::LexError, 5, 0);
    let mut input = "/";
    fails_with(self_closing_tag(&mut input), ErrorKind::LexError, 1, 0);
}

#[test]
fn mismatched_closing_tag() {
    let mut input = "<meta></main>";
    fails_with(tag(&mut input), ErrorKind::MismatchedClosingTag, 6, 7);
    assert_eq!(input, "<meta></main>");
    let mut input = "<dc:title>x</dc:type>";
    fails_with(tag(&mut input), ErrorKind::MismatchedClosingTag, 11, 10);
    let mut input = "<toc><tocItem></toc></toc>";
    fails_with(tag(&mut input), ErrorKind::MismatchedClosingTag, 14, 6);
}

#[test]
fn nesting_is_bounded() {
    let mut input = "<toc><tocItem><column>1</column></tocItem></toc>";
    fails_with(tag_within(&mut input, 0), ErrorKind::NestingTooDeep, 0, 0);
    fails_with(tag_within(&mut input, 1), ErrorKind::NestingTooDeep, 5, 0);
    fails_with(tag_within(&mut input, 2), ErrorKind::NestingTooDeep, 14, 0);
    fails_with(parse_within(&mut input, 2), ErrorKind::NestingTooDeep, 14, 0);
    assert_eq!(input, "<toc><tocItem><column>1</column></tocItem></toc>");
    let output = tag_within(&mut input, 3).unwrap();
    assert_eq!(input, "");
    assert_eq!(output.children[0].children[0], leaf(TagType::Generic(Generic::Column), "1"));

    let deep = "<b>".repeat(MAX_DEPTH + 1) + &"</b>".repeat(MAX_DEPTH + 1);
    let mut input = deep.as_str();
    fails_with(tag(&mut input), ErrorKind::NestingTooDeep, 3 * MAX_DEPTH, 0);
    let fits = "<b>".repeat(MAX_DEPTH) + &"</b>".repeat(MAX_DEPTH);
    let mut input = fits.as_str();
    assert!(tag(&mut input).is_ok());
    assert_eq!(input, "");
    let mut input = "text";
    assert_eq!(parse_within(&mut input, 0), Ok(vec![]));
}

#[test]
fn sibling_sequence_ends_where_no_tag_starts() {
    let mut input = "  <b>x</b>\n<i>y</i>  </toc>";
    assert_eq!(
        parse(&mut input),
        Ok(vec![leaf(TagType::Generic(Generic::B), "x"), leaf(TagType::Generic(Generic::I), "y")])
    );
    assert_eq!(input, "</toc>");

    // Whitespace that no element follows is not consumed.
    let mut input = "  text";
    assert_eq!(parse(&mut input), Ok(vec![]));
    assert_eq!(input, "  text");
    let mut input = "";
    assert_eq!(parse(&mut input), Ok(vec![]));

    // A failure in an element fails the sequence, and nothing is consumed.
    let mut input = "<b>x</b><bogus/>";
    fails_with(parse(&mut input), ErrorKind::UnknownTagName, 9, 5);
    assert_eq!(input, "<b>x</b><bogus/>");
}

#[test]
fn failure_names_its_token() {
    let source = r#"<property id="a" bogus="x"></property>"#;
    let mut input = source;
    let error = tag(&mut input).unwrap_err();
    assert_eq!(error.token(source), Some("bogus"));
    let source = "<meta><naïve/></meta>";
    let mut input = source;
    let error = tag(&mut input).unwrap_err();
    assert_eq!(error, ParseError { kind: ErrorKind::UnknownTagName, offset: 7, len: 2 });
    assert_eq!(error.token(source), Some("na"));
    assert_eq!(error.token("short"), None);
    assert_eq!(ParseError { kind: ErrorKind::LexError, offset: 1, len: 1 }.token("é"), None);
    assert_eq!(ParseError { kind: ErrorKind::LexError, offset: 0, len: 0 }.token(""), Some(""));
}

#[test]
fn closing_tag_reads_simple_and_compound_names() {
    let mut input = "</dc:rights>x";
    assert_eq!(closing_tag(&mut input), Ok(TagType::Meta(Meta::Dc(Dc::Rights))));
    assert_eq!(input, "x");
    let mut input = "<dc:rights";
    assert_eq!(opening_tag(&mut input), Ok(TagType::Meta(Meta::Dc(Dc::Rights))));
    assert_eq!(input, "");
    let mut input = "<title id=a>";
    assert_eq!(opening_tag(&mut input), Ok(TagType::Level(Level::Title)));
    assert_eq!(input, " id=a>");
}

#[test]
fn resolving_a_name_twice_gives_the_same_tag() {
    for name in ["meta", "title", "date", "dc", "bogus", "", "table", "docPublicationName"] {
        assert_eq!(TagType::from_str(name), TagType::from_str(name));
    }
    assert_eq!(TagType::from_str("title"), Ok(TagType::Level(Level::Title)));
    assert_eq!(TagType::from_str("date"), Ok(TagType::Core(Core::Date)));
    assert_eq!(TagType::from_str("content"), Ok(TagType::Primitive(Primitive::Content)));
    assert_eq!(TagType::from_str("set"), Ok(TagType::Core(Core::SetElement)));
    assert_eq!(TagType::from_str("docPublicationName"), Ok(TagType::Property(Property::DocPublicationName)));
    assert_eq!(TagType::from_str("longTitle"), Ok(TagType::Title(Title::LongTitle)));
    assert_eq!(TagType::from_str("proviso"), Ok(TagType::Other(Other::Proviso)));
    assert_eq!(TagType::from_str("changeNote"), Ok(TagType::Note(Note::ChangeNote)));
    assert_eq!(TagType::from_str("approved"), Ok(TagType::Signature(Signature::Approved)));
    assert_eq!(TagType::from_str("schedule"), Ok(TagType::Appendix(Appendix::Schedule)));
    assert_eq!(TagType::from_str("img"), Ok(TagType::Meta(Meta::Img)));
    assert_eq!(TagType::from_str("th"), Ok(TagType::Table(Table::Th)));
    assert_eq!(TagType::from_str("dc"), Err(ErrorKind::UnknownTagName));
    assert_eq!(TagType::from_str("dc:title"), Err(ErrorKind::UnknownTagName));
    assert_eq!(Dc::from_str("title"), Ok(Dc::Title));
    assert_eq!(Dc::from_str("meta"), Err(ErrorKind::UnknownTagName));
    assert_eq!(Meta::from_str("dc"), Err(ErrorKind::UnknownTagName));
}

#[test]
fn names_map_back() {
    assert_eq!(TagType::Meta(Meta::Dc(Dc::Title)).name(), "dc:title");
    assert_eq!(TagType::Level(Level::Title).name(), "title");
    assert_eq!(TagType::Core(Core::SetElement).name(), "set");
    assert_eq!(TagType::Core(Core::QuotedContent).name(), "quotedContent");
    assert_eq!(Dc::Title.name(), "title");
    assert_eq!(Meta::DocPublicationName.name(), "docPublicationName");
    for name in ["lawDoc", "enactingFormula", "uscDoc", "docReleasePoint", "shortTitle",
        "reorganizationPlans", "reorganizationPlan", "continuation", "statutoryNote", "made",
        "schedule", "relatedDocument", "tr", "i"] {
        assert_eq!(TagType::from_str(name).unwrap().name(), name);
    }
}
