//! Checks of the description interpretation over hand-built document
//! trees, and of the header-record reader over hand-built bytes.

use aedat4::{
    build_registry, issue_error, parse_ioheader, DescriptionIssue, ParseError, StreamContent,
    XmlElement,
};

fn element(tag: &str, children: Vec<XmlElement>) -> XmlElement {
    XmlElement {
        is_element: true,
        tag: tag.to_string(),
        name_attribute: None,
        key_attribute: None,
        text: None,
        children,
    }
}

fn node(name: &str, children: Vec<XmlElement>) -> XmlElement {
    XmlElement {
        name_attribute: Some(name.to_string()),
        ..element("node", children)
    }
}

fn attr(key: &str, text: &str) -> XmlElement {
    XmlElement {
        key_attribute: Some(key.to_string()),
        text: Some(text.to_string()),
        ..element("attr", Vec::new())
    }
}

fn document(streams: Vec<XmlElement>) -> XmlElement {
    XmlElement {
        is_element: false,
        tag: String::new(),
        name_attribute: None,
        key_attribute: None,
        text: None,
        children: vec![element("dv", vec![node("outInfo", streams)])],
    }
}

#[test]
fn registry_from_a_plain_tree() {
    let root = document(vec![
        node("5", vec![attr("typeIdentifier", "TRIG")]),
        node(
            "6",
            vec![
                attr("typeIdentifier", "EVTS"),
                node("info", vec![attr("sizeX", "320"), attr("sizeY", "240")]),
            ],
        ),
    ]);
    let registry = build_registry(&root).unwrap();
    assert_eq!(registry.len(), 2);
    assert!(matches!(registry[&5].content, StreamContent::Triggers));
    assert_eq!((registry[&5].width, registry[&5].height), (0, 0));
    assert!(matches!(registry[&6].content, StreamContent::Events));
    assert_eq!((registry[&6].width, registry[&6].height), (320, 240));
}

#[test]
fn first_offending_node_decides_the_issue() {
    // The first stream node lacks its id; the second has an unsupported
    // code. The interpretation reads in document order, so the missing id
    // is the reported issue.
    let root = document(vec![
        element("node", vec![attr("typeIdentifier", "EVTS")]),
        node("1", vec![attr("typeIdentifier", "ZZZZ")]),
    ]);
    assert_eq!(build_registry(&root).unwrap_err(), DescriptionIssue::MissingStreamId);
}

#[test]
fn non_element_children_are_passed_over() {
    let stray = XmlElement {
        is_element: false,
        tag: String::new(),
        name_attribute: None,
        key_attribute: None,
        text: Some("stray text".to_string()),
        children: Vec::new(),
    };
    let root = document(vec![stray, node("9", vec![attr("typeIdentifier", "IMUS")])]);
    let registry = build_registry(&root).unwrap();
    assert_eq!(registry.len(), 1);
    assert!(registry.contains_key(&9));
}

#[test]
fn empty_type_identifier_is_an_issue() {
    let bare = XmlElement {
        key_attribute: Some("typeIdentifier".to_string()),
        ..element("attr", Vec::new())
    };
    let root = document(vec![node("0", vec![bare])]);
    assert_eq!(build_registry(&root).unwrap_err(), DescriptionIssue::EmptyTypeIdentifier);
}

#[test]
fn missing_type_identifier_is_an_issue() {
    let root = document(vec![node("0", Vec::new())]);
    assert_eq!(build_registry(&root).unwrap_err(), DescriptionIssue::MissingTypeIdentifier);
}

#[test]
fn unparseable_sizes_are_issues() {
    let root = document(vec![node(
        "0",
        vec![
            attr("typeIdentifier", "FRME"),
            node("info", vec![attr("sizeX", "wide"), attr("sizeY", "480")]),
        ],
    )]);
    assert_eq!(build_registry(&root).unwrap_err(), DescriptionIssue::BadSizeX);
    let root = document(vec![node(
        "0",
        vec![
            attr("typeIdentifier", "FRME"),
            node("info", vec![attr("sizeX", "640"), attr("sizeY", "70000")]),
        ],
    )]);
    assert_eq!(build_registry(&root).unwrap_err(), DescriptionIssue::BadSizeY);
    let root = document(vec![node(
        "0",
        vec![
            attr("typeIdentifier", "FRME"),
            node("info", vec![attr("sizeX", "640")]),
        ],
    )]);
    assert_eq!(build_registry(&root).unwrap_err(), DescriptionIssue::MissingSizeY);
}

#[test]
fn stream_id_bounds_follow_the_registry_type() {
    let root = document(vec![node("4294967295", vec![attr("typeIdentifier", "TRIG")])]);
    let registry = build_registry(&root).unwrap();
    assert!(registry.contains_key(&u32::MAX));
    let root = document(vec![node("4294967296", vec![attr("typeIdentifier", "TRIG")])]);
    assert_eq!(build_registry(&root).unwrap_err(), DescriptionIssue::BadStreamId);
}

#[test]
fn issue_messages_match_their_errors() {
    match issue_error(DescriptionIssue::DuplicateStreamId) {
        ParseError::General(message) => assert_eq!(message, "duplicated stream id"),
        other => panic!("unexpected error: {:?}", other),
    }
    match issue_error(DescriptionIssue::NoOutputNode) {
        ParseError::General(message) => {
            assert_eq!(message, "the description has no output node");
        }
        other => panic!("unexpected error: {:?}", other),
    }
    match issue_error(DescriptionIssue::UnsupportedType) {
        ParseError::UnsupportedStreamType(message) => {
            assert_eq!(message, "unsupported stream type");
        }
        other => panic!("unexpected error: {:?}", other),
    }
}

#[test]
fn empty_document_has_no_dv_node() {
    let root = XmlElement {
        is_element: false,
        tag: String::new(),
        name_attribute: None,
        key_attribute: None,
        text: None,
        children: Vec::new(),
    };
    assert_eq!(build_registry(&root).unwrap_err(), DescriptionIssue::NoDvNode);
}

#[test]
fn header_reader_agrees_with_the_schema_library() {
    let mut builder = flatbuffers::FlatBufferBuilder::new();
    let text = builder.create_string("<dv/>");
    let table = builder.start_table();
    builder.push_slot::<i32>(4, 3, 0);
    builder.push_slot::<i64>(6, 123456, -1);
    builder.push_slot_always(8, text);
    let root = builder.end_table(table);
    builder.finish_minimal(root);
    let body = builder.finished_data().to_vec();

    let header = parse_ioheader(&body).unwrap();
    assert_eq!(header.compression_code, 3);
    assert_eq!(header.file_data_position, 123456);
    assert_eq!(header.description.as_deref(), Some(b"<dv/>".as_slice()));
}

#[test]
fn header_reader_takes_defaults_for_absent_fields() {
    let mut builder = flatbuffers::FlatBufferBuilder::new();
    let table = builder.start_table();
    builder.push_slot::<i32>(4, 0, 0);
    builder.push_slot::<i64>(6, -1, -1);
    let root = builder.end_table(table);
    builder.finish_minimal(root);
    let body = builder.finished_data().to_vec();

    let header = parse_ioheader(&body).unwrap();
    assert_eq!(header.compression_code, 0);
    assert_eq!(header.file_data_position, -1);
    assert!(header.description.is_none());
}

/// A header record assembled by hand: root offset 14, vtable at 4 with
/// only the description slot set, table at 14, string at 22.
fn hand_built_header(description: &[u8]) -> Vec<u8> {
    let mut body = Vec::new();
    body.extend_from_slice(&14u32.to_le_bytes());
    body.extend_from_slice(&10u16.to_le_bytes()); // vtable size
    body.extend_from_slice(&20u16.to_le_bytes()); // table size
    body.extend_from_slice(&0u16.to_le_bytes()); // compression: default
    body.extend_from_slice(&0u16.to_le_bytes()); // end of data: default
    body.extend_from_slice(&4u16.to_le_bytes()); // description at table + 4
    body.extend_from_slice(&10i32.to_le_bytes()); // table: back to vtable
    body.extend_from_slice(&4u32.to_le_bytes()); // string at 18 + 4 = 22
    body.extend_from_slice(&(description.len() as u32).to_le_bytes());
    body.extend_from_slice(description);
    body
}

#[test]
fn header_reader_reads_a_hand_built_record() {
    let body = hand_built_header(b"<dv/>");
    let header = parse_ioheader(&body).unwrap();
    assert_eq!(header.compression_code, 0);
    assert_eq!(header.file_data_position, -1);
    assert_eq!(header.description.as_deref(), Some(b"<dv/>".as_slice()));
}

#[test]
fn header_reader_rejects_truncation() {
    let body = hand_built_header(b"<dv/>");
    assert!(parse_ioheader(&body).is_ok());
    for cut in [0, 1, 3, 10, 15, 21, body.len() - 1] {
        let truncated = body[..cut].to_vec();
        assert!(
            matches!(parse_ioheader(&truncated), Err(ParseError::FlatBuffer(_))),
            "cut {}",
            cut
        );
    }
}
