use script_host::document::{Document, Node, Payload};
use script_host::edit::{apply_edit, interpret, on_layout_msg, Edit, EditOutcome};
use script_host::error::HostError;
use script_host::wire::{decode, has_short_digit_runs, read_edit, read_payload, EditMessage};

fn message(text: &str) -> json::JsonValue {
    json::parse(text).expect("the test's message is JSON")
}

fn element_children(doc: &Document, id: usize) -> Vec<usize> {
    match doc.node(id) {
        Some(Node::Element { children, .. }) => children.clone(),
        other => panic!("node {} is no element: {:?}", id, other),
    }
}

fn blank() -> EditMessage {
    EditMessage {
        opcode: None,
        target: None,
        nid: None,
        index: None,
        child: None,
        data: "null".to_string(),
    }
}

#[test]
fn id_index_duality() {
    let mut doc = Document::seed();
    let msg = message(r#"{"type":6,"target":3,"nid":4,"index":0,"child":"hello"}"#);
    assert_eq!(
        on_layout_msg(&mut doc, &msg),
        Ok(EditOutcome::Inserted { target: 3, nid: 4, index: 0, linked: true })
    );
    assert_eq!(element_children(&doc, 3), vec![3]);
    assert_ne!(element_children(&doc, 3), vec![4]);
}

#[test]
fn round_trip() {
    let mut doc = Document::seed();
    let insert = message(r#"{"type":6,"target":3,"nid":4,"index":0,"child":"hello"}"#);
    assert!(on_layout_msg(&mut doc, &insert).is_ok());
    let remove = message(r#"{"type":4,"target":4}"#);
    assert_eq!(on_layout_msg(&mut doc, &remove), Ok(EditOutcome::Removed { target: 4, parent: 3 }));
    assert_eq!(element_children(&doc, 3), Vec::<usize>::new());
    assert_eq!(doc.node(4), Some(&Node::Tombstone));
}

#[test]
fn slot_reuse_overwrite() {
    let mut doc = Document::seed();
    let insert = message(r#"{"type":6,"target":3,"nid":4,"index":0,"child":"hello"}"#);
    assert!(on_layout_msg(&mut doc, &insert).is_ok());
    let remove = message(r#"{"type":4,"target":4}"#);
    assert!(on_layout_msg(&mut doc, &remove).is_ok());
    assert_eq!(doc.len(), 4);
    assert_eq!(doc.node(4), Some(&Node::Tombstone));
    let again = message(r#"{"type":6,"target":3,"nid":4,"index":0,"child":{"html":"p"}}"#);
    assert_eq!(
        on_layout_msg(&mut doc, &again),
        Ok(EditOutcome::Inserted { target: 3, nid: 4, index: 0, linked: true })
    );
    assert_eq!(doc.len(), 4);
    assert_eq!(
        doc.node(4),
        Some(&Node::Element { tag: "p".to_string(), attributes: None, parent: 3, children: vec![] })
    );
}

#[test]
fn append_vs_overwrite_boundary() {
    let mut doc = Document::seed();
    let append = message(r#"{"type":6,"target":3,"nid":4,"index":0,"child":"a"}"#);
    assert!(on_layout_msg(&mut doc, &append).is_ok());
    assert_eq!(doc.len(), 4);
    // A smaller id overwrites a live doctype without a question.
    let overwrite = message(r#"{"type":6,"target":3,"nid":2,"index":1,"child":"b"}"#);
    assert!(on_layout_msg(&mut doc, &overwrite).is_ok());
    assert_eq!(doc.len(), 4);
    assert_eq!(doc.node(2), Some(&Node::Text { content: "b".to_string(), parent: 3 }));
    // One past the next id is out of reach.
    let beyond = message(r#"{"type":6,"target":3,"nid":6,"index":0,"child":"c"}"#);
    assert_eq!(on_layout_msg(&mut doc, &beyond), Err(HostError::InvariantViolation));
    assert_eq!(doc.len(), 4);
}

#[test]
fn payload_shapes() {
    assert_eq!(read_payload(&message(r#""text""#)), Some(Payload::Text("text".to_string())));
    assert_eq!(read_payload(&message(r#"{"html":"div"}"#)), Some(Payload::Html("div".to_string())));
    assert_eq!(
        read_payload(&message(r#"{"doctype":"html"}"#)),
        Some(Payload::Doctype("html".to_string()))
    );
    // `html` wins where both are strings; a `html` that is no string does not count.
    assert_eq!(
        read_payload(&message(r#"{"doctype":"d","html":"h"}"#)),
        Some(Payload::Html("h".to_string()))
    );
    assert_eq!(
        read_payload(&message(r#"{"html":1,"doctype":"d"}"#)),
        Some(Payload::Doctype("d".to_string()))
    );
    assert_eq!(read_payload(&message(r#"{"tag":"div"}"#)), None);
    assert_eq!(read_payload(&message("7")), None);
    assert_eq!(read_payload(&message("null")), None);
    assert_eq!(read_payload(&message(r#"["html"]"#)), None);
}

#[test]
fn fields_are_read_by_name() {
    let msg = message(r#"{"index":0,"nid":9,"target":3,"type":6,"child":{"html":"b"},"data":[1,"x"]}"#);
    assert_eq!(
        read_edit(&msg),
        EditMessage {
            opcode: Some(6),
            target: Some(3),
            nid: Some(9),
            index: Some(0),
            child: Some(Payload::Html("b".to_string())),
            data: r#"[1,"x"]"#.to_string(),
        }
    );
    assert_eq!(read_edit(&message("{}")), blank());
    assert_eq!(read_edit(&message("[6, 3]")), blank());
    // Counts have no sign, fraction or exponent.
    let odd = message(r#"{"type":-1,"target":1.5,"nid":"4","index":true}"#);
    assert_eq!(read_edit(&odd), blank());
}

#[test]
fn opcode_table() {
    let with = |opcode: usize| EditMessage {
        opcode: Some(opcode),
        target: Some(2),
        data: "\"v\"".to_string(),
        ..blank()
    };
    assert_eq!(
        interpret(with(1)),
        Ok(Edit::UpdateValue { target: 2, data: "\"v\"".to_string() })
    );
    assert_eq!(interpret(with(2)), Ok(Edit::MutateAttr { target: 2 }));
    assert_eq!(interpret(with(3)), Ok(Edit::RemoveAttr { target: 2 }));
    assert_eq!(interpret(with(4)), Ok(Edit::Remove { target: 2 }));
    assert_eq!(interpret(with(5)), Ok(Edit::Move { target: 2 }));
    assert_eq!(interpret(with(0)), Err(HostError::ProtocolError));
    assert_eq!(interpret(with(7)), Err(HostError::ProtocolError));
    assert_eq!(interpret(with(6)), Err(HostError::ProtocolError));
    let insert = EditMessage {
        nid: Some(4),
        index: Some(0),
        child: Some(Payload::Text("t".to_string())),
        ..with(6)
    };
    assert_eq!(
        interpret(insert.clone()),
        Ok(Edit::Insert { target: 2, nid: 4, index: 0, payload: Payload::Text("t".to_string()) })
    );
    assert_eq!(interpret(EditMessage { nid: None, ..insert.clone() }), Err(HostError::ProtocolError));
    assert_eq!(
        interpret(EditMessage { index: None, ..insert.clone() }),
        Err(HostError::ProtocolError)
    );
    assert_eq!(
        interpret(EditMessage { child: None, ..insert.clone() }),
        Err(HostError::ProtocolError)
    );
    assert_eq!(interpret(EditMessage { target: None, ..insert.clone() }), Err(HostError::ProtocolError));
    assert_eq!(interpret(EditMessage { opcode: None, ..insert }), Err(HostError::ProtocolError));
}

#[test]
fn placeholder_edits_change_nothing() {
    let seed = Document::seed();
    let mut doc = Document::seed();
    assert_eq!(
        on_layout_msg(&mut doc, &message(r#"{"type":1,"target":3,"data":"new text"}"#)),
        Ok(EditOutcome::UpdateValue { target: 3, data: "\"new text\"".to_string() })
    );
    assert_eq!(
        on_layout_msg(&mut doc, &message(r#"{"type":1,"target":3}"#)),
        Ok(EditOutcome::UpdateValue { target: 3, data: "null".to_string() })
    );
    assert_eq!(
        on_layout_msg(&mut doc, &message(r#"{"type":2,"target":3,"key":"class"}"#)),
        Ok(EditOutcome::MutateAttr { target: 3 })
    );
    assert_eq!(
        on_layout_msg(&mut doc, &message(r#"{"type":3,"target":99}"#)),
        Ok(EditOutcome::RemoveAttr { target: 99 })
    );
    assert_eq!(
        on_layout_msg(&mut doc, &message(r#"{"type":5,"target":2}"#)),
        Ok(EditOutcome::Move { target: 2 })
    );
    assert_eq!(doc, seed);
}

#[test]
fn malformed_messages_are_protocol_errors() {
    let seed = Document::seed();
    let mut doc = Document::seed();
    for text in [
        r#"{"type":4}"#,
        r#"{"target":3}"#,
        r#"{"type":"4","target":3}"#,
        r#"{"type":8,"target":3}"#,
        r#"{"type":6,"target":3,"nid":4,"index":0}"#,
        r#"{"type":6,"target":3,"nid":4,"index":0,"child":{"body":"x"}}"#,
        r#"{"type":6,"target":3,"index":0,"child":"x"}"#,
        r#"{"type":6,"target":3,"nid":4,"child":"x"}"#,
        r#"[4, 3]"#,
        r#""remove""#,
    ] {
        assert_eq!(on_layout_msg(&mut doc, &message(text)), Err(HostError::ProtocolError), "{}", text);
    }
    assert_eq!(doc, seed);
}

#[test]
fn edits_that_the_document_refuses_are_invariant_violations() {
    let seed = Document::seed();
    let mut doc = Document::seed();
    for text in [
        r#"{"type":4,"target":1}"#,
        r#"{"type":4,"target":9}"#,
        r#"{"type":4,"target":0}"#,
        r#"{"type":6,"target":2,"nid":4,"index":0,"child":"x"}"#,
        r#"{"type":6,"target":3,"nid":4,"index":2,"child":"x"}"#,
        r#"{"type":6,"target":7,"nid":4,"index":0,"child":"x"}"#,
    ] {
        assert_eq!(
            on_layout_msg(&mut doc, &message(text)),
            Err(HostError::InvariantViolation),
            "{}",
            text
        );
    }
    assert_eq!(doc, seed);
}

#[test]
fn apply_edit_reports_what_it_did() {
    let mut doc = Document::seed();
    assert_eq!(
        apply_edit(
            &mut doc,
            Edit::Insert { target: 1, nid: 4, index: 2, payload: Payload::Html("body".to_string()) }
        ),
        Ok(EditOutcome::Inserted { target: 1, nid: 4, index: 2, linked: true })
    );
    assert_eq!(element_children(&doc, 1), vec![2, 3, 3]);
    assert_eq!(
        apply_edit(&mut doc, Edit::Remove { target: 4 }),
        Ok(EditOutcome::Removed { target: 4, parent: 1 })
    );
    assert_eq!(element_children(&doc, 1), vec![2]);
    assert_eq!(
        apply_edit(&mut doc, Edit::Remove { target: 4 }),
        Err(HostError::InvariantViolation)
    );
}

#[test]
fn decode_takes_json_and_nothing_else() {
    assert_eq!(decode("{\"a\": [1, 2]}"), Some(message("{\"a\":[1,2]}")));
    assert_eq!(decode("17"), Some(json::JsonValue::from(17)));
    assert_eq!(decode(""), None);
    assert_eq!(decode("{\"a\": "), None);
    assert_eq!(decode("{a: 1}"), None);
    assert_eq!(decode("1 2"), None);
}

#[test]
fn long_digit_runs_are_not_decoded() {
    let ok = format!("0.{}", "0".repeat(32766));
    assert!(has_short_digit_runs(&ok));
    assert!(decode(&ok).is_some());
    let long = format!("0.{}1", "0".repeat(32767));
    assert!(!has_short_digit_runs(&long));
    assert_eq!(decode(&long), None);
    let quoted = format!("\"{}\"", "7".repeat(40000));
    assert!(!has_short_digit_runs(&quoted));
    assert_eq!(decode(&quoted), None);
    let split = format!("[{}]", vec!["1".repeat(30000); 3].join(","));
    assert!(has_short_digit_runs(&split));
    assert!(has_short_digit_runs(""));
    assert!(has_short_digit_runs("no digits, née"));
}

#[test]
fn counts_are_whole_numbers_written_plainly() {
    let count = |text: &str| read_edit(&message(&format!("{{\"target\":{}}}", text))).target;
    assert_eq!(count("0"), Some(0));
    assert_eq!(count("6"), Some(6));
    assert_eq!(count("6e0"), Some(6));
    assert_eq!(count("4294967295"), Some(4294967295));
    assert_eq!(count("6.0"), None);
    assert_eq!(count("6.5"), None);
    assert_eq!(count("60e-1"), None);
    assert_eq!(count("6e1"), None);
    assert_eq!(count("-6"), None);
    assert_eq!(count("-0"), None);
    assert_eq!(count("340282366920938463463374607431768211456"), None);
    assert_eq!(count("null"), None);
    assert_eq!(count("[6]"), None);
}

#[test]
fn texts_of_any_length_are_payloads() {
    let long = "x".repeat(100);
    assert_eq!(
        read_payload(&message(&format!("\"{}\"", long))),
        Some(Payload::Text(long.clone()))
    );
    assert_eq!(
        read_payload(&message(&format!("{{\"html\":\"{}\"}}", long))),
        Some(Payload::Html(long.clone()))
    );
    assert_eq!(read_payload(&message("\"\"")), Some(Payload::Text(String::new())));
    assert_eq!(
        read_payload(&message(r#""a \"quoted\" é line\n""#)),
        Some(Payload::Text("a \"quoted\" \u{e9} line\n".to_string()))
    );
}
