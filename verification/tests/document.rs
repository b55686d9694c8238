use script_host::document::{Document, Node, Payload};
use script_host::error::HostError;

fn children_of(doc: &Document, id: usize) -> Vec<usize> {
    match doc.node(id) {
        Some(Node::Element { children, .. }) => children.clone(),
        other => panic!("node {} is no element: {:?}", id, other),
    }
}

#[test]
fn seed_has_three_nodes() {
    let doc = Document::seed();
    assert_eq!(doc.len(), 3);
    assert_eq!(
        doc.nodes[0],
        Node::Element {
            tag: "Document".to_string(),
            attributes: None,
            parent: 0,
            children: vec![2, 3],
        }
    );
    assert_eq!(
        doc.nodes[1],
        Node::Doctype {
            name: String::new(),
            public_id: String::new(),
            system_id: String::new(),
            parent: 0,
        }
    );
    assert_eq!(
        doc.nodes[2],
        Node::Element { tag: "html".to_string(), attributes: None, parent: 0, children: vec![] }
    );
}

#[test]
fn node_is_addressed_by_one_based_id() {
    let doc = Document::seed();
    assert_eq!(doc.node(0), None);
    assert_eq!(doc.node(1), Some(&doc.nodes[0]));
    assert_eq!(doc.node(3), Some(&doc.nodes[2]));
    assert_eq!(doc.node(4), None);
}

#[test]
fn insert_stores_the_slot_not_the_id() {
    let mut doc = Document::seed();
    assert_eq!(doc.insert(3, 4, 0, Payload::Text("hello".to_string())), Ok(true));
    assert_eq!(children_of(&doc, 3), vec![3]);
    assert_eq!(doc.node(4), Some(&Node::Text { content: "hello".to_string(), parent: 3 }));
}

#[test]
fn insert_then_remove_restores_the_child_list() {
    let mut doc = Document::seed();
    assert_eq!(doc.insert(3, 4, 0, Payload::Text("hello".to_string())), Ok(true));
    assert_eq!(doc.remove(4), Ok(3));
    assert_eq!(children_of(&doc, 3), Vec::<usize>::new());
    assert_eq!(doc.node(4), Some(&Node::Tombstone));
    assert_eq!(doc.len(), 4);
}

#[test]
fn removed_slot_is_reused_in_place() {
    let mut doc = Document::seed();
    assert_eq!(doc.insert(3, 4, 0, Payload::Text("first".to_string())), Ok(true));
    assert_eq!(doc.insert(3, 5, 1, Payload::Text("second".to_string())), Ok(true));
    assert_eq!(doc.remove(4), Ok(3));
    assert_eq!(doc.len(), 5);
    assert_eq!(doc.insert(3, 4, 0, Payload::Html("p".to_string())), Ok(true));
    assert_eq!(doc.len(), 5);
    assert_eq!(
        doc.node(4),
        Some(&Node::Element { tag: "p".to_string(), attributes: None, parent: 3, children: vec![] })
    );
    assert_eq!(children_of(&doc, 3), vec![3, 4]);
}

#[test]
fn insert_appends_at_the_next_id_and_overwrites_below() {
    let mut doc = Document::seed();
    assert_eq!(doc.insert(3, 4, 0, Payload::Text("new".to_string())), Ok(true));
    assert_eq!(doc.len(), 4);
    assert_eq!(doc.insert(3, 2, 0, Payload::Text("over".to_string())), Ok(true));
    assert_eq!(doc.len(), 4);
    assert_eq!(doc.node(2), Some(&Node::Text { content: "over".to_string(), parent: 3 }));
    assert_eq!(children_of(&doc, 3), vec![1, 3]);
}

#[test]
fn insert_splices_at_the_index() {
    let mut doc = Document::seed();
    assert_eq!(doc.insert(1, 4, 1, Payload::Doctype("html".to_string())), Ok(true));
    assert_eq!(children_of(&doc, 1), vec![2, 3, 3]);
    assert_eq!(doc.insert(1, 5, 3, Payload::Text("t".to_string())), Ok(true));
    assert_eq!(children_of(&doc, 1), vec![2, 3, 3, 4]);
    assert_eq!(doc.insert(1, 6, 0, Payload::Text("u".to_string())), Ok(true));
    assert_eq!(children_of(&doc, 1), vec![5, 2, 3, 3, 4]);
    assert_eq!(
        doc.node(4),
        Some(&Node::Doctype {
            name: "html".to_string(),
            public_id: String::new(),
            system_id: String::new(),
            parent: 1,
        })
    );
}

#[test]
fn insert_under_a_tombstone_links_nothing() {
    let mut doc = Document::seed();
    assert_eq!(doc.insert(3, 4, 0, Payload::Html("div".to_string())), Ok(true));
    assert_eq!(doc.remove(4), Ok(3));
    assert_eq!(doc.insert(4, 5, 0, Payload::Text("orphan".to_string())), Ok(false));
    assert_eq!(doc.len(), 5);
    assert_eq!(doc.node(4), Some(&Node::Tombstone));
    assert_eq!(doc.node(5), Some(&Node::Text { content: "orphan".to_string(), parent: 4 }));
}

#[test]
fn insert_into_its_own_parent_slot_links_nothing() {
    let mut doc = Document::seed();
    assert_eq!(doc.insert(3, 3, 0, Payload::Html("body".to_string())), Ok(false));
    assert_eq!(doc.len(), 3);
    assert_eq!(
        doc.node(3),
        Some(&Node::Element {
            tag: "body".to_string(),
            attributes: None,
            parent: 3,
            children: vec![],
        })
    );
}

#[test]
fn insert_faults_leave_the_document_alone() {
    let seed = Document::seed();
    let mut doc = Document::seed();
    // The parent is a doctype.
    assert_eq!(
        doc.insert(2, 4, 0, Payload::Text("x".to_string())),
        Err(HostError::InvariantViolation)
    );
    // The parent does not exist.
    assert_eq!(
        doc.insert(0, 4, 0, Payload::Text("x".to_string())),
        Err(HostError::InvariantViolation)
    );
    assert_eq!(
        doc.insert(4, 4, 0, Payload::Text("x".to_string())),
        Err(HostError::InvariantViolation)
    );
    // The id is neither an existing one nor the next.
    assert_eq!(
        doc.insert(3, 0, 0, Payload::Text("x".to_string())),
        Err(HostError::InvariantViolation)
    );
    assert_eq!(
        doc.insert(3, 5, 0, Payload::Text("x".to_string())),
        Err(HostError::InvariantViolation)
    );
    // The index is past the end of the child list.
    assert_eq!(
        doc.insert(3, 4, 1, Payload::Text("x".to_string())),
        Err(HostError::InvariantViolation)
    );
    assert_eq!(
        doc.insert(1, 4, 3, Payload::Text("x".to_string())),
        Err(HostError::InvariantViolation)
    );
    assert_eq!(doc, seed);
}

#[test]
fn remove_faults_leave_the_document_alone() {
    let seed = Document::seed();
    let mut doc = Document::seed();
    // No such node.
    assert_eq!(doc.remove(0), Err(HostError::InvariantViolation));
    assert_eq!(doc.remove(4), Err(HostError::InvariantViolation));
    // The nodes of the seed have no parent.
    assert_eq!(doc.remove(1), Err(HostError::InvariantViolation));
    assert_eq!(doc.remove(3), Err(HostError::InvariantViolation));
    assert_eq!(doc, seed);
}

#[test]
fn remove_faults_on_tombstone_and_on_a_parent_that_is_no_element() {
    let mut doc = Document::seed();
    assert_eq!(doc.insert(3, 4, 0, Payload::Text("a".to_string())), Ok(true));
    assert_eq!(doc.remove(4), Ok(3));
    assert_eq!(doc.remove(4), Err(HostError::InvariantViolation));
    // Node 5 goes under the element 3, which a text then replaces.
    assert_eq!(doc.insert(3, 5, 0, Payload::Text("b".to_string())), Ok(true));
    assert_eq!(doc.insert(1, 3, 0, Payload::Text("c".to_string())), Ok(true));
    let before = doc.clone();
    assert_eq!(doc.remove(5), Err(HostError::InvariantViolation));
    assert_eq!(doc, before);
}

#[test]
fn remove_takes_out_every_occurrence_and_keeps_the_order() {
    let mut doc = Document::seed();
    assert_eq!(doc.insert(1, 4, 0, Payload::Text("a".to_string())), Ok(true));
    assert_eq!(doc.insert(1, 4, 3, Payload::Text("b".to_string())), Ok(true));
    assert_eq!(children_of(&doc, 1), vec![3, 2, 3, 3]);
    assert_eq!(doc.insert(1, 5, 1, Payload::Text("c".to_string())), Ok(true));
    assert_eq!(children_of(&doc, 1), vec![3, 4, 2, 3, 3]);
    assert_eq!(doc.remove(4), Ok(1));
    assert_eq!(children_of(&doc, 1), vec![4, 2]);
}
