//! The document of one actor: an addressable arena of nodes.
//!
//! Nodes are addressed from outside by 1-based ids; inside, a node with id
//! `k` lives in slot `k - 1`.  A `parent` field holds an id (0 for "none"),
//! a child list holds slots.  Removing a node leaves a tombstone in its slot,
//! which a later insert may reuse.

use crate::error::HostError;
use vstd::prelude::*;

verus! {

/// One slot of a document.
#[derive(Clone, Debug, PartialEq, Eq)]
pub enum Node {
    Doctype { name: String, public_id: String, system_id: String, parent: usize },
    ProcessingInstruction { data: String, parent: usize },
    Text { content: String, parent: usize },
    Element {
        tag: String,
        /// The attributes, each a name with its value.  They stand for a
        /// mapping: in a well-formed node no name occurs twice.
        attributes: Option<Vec<(String, String)>>,
        parent: usize,
        children: Vec<usize>,
    },
    /// A removed node; the slot may be used again.
    Tombstone,
}

/// What a [`Node`] stands for.
pub enum NodeModel {
    Doctype { name: Seq<char>, public_id: Seq<char>, system_id: Seq<char>, parent: nat },
    ProcessingInstruction { data: Seq<char>, parent: nat },
    Text { content: Seq<char>, parent: nat },
    Element {
        tag: Seq<char>,
        attributes: Option<Seq<(Seq<char>, Seq<char>)>>,
        parent: nat,
        children: Seq<nat>,
    },
    Tombstone,
}

/// The slots of a child list as natural numbers.
pub open spec fn slots_model(slots: Seq<usize>) -> Seq<nat> {
    slots.map_values(|c: usize| c as nat)
}

/// An attribute list as pairs of texts.
pub open spec fn attributes_model(pairs: Seq<(String, String)>) -> Seq<(Seq<char>, Seq<char>)> {
    pairs.map_values(|p: (String, String)| (p.0@, p.1@))
}

/// No name occurs twice in an attribute list.
pub open spec fn names_distinct(pairs: Seq<(Seq<char>, Seq<char>)>) -> bool {
    forall|i: int, j: int| 0 <= i < j < pairs.len() ==> pairs[i].0 != pairs[j].0
}

/// A node is well formed: if it is an element with attributes, their names
/// are distinct.
pub open spec fn node_wf(node: NodeModel) -> bool {
    match node {
        NodeModel::Element { attributes: Some(pairs), .. } => names_distinct(pairs),
        _ => true,
    }
}

/// A document is well formed: each of its nodes is.  The links between
/// nodes are not part of this: whether a parent or a child list can be
/// followed is found out when an edit follows it.
pub open spec fn document_wf(doc: Seq<NodeModel>) -> bool {
    forall|i: int| 0 <= i < doc.len() ==> node_wf(#[trigger] doc[i])
}

impl View for Node {
    type V = NodeModel;

    open spec fn view(&self) -> NodeModel {
        match *self {
            Node::Doctype { name, public_id, system_id, parent } => NodeModel::Doctype {
                name: name@,
                public_id: public_id@,
                system_id: system_id@,
                parent: parent as nat,
            },
            Node::ProcessingInstruction { data, parent } => NodeModel::ProcessingInstruction {
                data: data@,
                parent: parent as nat,
            },
            Node::Text { content, parent } => NodeModel::Text {
                content: content@,
                parent: parent as nat,
            },
            Node::Element { tag, attributes, parent, children } => NodeModel::Element {
                tag: tag@,
                attributes: match attributes {
                    Some(pairs) => Some(attributes_model(pairs@)),
                    None => None,
                },
                parent: parent as nat,
                children: slots_model(children@),
            },
            Node::Tombstone => NodeModel::Tombstone,
        }
    }
}

/// An ordered, growable sequence of nodes.
#[derive(Clone, Debug, PartialEq, Eq)]
pub struct Document {
    pub nodes: Vec<Node>,
}

impl View for Document {
    type V = Seq<NodeModel>;

    open spec fn view(&self) -> Seq<NodeModel> {
        self.nodes@.map_values(|n: Node| n@)
    }
}

/// The document every actor starts from: the root element named
/// `Document` with the child list `[2, 3]`, an empty doctype with id 2 and
/// an `html` element with id 3.  None of the three has a parent.
pub open spec fn seed_model() -> Seq<NodeModel> {
    seq![
        NodeModel::Element {
            tag: "Document"@,
            attributes: None,
            parent: 0,
            children: seq![2nat, 3nat],
        },
        NodeModel::Doctype { name: seq![], public_id: seq![], system_id: seq![], parent: 0 },
        NodeModel::Element { tag: "html"@, attributes: None, parent: 0, children: seq![] },
    ]
}

/// What an insert carries for the node to be made.
#[derive(Clone, Debug, PartialEq, Eq)]
pub enum Payload {
    /// The content of a text node.
    Text(String),
    /// The tag of an element.
    Html(String),
    /// The name of a doctype.
    Doctype(String),
}

/// What a [`Payload`] stands for.
pub enum PayloadModel {
    Text(Seq<char>),
    Html(Seq<char>),
    Doctype(Seq<char>),
}

impl View for Payload {
    type V = PayloadModel;

    open spec fn view(&self) -> PayloadModel {
        match *self {
            Payload::Text(content) => PayloadModel::Text(content@),
            Payload::Html(tag) => PayloadModel::Html(tag@),
            Payload::Doctype(name) => PayloadModel::Doctype(name@),
        }
    }
}

/// The node that a payload makes under the parent with id `target`: a text
/// node, an element without attributes or children, or a doctype with empty
/// public and system ids.
pub open spec fn node_of(payload: PayloadModel, target: nat) -> NodeModel {
    match payload {
        PayloadModel::Text(content) => NodeModel::Text { content, parent: target },
        PayloadModel::Html(tag) => NodeModel::Element {
            tag,
            attributes: None,
            parent: target,
            children: seq![],
        },
        PayloadModel::Doctype(name) => NodeModel::Doctype {
            name,
            public_id: seq![],
            system_id: seq![],
            parent: target,
        },
    }
}

/// The id in the `parent` field of a node; 0 for a tombstone, which has none.
pub open spec fn parent_of(node: NodeModel) -> nat {
    match node {
        NodeModel::Doctype { parent, .. } => parent,
        NodeModel::ProcessingInstruction { parent, .. } => parent,
        NodeModel::Text { parent, .. } => parent,
        NodeModel::Element { parent, .. } => parent,
        NodeModel::Tombstone => 0,
    }
}

/// The child list of an element; empty for every other node.
pub open spec fn children_of(node: NodeModel) -> Seq<nat> {
    match node {
        NodeModel::Element { children, .. } => children,
        _ => seq![],
    }
}

/// The same element with another child list; any other node unchanged.
pub open spec fn with_children(node: NodeModel, children: Seq<nat>) -> NodeModel {
    match node {
        NodeModel::Element { tag, attributes, parent, children: _ } => NodeModel::Element {
            tag,
            attributes,
            parent,
            children,
        },
        other => other,
    }
}

/// Holds of every slot but `slot`.
pub open spec fn other_than(slot: nat) -> spec_fn(nat) -> bool {
    |c: nat| c != slot
}

/// A child list without any occurrence of `slot`, the rest in its order.
pub open spec fn without_slot(children: Seq<nat>, slot: nat) -> Seq<nat> {
    children.filter(other_than(slot))
}

/// A child list with `slot` put in at position `index`.
pub open spec fn spliced(children: Seq<nat>, index: nat, slot: nat) -> Seq<nat> {
    children.subrange(0, index as int) + seq![slot] + children.subrange(
        index as int,
        children.len() as int,
    )
}

/// The node with id `target` can be removed: it exists and is live, and
/// its parent is another node of the document that is an element.
pub open spec fn can_remove(doc: Seq<NodeModel>, target: nat) -> bool {
    &&& 1 <= target <= doc.len()
    &&& doc[target - 1] !is Tombstone
    &&& 1 <= parent_of(doc[target - 1]) <= doc.len()
    &&& parent_of(doc[target - 1]) != target
    &&& doc[parent_of(doc[target - 1]) - 1] is Element
}

/// The document after the node with id `target` is removed: a tombstone
/// in its slot, and its slot gone from the child list of its parent.
pub open spec fn removed(doc: Seq<NodeModel>, target: nat) -> Seq<NodeModel> {
    let parent = parent_of(doc[target - 1]);
    doc.update(target - 1, NodeModel::Tombstone).update(
        parent - 1,
        with_children(
            doc[parent - 1],
            without_slot(children_of(doc[parent - 1]), (target - 1) as nat),
        ),
    )
}

/// A node with id `nid` can be inserted under `target` at `index`: the
/// parent exists and is a tombstone or an element with at least `index`
/// children, and `nid` names an existing slot or the one after the last.
pub open spec fn can_insert(doc: Seq<NodeModel>, target: nat, nid: nat, index: nat) -> bool {
    &&& 1 <= target <= doc.len()
    &&& 1 <= nid <= doc.len() + 1
    &&& match doc[target - 1] {
        NodeModel::Element { children, .. } => index <= children.len(),
        NodeModel::Tombstone => true,
        _ => false,
    }
}

/// The document with `node` in the slot of id `nid`: appended where `nid`
/// is one past the last id, else in place of whatever the slot held.
pub open spec fn placed(doc: Seq<NodeModel>, nid: nat, node: NodeModel) -> Seq<NodeModel> {
    if nid == doc.len() + 1 {
        doc.push(node)
    } else {
        doc.update(nid - 1, node)
    }
}

/// An insert of `nid` under `target` enters the new node in a child list:
/// the parent is an element, and not the node whose slot the insert takes.
pub open spec fn links(doc: Seq<NodeModel>, target: nat, nid: nat) -> bool {
    doc[target - 1] is Element && target != nid
}

/// The document after an insert.  The parent is the node that had the id
/// `target` before the new node took its slot.
pub open spec fn inserted(
    doc: Seq<NodeModel>,
    target: nat,
    nid: nat,
    index: nat,
    payload: PayloadModel,
) -> Seq<NodeModel> {
    let with_node = placed(doc, nid, node_of(payload, target));
    if links(doc, target, nid) {
        with_node.update(
            target - 1,
            with_children(
                doc[target - 1],
                spliced(children_of(doc[target - 1]), index, (nid - 1) as nat),
            ),
        )
    } else {
        with_node
    }
}

impl Document {
    /// Builds the document every actor starts from.
    pub fn seed() -> (r: Document)
        ensures
            r@ == seed_model(),
            document_wf(r@),
    {
        let mut root_children: Vec<usize> = Vec::new();
        root_children.push(2);
        root_children.push(3);
        let mut nodes: Vec<Node> = Vec::new();
        nodes.push(
            Node::Element {
                tag: "Document".to_owned(),
                attributes: None,
                parent: 0,
                children: root_children,
            },
        );
        nodes.push(
            Node::Doctype {
                name: String::new(),
                public_id: String::new(),
                system_id: String::new(),
                parent: 0,
            },
        );
        nodes.push(
            Node::Element {
                tag: "html".to_owned(),
                attributes: None,
                parent: 0,
                children: Vec::new(),
            },
        );
        let r = Document { nodes };
        assert(slots_model(root_children@) =~= seq![2nat, 3nat]);
        assert(slots_model(Seq::<usize>::empty()) =~= Seq::<nat>::empty());
        assert(r@ =~= seed_model());
        r
    }

    /// The number of slots, removed ones included.
    pub fn len(&self) -> (r: usize)
        ensures
            r == self@.len(),
    {
        self.nodes.len()
    }

    /// The node with the given id, if the document has such a slot.
    pub fn node(&self, id: usize) -> (r: Option<&Node>)
        ensures
            r is Some <==> 1 <= id <= self@.len(),
            r is Some ==> *r->Some_0 == self.nodes@[id - 1],
    {
        if 1 <= id && id <= self.nodes.len() {
            Some(&self.nodes[id - 1])
        } else {
            None
        }
    }

    /// Removes the node with id `target`: its slot becomes a tombstone and
    /// leaves the child list of its parent.  Returns the parent's id.  Where
    /// the node cannot be removed the document stays as it is.
    pub fn remove(&mut self, target: usize) -> (r: Result<usize, HostError>)
        ensures
            can_remove(old(self)@, target as nat) ==> r == Ok::<usize, HostError>(
                parent_of(old(self)@[target - 1]) as usize,
            ) && final(self)@ == removed(old(self)@, target as nat),
            !can_remove(old(self)@, target as nat) ==> r == Err::<usize, HostError>(
                HostError::InvariantViolation,
            ) && *final(self) == *old(self),
            document_wf(old(self)@) ==> document_wf(final(self)@),
    {
        let len = self.nodes.len();
        if target == 0 || target > len {
            return Err(HostError::InvariantViolation);
        }
        let parent = match &self.nodes[target - 1] {
            Node::Doctype { parent, .. } => *parent,
            Node::ProcessingInstruction { parent, .. } => *parent,
            Node::Text { parent, .. } => *parent,
            Node::Element { parent, .. } => *parent,
            Node::Tombstone => {
                return Err(HostError::InvariantViolation);
            },
        };
        if parent == 0 || parent > len || parent == target {
            return Err(HostError::InvariantViolation);
        }
        match &self.nodes[parent - 1] {
            Node::Element { .. } => {},
            _ => {
                return Err(HostError::InvariantViolation);
            },
        }
        self.nodes[target - 1] = Node::Tombstone;
        match &mut self.nodes[parent - 1] {
            Node::Element { children, .. } => {
                let kept = without(children, target - 1);
                *children = kept;
            },
            _ => {},
        }
        assert(self@ =~= removed(old(self)@, target as nat));
        proof {
            if document_wf(old(self)@) {
                lemma_removed_keeps_wf(old(self)@, target as nat);
            }
        }
        Ok(parent)
    }

    /// Inserts a node made from `payload` with id `nid` under the parent
    /// with id `target`.  Where `nid` is one past the last id the document
    /// grows by one slot; else the new node takes the slot of `nid`, whatever
    /// it held.  The parent is looked up before that: if it is an element,
    /// and not the node just replaced, the new slot enters its child list at
    /// `index`; a tombstone as parent is let pass and nothing is linked.
    /// Returns whether the node was linked.  On an error the document stays
    /// as it is.
    pub fn insert(&mut self, target: usize, nid: usize, index: usize, payload: Payload) -> (r:
        Result<bool, HostError>)
        ensures
            can_insert(old(self)@, target as nat, nid as nat, index as nat) ==> r == Ok::<
                bool,
                HostError,
            >(links(old(self)@, target as nat, nid as nat)) && final(self)@ == inserted(
                old(self)@,
                target as nat,
                nid as nat,
                index as nat,
                payload@,
            ),
            !can_insert(old(self)@, target as nat, nid as nat, index as nat) ==> r == Err::<
                bool,
                HostError,
            >(HostError::InvariantViolation) && *final(self) == *old(self),
            document_wf(old(self)@) ==> document_wf(final(self)@),
    {
        let len = self.nodes.len();
        if target == 0 || target > len || nid == 0 || nid - 1 > len {
            return Err(HostError::InvariantViolation);
        }
        let linked = match &self.nodes[target - 1] {
            Node::Element { children, .. } => {
                if index > children.len() {
                    return Err(HostError::InvariantViolation);
                }
                target != nid
            },
            Node::Tombstone => false,
            _ => {
                return Err(HostError::InvariantViolation);
            },
        };
        let node = make_node(payload, target);
        if nid - 1 == len {
            self.nodes.push(node);
        } else {
            self.nodes[nid - 1] = node;
        }
        if linked {
            match &mut self.nodes[target - 1] {
                Node::Element { children, .. } => {
                    let ghost earlier = children@;
                    children.insert(index, nid - 1);
                    assert(slots_model(children@) =~= spliced(
                        slots_model(earlier),
                        index as nat,
                        (nid - 1) as nat,
                    ));
                },
                _ => {},
            }
        }
        assert(self@ =~= inserted(
            old(self)@,
            target as nat,
            nid as nat,
            index as nat,
            payload@,
        ));
        proof {
            if document_wf(old(self)@) {
                lemma_inserted_keeps_wf(
                    old(self)@,
                    target as nat,
                    nid as nat,
                    index as nat,
                    payload@,
                );
            }
        }
        Ok(linked)
    }
}

/// Makes the node that `payload` describes under the parent `target`.
fn make_node(payload: Payload, target: usize) -> (r: Node)
    ensures
        r@ == node_of(payload@, target as nat),
{
    match payload {
        Payload::Text(content) => Node::Text { content, parent: target },
        Payload::Html(tag) => {
            let r = Node::Element { tag, attributes: None, parent: target, children: Vec::new() };
            assert(slots_model(Seq::<usize>::empty()) =~= Seq::<nat>::empty());
            r
        },
        Payload::Doctype(name) => Node::Doctype {
            name,
            public_id: String::new(),
            system_id: String::new(),
            parent: target,
        },
    }
}

/// Copies a child list, leaving out every occurrence of `slot`.
fn without(children: &Vec<usize>, slot: usize) -> (r: Vec<usize>)
    ensures
        slots_model(r@) == without_slot(slots_model(children@), slot as nat),
{
    let mut kept: Vec<usize> = Vec::new();
    let mut i: usize = 0;
    proof {
        reveal(Seq::filter);
        assert(slots_model(children@.subrange(0, 0)) =~= Seq::<nat>::empty());
        assert(slots_model(kept@) =~= Seq::<nat>::empty());
    }
    while i < children.len()
        invariant
            i <= children.len(),
            slots_model(kept@) == without_slot(
                slots_model(children@.subrange(0, i as int)),
                slot as nat,
            ),
        decreases children.len() - i,
    {
        let c = children[i];
        proof {
            let before = slots_model(children@.subrange(0, i as int));
            assert(slots_model(children@.subrange(0, i + 1)) =~= before.push(c as nat));
            before.lemma_filter_push(c as nat, other_than(slot as nat));
        }
        if c != slot {
            let ghost earlier = kept@;
            kept.push(c);
            assert(slots_model(kept@) =~= slots_model(earlier).push(c as nat));
        }
        i = i + 1;
    }
    assert(children@.subrange(0, i as int) =~= children@);
    kept
}

/// Removing a node leaves a well-formed document well formed.
pub proof fn lemma_removed_keeps_wf(doc: Seq<NodeModel>, target: nat)
    requires
        document_wf(doc),
        can_remove(doc, target),
    ensures
        document_wf(removed(doc, target)),
{
    let after = removed(doc, target);
    assert forall|i: int| 0 <= i < after.len() implies node_wf(#[trigger] after[i]) by {
        assert(node_wf(doc[i]));
    }
}

/// Inserting a node leaves a well-formed document well formed.
pub proof fn lemma_inserted_keeps_wf(
    doc: Seq<NodeModel>,
    target: nat,
    nid: nat,
    index: nat,
    payload: PayloadModel,
)
    requires
        document_wf(doc),
        can_insert(doc, target, nid, index),
    ensures
        document_wf(inserted(doc, target, nid, index, payload)),
{
    let after = inserted(doc, target, nid, index, payload);
    assert(node_wf(doc[target - 1]));
    assert forall|i: int| 0 <= i < after.len() implies node_wf(#[trigger] after[i]) by {
        if i < doc.len() {
            assert(node_wf(doc[i]));
        }
    }
}

/// Taking `slot` out of a child list leaves no occurrence of it, loses no
/// other slot and adds none.
pub proof fn lemma_without_slot_members(children: Seq<nat>, slot: nat)
    ensures
        !without_slot(children, slot).contains(slot),
        forall|c: nat|
            #[trigger] without_slot(children, slot).contains(c) <==> children.contains(c) && c
                != slot,
        without_slot(children, slot).len() <= children.len(),
{
    children.lemma_filter_len(other_than(slot));
    let kept = without_slot(children, slot);
    assert forall|c: nat| #[trigger] kept.contains(c) <==> children.contains(c) && c != slot by {
        if kept.contains(c) {
            let i = choose|i: int| 0 <= i < kept.len() && kept[i] == c;
            children.lemma_filter_pred(other_than(slot), i);
            children.lemma_filter_contains_rev(other_than(slot), c);
        }
        if children.contains(c) && c != slot {
            let i = choose|i: int| 0 <= i < children.len() && children[i] == c;
            children.lemma_filter_contains(other_than(slot), i);
        }
    }
}

/// Removing a node keeps the length of the document, leaves a tombstone in
/// the node's slot and takes that slot out of the child list of its parent.
/// No other slot changes, and the parent keeps everything but its child
/// list.
pub proof fn lemma_remove_touches_two_slots(doc: Seq<NodeModel>, target: nat)
    requires
        can_remove(doc, target),
    ensures
        ({
            let after = removed(doc, target);
            let parent = parent_of(doc[target - 1]);
            &&& after.len() == doc.len()
            &&& after[target - 1] is Tombstone
            &&& after[parent - 1] == with_children(doc[parent - 1], children_of(after[parent - 1]))
            &&& !children_of(after[parent - 1]).contains((target - 1) as nat)
            &&& forall|j: int|
                0 <= j < doc.len() && j != target - 1 && j != parent - 1 ==> after[j] == doc[j]
        }),
{
    let parent = parent_of(doc[target - 1]);
    lemma_without_slot_members(children_of(doc[parent - 1]), (target - 1) as nat);
}

/// A child list that does not hold `slot` loses nothing when `slot` is
/// taken out of it.
pub proof fn lemma_without_absent(children: Seq<nat>, slot: nat)
    requires
        !children.contains(slot),
    ensures
        without_slot(children, slot) == children,
    decreases children.len(),
{
    reveal(Seq::filter);
    if children.len() > 0 {
        let front = children.drop_last();
        assert forall|c: nat| front.contains(c) implies children.contains(c) by {
            let i = choose|i: int| 0 <= i < front.len() && front[i] == c;
            assert(children[i] == c);
        }
        lemma_without_absent(front, slot);
        assert(children[children.len() - 1] == children.last());
        assert(children.contains(children.last()));
        assert(front.push(children.last()) =~= children);
    }
}

proof fn lemma_split_joins(children: Seq<nat>, index: nat)
    requires
        index <= children.len(),
    ensures
        children.subrange(0, index as int) + children.subrange(
            index as int,
            children.len() as int,
        ) == children,
{
    let front = children.subrange(0, index as int);
    let back = children.subrange(index as int, children.len() as int);
    assert(front.len() == index);
    assert(back.len() == children.len() - index);
    assert((front + back).len() == children.len());
    assert forall|i: int| 0 <= i < children.len() implies (front + back)[i] == children[i] by {
        if i < index {
            assert(front[i] == children[i]);
        } else {
            assert(back[i - index] == children[i]);
        }
    }
    assert(front + back =~= children);
}

/// Taking `slot` out of a child list into which it was just put gives the
/// list back, if the list did not hold `slot` before.
pub proof fn lemma_splice_then_without(children: Seq<nat>, index: nat, slot: nat)
    requires
        index <= children.len(),
        !children.contains(slot),
    ensures
        without_slot(spliced(children, index, slot), slot) == children,
{
    let front = children.subrange(0, index as int);
    let back = children.subrange(index as int, children.len() as int);
    assert forall|c: nat| front.contains(c) implies children.contains(c) by {
        let i = choose|i: int| 0 <= i < front.len() && front[i] == c;
        assert(children[i] == c);
    }
    assert forall|c: nat| back.contains(c) implies children.contains(c) by {
        let i = choose|i: int| 0 <= i < back.len() && back[i] == c;
        assert(children[index + i] == c);
    }
    lemma_without_absent(front, slot);
    lemma_without_absent(back, slot);
    Seq::filter_distributes_over_add(front + seq![slot], back, other_than(slot));
    Seq::filter_distributes_over_add(front, seq![slot], other_than(slot));
    assert(seq![slot].filter(other_than(slot)) =~= Seq::<nat>::empty()) by {
        let none = Seq::<nat>::empty();
        none.lemma_filter_push(slot, other_than(slot));
        assert(none.push(slot) =~= seq![slot]);
        reveal(Seq::filter);
        assert(none.filter(other_than(slot)) =~= none);
    }
    lemma_split_joins(children, index);
    assert(without_slot(spliced(children, index, slot), slot) =~= front + back);
}

/// An insert stores the new node's slot, which is its id less one, in the
/// parent's child list at the position asked for, and moves no other child.
pub proof fn lemma_insert_stores_slot(
    doc: Seq<NodeModel>,
    target: nat,
    nid: nat,
    index: nat,
    payload: PayloadModel,
)
    requires
        can_insert(doc, target, nid, index),
        links(doc, target, nid),
    ensures
        ({
            let before = children_of(doc[target - 1]);
            let after = children_of(inserted(doc, target, nid, index, payload)[target - 1]);
            &&& after.len() == before.len() + 1
            &&& after[index as int] == nid - 1
            &&& forall|i: int| 0 <= i < index ==> after[i] == before[i]
            &&& forall|i: int| index <= i < before.len() ==> after[i + 1] == before[i]
        }),
{
}

/// An insert with the id one past the last appends a slot; with any
/// smaller id it keeps the length and replaces the slot of that id,
/// whatever it held.  Either way the slot of the new id then holds the new
/// node, and no slot but that one and the parent's differs from before.
pub proof fn lemma_insert_appends_or_overwrites(
    doc: Seq<NodeModel>,
    target: nat,
    nid: nat,
    index: nat,
    payload: PayloadModel,
)
    requires
        can_insert(doc, target, nid, index),
    ensures
        ({
            let after = inserted(doc, target, nid, index, payload);
            &&& nid == doc.len() + 1 ==> after.len() == doc.len() + 1
            &&& nid <= doc.len() ==> after.len() == doc.len()
            &&& after[nid - 1] == node_of(payload, target)
            &&& forall|j: int|
                0 <= j < doc.len() && j != nid - 1 && j != target - 1 ==> after[j] == doc[j]
        }),
{
}

/// After a node is removed its slot holds a tombstone, and an insert with
/// the same id takes that slot: the document is as long as before.
pub proof fn lemma_removed_slot_is_reused(
    doc: Seq<NodeModel>,
    id: nat,
    target: nat,
    index: nat,
    payload: PayloadModel,
)
    requires
        can_remove(doc, id),
        can_insert(removed(doc, id), target, id, index),
    ensures
        removed(doc, id).len() == doc.len(),
        removed(doc, id)[id - 1] is Tombstone,
        inserted(removed(doc, id), target, id, index, payload).len() == doc.len(),
        inserted(removed(doc, id), target, id, index, payload)[id - 1] == node_of(payload, target),
{
}

/// Inserting a node under an element and then removing it by its id gives
/// the document back, but for a tombstone in the slot of that id, provided
/// the element's child list did not hold that slot before.
pub proof fn lemma_insert_then_remove(
    doc: Seq<NodeModel>,
    target: nat,
    nid: nat,
    index: nat,
    payload: PayloadModel,
)
    requires
        can_insert(doc, target, nid, index),
        links(doc, target, nid),
        !children_of(doc[target - 1]).contains((nid - 1) as nat),
    ensures
        ({
            let grown = inserted(doc, target, nid, index, payload);
            &&& can_remove(grown, nid)
            &&& removed(grown, nid) == placed(doc, nid, NodeModel::Tombstone)
        }),
{
    let grown = inserted(doc, target, nid, index, payload);
    let slot = (nid - 1) as nat;
    lemma_splice_then_without(children_of(doc[target - 1]), index, slot);
    assert(grown[nid - 1] == node_of(payload, target));
    assert(parent_of(grown[nid - 1]) == target);
    assert(removed(grown, nid) =~= placed(doc, nid, NodeModel::Tombstone));
}

} // verus!
