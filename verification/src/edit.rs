//! The mutation engine: structured edit messages applied to a document.
//!
//! A message is read in three steps.  Its fields are read out of the decoded
//! value, the fields are interpreted as one of six edits, and the edit is
//! applied.  A malformed message is a protocol error; an edit that the
//! document's state does not allow is an invariant violation.  Either way the
//! document is left as it was.

use crate::document::{
    can_insert, can_remove, document_wf, inserted, links, parent_of, removed, Document, NodeModel,
    Payload, PayloadModel,
};
use crate::error::HostError;
use crate::wire::{message_of, read_edit, EditMessage, EditMessageModel};
use json::JsonValue;
use vstd::prelude::*;

verus! {

/// One edit of a document, as a message asks for it.
#[derive(Clone, Debug, PartialEq, Eq)]
pub enum Edit {
    /// Opcode 1: the node `target` gets a new value.
    UpdateValue { target: usize, data: String },
    /// Opcode 2: an attribute of `target` changes.
    MutateAttr { target: usize },
    /// Opcode 3: an attribute of `target` goes away.
    RemoveAttr { target: usize },
    /// Opcode 4: the node `target` is removed.
    Remove { target: usize },
    /// Opcode 5: the node `target` moves.
    Move { target: usize },
    /// Opcode 6: a new node with id `nid` enters under `target` at `index`.
    Insert { target: usize, nid: usize, index: usize, payload: Payload },
}

/// What an [`Edit`] stands for.
pub enum EditModel {
    UpdateValue { target: nat, data: Seq<char> },
    MutateAttr { target: nat },
    RemoveAttr { target: nat },
    Remove { target: nat },
    Move { target: nat },
    Insert { target: nat, nid: nat, index: nat, payload: PayloadModel },
}

impl View for Edit {
    type V = EditModel;

    open spec fn view(&self) -> EditModel {
        match *self {
            Edit::UpdateValue { target, data } => EditModel::UpdateValue {
                target: target as nat,
                data: data@,
            },
            Edit::MutateAttr { target } => EditModel::MutateAttr { target: target as nat },
            Edit::RemoveAttr { target } => EditModel::RemoveAttr { target: target as nat },
            Edit::Remove { target } => EditModel::Remove { target: target as nat },
            Edit::Move { target } => EditModel::Move { target: target as nat },
            Edit::Insert { target, nid, index, payload } => EditModel::Insert {
                target: target as nat,
                nid: nid as nat,
                index: index as nat,
                payload: payload@,
            },
        }
    }
}

/// What an edit did, for the actor's log.  The edits with opcodes 1, 2, 3
/// and 5 change nothing in the document: being recorded is all they do.
#[derive(Clone, Debug, PartialEq, Eq)]
pub enum EditOutcome {
    /// A new value for `target` was announced; `data` is that value as JSON.
    UpdateValue { target: usize, data: String },
    /// A changed attribute of `target` was announced.
    MutateAttr { target: usize },
    /// A removed attribute of `target` was announced.
    RemoveAttr { target: usize },
    /// The node `target` was removed from under `parent`.
    Removed { target: usize, parent: usize },
    /// A move of `target` was announced.
    Move { target: usize },
    /// The node `nid` was put in its slot, and, if `linked`, entered in the
    /// child list of `target` at `index`.
    Inserted { target: usize, nid: usize, index: usize, linked: bool },
}

/// What an [`EditOutcome`] stands for.
pub enum EditOutcomeModel {
    UpdateValue { target: nat, data: Seq<char> },
    MutateAttr { target: nat },
    RemoveAttr { target: nat },
    Removed { target: nat, parent: nat },
    Move { target: nat },
    Inserted { target: nat, nid: nat, index: nat, linked: bool },
}

impl View for EditOutcome {
    type V = EditOutcomeModel;

    open spec fn view(&self) -> EditOutcomeModel {
        match *self {
            EditOutcome::UpdateValue { target, data } => EditOutcomeModel::UpdateValue {
                target: target as nat,
                data: data@,
            },
            EditOutcome::MutateAttr { target } => EditOutcomeModel::MutateAttr {
                target: target as nat,
            },
            EditOutcome::RemoveAttr { target } => EditOutcomeModel::RemoveAttr {
                target: target as nat,
            },
            EditOutcome::Removed { target, parent } => EditOutcomeModel::Removed {
                target: target as nat,
                parent: parent as nat,
            },
            EditOutcome::Move { target } => EditOutcomeModel::Move { target: target as nat },
            EditOutcome::Inserted { target, nid, index, linked } => EditOutcomeModel::Inserted {
                target: target as nat,
                nid: nid as nat,
                index: index as nat,
                linked,
            },
        }
    }
}

/// The edit that the fields of a message ask for.  Every message needs a
/// count as `type` and as `target`; an insert also needs counts as `nid` and
/// `index` and a payload as `child`.  A message that lacks one of these, or
/// whose opcode is none of 1 to 6, is a protocol error.
pub open spec fn interpreted(msg: EditMessageModel) -> Result<EditModel, HostError> {
    if msg.opcode is None || msg.target is None {
        Err(HostError::ProtocolError)
    } else {
        let opcode = msg.opcode->Some_0;
        let target = msg.target->Some_0;
        if opcode == 1 {
            Ok(EditModel::UpdateValue { target, data: msg.data })
        } else if opcode == 2 {
            Ok(EditModel::MutateAttr { target })
        } else if opcode == 3 {
            Ok(EditModel::RemoveAttr { target })
        } else if opcode == 4 {
            Ok(EditModel::Remove { target })
        } else if opcode == 5 {
            Ok(EditModel::Move { target })
        } else if opcode == 6 && msg.nid is Some && msg.index is Some && msg.child is Some {
            Ok(
                EditModel::Insert {
                    target,
                    nid: msg.nid->Some_0,
                    index: msg.index->Some_0,
                    payload: msg.child->Some_0,
                },
            )
        } else {
            Err(HostError::ProtocolError)
        }
    }
}

/// The document's state allows the edit.
pub open spec fn allowed(doc: Seq<NodeModel>, edit: EditModel) -> bool {
    match edit {
        EditModel::Remove { target } => can_remove(doc, target),
        EditModel::Insert { target, nid, index, .. } => can_insert(doc, target, nid, index),
        _ => true,
    }
}

/// The document after an edit.  Only a remove and an insert that the
/// document's state allows change anything.
pub open spec fn edited(doc: Seq<NodeModel>, edit: EditModel) -> Seq<NodeModel> {
    match edit {
        EditModel::Remove { target } if can_remove(doc, target) => removed(doc, target),
        EditModel::Insert { target, nid, index, payload } if can_insert(
            doc,
            target,
            nid,
            index,
        ) => inserted(doc, target, nid, index, payload),
        _ => doc,
    }
}

/// What an edit that the document's state allows reports.
pub open spec fn outcome_of(doc: Seq<NodeModel>, edit: EditModel) -> EditOutcomeModel {
    match edit {
        EditModel::UpdateValue { target, data } => EditOutcomeModel::UpdateValue { target, data },
        EditModel::MutateAttr { target } => EditOutcomeModel::MutateAttr { target },
        EditModel::RemoveAttr { target } => EditOutcomeModel::RemoveAttr { target },
        EditModel::Remove { target } => EditOutcomeModel::Removed {
            target,
            parent: parent_of(doc[target - 1]),
        },
        EditModel::Move { target } => EditOutcomeModel::Move { target },
        EditModel::Insert { target, nid, index, .. } => EditOutcomeModel::Inserted {
            target,
            nid,
            index,
            linked: links(doc, target, nid),
        },
    }
}

/// What applying an edit returns.
pub open spec fn edit_result(doc: Seq<NodeModel>, edit: EditModel) -> Result<
    EditOutcomeModel,
    HostError,
> {
    if allowed(doc, edit) {
        Ok(outcome_of(doc, edit))
    } else {
        Err(HostError::InvariantViolation)
    }
}

/// The document after the message with the fields `msg`.
pub open spec fn message_document(doc: Seq<NodeModel>, msg: EditMessageModel) -> Seq<NodeModel> {
    match interpreted(msg) {
        Ok(edit) => edited(doc, edit),
        Err(_) => doc,
    }
}

/// What handling the message with the fields `msg` returns.
pub open spec fn message_result(doc: Seq<NodeModel>, msg: EditMessageModel) -> Result<
    EditOutcomeModel,
    HostError,
> {
    match interpreted(msg) {
        Ok(edit) => edit_result(doc, edit),
        Err(fault) => Err(fault),
    }
}

/// An outcome or a fault, the outcome by what it stands for.
pub open spec fn outcome_model(r: Result<EditOutcome, HostError>) -> Result<
    EditOutcomeModel,
    HostError,
> {
    match r {
        Ok(outcome) => Ok(outcome@),
        Err(fault) => Err(fault),
    }
}

/// An edit or a fault, the edit by what it stands for.
pub open spec fn edit_model(r: Result<Edit, HostError>) -> Result<EditModel, HostError> {
    match r {
        Ok(edit) => Ok(edit@),
        Err(fault) => Err(fault),
    }
}

/// Interprets the fields of a message as an edit.
pub fn interpret(msg: EditMessage) -> (r: Result<Edit, HostError>)
    ensures
        edit_model(r) == interpreted(msg@),
{
    let EditMessage { opcode, target, nid, index, child, data } = msg;
    let (opcode, target) = match (opcode, target) {
        (Some(opcode), Some(target)) => (opcode, target),
        _ => {
            return Err(HostError::ProtocolError);
        },
    };
    if opcode == 1 {
        Ok(Edit::UpdateValue { target, data })
    } else if opcode == 2 {
        Ok(Edit::MutateAttr { target })
    } else if opcode == 3 {
        Ok(Edit::RemoveAttr { target })
    } else if opcode == 4 {
        Ok(Edit::Remove { target })
    } else if opcode == 5 {
        Ok(Edit::Move { target })
    } else if opcode == 6 {
        match (nid, index, child) {
            (Some(nid), Some(index), Some(payload)) => Ok(
                Edit::Insert { target, nid, index, payload },
            ),
            _ => Err(HostError::ProtocolError),
        }
    } else {
        Err(HostError::ProtocolError)
    }
}

/// Applies an edit to a document.  An edit that the document's state does
/// not allow is an invariant violation and changes nothing.
pub fn apply_edit(doc: &mut Document, edit: Edit) -> (r: Result<EditOutcome, HostError>)
    ensures
        final(doc)@ == edited(old(doc)@, edit@),
        outcome_model(r) == edit_result(old(doc)@, edit@),
        document_wf(old(doc)@) ==> document_wf(final(doc)@),
{
    match edit {
        Edit::UpdateValue { target, data } => Ok(EditOutcome::UpdateValue { target, data }),
        Edit::MutateAttr { target } => Ok(EditOutcome::MutateAttr { target }),
        Edit::RemoveAttr { target } => Ok(EditOutcome::RemoveAttr { target }),
        Edit::Remove { target } => match doc.remove(target) {
            Ok(parent) => Ok(EditOutcome::Removed { target, parent }),
            Err(fault) => Err(fault),
        },
        Edit::Move { target } => Ok(EditOutcome::Move { target }),
        Edit::Insert { target, nid, index, payload } => match doc.insert(
            target,
            nid,
            index,
            payload,
        ) {
            Ok(linked) => Ok(EditOutcome::Inserted { target, nid, index, linked }),
            Err(fault) => Err(fault),
        },
    }
}

/// Handles one decoded edit message: reads its fields, interprets them and
/// applies the edit.  On any fault the document is left as it was.
pub fn on_layout_msg(doc: &mut Document, msg: &JsonValue) -> (r: Result<EditOutcome, HostError>)
    ensures
        final(doc)@ == message_document(old(doc)@, message_of(*msg)),
        outcome_model(r) == message_result(old(doc)@, message_of(*msg)),
        document_wf(old(doc)@) ==> document_wf(final(doc)@),
{
    match interpret(read_edit(msg)) {
        Ok(edit) => apply_edit(doc, edit),
        Err(fault) => Err(fault),
    }
}

/// A message without a count as `target` is a protocol error, whatever else
/// it holds, and leaves every document as it is.
pub proof fn lemma_missing_target_is_protocol_error(doc: Seq<NodeModel>, msg: EditMessageModel)
    requires
        msg.target is None,
    ensures
        message_result(doc, msg) == Err::<EditOutcomeModel, HostError>(HostError::ProtocolError),
        message_document(doc, msg) == doc,
{
}

/// A fault leaves the document as it is: whenever handling a message
/// returns an error, the document after it is the document before it.
pub proof fn lemma_fault_changes_nothing(doc: Seq<NodeModel>, msg: EditMessageModel)
    requires
        message_result(doc, msg) is Err,
    ensures
        message_document(doc, msg) == doc,
{
}

} // verus!
