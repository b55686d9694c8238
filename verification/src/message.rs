//! The messages that actors, their engines and the supervisor exchange.

use vstd::prelude::*;

verus! {

/// An event that a scripting engine emits: a level from 0 to 10 and a text.
#[derive(Clone, Debug, PartialEq, Eq)]
pub struct EngineEvent {
    pub level: u32,
    pub message: String,
}

/// What an actor sends to the supervisor.
#[derive(Clone, Debug, PartialEq, Eq)]
pub enum OutboundMessage {
    /// A line for the console.
    Stdout(String),
    /// A line for the error log.
    Stderr(String),
    /// A request for a new actor that loads `target_url`; `lineage` names
    /// the requesting actor and counts its requests.
    SpawnRequest { lineage: String, target_url: String },
    /// A message to another actor.  Accepted and not acted upon.
    Cast { id: String, text: String },
    /// The actor has ended.
    ExitNotice,
}

/// What an [`OutboundMessage`] stands for.
pub enum OutboundModel {
    Stdout(Seq<char>),
    Stderr(Seq<char>),
    SpawnRequest { lineage: Seq<char>, target_url: Seq<char> },
    Cast { id: Seq<char>, text: Seq<char> },
    ExitNotice,
}

impl View for OutboundMessage {
    type V = OutboundModel;

    open spec fn view(&self) -> OutboundModel {
        match *self {
            OutboundMessage::Stdout(text) => OutboundModel::Stdout(text@),
            OutboundMessage::Stderr(text) => OutboundModel::Stderr(text@),
            OutboundMessage::SpawnRequest { lineage, target_url } => OutboundModel::SpawnRequest {
                lineage: lineage@,
                target_url: target_url@,
            },
            OutboundMessage::Cast { id, text } => OutboundModel::Cast { id: id@, text: text@ },
            OutboundMessage::ExitNotice => OutboundModel::ExitNotice,
        }
    }
}

/// What the supervisor, or an actor at its start, sends to an actor.
#[derive(Clone, Debug, PartialEq, Eq)]
pub enum ControlMessage {
    /// Input for a callback that the script waits for.
    EngineCallback { level: u32, tag: u32, timeout_ms: u32, payload: String },
    /// Load the page at a URL.
    LoadUrl(String),
    /// Run the script at a path.
    LoadScript(String),
    /// Stop.
    Terminate,
}

/// What a [`ControlMessage`] stands for.
pub enum ControlModel {
    EngineCallback { level: nat, tag: nat, timeout_ms: nat, payload: Seq<char> },
    LoadUrl(Seq<char>),
    LoadScript(Seq<char>),
    Terminate,
}

impl View for ControlMessage {
    type V = ControlModel;

    open spec fn view(&self) -> ControlModel {
        match *self {
            ControlMessage::EngineCallback { level, tag, timeout_ms, payload } => {
                ControlModel::EngineCallback {
                    level: level as nat,
                    tag: tag as nat,
                    timeout_ms: timeout_ms as nat,
                    payload: payload@,
                }
            },
            ControlMessage::LoadUrl(url) => ControlModel::LoadUrl(url@),
            ControlMessage::LoadScript(path) => ControlModel::LoadScript(path@),
            ControlMessage::Terminate => ControlModel::Terminate,
        }
    }
}

/// One call that an actor makes on its engine.
#[derive(Clone, Debug, PartialEq, Eq)]
pub enum EngineCommand {
    /// Set the one pending input that the next run consumes.
    StageInput(String),
    /// Compile and run `source` under the name `label`.
    Run { source: String, label: String },
    /// Open the bracket that guards the engine against reentry.
    BeginRequest,
    /// Close that bracket.
    EndRequest,
}

/// What an [`EngineCommand`] stands for.
pub enum CommandModel {
    StageInput(Seq<char>),
    Run { source: Seq<char>, label: Seq<char> },
    BeginRequest,
    EndRequest,
}

impl View for EngineCommand {
    type V = CommandModel;

    open spec fn view(&self) -> CommandModel {
        match *self {
            EngineCommand::StageInput(value) => CommandModel::StageInput(value@),
            EngineCommand::Run { source, label } => CommandModel::Run {
                source: source@,
                label: label@,
            },
            EngineCommand::BeginRequest => CommandModel::BeginRequest,
            EngineCommand::EndRequest => CommandModel::EndRequest,
        }
    }
}

/// A list of commands by what they stand for.
pub open spec fn commands_model(commands: Seq<EngineCommand>) -> Seq<CommandModel> {
    commands.map_values(|c: EngineCommand| c@)
}

} // verus!
