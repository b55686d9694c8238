//! One actor: its document, its counters and its reactions to the two kinds
//! of input that its loop selects between.
//!
//! The loop itself, the engine and the channels are not here.  The loop
//! hands each input to [`Actor::on_js_msg`] or [`Actor::on_ctl_msg`] and
//! carries out what comes back.

use crate::document::{document_wf, Document, NodeModel};
use crate::edit::{message_document, message_result, on_layout_msg, EditOutcome, EditOutcomeModel};
use crate::error::HostError;
use crate::message::{
    commands_model, CommandModel, ControlMessage, ControlModel, EngineCommand, EngineEvent,
    OutboundMessage, OutboundModel,
};
use crate::text::{decimal, decimal_digits, ends_with, has_prefix, has_suffix, starts_with};
use crate::wire::{decode, decoded, message_of};
use vstd::prelude::*;
use vstd::string::StringExecFns;

verus! {

/// Where an actor is in its life.
#[derive(Clone, Copy, Debug, PartialEq, Eq, Structural)]
pub enum Phase {
    /// The engine is being set up; no input is handled yet.
    Initializing,
    /// The loop runs.
    Running,
    /// The actor has ended, by an exit, a `Terminate` or a fault.  No input
    /// is handled any more.
    Terminated,
}

/// The state that one actor keeps between inputs.
#[derive(Clone, Debug, PartialEq, Eq)]
pub struct Actor {
    /// The id that the supervisor gave this actor.
    pub id: u64,
    /// How many actors this one has asked for.
    pub child_counter: u64,
    pub phase: Phase,
    pub document: Document,
}

/// What an [`Actor`] stands for.
pub struct ActorModel {
    pub id: nat,
    pub child_counter: nat,
    pub phase: Phase,
    pub document: Seq<NodeModel>,
}

impl View for Actor {
    type V = ActorModel;

    open spec fn view(&self) -> ActorModel {
        ActorModel {
            id: self.id as nat,
            child_counter: self.child_counter as nat,
            phase: self.phase,
            document: self.document@,
        }
    }
}

/// What the loop has to do after an engine event.
#[derive(Clone, Debug, PartialEq, Eq)]
pub enum Reaction {
    Nothing,
    /// Send the message to the supervisor.
    Forward(OutboundMessage),
    /// Record the edit that was applied to the document.
    Edited(EditOutcome),
}

/// What a [`Reaction`] stands for.
pub enum ReactionModel {
    Nothing,
    Forward(OutboundModel),
    Edited(EditOutcomeModel),
}

impl View for Reaction {
    type V = ReactionModel;

    open spec fn view(&self) -> ReactionModel {
        match *self {
            Reaction::Nothing => ReactionModel::Nothing,
            Reaction::Forward(message) => ReactionModel::Forward(message@),
            Reaction::Edited(outcome) => ReactionModel::Edited(outcome@),
        }
    }
}

/// What the loop has to do after a control message.
#[derive(Clone, Debug, PartialEq, Eq)]
pub enum ControlAction {
    /// Make these calls on the engine, in this order.
    Execute(Vec<EngineCommand>),
    /// Read the script at this path and hand it to [`Actor::script_loaded`].
    ReadScript(String),
    /// Acknowledge the `Terminate` and leave the loop.
    Stop,
    /// The actor does not run; the message is dropped.
    Ignored,
}

/// What a [`ControlAction`] stands for.
pub enum ControlActionModel {
    Execute(Seq<CommandModel>),
    ReadScript(Seq<char>),
    Stop,
    Ignored,
}

impl View for ControlAction {
    type V = ControlActionModel;

    open spec fn view(&self) -> ControlActionModel {
        match *self {
            ControlAction::Execute(commands) => ControlActionModel::Execute(
                commands_model(commands@),
            ),
            ControlAction::ReadScript(path) => ControlActionModel::ReadScript(path@),
            ControlAction::Stop => ControlActionModel::Stop,
            ControlAction::Ignored => ControlActionModel::Ignored,
        }
    }
}

/// The names of the resources that every actor loads into its engine before
/// anything else, in this order: the network shim, the DOM shim and the
/// layout shim.
pub open spec fn bootstrap_names() -> Seq<Seq<char>> {
    seq!["xmlhttprequest.js"@, "dom.js"@, "layout.js"@]
}

/// The name under which the fixed trigger scripts run.
pub open spec fn trigger_label() -> Seq<char> {
    "io"@
}

/// The script that begins a navigation: it hands the staged URL to the
/// script side.
pub open spec fn begin_navigation() -> Seq<char> {
    "try { _resume(9, _data, 0) } catch (e) { print(e + '\\n' + e.stack) } _data = undefined;"@
}

/// The script that makes the engine emit its exit event once no request is
/// outstanding.
pub open spec fn check_outstanding() -> Seq<char> {
    "if (XMLHttpRequest.requests_outstanding === 0) jsrust_exit();"@
}

/// A script inside the harness that catches whatever it throws and prints
/// it with its stack.
pub open spec fn guarded(source: Seq<char>) -> Seq<char> {
    "try { "@ + source + " } catch (e) { print(e + '\\n' + e.stack); }"@
}

/// The script that resumes the callback `tag` of kind `level` with the
/// staged input.
pub open spec fn resume_script(level: nat, tag: nat) -> Seq<char> {
    "try { _resume("@ + decimal_digits(level) + ", _data, "@ + decimal_digits(tag)
        + "); } catch (e) { print(e + '\\n' + e.stack); }; _data = undefined;"@
}

/// A target is taken for a URL if it begins with `http` or `file`.
pub open spec fn is_url(target: Seq<char>) -> bool {
    has_prefix(target, "http"@) || has_prefix(target, "file"@)
}

/// The control message that an actor sends itself for its starting target:
/// a URL is loaded as it is, a path that ends in `.html` is loaded as a
/// `file:` URL, and anything else is run as a script.
pub open spec fn first_message(target: Seq<char>) -> ControlModel {
    if is_url(target) {
        ControlModel::LoadUrl(target)
    } else if has_suffix(target, ".html"@) {
        ControlModel::LoadUrl("file:"@ + target)
    } else {
        ControlModel::LoadScript(target)
    }
}

/// A console line of the actor `id`.
pub open spec fn stdout_line(id: nat, message: Seq<char>) -> Seq<char> {
    "[Actor "@ + decimal_digits(id) + "] "@ + message
}

/// An error line of the actor `id`.
pub open spec fn stderr_line(id: nat, message: Seq<char>) -> Seq<char> {
    "[ERROR "@ + decimal_digits(id) + "] "@ + message
}

/// The lineage of the next actor that the actor `id` asks for: its own id,
/// a colon, and the number of actors it has asked for before.
pub open spec fn lineage(id: nat, counter: nat) -> Seq<char> {
    decimal_digits(id) + ":"@ + decimal_digits(counter)
}

/// The levels that are accepted and mean nothing yet.
pub open spec fn is_reserved(level: nat) -> bool {
    level <= 3 || level == 7 || level == 8
}

/// What a running actor with the given id, counter and document returns for
/// an engine event.
pub open spec fn event_result(
    id: nat,
    counter: nat,
    doc: Seq<NodeModel>,
    level: nat,
    message: Seq<char>,
) -> Result<ReactionModel, HostError> {
    if level == 4 {
        Ok(ReactionModel::Forward(OutboundModel::Stdout(stdout_line(id, message))))
    } else if level == 5 {
        Ok(ReactionModel::Forward(OutboundModel::Stderr(stderr_line(id, message))))
    } else if level == 6 {
        Ok(
            ReactionModel::Forward(
                OutboundModel::SpawnRequest {
                    lineage: lineage(id, counter),
                    target_url: message,
                },
            ),
        )
    } else if level == 9 {
        Ok(ReactionModel::Forward(OutboundModel::ExitNotice))
    } else if level == 10 {
        match decoded(message) {
            Some(value) => match message_result(doc, message_of(value)) {
                Ok(outcome) => Ok(ReactionModel::Edited(outcome)),
                Err(fault) => Err(fault),
            },
            None => Err(HostError::ProtocolError),
        }
    } else if is_reserved(level) {
        Ok(ReactionModel::Nothing)
    } else {
        Err(HostError::ProtocolError)
    }
}

/// The document of a running actor after an engine event: only a layout
/// event, level 10, whose text decodes can change it.
pub open spec fn event_document(doc: Seq<NodeModel>, level: nat, message: Seq<char>) -> Seq<
    NodeModel,
> {
    if level == 10 && decoded(message) is Some {
        message_document(doc, message_of(decoded(message)->Some_0))
    } else {
        doc
    }
}

/// The engine calls that a control message asks for, or what else the loop
/// has to do for it.
pub open spec fn control_action(msg: ControlModel) -> ControlActionModel {
    match msg {
        ControlModel::LoadUrl(url) => ControlActionModel::Execute(
            seq![
                CommandModel::StageInput(url),
                CommandModel::Run { source: begin_navigation(), label: trigger_label() },
            ],
        ),
        ControlModel::LoadScript(path) => ControlActionModel::ReadScript(path),
        ControlModel::EngineCallback { level, tag, timeout_ms, payload } => {
            ControlActionModel::Execute(
                seq![
                    CommandModel::BeginRequest,
                    CommandModel::StageInput(payload),
                    CommandModel::Run { source: resume_script(level, tag), label: trigger_label() },
                    CommandModel::EndRequest,
                ],
            )
        },
        ControlModel::Terminate => ControlActionModel::Stop,
    }
}

/// The engine calls for a script that was read: the script inside the
/// harness, under its path, and then the check for outstanding work.
pub open spec fn script_commands(path: Seq<char>, source: Seq<char>) -> Seq<CommandModel> {
    seq![
        CommandModel::Run { source: guarded(source), label: path },
        CommandModel::Run { source: check_outstanding(), label: trigger_label() },
    ]
}

/// A reaction or a fault, the reaction by what it stands for.
pub open spec fn reaction_model(r: Result<Reaction, HostError>) -> Result<
    ReactionModel,
    HostError,
> {
    match r {
        Ok(reaction) => Ok(reaction@),
        Err(fault) => Err(fault),
    }
}

/// A list of texts by what they stand for.
pub open spec fn texts_model(texts: Seq<String>) -> Seq<Seq<char>> {
    texts.map_values(|text: String| text@)
}

impl ActorModel {
    /// The actor as it begins: not yet running, with the seed document.
    pub open spec fn initial(id: nat) -> ActorModel {
        ActorModel {
            id,
            child_counter: 0,
            phase: Phase::Initializing,
            document: crate::document::seed_model(),
        }
    }

    /// What the actor returns for an engine event.  An actor that does not
    /// run has nothing to do for any event.
    pub open spec fn reaction(self, level: nat, message: Seq<char>) -> Result<
        ReactionModel,
        HostError,
    > {
        if self.phase == Phase::Running {
            event_result(self.id, self.child_counter, self.document, level, message)
        } else {
            Ok(ReactionModel::Nothing)
        }
    }

    /// The actor after an engine event.  A spawn request counts up the child
    /// counter, a layout event may change the document, and the exit event
    /// and every fault end the actor.  An actor that does not run stays as it
    /// is.
    pub open spec fn after_event(self, level: nat, message: Seq<char>) -> ActorModel {
        if self.phase == Phase::Running {
            ActorModel {
                id: self.id,
                child_counter: if level == 6 {
                    self.child_counter + 1
                } else {
                    self.child_counter
                },
                phase: if level == 9 || self.reaction(level, message) is Err {
                    Phase::Terminated
                } else {
                    Phase::Running
                },
                document: event_document(self.document, level, message),
            }
        } else {
            self
        }
    }

    /// The actor after a sequence of spawn events, one for each target.
    pub open spec fn after_spawn_events(self, targets: Seq<Seq<char>>) -> ActorModel
        decreases targets.len(),
    {
        if targets.len() == 0 {
            self
        } else {
            self.after_spawn_events(targets.drop_last()).after_event(6, targets.last())
        }
    }

    /// What the loop has to do for a control message.
    pub open spec fn control(self, msg: ControlModel) -> ControlActionModel {
        if self.phase == Phase::Running {
            control_action(msg)
        } else {
            ControlActionModel::Ignored
        }
    }

    /// The actor after a control message: `Terminate` ends a running actor,
    /// and nothing else changes anything.
    pub open spec fn after_control(self, msg: ControlModel) -> ActorModel {
        if self.phase == Phase::Running && msg is Terminate {
            ActorModel { phase: Phase::Terminated, ..self }
        } else {
            self
        }
    }
}

/// The names of the bootstrap resources, in the order in which they are
/// loaded.
pub fn bootstrap_scripts() -> (r: Vec<String>)
    ensures
        texts_model(r@) == bootstrap_names(),
{
    let mut names: Vec<String> = Vec::new();
    names.push(String::from_str("xmlhttprequest.js"));
    names.push(String::from_str("dom.js"));
    names.push(String::from_str("layout.js"));
    assert(texts_model(names@) =~= bootstrap_names());
    names
}

/// The engine call that loads a resource which was read under the name
/// `label`; a resource that could not be read is a resource error.
pub fn run_script(label: String, source: Option<String>) -> (r: Result<EngineCommand, HostError>)
    ensures
        match source {
            Some(text) => r is Ok && r->Ok_0@ == (CommandModel::Run {
                source: text@,
                label: label@,
            }),
            None => r == Err::<EngineCommand, HostError>(HostError::ResourceError),
        },
{
    match source {
        Some(text) => Ok(EngineCommand::Run { source: text, label }),
        None => Err(HostError::ResourceError),
    }
}

/// Chooses the first control message for a starting target.
pub fn classify_target(target: String) -> (r: ControlMessage)
    ensures
        r@ == first_message(target@),
{
    if starts_with(target.as_str(), "http") || starts_with(target.as_str(), "file") {
        ControlMessage::LoadUrl(target)
    } else if ends_with(target.as_str(), ".html") {
        let mut url = String::from_str("file:");
        url.append(target.as_str());
        ControlMessage::LoadUrl(url)
    } else {
        ControlMessage::LoadScript(target)
    }
}

fn trigger(source: &str) -> (r: EngineCommand)
    ensures
        r@ == (CommandModel::Run { source: source@, label: trigger_label() }),
{
    EngineCommand::Run { source: String::from_str(source), label: String::from_str("io") }
}

impl Actor {
    /// A new actor with the seed document, not yet running.
    pub fn new(id: u64) -> (r: Actor)
        ensures
            r@ == ActorModel::initial(id as nat),
    {
        Actor { id, child_counter: 0, phase: Phase::Initializing, document: Document::seed() }
    }

    /// Ends the set-up: the actor runs from now on, and the message returned
    /// is the first that it sends itself.  An actor that is past its set-up
    /// stays as it is and gets no message.
    pub fn start(&mut self, target: String) -> (r: Option<ControlMessage>)
        ensures
            old(self).phase == Phase::Initializing ==> r is Some && r->Some_0@ == first_message(
                target@,
            ) && final(self)@ == (ActorModel { phase: Phase::Running, ..old(self)@ }),
            old(self).phase != Phase::Initializing ==> r is None && final(self)@ == old(self)@,
    {
        match self.phase {
            Phase::Initializing => {
                self.phase = Phase::Running;
                Some(classify_target(target))
            },
            _ => None,
        }
    }

    /// Reacts to one event of the engine.
    ///
    /// Levels 4 and 5 become console and error lines, level 6 a spawn
    /// request that counts up the child counter, level 9 the exit notice,
    /// which ends the actor.  Level 10 carries an edit message for the
    /// document.  Levels 0 to 3, 7 and 8 are accepted and do nothing.  Any
    /// other level, a text that does not decode and a faulty edit end the
    /// actor with that fault.  An actor that does not run ignores the event.
    pub fn on_js_msg(&mut self, event: EngineEvent) -> (r: Result<Reaction, HostError>)
        requires
            event.level == 6 ==> old(self).child_counter < u64::MAX,
        ensures
            reaction_model(r) == old(self)@.reaction(event.level as nat, event.message@),
            final(self)@ == old(self)@.after_event(event.level as nat, event.message@),
            document_wf(old(self).document@) ==> document_wf(final(self).document@),
    {
        match self.phase {
            Phase::Running => {},
            _ => {
                return Ok(Reaction::Nothing);
            },
        }
        let EngineEvent { level, message } = event;
        if level == 4 {
            let mut line = String::from_str("[Actor ");
            line.append(decimal(self.id).as_str());
            line.append("] ");
            line.append(message.as_str());
            Ok(Reaction::Forward(OutboundMessage::Stdout(line)))
        } else if level == 5 {
            let mut line = String::from_str("[ERROR ");
            line.append(decimal(self.id).as_str());
            line.append("] ");
            line.append(message.as_str());
            Ok(Reaction::Forward(OutboundMessage::Stderr(line)))
        } else if level == 6 {
            let mut lineage = decimal(self.id);
            lineage.append(":");
            lineage.append(decimal(self.child_counter).as_str());
            self.child_counter = self.child_counter + 1;
            Ok(Reaction::Forward(OutboundMessage::SpawnRequest { lineage, target_url: message }))
        } else if level == 9 {
            self.phase = Phase::Terminated;
            Ok(Reaction::Forward(OutboundMessage::ExitNotice))
        } else if level == 10 {
            let value = match decode(message.as_str()) {
                Some(value) => value,
                None => {
                    self.phase = Phase::Terminated;
                    return Err(HostError::ProtocolError);
                },
            };
            match on_layout_msg(&mut self.document, &value) {
                Ok(outcome) => Ok(Reaction::Edited(outcome)),
                Err(fault) => {
                    self.phase = Phase::Terminated;
                    Err(fault)
                },
            }
        } else if level <= 3 || level == 7 || level == 8 {
            Ok(Reaction::Nothing)
        } else {
            self.phase = Phase::Terminated;
            Err(HostError::ProtocolError)
        }
    }

    /// Reacts to one control message.
    ///
    /// A URL is staged as input and the navigation begun.  For a script the
    /// loop is asked to read it.  The payload of a callback is staged and the
    /// callback resumed, inside the bracket that guards against reentry.
    /// `Terminate` ends the actor.  An actor that does not run drops the
    /// message.
    pub fn on_ctl_msg(&mut self, msg: ControlMessage) -> (r: ControlAction)
        ensures
            r@ == old(self)@.control(msg@),
            final(self)@ == old(self)@.after_control(msg@),
    {
        match self.phase {
            Phase::Running => {},
            _ => {
                return ControlAction::Ignored;
            },
        }
        match msg {
            ControlMessage::LoadUrl(url) => {
                let mut commands: Vec<EngineCommand> = Vec::new();
                commands.push(EngineCommand::StageInput(url));
                commands.push(
                    trigger(
                        "try { _resume(9, _data, 0) } catch (e) { print(e + '\\n' + e.stack) } _data = undefined;",
                    ),
                );
                assert(commands_model(commands@) =~= control_action(msg@)->Execute_0);
                ControlAction::Execute(commands)
            },
            ControlMessage::LoadScript(path) => ControlAction::ReadScript(path),
            ControlMessage::EngineCallback { level, tag, timeout_ms, payload } => {
                let mut source = String::from_str("try { _resume(");
                source.append(decimal(level as u64).as_str());
                source.append(", _data, ");
                source.append(decimal(tag as u64).as_str());
                source.append("); } catch (e) { print(e + '\\n' + e.stack); }; _data = undefined;");
                let mut commands: Vec<EngineCommand> = Vec::new();
                commands.push(EngineCommand::BeginRequest);
                commands.push(EngineCommand::StageInput(payload));
                commands.push(trigger(source.as_str()));
                commands.push(EngineCommand::EndRequest);
                assert(commands_model(commands@) =~= control_action(msg@)->Execute_0);
                ControlAction::Execute(commands)
            },
            ControlMessage::Terminate => {
                self.phase = Phase::Terminated;
                ControlAction::Stop
            },
        }
    }

    /// Takes the script that the loop read for a `LoadScript` message: the
    /// script runs inside the harness, then the check for outstanding work.
    /// A script that could not be read ends the actor with a resource error.
    /// An actor that does not run makes no call.
    pub fn script_loaded(&mut self, path: String, source: Option<String>) -> (r: Result<
        Vec<EngineCommand>,
        HostError,
    >)
        ensures
            old(self).phase != Phase::Running ==> r is Ok && r->Ok_0@.len() == 0 && final(self)@
                == old(self)@,
            old(self).phase == Phase::Running && source is Some ==> r is Ok && commands_model(
                r->Ok_0@,
            ) == script_commands(path@, source->Some_0@) && final(self)@ == old(self)@,
            old(self).phase == Phase::Running && source is None ==> r == Err::<
                Vec<EngineCommand>,
                HostError,
            >(HostError::ResourceError) && final(self)@ == (ActorModel {
                phase: Phase::Terminated,
                ..old(self)@
            }),
    {
        match self.phase {
            Phase::Running => {},
            _ => {
                return Ok(Vec::new());
            },
        }
        match source {
            Some(text) => {
                let mut guarded = String::from_str("try { ");
                guarded.append(text.as_str());
                guarded.append(" } catch (e) { print(e + '\\n' + e.stack); }");
                let mut commands: Vec<EngineCommand> = Vec::new();
                commands.push(EngineCommand::Run { source: guarded, label: path });
                commands.push(
                    trigger("if (XMLHttpRequest.requests_outstanding === 0) jsrust_exit();"),
                );
                assert(commands_model(commands@) =~= script_commands(path@, text@));
                Ok(commands)
            },
            None => {
                self.phase = Phase::Terminated;
                Err(HostError::ResourceError)
            },
        }
    }
}

/// The actors of a host after an engine event reached the one at `index`.
pub open spec fn delivered(
    actors: Seq<ActorModel>,
    index: int,
    level: nat,
    message: Seq<char>,
) -> Seq<ActorModel> {
    actors.update(index, actors[index].after_event(level, message))
}

/// An event touches the actor that it reaches and no other.  Whatever the
/// event does to that actor, a fault that ends it included, every other
/// actor is as it was, and so reacts to its own next event as it would have.
pub proof fn lemma_fault_is_isolated(
    actors: Seq<ActorModel>,
    index: int,
    level: nat,
    message: Seq<char>,
    other: int,
)
    requires
        0 <= index < actors.len(),
        0 <= other < actors.len(),
        other != index,
    ensures
        delivered(actors, index, level, message)[other] == actors[other],
        actors[index].reaction(level, message) is Err ==> delivered(
            actors,
            index,
            level,
            message,
        )[index].phase == Phase::Terminated,
{
}

/// A layout event whose message has no count as `target` ends a running
/// actor with a protocol error and leaves its document as it was.
pub proof fn lemma_edit_without_target_ends_the_actor(actor: ActorModel, message: Seq<char>)
    requires
        actor.phase == Phase::Running,
        decoded(message) is Some,
        message_of(decoded(message)->Some_0).target is None,
    ensures
        actor.reaction(10, message) == Err::<ReactionModel, HostError>(HostError::ProtocolError),
        actor.after_event(10, message).phase == Phase::Terminated,
        actor.after_event(10, message).document == actor.document,
{
}

/// A running actor numbers its spawn requests: after any run of spawn
/// events it still runs with its document untouched, its child counter has
/// gone up by their number, and the next request carries the actor's id
/// and that counter as its lineage.
pub proof fn lemma_spawn_requests_are_numbered(
    actor: ActorModel,
    targets: Seq<Seq<char>>,
    next: Seq<char>,
)
    requires
        actor.phase == Phase::Running,
    ensures
        actor.after_spawn_events(targets) == (ActorModel {
            child_counter: actor.child_counter + targets.len(),
            ..actor
        }),
        actor.after_spawn_events(targets).reaction(6, next) == Ok::<ReactionModel, HostError>(
            ReactionModel::Forward(
                OutboundModel::SpawnRequest {
                    lineage: lineage(actor.id, actor.child_counter + targets.len()),
                    target_url: next,
                },
            ),
        ),
    decreases targets.len(),
{
    if targets.len() > 0 {
        lemma_spawn_requests_are_numbered(actor, targets.drop_last(), targets.last());
    }
}

/// A terminated actor stays terminated and unchanged, whatever reaches it.
pub proof fn lemma_terminated_is_final(
    actor: ActorModel,
    level: nat,
    message: Seq<char>,
    msg: ControlModel,
)
    requires
        actor.phase == Phase::Terminated,
    ensures
        actor.after_event(level, message) == actor,
        actor.after_control(msg) == actor,
        actor.reaction(level, message) == Ok::<ReactionModel, HostError>(ReactionModel::Nothing),
        actor.control(msg) == ControlActionModel::Ignored,
{
}

} // verus!
