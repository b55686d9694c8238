//! The supervisor: the directory of actors, the id and live counters, and
//! the decision when to shut down.
//!
//! The supervisor's loop is not here.  It hands each message that an actor
//! sent to [`Supervisor::on_outbound`] and carries out the action that comes
//! back.  To launch an actor it takes an id, starts the actor, waits for the
//! actor's control channel and registers the two.  When the last live actor
//! has ended it is told to shut down once: to send `Terminate` to every
//! entry of the directory and to report each acknowledgement.

use crate::message::{OutboundMessage, OutboundModel};
use vstd::prelude::*;

verus! {

/// One entry of the directory: an actor's id and the channel on which the
/// actor takes control messages.
#[derive(Clone, Debug, PartialEq, Eq)]
pub struct ActorRecord<C> {
    pub id: u64,
    pub control_channel: C,
}

/// Where the supervisor is in its life.
#[derive(Clone, Copy, Debug, PartialEq, Eq, Structural)]
pub enum Stage {
    /// Messages are handled and actors launched.
    Serving,
    /// The shutdown was sent out; acknowledgements are awaited.
    Draining,
    /// Every acknowledgement has come in; the host can exit.
    Stopped,
}

/// What the supervisor's loop has to do after a message.
#[derive(Clone, Debug, PartialEq, Eq)]
pub enum SupervisorAction {
    Nothing,
    /// Write the line to the console.
    Print(String),
    /// Write the line to the error log.
    Report(String),
    /// Launch an actor with this id for this target, then register it.
    /// `lineage` says which actor asked for it.
    Launch { id: u64, lineage: String, url: String },
    /// Send `Terminate` to every entry of the directory and report each
    /// acknowledgement.
    Shutdown,
}

/// What a [`SupervisorAction`] stands for.
pub enum ActionModel {
    Nothing,
    Print(Seq<char>),
    Report(Seq<char>),
    Launch { id: nat, lineage: Seq<char>, url: Seq<char> },
    Shutdown,
}

impl View for SupervisorAction {
    type V = ActionModel;

    open spec fn view(&self) -> ActionModel {
        match *self {
            SupervisorAction::Nothing => ActionModel::Nothing,
            SupervisorAction::Print(line) => ActionModel::Print(line@),
            SupervisorAction::Report(line) => ActionModel::Report(line@),
            SupervisorAction::Launch { id, lineage, url } => ActionModel::Launch {
                id: id as nat,
                lineage: lineage@,
                url: url@,
            },
            SupervisorAction::Shutdown => ActionModel::Shutdown,
        }
    }
}

/// The state of a supervisor.
pub struct SupervisorModel {
    /// The ids in the directory, in the order in which they were registered.
    pub ids: Seq<nat>,
    /// The last id that was given out; 0 before the first.
    pub last_id: nat,
    /// The number of registered actors that have not ended.
    pub live: nat,
    pub stage: Stage,
    /// The number of acknowledgements that are still awaited.
    pub awaiting: nat,
}

/// What can reach a supervisor.
pub enum SupervisorInput {
    /// A message of an actor.
    Message(OutboundModel),
    /// An actor that was launched with this id has sent its control channel.
    Registration(nat),
    /// An actor has ended without an exit notice.
    Lost,
    /// An actor has acknowledged the shutdown.
    Done,
}

impl SupervisorModel {
    /// The state in which a supervisor begins.
    pub open spec fn initial() -> SupervisorModel {
        SupervisorModel { ids: seq![], last_id: 0, live: 0, stage: Stage::Serving, awaiting: 0 }
    }

    /// The directory holds no id twice and only ids that were given out,
    /// no more actors live than were registered, and none lives once the
    /// shutdown has begun.
    pub open spec fn wf(self) -> bool {
        &&& self.ids.no_duplicates()
        &&& forall|i: int| 0 <= i < self.ids.len() ==> 1 <= #[trigger] self.ids[i] <= self.last_id
        &&& self.live <= self.ids.len()
        &&& self.awaiting <= self.ids.len()
        &&& self.stage != Stage::Serving ==> self.live == 0
        &&& self.stage != Stage::Draining ==> self.awaiting == 0
        &&& self.stage == Stage::Draining ==> self.awaiting > 0
    }

    /// The state after the next id is given out.
    pub open spec fn allocated(self) -> SupervisorModel {
        if self.stage == Stage::Serving {
            SupervisorModel { last_id: self.last_id + 1, ..self }
        } else {
            self
        }
    }

    /// A registration with this id is taken: the supervisor serves, the id
    /// was given out, and the directory does not hold it yet.
    pub open spec fn admits(self, id: nat) -> bool {
        self.stage == Stage::Serving && 1 <= id <= self.last_id && !self.ids.contains(id)
    }

    /// The state after a registration: the id enters the directory and one
    /// more actor lives, if the registration is taken.
    pub open spec fn registered(self, id: nat) -> SupervisorModel {
        if self.admits(id) {
            SupervisorModel { ids: self.ids.push(id), live: self.live + 1, ..self }
        } else {
            self
        }
    }

    /// The state after an actor has ended: one actor fewer lives, and with
    /// the last one the shutdown begins.
    pub open spec fn retired(self) -> SupervisorModel {
        if self.stage == Stage::Serving && self.live > 1 {
            SupervisorModel { live: (self.live - 1) as nat, ..self }
        } else if self.stage == Stage::Serving && self.live == 1 {
            SupervisorModel { live: 0, stage: Stage::Draining, awaiting: self.ids.len(), ..self }
        } else {
            self
        }
    }

    /// The end of an actor begins the shutdown: it is the last that lives.
    pub open spec fn retiring_shuts_down(self) -> bool {
        self.stage == Stage::Serving && self.live == 1
    }

    /// The state after an acknowledgement: one fewer is awaited, and with
    /// the last one the supervisor has stopped.
    pub open spec fn acknowledged(self) -> SupervisorModel {
        if self.stage == Stage::Draining && self.awaiting > 1 {
            SupervisorModel { awaiting: (self.awaiting - 1) as nat, ..self }
        } else if self.stage == Stage::Draining {
            SupervisorModel { awaiting: 0, stage: Stage::Stopped, ..self }
        } else {
            self
        }
    }

    /// The state after a message of an actor.
    pub open spec fn received(self, msg: OutboundModel) -> SupervisorModel {
        match msg {
            OutboundModel::SpawnRequest { .. } => self.allocated(),
            OutboundModel::ExitNotice => self.retired(),
            _ => self,
        }
    }

    /// What the loop has to do after a message of an actor.  A supervisor
    /// that no longer serves does nothing for any message.
    pub open spec fn action(self, msg: OutboundModel) -> ActionModel {
        if self.stage != Stage::Serving {
            ActionModel::Nothing
        } else {
            match msg {
                OutboundModel::Stdout(line) => ActionModel::Print(line),
                OutboundModel::Stderr(line) => ActionModel::Report(line),
                OutboundModel::SpawnRequest { lineage, target_url } => ActionModel::Launch {
                    id: self.last_id + 1,
                    lineage,
                    url: target_url,
                },
                OutboundModel::Cast { .. } => ActionModel::Nothing,
                OutboundModel::ExitNotice => if self.retiring_shuts_down() {
                    ActionModel::Shutdown
                } else {
                    ActionModel::Nothing
                },
            }
        }
    }

    /// The state after any input.
    pub open spec fn step(self, input: SupervisorInput) -> SupervisorModel {
        match input {
            SupervisorInput::Message(msg) => self.received(msg),
            SupervisorInput::Registration(id) => self.registered(id),
            SupervisorInput::Lost => self.retired(),
            SupervisorInput::Done => self.acknowledged(),
        }
    }

    /// Whether an input makes the supervisor ask for the shutdown.
    pub open spec fn step_shuts_down(self, input: SupervisorInput) -> bool {
        match input {
            SupervisorInput::Message(msg) => self.action(msg) is Shutdown,
            SupervisorInput::Lost => self.retiring_shuts_down(),
            _ => false,
        }
    }

    /// The state after a sequence of inputs.
    pub open spec fn run(self, inputs: Seq<SupervisorInput>) -> SupervisorModel
        decreases inputs.len(),
    {
        if inputs.len() == 0 {
            self
        } else {
            self.run(inputs.drop_last()).step(inputs.last())
        }
    }

    /// How often a sequence of inputs makes the supervisor ask for the
    /// shutdown.
    pub open spec fn shutdowns(self, inputs: Seq<SupervisorInput>) -> nat
        decreases inputs.len(),
    {
        if inputs.len() == 0 {
            0
        } else {
            let before = self.shutdowns(inputs.drop_last());
            if self.run(inputs.drop_last()).step_shuts_down(inputs.last()) {
                before + 1
            } else {
                before
            }
        }
    }
}

/// The process-wide coordinator.  `C` is the type of an actor's control
/// channel, of which nothing is asked.
pub struct Supervisor<C> {
    directory: Vec<ActorRecord<C>>,
    last_id: u64,
    live: usize,
    stage: Stage,
    awaiting: usize,
}

/// The ids of a list of records.
pub open spec fn record_ids<C>(records: Seq<ActorRecord<C>>) -> Seq<nat> {
    records.map_values(|r: ActorRecord<C>| r.id as nat)
}

impl<C> View for Supervisor<C> {
    type V = SupervisorModel;

    closed spec fn view(&self) -> SupervisorModel {
        SupervisorModel {
            ids: record_ids(self.directory@),
            last_id: self.last_id as nat,
            live: self.live as nat,
            stage: self.stage,
            awaiting: self.awaiting as nat,
        }
    }
}

impl<C> Supervisor<C> {
    /// The entries of the directory, in the order in which the actors were
    /// registered.
    pub closed spec fn records(&self) -> Seq<ActorRecord<C>> {
        self.directory@
    }

    /// The supervisor's state is well formed, and the ids of its state are
    /// those of the directory's entries.
    pub open spec fn wf(&self) -> bool {
        self@.wf() && self@.ids == record_ids(self.records())
    }

    /// A supervisor without actors.
    pub fn new() -> (r: Supervisor<C>)
        ensures
            r@ == SupervisorModel::initial(),
            r.wf(),
    {
        let r = Supervisor {
            directory: Vec::new(),
            last_id: 0,
            live: 0,
            stage: Stage::Serving,
            awaiting: 0,
        };
        assert(record_ids(r.directory@) =~= Seq::<nat>::empty());
        r
    }

    /// The directory, in the order in which the actors were registered.
    pub fn directory(&self) -> (r: &Vec<ActorRecord<C>>)
        ensures
            r@ == self.records(),
    {
        &self.directory
    }

    /// The last id that was given out.
    pub fn last_id(&self) -> (r: u64)
        ensures
            r == self@.last_id,
    {
        self.last_id
    }

    /// The number of registered actors that have not ended.
    pub fn live(&self) -> (r: usize)
        ensures
            r == self@.live,
    {
        self.live
    }

    /// Whether the supervisor serves, awaits acknowledgements or has
    /// stopped.
    pub fn stage(&self) -> (r: Stage)
        ensures
            r == self@.stage,
    {
        self.stage
    }

    /// The number of acknowledgements that are still awaited.
    pub fn awaiting(&self) -> (r: usize)
        ensures
            r == self@.awaiting,
    {
        self.awaiting
    }

    /// Gives out the next id for an actor that is about to be launched.  A
    /// supervisor that no longer serves gives out none.
    pub fn begin_spawn(&mut self) -> (r: Option<u64>)
        requires
            old(self).wf(),
            old(self)@.last_id < u64::MAX,
        ensures
            final(self).wf(),
            final(self)@ == old(self)@.allocated(),
            old(self)@.stage == Stage::Serving ==> r == Some((old(self)@.last_id + 1) as u64),
            old(self)@.stage != Stage::Serving ==> r is None,
            final(self).records() == old(self).records(),
    {
        match self.stage {
            Stage::Serving => {
                self.last_id = self.last_id + 1;
                Some(self.last_id)
            },
            _ => None,
        }
    }

    /// Takes the control channel that a launched actor has sent.  Returns
    /// whether the registration was taken; one that is not changes nothing.
    pub fn register(&mut self, id: u64, control_channel: C) -> (r: bool)
        requires
            old(self).wf(),
        ensures
            final(self).wf(),
            r == old(self)@.admits(id as nat),
            final(self)@ == old(self)@.registered(id as nat),
            r ==> final(self).records() == old(self).records().push(
                ActorRecord { id, control_channel },
            ),
            !r ==> final(self).records() == old(self).records(),
    {
        match self.stage {
            Stage::Serving => {},
            _ => {
                return false;
            },
        }
        if id == 0 || id > self.last_id {
            return false;
        }
        let mut i: usize = 0;
        while i < self.directory.len()
            invariant
                i <= self.directory.len(),
                *self == *old(self),
                self.wf(),
                forall|j: int| 0 <= j < i ==> record_ids(self.directory@)[j] != id as nat,
            decreases self.directory.len() - i,
        {
            if self.directory[i].id == id {
                assert(record_ids(self.directory@)[i as int] == id as nat);
                return false;
            }
            i = i + 1;
        }
        let ghost earlier = self.directory@;
        self.directory.push(ActorRecord { id, control_channel });
        assert(record_ids(self.directory@) =~= record_ids(earlier).push(id as nat));
        assert(self.live < self.directory.len());
        self.live = self.live + 1;
        true
    }

    fn retire(&mut self) -> (r: bool)
        requires
            old(self).wf(),
        ensures
            final(self).wf(),
            final(self)@ == old(self)@.retired(),
            r == old(self)@.retiring_shuts_down(),
            final(self).records() == old(self).records(),
    {
        match self.stage {
            Stage::Serving => {},
            _ => {
                return false;
            },
        }
        if self.live > 1 {
            self.live = self.live - 1;
            false
        } else if self.live == 1 {
            self.live = 0;
            self.stage = Stage::Draining;
            self.awaiting = self.directory.len();
            true
        } else {
            false
        }
    }

    /// Handles one message of an actor.
    ///
    /// Console and error lines are passed on to their sinks.  A spawn request
    /// gives out the next id and asks for the launch.  A cast is accepted and
    /// does nothing.  An exit notice counts one actor off; the one that
    /// counts off the last asks for the shutdown.  Once the shutdown has
    /// begun no message does anything.
    pub fn on_outbound(&mut self, msg: OutboundMessage) -> (r: SupervisorAction)
        requires
            old(self).wf(),
            msg is SpawnRequest ==> old(self)@.last_id < u64::MAX,
        ensures
            final(self).wf(),
            final(self)@ == old(self)@.received(msg@),
            r@ == old(self)@.action(msg@),
            final(self).records() == old(self).records(),
    {
        match self.stage {
            Stage::Serving => {},
            _ => {
                return SupervisorAction::Nothing;
            },
        }
        match msg {
            OutboundMessage::Stdout(line) => SupervisorAction::Print(line),
            OutboundMessage::Stderr(line) => SupervisorAction::Report(line),
            OutboundMessage::SpawnRequest { lineage, target_url } => {
                self.last_id = self.last_id + 1;
                SupervisorAction::Launch { id: self.last_id, lineage, url: target_url }
            },
            OutboundMessage::Cast { id, text } => SupervisorAction::Nothing,
            OutboundMessage::ExitNotice => {
                if self.retire() {
                    SupervisorAction::Shutdown
                } else {
                    SupervisorAction::Nothing
                }
            },
        }
    }

    /// Takes note that an actor has ended without an exit notice, by a
    /// fault.  It counts as an exit notice does.  Returns whether the
    /// shutdown is to begin.
    pub fn on_actor_lost(&mut self) -> (r: bool)
        requires
            old(self).wf(),
        ensures
            final(self).wf(),
            final(self)@ == old(self)@.retired(),
            r == old(self)@.retiring_shuts_down(),
            final(self).records() == old(self).records(),
    {
        self.retire()
    }

    /// Takes one acknowledgement of the shutdown.  Returns whether the
    /// supervisor has stopped with it.
    pub fn on_done(&mut self) -> (r: bool)
        requires
            old(self).wf(),
        ensures
            final(self).wf(),
            final(self)@ == old(self)@.acknowledged(),
            r == (old(self)@.stage == Stage::Draining && final(self)@.stage == Stage::Stopped),
            final(self).records() == old(self).records(),
    {
        match self.stage {
            Stage::Draining => {
                if self.awaiting > 1 {
                    self.awaiting = self.awaiting - 1;
                    false
                } else {
                    self.awaiting = 0;
                    self.stage = Stage::Stopped;
                    true
                }
            },
            _ => false,
        }
    }
}

impl SupervisorModel {
    /// The state after `count` actors were asked for and each was launched
    /// and registered before the next request came.
    pub open spec fn spawned(self, count: nat) -> SupervisorModel
        decreases count,
    {
        if count == 0 {
            self
        } else {
            let before = self.spawned((count - 1) as nat);
            before.allocated().registered(before.last_id + 1)
        }
    }

    /// The state after `count` exit notices.
    pub open spec fn exited(self, count: nat) -> SupervisorModel
        decreases count,
    {
        if count == 0 {
            self
        } else {
            self.exited((count - 1) as nat).received(OutboundModel::ExitNotice)
        }
    }

    /// How many of `count` exit notices ask for the shutdown.
    pub open spec fn exit_shutdowns(self, count: nat) -> nat
        decreases count,
    {
        if count == 0 {
            0
        } else {
            let before = self.exit_shutdowns((count - 1) as nat);
            if self.exited((count - 1) as nat).action(OutboundModel::ExitNotice) is Shutdown {
                before + 1
            } else {
                before
            }
        }
    }

    /// The actions for a sequence of messages, one for each, in their order.
    pub open spec fn actions(self, msgs: Seq<OutboundModel>) -> Seq<ActionModel>
        decreases msgs.len(),
    {
        if msgs.len() == 0 {
            seq![]
        } else {
            self.actions(msgs.drop_last()).push(
                self.after(msgs.drop_last()).action(msgs.last()),
            )
        }
    }

    /// The state after a sequence of messages.
    pub open spec fn after(self, msgs: Seq<OutboundModel>) -> SupervisorModel
        decreases msgs.len(),
    {
        if msgs.len() == 0 {
            self
        } else {
            self.after(msgs.drop_last()).received(msgs.last())
        }
    }
}

/// Every input leaves a well-formed state well formed.
pub proof fn lemma_step_keeps_wf(state: SupervisorModel, input: SupervisorInput)
    requires
        state.wf(),
    ensures
        state.step(input).wf(),
{
    match input {
        SupervisorInput::Registration(id) => {
            if state.admits(id) {
                let next = state.registered(id);
                assert forall|i: int, j: int|
                    0 <= i < next.ids.len() && 0 <= j < next.ids.len() && i != j implies next.ids[i]
                    != next.ids[j] by {
                    if i < state.ids.len() {
                        assert(state.ids.contains(state.ids[i]));
                    }
                    if j < state.ids.len() {
                        assert(state.ids.contains(state.ids[j]));
                    }
                }
            }
        },
        _ => {},
    }
}

/// Every sequence of inputs leaves a well-formed state well formed.
pub proof fn lemma_run_keeps_wf(state: SupervisorModel, inputs: Seq<SupervisorInput>)
    requires
        state.wf(),
    ensures
        state.run(inputs).wf(),
    decreases inputs.len(),
{
    if inputs.len() > 0 {
        lemma_run_keeps_wf(state, inputs.drop_last());
        lemma_step_keeps_wf(state.run(inputs.drop_last()), inputs.last());
    }
}

/// One spawn request, followed by the registration of the actor that was
/// launched for it, adds exactly one entry to the directory.  Its id is the
/// one that the launch was asked for, it is greater than every id given out
/// before, and one more actor lives.
pub proof fn lemma_spawn_adds_one_entry(
    state: SupervisorModel,
    lineage: Seq<char>,
    target_url: Seq<char>,
)
    requires
        state.wf(),
        state.stage == Stage::Serving,
    ensures
        ({
            let request = OutboundModel::SpawnRequest { lineage, target_url };
            let id = state.last_id + 1;
            let next = state.received(request).registered(id);
            &&& state.action(request) == ActionModel::Launch { id, lineage, url: target_url }
            &&& state.received(request).admits(id)
            &&& next.ids == state.ids.push(id)
            &&& next.live == state.live + 1
            &&& next.last_id == id
            &&& forall|i: int| 0 <= i < state.ids.len() ==> state.ids[i] < id
        }),
{
    let id = state.last_id + 1;
    if state.ids.contains(id) {
        let i = choose|i: int| 0 <= i < state.ids.len() && state.ids[i] == id;
        assert(state.ids[i] <= state.last_id);
    }
}

/// After `count` spawn requests, each followed by its registration, the
/// directory has `count` new entries with the next `count` ids in rising
/// order, and `count` more actors live.
pub proof fn lemma_spawns_are_accounted(state: SupervisorModel, count: nat)
    requires
        state.wf(),
        state.stage == Stage::Serving,
    ensures
        state.spawned(count).wf(),
        state.spawned(count).stage == Stage::Serving,
        state.spawned(count).ids == state.ids + Seq::new(
            count,
            |i: int| (state.last_id + 1 + i) as nat,
        ),
        state.spawned(count).live == state.live + count,
        state.spawned(count).last_id == state.last_id + count,
    decreases count,
{
    if count == 0 {
        assert(state.ids + Seq::new(0, |i: int| (state.last_id + 1 + i) as nat) =~= state.ids);
    } else {
        let before = state.spawned((count - 1) as nat);
        lemma_spawns_are_accounted(state, (count - 1) as nat);
        lemma_spawn_adds_one_entry(before, seq![], seq![]);
        lemma_step_keeps_wf(
            before,
            SupervisorInput::Message(
                OutboundModel::SpawnRequest { lineage: seq![], target_url: seq![] },
            ),
        );
        lemma_step_keeps_wf(before.allocated(), SupervisorInput::Registration(before.last_id + 1));
        assert(state.spawned(count).ids =~= state.ids + Seq::new(
            count,
            |i: int| (state.last_id + 1 + i) as nat,
        ));
    }
}

/// While fewer exit notices have come than actors live, each counts one
/// actor off and none asks for the shutdown.  The notice of the last live
/// actor brings the count to zero and asks for the shutdown; that is the
/// only one that does.
pub proof fn lemma_exits_shut_down_once(state: SupervisorModel, count: nat)
    requires
        state.wf(),
        state.stage == Stage::Serving,
        1 <= state.live,
        count <= state.live,
    ensures
        state.exited(count).live == state.live - count,
        state.exited(count).ids == state.ids,
        count < state.live ==> state.exited(count).stage == Stage::Serving && state.exit_shutdowns(
            count,
        ) == 0,
        count == state.live ==> state.exited(count).stage == Stage::Draining
            && state.exit_shutdowns(count) == 1,
    decreases count,
{
    if count > 0 {
        lemma_exits_shut_down_once(state, (count - 1) as nat);
    }
}

/// Whatever reaches a supervisor, it asks for the shutdown at most once: a
/// supervisor that has asked for it serves no more, and one that serves no
/// more never asks.
pub proof fn lemma_shutdown_at_most_once(state: SupervisorModel, inputs: Seq<SupervisorInput>)
    requires
        state.wf(),
    ensures
        state.shutdowns(inputs) <= 1,
        state.stage != Stage::Serving ==> state.shutdowns(inputs) == 0,
        state.shutdowns(inputs) == 1 ==> state.run(inputs).stage != Stage::Serving,
        state.stage != Stage::Serving ==> state.run(inputs).stage != Stage::Serving,
    decreases inputs.len(),
{
    if inputs.len() > 0 {
        lemma_shutdown_at_most_once(state, inputs.drop_last());
        lemma_run_keeps_wf(state, inputs.drop_last());
    }
}

/// A serving supervisor hands console lines to the console in the order in
/// which they reach it, each line as it is, and they leave its state alone.
pub proof fn lemma_console_lines_keep_order(state: SupervisorModel, lines: Seq<Seq<char>>)
    requires
        state.stage == Stage::Serving,
    ensures
        state.after(lines.map_values(|line: Seq<char>| OutboundModel::Stdout(line))) == state,
        state.actions(lines.map_values(|line: Seq<char>| OutboundModel::Stdout(line)))
            == lines.map_values(|line: Seq<char>| ActionModel::Print(line)),
    decreases lines.len(),
{
    let msgs = lines.map_values(|line: Seq<char>| OutboundModel::Stdout(line));
    if lines.len() > 0 {
        lemma_console_lines_keep_order(state, lines.drop_last());
        assert(msgs.drop_last() =~= lines.drop_last().map_values(
            |line: Seq<char>| OutboundModel::Stdout(line),
        ));
        assert(msgs.last() == OutboundModel::Stdout(lines.last()));
        assert(state.actions(msgs) =~= lines.map_values(|line: Seq<char>| ActionModel::Print(line)));
    } else {
        assert(state.actions(msgs) =~= lines.map_values(|line: Seq<char>| ActionModel::Print(line)));
    }
}

} // verus!
