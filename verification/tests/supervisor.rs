use script_host::actor::{Actor, Reaction};
use script_host::message::{EngineEvent, OutboundMessage};
use script_host::supervisor::{ActorRecord, Stage, Supervisor, SupervisorAction};
use std::sync::mpsc;

fn spawn(supervisor: &mut Supervisor<&'static str>, channel: &'static str) -> u64 {
    let id = supervisor.begin_spawn().expect("the supervisor serves");
    assert!(supervisor.register(id, channel));
    id
}

fn ids(supervisor: &Supervisor<&'static str>) -> Vec<u64> {
    supervisor.directory().iter().map(|record| record.id).collect()
}

#[test]
fn new_supervisor_is_empty_and_serves() {
    let supervisor: Supervisor<()> = Supervisor::new();
    assert!(supervisor.directory().is_empty());
    assert_eq!(supervisor.last_id(), 0);
    assert_eq!(supervisor.live(), 0);
    assert_eq!(supervisor.stage(), Stage::Serving);
    assert_eq!(supervisor.awaiting(), 0);
}

#[test]
fn ids_count_up_from_one() {
    let mut supervisor: Supervisor<&'static str> = Supervisor::new();
    assert_eq!(supervisor.begin_spawn(), Some(1));
    assert_eq!(supervisor.begin_spawn(), Some(2));
    assert_eq!(supervisor.last_id(), 2);
    assert_eq!(supervisor.live(), 0);
    assert!(supervisor.register(2, "second"));
    assert!(supervisor.register(1, "first"));
    assert_eq!(
        supervisor.directory(),
        &vec![
            ActorRecord { id: 2, control_channel: "second" },
            ActorRecord { id: 1, control_channel: "first" },
        ]
    );
    assert_eq!(supervisor.live(), 2);
}

#[test]
fn registrations_that_were_not_asked_for_are_refused() {
    let mut supervisor: Supervisor<&'static str> = Supervisor::new();
    assert!(!supervisor.register(1, "early"));
    assert_eq!(supervisor.begin_spawn(), Some(1));
    assert!(!supervisor.register(0, "zero"));
    assert!(!supervisor.register(2, "ahead"));
    assert!(supervisor.register(1, "first"));
    assert!(!supervisor.register(1, "again"));
    assert_eq!(supervisor.directory(), &vec![ActorRecord { id: 1, control_channel: "first" }]);
    assert_eq!(supervisor.live(), 1);
}

#[test]
fn console_and_error_lines_go_to_their_sinks() {
    let mut supervisor: Supervisor<&'static str> = Supervisor::new();
    spawn(&mut supervisor, "a");
    assert_eq!(
        supervisor.on_outbound(OutboundMessage::Stdout("out".to_string())),
        SupervisorAction::Print("out".to_string())
    );
    assert_eq!(
        supervisor.on_outbound(OutboundMessage::Stderr("err".to_string())),
        SupervisorAction::Report("err".to_string())
    );
    assert_eq!(
        supervisor.on_outbound(OutboundMessage::Cast { id: "2".to_string(), text: "hi".to_string() }),
        SupervisorAction::Nothing
    );
    assert_eq!(supervisor.live(), 1);
    assert_eq!(supervisor.last_id(), 1);
    assert_eq!(supervisor.stage(), Stage::Serving);
}

#[test]
fn spawn_fan_out_accounting() {
    let mut supervisor: Supervisor<&'static str> = Supervisor::new();
    spawn(&mut supervisor, "root");
    let mut actor = Actor::new(1);
    assert!(actor.start("test.js".to_string()).is_some());
    let mut shutdowns = 0;
    for target in ["a.js", "b.js", "c.js"] {
        let request = match actor.on_js_msg(EngineEvent { level: 6, message: target.to_string() }) {
            Ok(Reaction::Forward(request)) => request,
            other => panic!("no spawn request: {:?}", other),
        };
        match supervisor.on_outbound(request) {
            SupervisorAction::Launch { id, url, .. } => {
                assert_eq!(url, target);
                assert!(supervisor.register(id, target));
            }
            other => panic!("no launch: {:?}", other),
        }
    }
    assert_eq!(ids(&supervisor), vec![1, 2, 3, 4]);
    assert_eq!(supervisor.live(), 4);
    assert_eq!(supervisor.last_id(), 4);
    for left in [3, 2, 1, 0] {
        let action = supervisor.on_outbound(OutboundMessage::ExitNotice);
        if action == SupervisorAction::Shutdown {
            shutdowns += 1;
            assert_eq!(left, 0);
        } else {
            assert_eq!(action, SupervisorAction::Nothing);
        }
        assert_eq!(supervisor.live(), left);
    }
    assert_eq!(shutdowns, 1);
    assert_eq!(supervisor.stage(), Stage::Draining);
    assert_eq!(supervisor.awaiting(), 4);
    // Nothing that comes later asks for another shutdown.
    assert_eq!(supervisor.on_outbound(OutboundMessage::ExitNotice), SupervisorAction::Nothing);
    assert_eq!(
        supervisor.on_outbound(OutboundMessage::Stdout("late".to_string())),
        SupervisorAction::Nothing
    );
    assert!(!supervisor.on_actor_lost());
    assert_eq!(supervisor.begin_spawn(), None);
    assert!(!supervisor.register(4, "late"));
    assert_eq!(supervisor.live(), 0);
}

#[test]
fn spawn_request_names_the_lineage() {
    let mut supervisor: Supervisor<&'static str> = Supervisor::new();
    spawn(&mut supervisor, "root");
    assert_eq!(
        supervisor.on_outbound(OutboundMessage::SpawnRequest {
            lineage: "1:0".to_string(),
            target_url: "child.js".to_string(),
        }),
        SupervisorAction::Launch { id: 2, lineage: "1:0".to_string(), url: "child.js".to_string() }
    );
    // The actor lives once it is registered, not before.
    assert_eq!(supervisor.live(), 1);
    assert!(supervisor.register(2, "child"));
    assert_eq!(supervisor.live(), 2);
}

#[test]
fn shutdown_waits_for_every_acknowledgement() {
    let mut supervisor: Supervisor<&'static str> = Supervisor::new();
    spawn(&mut supervisor, "a");
    spawn(&mut supervisor, "b");
    assert!(!supervisor.on_done());
    assert_eq!(supervisor.on_outbound(OutboundMessage::ExitNotice), SupervisorAction::Nothing);
    assert_eq!(supervisor.on_outbound(OutboundMessage::ExitNotice), SupervisorAction::Shutdown);
    assert_eq!(supervisor.awaiting(), 2);
    assert!(!supervisor.on_done());
    assert_eq!(supervisor.stage(), Stage::Draining);
    assert_eq!(supervisor.awaiting(), 1);
    assert!(supervisor.on_done());
    assert_eq!(supervisor.stage(), Stage::Stopped);
    assert_eq!(supervisor.awaiting(), 0);
    assert!(!supervisor.on_done());
    assert_eq!(ids(&supervisor), vec![1, 2]);
}

#[test]
fn a_lost_actor_counts_as_an_exit() {
    let mut supervisor: Supervisor<&'static str> = Supervisor::new();
    assert!(!supervisor.on_actor_lost());
    spawn(&mut supervisor, "a");
    spawn(&mut supervisor, "b");
    assert!(!supervisor.on_actor_lost());
    assert_eq!(supervisor.live(), 1);
    assert!(supervisor.on_actor_lost());
    assert_eq!(supervisor.live(), 0);
    assert_eq!(supervisor.stage(), Stage::Draining);
}

#[test]
fn exit_notice_without_a_live_actor_does_nothing() {
    let mut supervisor: Supervisor<&'static str> = Supervisor::new();
    assert_eq!(supervisor.on_outbound(OutboundMessage::ExitNotice), SupervisorAction::Nothing);
    assert_eq!(supervisor.stage(), Stage::Serving);
    assert_eq!(supervisor.live(), 0);
}

#[test]
fn per_channel_order_preservation() {
    let (outbound, inbox) = mpsc::channel::<OutboundMessage>();
    let mut actor = Actor::new(1);
    assert!(actor.start("test.js".to_string()).is_some());
    for text in ["a", "b"] {
        match actor.on_js_msg(EngineEvent { level: 4, message: text.to_string() }) {
            Ok(Reaction::Forward(message)) => outbound.send(message).expect("the inbox is open"),
            other => panic!("nothing to forward: {:?}", other),
        }
    }
    drop(outbound);
    let mut supervisor: Supervisor<&'static str> = Supervisor::new();
    spawn(&mut supervisor, "one");
    let mut console = Vec::new();
    for message in inbox {
        match supervisor.on_outbound(message) {
            SupervisorAction::Print(line) => console.push(line),
            other => panic!("not for the console: {:?}", other),
        }
    }
    assert_eq!(console, vec!["[Actor 1] a".to_string(), "[Actor 1] b".to_string()]);
}
