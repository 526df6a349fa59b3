//! Tests of the dispatch session and the worker's decision logic.

use zecwallet_cli::Command;
use zecwallet_cli::DispatchError;
use zecwallet_cli::Phase;
use zecwallet_cli::Session;
use zecwallet_cli::WorkerAction;
use zecwallet_cli::WorkerEvent;
use zecwallet_cli::oneshot_plan;
use zecwallet_cli::save_command;
use zecwallet_cli::worker_step;

fn cmd(name: &str, args: &[&str]) -> Command {
    Command::new(
        name.to_owned(),
        args.iter().map(|a| (*a).to_owned()).collect(),
    )
}

/// Serves every queued command in order, answering each with
/// `<name>-response`, as the worker would.
fn serve_all(s: &mut Session) {
    while let Some(c) = s.begin_next() {
        let response = format!("{}-response", c.name);
        s.finish(c, response);
    }
}

#[test]
fn responses_come_back_in_send_order() {
    let mut s = Session::new();
    s.send(cmd("info", &[])).unwrap();
    s.send(cmd("save", &[])).unwrap();
    serve_all(&mut s);
    assert_eq!(s.read_response(), Some("info-response".to_owned()));
    assert_eq!(s.read_response(), Some("save-response".to_owned()));
    assert_eq!(s.read_response(), None);
}

#[test]
fn many_commands_before_any_read_stay_ordered() {
    let mut s = Session::new();
    for i in 0..10 {
        s.send(cmd(&format!("c{}", i), &[])).unwrap();
    }
    serve_all(&mut s);
    for i in 0..10 {
        assert_eq!(s.read_response(), Some(format!("c{}-response", i)));
    }
    assert_eq!(s.read_response(), None);
}

#[test]
fn at_most_one_operation_in_flight() {
    let mut s = Session::new();
    s.send(cmd("info", &[])).unwrap();
    s.send(cmd("save", &[])).unwrap();
    let first = s.begin_next();
    assert!(first.is_some());
    assert_eq!(s.in_flight, 1);
    // a second operation may not start while the first is unfinished
    assert!(s.begin_next().is_none());
    assert_eq!(s.in_flight, 1);
    s.finish(first.unwrap(), "done".to_owned());
    assert_eq!(s.in_flight, 0);
    assert!(s.begin_next().is_some());
}

#[test]
fn quit_yields_one_response_then_channel_closes() {
    let mut s = Session::new();
    s.send(cmd("quit", &[])).unwrap();
    serve_all(&mut s);
    let resp = s.read_response();
    assert!(resp.is_some());
    assert!(!resp.unwrap().is_empty());
    assert_eq!(s.read_response(), None);
    // any later send fails with a channel-closed condition
    assert_eq!(s.send(cmd("info", &[])), Err(DispatchError::ChannelClosed));
}

#[test]
fn commands_queued_after_quit_are_never_served() {
    let mut s = Session::new();
    s.send(cmd("quit", &[])).unwrap();
    s.send(cmd("info", &[])).unwrap();
    serve_all(&mut s);
    assert!(s.read_response().is_some());
    assert_eq!(s.read_response(), None);
}

#[test]
fn worker_executes_and_responds_to_a_command() {
    let (phase, action) = worker_step(WorkerEvent::Received(cmd("balance", &[])));
    assert!(matches!(phase, Phase::Waiting));
    match action {
        WorkerAction::ExecuteAndRespond(c) => assert_eq!(c.name, "balance"),
        _ => panic!("expected an execute-and-respond action"),
    }
}

#[test]
fn worker_terminates_after_answering_quit() {
    let (phase, action) = worker_step(WorkerEvent::Received(cmd("quit", &[])));
    assert!(matches!(phase, Phase::Terminated));
    match action {
        WorkerAction::ExecuteAndRespond(c) => assert_eq!(c.name, "quit"),
        _ => panic!("quit must still be answered"),
    }
}

#[test]
fn idle_timeout_triggers_exactly_a_quiet_sync() {
    let (phase, action) = worker_step(WorkerEvent::TimedOut);
    assert!(matches!(phase, Phase::Waiting));
    assert!(matches!(action, WorkerAction::SyncQuietly));
}

#[test]
fn a_command_burst_never_triggers_sync() {
    for name in ["info", "height", "save", "balance"] {
        let (_, action) = worker_step(WorkerEvent::Received(cmd(name, &[])));
        assert!(!matches!(action, WorkerAction::SyncQuietly));
    }
}

#[test]
fn closed_channel_shuts_the_worker_down() {
    let (phase, action) = worker_step(WorkerEvent::Closed);
    assert!(matches!(phase, Phase::Terminated));
    assert!(matches!(action, WorkerAction::Shutdown));
}

#[test]
fn oneshot_always_appends_a_trailing_save() {
    let plan = oneshot_plan(cmd("send", &["addr", "100"]));
    assert_eq!(plan.len(), 2);
    assert_eq!(plan[0].name, "send");
    assert_eq!(plan[0].args, vec!["addr".to_owned(), "100".to_owned()]);
    assert_eq!(plan[1].name, "save");
    assert!(plan[1].args.is_empty());
}

#[test]
fn oneshot_appends_save_even_when_the_command_fails() {
    // the plan is fixed before any response is seen, so an erroring first
    // command changes nothing about the trailing save
    let plan = oneshot_plan(cmd("no-such-command", &[]));
    assert_eq!(plan.len(), 2);
    assert_eq!(plan[1].name, "save");

    let mut s = Session::new();
    for c in plan {
        s.send(c).unwrap();
    }
    // the worker answers the unknown command with an error text, as text
    let first = s.begin_next().unwrap();
    s.finish(first, "error: unknown command".to_owned());
    let second = s.begin_next().unwrap();
    assert_eq!(second.name, "save");
    s.finish(second, "wallet saved".to_owned());
    assert_eq!(s.read_response(), Some("error: unknown command".to_owned()));
    assert_eq!(s.read_response(), Some("wallet saved".to_owned()));
}

#[test]
fn save_command_is_save_with_no_args() {
    let c = save_command();
    assert_eq!(c.name, "save");
    assert!(c.args.is_empty());
}

#[test]
fn height_then_quit_scenario() {
    let mut s = Session::new();
    s.send(cmd("height", &[])).unwrap();
    let c = s.begin_next().unwrap();
    assert_eq!(c.name, "height");
    s.finish(c, "{\"height\":1234567}".to_owned());
    let resp = s.read_response().unwrap();
    let height = zecwallet_cli::height_from_response(&resp);
    assert_eq!(height, Some(1234567));

    s.send(cmd("quit", &[])).unwrap();
    let q = s.begin_next().unwrap();
    s.finish(q, "quitting".to_owned());
    let resp = s.read_response().unwrap();
    assert!(!resp.is_empty());
    assert!(s.send(cmd("height", &[])).is_err());
}
