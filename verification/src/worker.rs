//! Decision logic of the dispatch worker.
//!
//! The worker owns the wallet engine and loops over one primitive: wait for
//! the next command with a bounded timeout (the idle window).  Each loop
//! iteration consumes one event and performs exactly one action, so user
//! commands and background synchronization can never overlap.  The unverified
//! shell supplies the events (from the command channel) and carries out the
//! actions (engine calls and response sends); every decision is taken here.

use vstd::prelude::*;

use crate::command::Command;

verus! {

/// The worker's control state after a step.
pub enum Phase {
    /// Keep looping: wait for the next command or idle timeout.
    Waiting,
    /// Stop the loop; the engine is torn down after this.
    Terminated,
}

/// One outcome of the worker's receive-with-timeout call.
pub enum WorkerEvent {
    /// A command arrived on the command channel.
    Received(Command),
    /// No command arrived within one idle window.
    TimedOut,
    /// The command channel was closed (all senders dropped).
    Closed,
}

/// What the worker does in response to one event.
pub enum WorkerAction {
    /// Execute the command against the engine and send exactly one
    /// response with the resulting text (errors included, as text).
    ExecuteAndRespond(Command),
    /// Run a background synchronization, reporting no progress and sending
    /// no response; a failure is logged and swallowed.
    SyncQuietly,
    /// Stop without sending a response.
    Shutdown,
}

/// The action the worker takes on an event.
pub open spec fn step_action(ev: WorkerEvent) -> WorkerAction {
    match ev {
        WorkerEvent::Received(c) => WorkerAction::ExecuteAndRespond(c),
        WorkerEvent::TimedOut => WorkerAction::SyncQuietly,
        WorkerEvent::Closed => WorkerAction::Shutdown,
    }
}

/// The control state the worker is left in by an event: it terminates on a
/// quit command (after responding) and on channel closure, and keeps
/// waiting otherwise.
pub open spec fn step_phase(ev: WorkerEvent) -> Phase {
    match ev {
        WorkerEvent::Received(c) => if c@.is_quit() {
            Phase::Terminated
        } else {
            Phase::Waiting
        },
        WorkerEvent::TimedOut => Phase::Waiting,
        WorkerEvent::Closed => Phase::Terminated,
    }
}

/// Decides one iteration of the worker loop: which single action to perform
/// for the event, and whether to keep looping afterwards.
pub fn worker_step(event: WorkerEvent) -> (r: (Phase, WorkerAction))
    ensures
        r.0 == step_phase(event),
        r.1 == step_action(event),
{
    match event {
        WorkerEvent::Received(c) => {
            let quit = c.is_quit();
            let phase = if quit {
                Phase::Terminated
            } else {
                Phase::Waiting
            };
            (phase, WorkerAction::ExecuteAndRespond(c))
        },
        WorkerEvent::TimedOut => (Phase::Waiting, WorkerAction::SyncQuietly),
        WorkerEvent::Closed => (Phase::Terminated, WorkerAction::Shutdown),
    }
}

/// How many events the worker consumes from a stream before its loop ends:
/// everything up to and including the first terminating event.
pub open spec fn consumed_len(events: Seq<WorkerEvent>) -> nat
    decreases events.len(),
{
    if events.len() == 0 {
        0
    } else if step_phase(events[0]) is Terminated {
        1
    } else {
        1 + consumed_len(events.drop_first())
    }
}

/// The actions a worker performs on a stream of events: one per consumed
/// event, in order.
pub open spec fn run_actions(events: Seq<WorkerEvent>) -> Seq<WorkerAction>
    decreases events.len(),
{
    if events.len() == 0 {
        Seq::empty()
    } else if step_phase(events[0]) is Terminated {
        seq![step_action(events[0])]
    } else {
        seq![step_action(events[0])] + run_actions(events.drop_first())
    }
}

/// The commands carried by the received events of a stream, in order.
pub open spec fn commands_received(events: Seq<WorkerEvent>) -> Seq<Command>
    decreases events.len(),
{
    if events.len() == 0 {
        Seq::empty()
    } else {
        let rest = commands_received(events.drop_first());
        match events[0] {
            WorkerEvent::Received(c) => seq![c] + rest,
            _ => rest,
        }
    }
}

/// The commands answered by the response-producing actions of a run, in order.
pub open spec fn commands_answered(actions: Seq<WorkerAction>) -> Seq<Command>
    decreases actions.len(),
{
    if actions.len() == 0 {
        Seq::empty()
    } else {
        let rest = commands_answered(actions.drop_first());
        match actions[0] {
            WorkerAction::ExecuteAndRespond(c) => seq![c] + rest,
            _ => rest,
        }
    }
}

/// How many timeout events a stream holds.
pub open spec fn count_timeouts(events: Seq<WorkerEvent>) -> nat
    decreases events.len(),
{
    if events.len() == 0 {
        0
    } else {
        (if events[0] is TimedOut {
            1nat
        } else {
            0nat
        }) + count_timeouts(events.drop_first())
    }
}

/// How many synchronization actions a run performs.
pub open spec fn count_syncs(actions: Seq<WorkerAction>) -> nat
    decreases actions.len(),
{
    if actions.len() == 0 {
        0
    } else {
        (if actions[0] is SyncQuietly {
            1nat
        } else {
            0nat
        }) + count_syncs(actions.drop_first())
    }
}

/// The events a worker actually consumes from a stream.
pub open spec fn consumed(events: Seq<WorkerEvent>) -> Seq<WorkerEvent> {
    events.take(consumed_len(events) as int)
}

/// The worker never consumes more events than the stream holds.
pub proof fn lemma_consumed_len_bound(events: Seq<WorkerEvent>)
    ensures
        consumed_len(events) <= events.len(),
    decreases events.len(),
{
    if events.len() == 0 {
    } else if step_phase(events[0]) is Terminated {
    } else {
        lemma_consumed_len_bound(events.drop_first());
    }
}

/// The worker answers exactly the commands it received, one response each,
/// in the order they arrived: no response is dropped, duplicated, or
/// reordered while the worker runs.
pub proof fn lemma_worker_answers_in_order(events: Seq<WorkerEvent>)
    ensures
        commands_answered(run_actions(events)) =~= commands_received(consumed(events)),
    decreases events.len(),
{
    if events.len() == 0 {
    } else if step_phase(events[0]) is Terminated {
        let acts = run_actions(events);
        let cons = consumed(events);
        assert(acts.drop_first() =~= Seq::<WorkerAction>::empty());
        assert(cons =~= seq![events[0]]);
        assert(cons.drop_first() =~= Seq::<WorkerEvent>::empty());
        assert(acts[0] == step_action(events[0]));
        assert(cons[0] == events[0]);
        match events[0] {
            WorkerEvent::Received(c) => {
                assert(commands_answered(acts) =~= seq![c] + commands_answered(
                    acts.drop_first(),
                ));
                assert(commands_received(cons) =~= seq![c] + commands_received(
                    cons.drop_first(),
                ));
            },
            _ => {
                assert(commands_answered(acts) =~= commands_answered(acts.drop_first()));
                assert(commands_received(cons) =~= commands_received(cons.drop_first()));
            },
        }
    } else {
        lemma_worker_answers_in_order(events.drop_first());
        lemma_consumed_len_bound(events.drop_first());
        let acts = run_actions(events);
        assert(acts.drop_first() =~= run_actions(events.drop_first()));
        let cons = consumed(events);
        assert(cons[0] == events[0]);
        assert(cons.drop_first() =~= consumed(events.drop_first()));
        assert(acts[0] == step_action(events[0]));
        match events[0] {
            WorkerEvent::Received(c) => {
                assert(commands_answered(acts) =~= seq![c] + commands_answered(
                    acts.drop_first(),
                ));
                assert(commands_received(cons) =~= seq![c] + commands_received(
                    cons.drop_first(),
                ));
            },
            _ => {
                assert(commands_answered(acts) =~= commands_answered(acts.drop_first()));
                assert(commands_received(cons) =~= commands_received(cons.drop_first()));
            },
        }
    }
}

/// Exactly one synchronization attempt occurs per elapsed idle window while
/// the worker runs, and none otherwise: a stream without timeouts (a burst
/// of commands) triggers no synchronization at all.
pub proof fn lemma_one_sync_per_idle_window(events: Seq<WorkerEvent>)
    ensures
        count_syncs(run_actions(events)) == count_timeouts(consumed(events)),
    decreases events.len(),
{
    if events.len() == 0 {
    } else if step_phase(events[0]) is Terminated {
        let acts = run_actions(events);
        let cons = consumed(events);
        assert(acts.drop_first() =~= Seq::<WorkerAction>::empty());
        assert(cons =~= seq![events[0]]);
        assert(cons.drop_first() =~= Seq::<WorkerEvent>::empty());
        assert(acts[0] == step_action(events[0]));
        assert(cons[0] == events[0]);
        assert(count_syncs(acts) == (if acts[0] is SyncQuietly {
            1nat
        } else {
            0nat
        }) + count_syncs(acts.drop_first()));
        assert(count_timeouts(cons) == (if cons[0] is TimedOut {
            1nat
        } else {
            0nat
        }) + count_timeouts(cons.drop_first()));
    } else {
        lemma_one_sync_per_idle_window(events.drop_first());
        lemma_consumed_len_bound(events.drop_first());
        let acts = run_actions(events);
        assert(acts.drop_first() =~= run_actions(events.drop_first()));
        let cons = consumed(events);
        assert(cons[0] == events[0]);
        assert(cons.drop_first() =~= consumed(events.drop_first()));
        assert(acts[0] == step_action(events[0]));
        assert(count_syncs(acts) == (if acts[0] is SyncQuietly {
            1nat
        } else {
            0nat
        }) + count_syncs(acts.drop_first()));
        assert(count_timeouts(cons) == (if cons[0] is TimedOut {
            1nat
        } else {
            0nat
        }) + count_timeouts(cons.drop_first()));
    }
}

/// A burst of commands — a stream with no timeout among the events the
/// worker consumes — triggers no synchronization at all.
pub proof fn lemma_burst_suppresses_sync(events: Seq<WorkerEvent>)
    requires
        count_timeouts(consumed(events)) == 0,
    ensures
        count_syncs(run_actions(events)) == 0,
{
    lemma_one_sync_per_idle_window(events);
}

/// A quit command yields exactly one response-producing action, answering
/// that very command, and the worker consumes no further event.
pub proof fn lemma_quit_answered_then_stop(events: Seq<WorkerEvent>, c: Command)
    requires
        events.len() > 0,
        events[0] == WorkerEvent::Received(c),
        c@.is_quit(),
    ensures
        consumed_len(events) == 1,
        run_actions(events) =~= seq![WorkerAction::ExecuteAndRespond(c)],
{
}

} // verus!
