//! A dispatch session: the pair of FIFO channels and the single worker that
//! serves them, modelled as one state object.
//!
//! The front end `send`s commands; the worker picks them up one at a time
//! with `begin_next`, executes each against the engine, and hands the
//! resulting text to `finish`; the front end `read_response`s in order.
//! Ghost logs record every command sent, every command answered, and every
//! response delivered, which lets the FIFO and exclusivity guarantees be
//! stated and proved: responses come back in exactly the order commands were
//! sent, and at most one engine operation is ever in flight.

use vstd::prelude::*;

use crate::command::Command;
use crate::command::CommandView;
use crate::worker::Phase;

verus! {

/// A channel-level failure: the worker has terminated, so no further
/// command can be queued.
#[derive(Clone, Copy, Debug, PartialEq, Eq, Structural)]
pub enum DispatchError {
    ChannelClosed,
}

/// The abstract values of a sequence of commands.
pub open spec fn views_of_cmds(s: Seq<Command>) -> Seq<CommandView> {
    s.map_values(|c: Command| c@)
}

/// The abstract values of a sequence of response texts.
pub open spec fn views_of_strs(s: Seq<String>) -> Seq<Seq<char>> {
    s.map_values(|x: String| x@)
}

/// One worker with its command and response channels.
pub struct Session {
    /// Whether the worker still serves commands.
    pub phase: Phase,
    /// Commands sent but not yet picked up by the worker (the command
    /// channel's content, oldest first).
    pub pending: Vec<Command>,
    /// Responses produced but not yet read by the front end (the response
    /// channel's content, oldest first).
    pub ready: Vec<String>,
    /// How many engine operations are executing right now.
    pub in_flight: u64,
    /// The command currently executing, if any.
    pub executing: Ghost<Option<CommandView>>,
    /// Every command ever accepted by `send`, in send order.
    pub sent: Ghost<Seq<CommandView>>,
    /// Every executed command paired with its response, in execution order.
    pub answered: Ghost<Seq<(CommandView, Seq<char>)>>,
    /// Every response handed to the front end, in read order.
    pub delivered: Ghost<Seq<Seq<char>>>,
}

impl Session {
    /// The command in flight, as a sequence of length zero or one.
    pub open spec fn executing_seq(self) -> Seq<CommandView> {
        match self.executing@ {
            Some(c) => seq![c],
            None => Seq::empty(),
        }
    }

    /// The session's invariant: the commands sent are exactly the answered
    /// ones, then the one in flight, then the queued ones, in order; the
    /// responses produced are exactly the delivered ones then the queued
    /// ones, in order; and an operation can be in flight only while the
    /// worker is alive.
    pub open spec fn wf(self) -> bool {
        &&& self.sent@ == self.answered@.map_values(|p: (CommandView, Seq<char>)| p.0)
            + self.executing_seq() + views_of_cmds(self.pending@)
        &&& self.answered@.map_values(|p: (CommandView, Seq<char>)| p.1) == self.delivered@
            + views_of_strs(self.ready@)
        &&& self.in_flight == self.executing_seq().len()
        &&& (self.executing@ is Some ==> self.phase is Waiting)
    }

    /// A fresh session: worker waiting, channels empty, nothing recorded.
    pub fn new() -> (s: Session)
        ensures
            s.wf(),
            s.phase is Waiting,
            s.pending@ =~= Seq::<Command>::empty(),
            s.ready@ =~= Seq::<String>::empty(),
            s.in_flight == 0,
            s.executing@ is None,
            s.sent@ =~= Seq::<CommandView>::empty(),
            s.answered@ =~= Seq::<(CommandView, Seq<char>)>::empty(),
            s.delivered@ =~= Seq::<Seq<char>>::empty(),
    {
        let s = Session {
            phase: Phase::Waiting,
            pending: Vec::new(),
            ready: Vec::new(),
            in_flight: 0,
            executing: Ghost(None),
            sent: Ghost(Seq::empty()),
            answered: Ghost(Seq::empty()),
            delivered: Ghost(Seq::empty()),
        };
        proof {
            assert(s.sent@ =~= s.answered@.map_values(|p: (CommandView, Seq<char>)| p.0)
                + s.executing_seq() + views_of_cmds(s.pending@));
            assert(s.answered@.map_values(|p: (CommandView, Seq<char>)| p.1) =~= s.delivered@
                + views_of_strs(s.ready@));
        }
        s
    }

    /// Queues a command for the worker.  Fails, leaving everything
    /// unchanged, exactly when the worker has terminated; otherwise the
    /// command joins the back of the command channel.
    pub fn send(&mut self, cmd: Command) -> (r: Result<(), DispatchError>)
        requires
            old(self).wf(),
        ensures
            final(self).wf(),
            old(self).phase is Terminated ==> {
                &&& r is Err
                &&& *final(self) == *old(self)
            },
            old(self).phase is Waiting ==> {
                &&& r is Ok
                &&& final(self).sent@ == old(self).sent@.push(cmd@)
                &&& final(self).pending@ == old(self).pending@.push(cmd)
                &&& final(self).phase == old(self).phase
                &&& final(self).ready@ == old(self).ready@
                &&& final(self).in_flight == old(self).in_flight
                &&& final(self).executing@ == old(self).executing@
                &&& final(self).answered@ == old(self).answered@
                &&& final(self).delivered@ == old(self).delivered@
            },
    {
        match self.phase {
            Phase::Terminated => Err(DispatchError::ChannelClosed),
            Phase::Waiting => {
                proof {
                    self.sent@ = self.sent@.push(cmd@);
                }
                self.pending.push(cmd);
                proof {
                    assert(views_of_cmds(self.pending@) =~= views_of_cmds(old(self).pending@)
                        + seq![cmd@]);
                    assert(self.sent@ =~= self.answered@.map_values(
                        |p: (CommandView, Seq<char>)| p.0,
                    ) + self.executing_seq() + views_of_cmds(self.pending@));
                }
                Ok(())
            },
        }
    }

    /// The worker picks up the next command.  Yields nothing — and changes
    /// nothing — while an operation is already in flight, after termination,
    /// or when no command is queued; otherwise it removes the oldest queued
    /// command and marks it as the one operation in flight.
    pub fn begin_next(&mut self) -> (r: Option<Command>)
        requires
            old(self).wf(),
        ensures
            final(self).wf(),
            (old(self).in_flight != 0 || old(self).phase is Terminated || old(
                self,
            ).pending@.len() == 0) ==> {
                &&& r is None
                &&& *final(self) == *old(self)
            },
            (old(self).in_flight == 0 && old(self).phase is Waiting && old(self).pending@.len()
                > 0) ==> {
                &&& r == Some(old(self).pending@[0])
                &&& final(self).pending@ == old(self).pending@.drop_first()
                &&& final(self).in_flight == 1
                &&& final(self).executing@ == Some(old(self).pending@[0]@)
                &&& final(self).phase == old(self).phase
                &&& final(self).ready@ == old(self).ready@
                &&& final(self).sent@ == old(self).sent@
                &&& final(self).answered@ == old(self).answered@
                &&& final(self).delivered@ == old(self).delivered@
            },
    {
        if self.in_flight != 0 {
            return None;
        }
        match self.phase {
            Phase::Terminated => None,
            Phase::Waiting => {
                if self.pending.len() == 0 {
                    None
                } else {
                    let c = self.pending.remove(0);
                    self.in_flight = 1;
                    proof {
                        self.executing@ = Some(c@);
                        assert(views_of_cmds(old(self).pending@) =~= seq![c@] + views_of_cmds(
                            self.pending@,
                        ));
                        assert(self.sent@ =~= self.answered@.map_values(
                            |p: (CommandView, Seq<char>)| p.0,
                        ) + self.executing_seq() + views_of_cmds(self.pending@));
                    }
                    Some(c)
                }
            },
        }
    }

    /// The worker finishes the one operation in flight: the command it took
    /// with `begin_next` is answered by exactly one response, which joins
    /// the back of the response channel, and the worker terminates exactly
    /// when that command was a quit.
    pub fn finish(&mut self, cmd: Command, response: String)
        requires
            old(self).wf(),
            old(self).in_flight == 1,
            old(self).executing@ == Some(cmd@),
        ensures
            final(self).wf(),
            final(self).in_flight == 0,
            final(self).executing@ is None,
            final(self).answered@ == old(self).answered@.push((cmd@, response@)),
            final(self).ready@ == old(self).ready@.push(response),
            final(self).phase == (if cmd@.is_quit() {
                Phase::Terminated
            } else {
                Phase::Waiting
            }),
            final(self).pending@ == old(self).pending@,
            final(self).sent@ == old(self).sent@,
            final(self).delivered@ == old(self).delivered@,
    {
        proof {
            self.answered@ = self.answered@.push((cmd@, response@));
            self.executing@ = None;
        }
        self.ready.push(response);
        self.in_flight = 0;
        self.phase = if cmd.is_quit() {
            Phase::Terminated
        } else {
            Phase::Waiting
        };
        proof {
            assert(self.answered@.map_values(|p: (CommandView, Seq<char>)| p.0)
                =~= old(self).answered@.map_values(|p: (CommandView, Seq<char>)| p.0)
                + old(self).executing_seq());
            assert(self.sent@ =~= self.answered@.map_values(|p: (CommandView, Seq<char>)| p.0)
                + self.executing_seq() + views_of_cmds(self.pending@));
            assert(views_of_strs(self.ready@) =~= views_of_strs(old(self).ready@)
                + seq![response@]);
            assert(self.answered@.map_values(|p: (CommandView, Seq<char>)| p.1) =~= old(
                self,
            ).answered@.map_values(|p: (CommandView, Seq<char>)| p.1) + seq![response@]);
            assert(self.answered@.map_values(|p: (CommandView, Seq<char>)| p.1) =~= self.delivered@
                + views_of_strs(self.ready@));
        }
    }

    /// The front end reads the oldest response still queued, if any.
    pub fn read_response(&mut self) -> (r: Option<String>)
        requires
            old(self).wf(),
        ensures
            final(self).wf(),
            old(self).ready@.len() == 0 ==> {
                &&& r is None
                &&& *final(self) == *old(self)
            },
            old(self).ready@.len() > 0 ==> {
                &&& r == Some(old(self).ready@[0])
                &&& final(self).ready@ == old(self).ready@.drop_first()
                &&& final(self).delivered@ == old(self).delivered@.push(old(self).ready@[0]@)
                &&& final(self).phase == old(self).phase
                &&& final(self).pending@ == old(self).pending@
                &&& final(self).in_flight == old(self).in_flight
                &&& final(self).executing@ == old(self).executing@
                &&& final(self).sent@ == old(self).sent@
                &&& final(self).answered@ == old(self).answered@
            },
    {
        if self.ready.len() == 0 {
            None
        } else {
            let r = self.ready.remove(0);
            proof {
                self.delivered@ = self.delivered@.push(r@);
                assert(views_of_strs(old(self).ready@) =~= seq![r@] + views_of_strs(self.ready@));
                assert(self.answered@.map_values(|p: (CommandView, Seq<char>)| p.1)
                    =~= self.delivered@ + views_of_strs(self.ready@));
            }
            Some(r)
        }
    }
}

/// In every reachable session state, the responses delivered so far answer,
/// one for one and in order, the oldest commands sent: the i-th response a
/// front end reads is the worker's answer to the i-th command it sent.
pub proof fn lemma_responses_in_send_order(s: Session)
    requires
        s.wf(),
    ensures
        s.delivered@.len() <= s.answered@.len(),
        s.answered@.len() <= s.sent@.len(),
        forall|i: int|
            0 <= i < s.answered@.len() ==> (#[trigger] s.answered@[i]).0 == s.sent@[i],
        forall|i: int|
            0 <= i < s.delivered@.len() ==> #[trigger] s.delivered@[i] == s.answered@[i].1,
{
    let firsts = s.answered@.map_values(|p: (CommandView, Seq<char>)| p.0);
    let seconds = s.answered@.map_values(|p: (CommandView, Seq<char>)| p.1);
    assert(firsts.len() == s.answered@.len());
    assert(seconds.len() == s.answered@.len());
    assert(s.sent@.len() == firsts.len() + s.executing_seq().len() + views_of_cmds(
        s.pending@,
    ).len());
    assert(seconds.len() == s.delivered@.len() + views_of_strs(s.ready@).len());
    assert forall|i: int| 0 <= i < s.answered@.len() implies (#[trigger] s.answered@[i]).0
        == s.sent@[i] by {
        assert(s.sent@[i] == firsts[i]);
    }
    assert forall|i: int| 0 <= i < s.delivered@.len() implies #[trigger] s.delivered@[i]
        == s.answered@[i].1 by {
        assert(seconds[i] == s.delivered@[i]);
    }
}

/// At no point are two engine operations in flight: the call-depth counter
/// never exceeds one.
pub proof fn lemma_at_most_one_operation(s: Session)
    requires
        s.wf(),
    ensures
        s.in_flight <= 1,
{
}

} // verus!
