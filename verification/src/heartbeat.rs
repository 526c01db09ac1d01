//! The liveness heartbeat: what the background task does with each thing it
//! observes while the backend is at work.
//!
//! The task waits for whichever comes first, the timer's next tick or the
//! stop signal, hands it to `Heartbeat::observe`, and does what comes back.
//! The timer ticks once every period, for the first time one full period
//! after the task has started.

use vstd::prelude::*;

verus! {

/// The seconds between two signals, and between the start and the first
/// signal.
pub const HEARTBEAT_PERIOD_SECONDS: u64 = 5;

/// What the heartbeat task can observe.
#[derive(Clone, Copy, Debug, PartialEq, Eq, Structural)]
pub enum Pulse {
    /// The timer has ticked.
    Tick,
    /// The stop signal has arrived.
    Stop,
}

/// What the heartbeat task does next.
#[derive(Clone, Copy, Debug, PartialEq, Eq, Structural)]
pub enum Beat {
    /// Tell the chat that an answer is being worked on, then wait again.
    Signal { chat_id: i64 },
    /// Leave the loop.
    Exit,
}

/// The state of one heartbeat.
#[derive(Clone, Copy, Debug, PartialEq, Eq, Structural)]
pub struct Heartbeat {
    pub chat_id: i64,
    pub stopped: bool,
}

impl Heartbeat {
    /// The state after `pulse` has been observed: a stop is never undone.
    pub open spec fn after(self, pulse: Pulse) -> Heartbeat {
        Heartbeat { chat_id: self.chat_id, stopped: self.stopped || pulse == Pulse::Stop }
    }

    /// What observing `pulse` leads to: a signal for a tick, unless the
    /// heartbeat has been stopped.
    pub open spec fn beat(self, pulse: Pulse) -> Beat {
        if self.stopped || pulse == Pulse::Stop {
            Beat::Exit
        } else {
            Beat::Signal { chat_id: self.chat_id }
        }
    }

    /// The state after all of `pulses` have been observed, in order.
    pub open spec fn after_all(self, pulses: Seq<Pulse>) -> Heartbeat
        decreases pulses.len(),
    {
        if pulses.len() == 0 {
            self
        } else {
            self.after_all(pulses.drop_last()).after(pulses.last())
        }
    }

    /// What observing `pulses` leads to, pulse by pulse.
    pub open spec fn beats(self, pulses: Seq<Pulse>) -> Seq<Beat> {
        Seq::new(pulses.len(), |i: int| self.after_all(pulses.take(i)).beat(pulses[i]))
    }

    /// A heartbeat for `chat_id` that has not been stopped.
    pub fn start(chat_id: i64) -> (heartbeat: Heartbeat)
        ensures
            heartbeat == (Heartbeat { chat_id, stopped: false }),
    {
        Heartbeat { chat_id, stopped: false }
    }

    /// Takes note of `pulse` and says what to do next.
    pub fn observe(&mut self, pulse: Pulse) -> (beat: Beat)
        ensures
            *final(self) == old(self).after(pulse),
            beat == old(self).beat(pulse),
    {
        if self.stopped {
            return Beat::Exit;
        }
        match pulse {
            Pulse::Tick => Beat::Signal { chat_id: self.chat_id },
            Pulse::Stop => {
                self.stopped = true;
                Beat::Exit
            },
        }
    }
}

proof fn lemma_stopped_stays(heartbeat: Heartbeat, pulses: Seq<Pulse>, at: int)
    requires
        0 <= at < pulses.len(),
        pulses[at] == Pulse::Stop,
    ensures
        heartbeat.after_all(pulses).stopped,
    decreases pulses.len(),
{
    if at < pulses.len() - 1 {
        lemma_stopped_stays(heartbeat, pulses.drop_last(), at);
    }
}

proof fn lemma_running_until_stopped(heartbeat: Heartbeat, pulses: Seq<Pulse>)
    requires
        !heartbeat.stopped,
        forall|i: int| 0 <= i < pulses.len() ==> pulses[i] == Pulse::Tick,
    ensures
        heartbeat.after_all(pulses) == heartbeat,
    decreases pulses.len(),
{
    if pulses.len() > 0 {
        lemma_running_until_stopped(heartbeat, pulses.drop_last());
    }
}

/// Once the stop signal has been observed, the heartbeat signals no more:
/// whatever is observed from the stop on, the stop itself included, leads
/// to leaving the loop.
pub proof fn lemma_silent_after_stop(
    heartbeat: Heartbeat,
    pulses: Seq<Pulse>,
    stop_at: int,
    later: int,
)
    requires
        0 <= stop_at <= later < pulses.len(),
        pulses[stop_at] == Pulse::Stop,
    ensures
        heartbeat.beats(pulses)[later] == Beat::Exit,
{
    if stop_at < later {
        lemma_stopped_stays(heartbeat, pulses.take(later), stop_at);
    }
}

/// Until the stop signal is observed, a heartbeat that was started signals
/// at every tick.
pub proof fn lemma_signals_until_stop(chat_id: i64, pulses: Seq<Pulse>, at: int)
    requires
        0 <= at < pulses.len(),
        forall|i: int| 0 <= i <= at ==> pulses[i] == Pulse::Tick,
    ensures
        (Heartbeat { chat_id, stopped: false }).beats(pulses)[at] == (Beat::Signal { chat_id }),
{
    lemma_running_until_stopped(Heartbeat { chat_id, stopped: false }, pulses.take(at));
}

} // verus!
