//! The countdown of a level.

use crate::events::GameEvent;
use bevy::time::{Timer, TimerMode};
use std::time::Duration;
use vstd::prelude::*;

verus! {

/// Time allowed for a level, in nanoseconds: 25 seconds.
pub const LEVEL_TIME_NS: u64 = 25_000_000_000;

/// A running one-shot countdown: how long it lasts and how much of that has
/// passed, both in nanoseconds.
#[derive(Copy, Clone, PartialEq, Eq, Structural, Debug)]
pub struct Countdown {
    pub duration_ns: u64,
    pub elapsed_ns: u64,
}

/// The countdown of the level being played, if one is running.
#[derive(Copy, Clone, PartialEq, Eq, Structural, Debug)]
pub struct GameTimer(pub Option<Countdown>);

impl Countdown {
    /// The countdown reaches its duration when `delta_ns` more nanoseconds
    /// pass.
    pub open spec fn reaches_end(self, delta_ns: u64) -> bool {
        self.elapsed_ns + delta_ns >= self.duration_ns
    }

    /// Time left on the countdown, in nanoseconds.
    pub open spec fn remaining_ns(self) -> nat {
        if self.elapsed_ns <= self.duration_ns {
            (self.duration_ns - self.elapsed_ns) as nat
        } else {
            0
        }
    }
}

impl GameTimer {
    /// A countdown is running and runs out when `delta_ns` more nanoseconds
    /// pass.
    pub open spec fn expires(self, delta_ns: u64) -> bool {
        self.0 matches Some(c) && c.reaches_end(delta_ns)
    }

    /// The timer after `delta_ns` more nanoseconds: a countdown that would
    /// reach its duration is cleared, any other has advanced by `delta_ns`.
    pub open spec fn ticked(self, delta_ns: u64) -> GameTimer {
        match self.0 {
            Some(c) => if c.reaches_end(delta_ns) {
                GameTimer(None)
            } else {
                GameTimer(
                    Some(
                        Countdown {
                            duration_ns: c.duration_ns,
                            elapsed_ns: (c.elapsed_ns + delta_ns) as u64,
                        },
                    ),
                )
            },
            None => GameTimer(None),
        }
    }

    /// The timer after a run of frames, `deltas` being the nanoseconds that
    /// passed in each.
    pub open spec fn ticked_through(self, deltas: Seq<u64>) -> GameTimer
        decreases deltas.len(),
    {
        if deltas.len() == 0 {
            self
        } else {
            self.ticked_through(deltas.drop_last()).ticked(deltas.last())
        }
    }

    /// Number of frames of a run in which the countdown expires.
    pub open spec fn expiries(self, deltas: Seq<u64>) -> nat
        decreases deltas.len(),
    {
        if deltas.len() == 0 {
            0
        } else {
            self.expiries(deltas.drop_last()) + if self.ticked_through(deltas.drop_last()).expires(
                deltas.last(),
            ) {
                1nat
            } else {
                0nat
            }
        }
    }

    /// A countdown for a level that has just been laid out.
    pub open spec fn fresh() -> GameTimer {
        GameTimer(Some(Countdown { duration_ns: LEVEL_TIME_NS, elapsed_ns: 0 }))
    }
}

/// Runs one `bevy::time::Timer::tick`.  A one-shot timer of `duration_ns`
/// with `elapsed_ns` on it (made with `Timer::new` and `Timer::set_elapsed`)
/// is ticked by `delta_ns`; the result is what `Timer::elapsed` and
/// `Timer::finished` report afterwards.
///
/// Not proved, but taken from the engine: for a timer that is neither paused
/// nor finished, `tick` adds the delta to the elapsed time, the timer is
/// finished exactly when that sum has reached the duration, and a finished
/// one-shot timer stands at exactly its duration.  All three times are below
/// 2^64 nanoseconds, so neither the sum nor the conversions can overflow.
#[verifier::external_body]
fn tick_engine_timer(duration_ns: u64, elapsed_ns: u64, delta_ns: u64) -> (r: (u64, bool))
    ensures
        r.1 == (elapsed_ns + delta_ns >= duration_ns),
        r.0 == if r.1 {
            duration_ns as int
        } else {
            elapsed_ns + delta_ns
        },
{
    let mut timer = Timer::new(Duration::from_nanos(duration_ns), TimerMode::Once);
    timer.set_elapsed(Duration::from_nanos(elapsed_ns));
    timer.tick(Duration::from_nanos(delta_ns));
    (timer.elapsed().as_nanos() as u64, timer.finished())
}

/// Lets `delta_ns` nanoseconds pass on the countdown.  When the countdown
/// reaches its duration it is cleared and one `TimerExpired` signal is
/// raised; without a countdown nothing happens.
pub fn timer_expired(timer: &mut GameTimer, delta_ns: u64, events: &mut Vec<GameEvent>)
    ensures
        *final(timer) == old(timer).ticked(delta_ns),
        final(events)@ == if old(timer).expires(delta_ns) {
            old(events)@.push(GameEvent::TimerExpired)
        } else {
            old(events)@
        },
{
    match timer.0 {
        Some(c) => {
            let (elapsed_ns, finished) = tick_engine_timer(c.duration_ns, c.elapsed_ns, delta_ns);
            if finished {
                events.push(GameEvent::TimerExpired);
                timer.0 = None;
            } else {
                timer.0 = Some(Countdown { duration_ns: c.duration_ns, elapsed_ns });
            }
        },
        None => {},
    }
}

/// Sum of the nanoseconds of a run of frames.
pub open spec fn total_ns(deltas: Seq<u64>) -> nat
    decreases deltas.len(),
{
    if deltas.len() == 0 {
        0
    } else {
        total_ns(deltas.drop_last()) + deltas.last() as nat
    }
}

/// A countdown that is left alone expires once and never early: over a run
/// of frames it expires in exactly one frame if the time that passed has
/// reached its duration, and in none if it has not; afterwards it is gone,
/// or has advanced by the time that passed.
pub proof fn lemma_countdown_fires_once(c: Countdown, deltas: Seq<u64>)
    ensures
        GameTimer(Some(c)).expiries(deltas) == if deltas.len() > 0 && c.elapsed_ns + total_ns(
            deltas,
        ) >= c.duration_ns {
            1nat
        } else {
            0nat
        },
        GameTimer(Some(c)).ticked_through(deltas) == if deltas.len() > 0 && c.elapsed_ns
            + total_ns(deltas) >= c.duration_ns {
            GameTimer(None)
        } else {
            GameTimer(
                Some(
                    Countdown {
                        duration_ns: c.duration_ns,
                        elapsed_ns: (c.elapsed_ns + total_ns(deltas)) as u64,
                    },
                ),
            )
        },
    decreases deltas.len(),
{
    if deltas.len() > 0 {
        lemma_countdown_fires_once(c, deltas.drop_last());
    }
}

} // verus!
