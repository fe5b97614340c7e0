//! Frame pacing and input dispatch: the decisions of the main loop.
//!
//! The loop itself lives in the terminal front end; everything it decides —
//! whether a generation is due, how long the bounded input poll may wait,
//! which event a key means, and what an event does to the state — is here,
//! with a contract. The bounded poll doubles as the idle sleep, so input
//! latency is bounded by the tick interval and no timer thread is needed.

use vstd::prelude::*;
use crate::grid::{Grid, resized_from};

verus! {

/// The tick interval never shrinks below this floor (milliseconds).
pub const MIN_INTERVAL_MS: u64 = 10;

/// The tick interval the simulation starts with (milliseconds).
pub const INITIAL_INTERVAL_MS: u64 = 100;

/// The `q` key: terminate.
pub const KEY_QUIT: i32 = 113;

/// The Escape key: terminate.
pub const KEY_ESCAPE: i32 = 27;

/// The `+` key: shrink the tick interval (speed up).
pub const KEY_FASTER: i32 = 43;

/// The `-` key: grow the tick interval (slow down).
pub const KEY_SLOWER: i32 = 45;

/// One observation of the outside world, handed in by the front end once per
/// loop iteration.
#[derive(Clone, Copy, PartialEq, Eq, Structural, Debug)]
pub enum Event {
    /// A quit key was pressed.
    Quit,
    /// The speed-up key was pressed.
    SpeedUp,
    /// The slow-down key was pressed.
    SlowDown,
    /// The terminal viewport changed to this size.
    Resize { rows: usize, cols: usize },
    /// Nothing happened within the poll bound.
    Idle,
}

/// The interval after one speed-up press: four fifths of the old one, never
/// below the floor.
pub open spec fn spec_speed_up(i: int) -> int {
    if i * 4 / 5 >= MIN_INTERVAL_MS as int {
        i * 4 / 5
    } else {
        MIN_INTERVAL_MS as int
    }
}

/// The interval after one slow-down press: five fourths of the old one, with
/// no ceiling short of the machine's.
pub open spec fn spec_slow_down(i: int) -> int {
    if i * 5 / 4 <= u64::MAX as int {
        i * 5 / 4
    } else {
        u64::MAX as int
    }
}

/// The interval after `k` speed-up presses in a row.
pub open spec fn iter_speed_up(i: int, k: nat) -> int
    decreases k,
{
    if k == 0 {
        i
    } else {
        spec_speed_up(iter_speed_up(i, (k - 1) as nat))
    }
}

/// The interval after `k` slow-down presses in a row.
pub open spec fn iter_slow_down(i: int, k: nat) -> int
    decreases k,
{
    if k == 0 {
        i
    } else {
        spec_slow_down(iter_slow_down(i, (k - 1) as nat))
    }
}

/// However many speed-up presses in a row: the interval falls monotonically,
/// converging toward the floor but never below it.
pub proof fn lemma_repeated_speed_up_bounded(i: int, k: nat)
    requires
        i >= MIN_INTERVAL_MS as int,
    ensures
        MIN_INTERVAL_MS as int <= iter_speed_up(i, k) <= i,
    decreases k,
{
    if k > 0 {
        lemma_repeated_speed_up_bounded(i, (k - 1) as nat);
    }
}

/// However many slow-down presses in a row: the interval never shrinks, and
/// stays within the machine's range.
pub proof fn lemma_repeated_slow_down_monotone(i: int, k: nat)
    requires
        0 <= i <= u64::MAX as int,
    ensures
        i <= iter_slow_down(i, k) <= u64::MAX as int,
    decreases k,
{
    if k > 0 {
        lemma_repeated_slow_down_monotone(i, (k - 1) as nat);
    }
}

/// The loop's mutable state: the target tick interval and whether the
/// session is still running. Initial state: running, at the starting
/// interval; terminal state: not running, reached only through a quit event.
pub struct Controller {
    pub interval_ms: u64,
    pub running: bool,
}

impl Controller {
    /// The interval never sits below the floor.
    pub open spec fn wf(&self) -> bool {
        self.interval_ms >= MIN_INTERVAL_MS
    }

    /// A fresh session: running, at the starting interval.
    pub fn new() -> (c: Controller)
        ensures
            c.wf(),
            c.interval_ms == INITIAL_INTERVAL_MS,
            c.running,
    {
        Controller { interval_ms: INITIAL_INTERVAL_MS, running: true }
    }

    /// Whether the loop should keep iterating.
    pub fn is_running(&self) -> (r: bool)
        ensures
            r == self.running,
    {
        self.running
    }

    /// The current tick interval in milliseconds.
    pub fn interval_ms(&self) -> (i: u64)
        ensures
            i == self.interval_ms,
    {
        self.interval_ms
    }

    /// Shrink the interval by a fifth, but never below the floor: repeated
    /// presses fall monotonically toward the floor and stop there.
    pub fn speed_up(&mut self)
        requires
            old(self).wf(),
        ensures
            final(self).wf(),
            final(self).running == old(self).running,
            final(self).interval_ms as int == spec_speed_up(old(self).interval_ms as int),
            final(self).interval_ms >= MIN_INTERVAL_MS,
            final(self).interval_ms <= old(self).interval_ms,
    {
        let prod: u128 = (self.interval_ms as u128) * 4;
        let shrunk: u128 = prod / 5;
        self.interval_ms = if shrunk >= MIN_INTERVAL_MS as u128 {
            shrunk as u64
        } else {
            MIN_INTERVAL_MS
        };
    }

    /// Grow the interval by a quarter: repeated presses rise monotonically,
    /// with no ceiling short of the machine's.
    pub fn slow_down(&mut self)
        requires
            old(self).wf(),
        ensures
            final(self).wf(),
            final(self).running == old(self).running,
            final(self).interval_ms as int == spec_slow_down(old(self).interval_ms as int),
            final(self).interval_ms >= old(self).interval_ms,
    {
        let prod: u128 = (self.interval_ms as u128) * 5;
        let grown: u128 = prod / 4;
        self.interval_ms = if grown <= u64::MAX as u128 {
            grown as u64
        } else {
            u64::MAX
        };
    }

    /// Whether a new generation is due, given the milliseconds elapsed since
    /// the last committed one.
    pub fn tick_due(&self, elapsed_ms: u64) -> (due: bool)
        ensures
            due == (elapsed_ms >= self.interval_ms),
    {
        elapsed_ms >= self.interval_ms
    }

    /// How long the input poll may block: the time left until the next tick
    /// is due, clamped to zero. Never more than one tick interval, so a quit
    /// key is seen within one interval's worth of polling.
    pub fn poll_budget_ms(&self, elapsed_ms: u64) -> (budget: u64)
        ensures
            budget as int == if elapsed_ms >= self.interval_ms {
                0int
            } else {
                self.interval_ms - elapsed_ms
            },
            budget <= self.interval_ms,
    {
        if elapsed_ms >= self.interval_ms {
            0
        } else {
            self.interval_ms - elapsed_ms
        }
    }
}

/// Translate a key code into an event. The front end reports a viewport
/// change as `Event::Resize` itself, since only it can read the new size; a
/// key this table does not know — including "no key arrived" — is `Idle`.
pub fn key_to_event(key: i32) -> (e: Event)
    ensures
        e == (if key == KEY_QUIT || key == KEY_ESCAPE {
            Event::Quit
        } else if key == KEY_FASTER {
            Event::SpeedUp
        } else if key == KEY_SLOWER {
            Event::SlowDown
        } else {
            Event::Idle
        }),
{
    if key == KEY_QUIT || key == KEY_ESCAPE {
        Event::Quit
    } else if key == KEY_FASTER {
        Event::SpeedUp
    } else if key == KEY_SLOWER {
        Event::SlowDown
    } else {
        Event::Idle
    }
}

/// Apply one event to the session state. A quit event stops the session and
/// commits nothing further; speed keys only move the interval; a resize only
/// reshapes the grid; idle changes nothing.
pub fn dispatch(ctrl: &mut Controller, g: &mut Grid, e: Event)
    requires
        old(ctrl).wf(),
        old(g).wf(),
    ensures
        final(ctrl).wf(),
        final(g).wf(),
        e == Event::Quit ==> !final(ctrl).running
            && final(ctrl).interval_ms == old(ctrl).interval_ms
            && *final(g) == *old(g),
        e == Event::SpeedUp ==> final(ctrl).running == old(ctrl).running
            && final(ctrl).interval_ms as int == spec_speed_up(old(ctrl).interval_ms as int)
            && *final(g) == *old(g),
        e == Event::SlowDown ==> final(ctrl).running == old(ctrl).running
            && final(ctrl).interval_ms as int == spec_slow_down(old(ctrl).interval_ms as int)
            && *final(g) == *old(g),
        forall|rows: usize, cols: usize|
            e == (Event::Resize { rows, cols }) ==> *final(ctrl) == *old(ctrl) && resized_from(
                *final(g),
                *old(g),
                rows,
                cols,
            ),
        e == Event::Idle ==> *final(ctrl) == *old(ctrl) && *final(g) == *old(g),
{
    match e {
        Event::Quit => {
            ctrl.running = false;
        },
        Event::SpeedUp => {
            ctrl.speed_up();
        },
        Event::SlowDown => {
            ctrl.slow_down();
        },
        Event::Resize { rows, cols } => {
            g.resize(rows, cols);
        },
        Event::Idle => {},
    }
}

} // verus!
