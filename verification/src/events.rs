//! The typed event stream fed to the render loop: key presses and periodic
//! ticks, plus the timing arithmetic of the producer thread.

use vstd::prelude::*;

verus! {

/// One item of the event stream: either a key press or a periodic tick.
pub enum Event<I> {
    Input(I),
    Tick,
}

/// A raw key press, reduced to the codes the dispatcher distinguishes.
#[derive(Clone, Copy, Debug, PartialEq, Eq, Structural)]
pub enum Key {
    Left,
    Right,
    Up,
    Down,
    Char(char),
    Other,
}

/// How long the producer may block on terminal input before it must check
/// whether a tick is due: the time left until the tick boundary, or zero if
/// the boundary has already passed.
pub fn poll_timeout_ms(tick_rate_ms: u64, elapsed_ms: u64) -> (r: u64)
    ensures
        r == if elapsed_ms >= tick_rate_ms {
            0u64
        } else {
            (tick_rate_ms - elapsed_ms) as u64
        },
{
    if elapsed_ms >= tick_rate_ms {
        0
    } else {
        tick_rate_ms - elapsed_ms
    }
}

/// Whether a full tick interval has elapsed, so that a `Tick` event must be
/// sent and the tick reference point reset.
pub fn tick_due(tick_rate_ms: u64, elapsed_ms: u64) -> (r: bool)
    ensures
        r == (elapsed_ms >= tick_rate_ms),
{
    elapsed_ms >= tick_rate_ms
}

} // verus!
