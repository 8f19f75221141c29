//! The events that the loop around the application takes, and the rules by
//! which the source of events waits and ticks.

use vstd::prelude::*;

use crate::inputs::key::KeyEvent;

verus! {

/// What the source of events hands to the loop.
pub enum TerminalEvent {
    /// A key event.
    Key(KeyEvent),
    /// Any other event of the terminal.
    Other,
    /// The tick rate has passed.
    Tick,
}

/// How long the source waits for input: what is left of the tick rate
/// since the last tick, or the whole tick rate where more than that has
/// passed.
pub open spec fn timeout_of(tick_rate: u128, elapsed: u128) -> u128 {
    if elapsed <= tick_rate {
        (tick_rate - elapsed) as u128
    } else {
        tick_rate
    }
}

/// How long the source waits for input, `elapsed` after the last tick.
pub fn poll_timeout(tick_rate: u128, elapsed: u128) -> (timeout: u128)
    ensures
        timeout == timeout_of(tick_rate, elapsed),
        timeout <= tick_rate,
{
    if elapsed <= tick_rate {
        tick_rate - elapsed
    } else {
        tick_rate
    }
}

/// Whether a tick is due, `elapsed` after the last one: the tick rate has
/// passed.
pub fn tick_due(tick_rate: u128, elapsed: u128) -> (due: bool)
    ensures
        due == (elapsed >= tick_rate),
{
    elapsed >= tick_rate
}

} // verus!
