//! Limits of the command-line options.

use vstd::prelude::*;

use crate::models::MAX_SLOTS;

verus! {

pub const MIN_SLOTS: usize = 1;

pub const MIN_POLLING_RATE: u32 = 20;

pub const MAX_POLLING_RATE: u32 = 1000;

pub const DEFAULT_POLLING_RATE: u32 = 250;

/// Microseconds in a second.
pub const SECOND_MICROS: u64 = 1_000_000;

/// The number of slots to expose, `asked` brought into range.
pub open spec fn slots_for(asked: usize) -> usize {
    if asked < MIN_SLOTS {
        MIN_SLOTS
    } else if asked > MAX_SLOTS {
        MAX_SLOTS
    } else {
        asked
    }
}

/// Bring the number of slots into range.
pub fn clamp_slots(asked: usize) -> (num_slots: usize)
    ensures
        num_slots == slots_for(asked),
{
    if asked < MIN_SLOTS {
        MIN_SLOTS
    } else if asked > MAX_SLOTS {
        MAX_SLOTS
    } else {
        asked
    }
}

/// The polling rate in Hz, `asked` brought into range.
pub open spec fn rate_for(asked: u32) -> u32 {
    if asked < MIN_POLLING_RATE {
        MIN_POLLING_RATE
    } else if asked > MAX_POLLING_RATE {
        MAX_POLLING_RATE
    } else {
        asked
    }
}

/// Bring the polling rate into range.
pub fn clamp_polling_rate(asked: u32) -> (rate: u32)
    ensures
        rate == rate_for(asked),
{
    if asked < MIN_POLLING_RATE {
        MIN_POLLING_RATE
    } else if asked > MAX_POLLING_RATE {
        MAX_POLLING_RATE
    } else {
        asked
    }
}

/// Microseconds between two input reports at `rate` Hz. No rate counts as one
/// a second.
pub open spec fn tick_for(rate: u32) -> int {
    SECOND_MICROS as int / if rate < 1 {
        1
    } else {
        rate as int
    }
}

/// Microseconds between two input reports.
pub fn tick_micros(rate: u32) -> (micros: u64)
    ensures
        micros == tick_for(rate),
{
    let per_second: u64 = if rate < 1 {
        1
    } else {
        rate as u64
    };
    SECOND_MICROS / per_second
}

/// Whatever is asked for, there are one to eight slots and the reports are
/// between one and fifty milliseconds apart; what is in range stays.
pub proof fn law_options_in_range(slots: usize, rate: u32)
    ensures
        1 <= slots_for(slots) <= 8,
        20 <= rate_for(rate) <= 1000,
        1000 <= tick_for(rate_for(rate)) <= 50_000,
        1 <= slots <= 8 ==> slots_for(slots) == slots,
        20 <= rate <= 1000 ==> rate_for(rate) == rate,
{
    let r = rate_for(rate) as int;
    assert(1000 <= 1_000_000int / r <= 50_000) by (nonlinear_arith)
        requires
            20 <= r <= 1000,
    ;
}

/// What is asked for below the range gives its lower end, what is above gives
/// its upper end, and more is never answered with less.
pub proof fn law_options_clamped(slots: usize, more_slots: usize, rate: u32, more_rate: u32)
    requires
        slots <= more_slots,
        rate <= more_rate,
    ensures
        slots == 0 ==> slots_for(slots) == 1,
        slots > 8 ==> slots_for(slots) == 8,
        slots_for(slots) <= slots_for(more_slots),
        rate < 20 ==> rate_for(rate) == 20,
        rate > 1000 ==> rate_for(rate) == 1000,
        rate_for(rate) <= rate_for(more_rate),
{
}

/// As many whole ticks as the rate says fit into a second, and ticks longer by
/// one microsecond would not.
pub proof fn law_ticks_fill_a_second(rate: u32)
    requires
        rate > 0,
    ensures
        rate * tick_for(rate) <= 1_000_000 < rate * (tick_for(rate) + 1),
        tick_for(0) == 1_000_000,
{
    let r = rate as int;
    let t = tick_for(rate);
    assert(r * t <= 1_000_000 < r * (t + 1)) by (nonlinear_arith)
        requires
            r > 0,
            t == 1_000_000int / r,
    ;
}

} // verus!
