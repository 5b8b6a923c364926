//! Mapping music playback onto the spinner's bar position.
//!
//! The caller samples the playback position of the looping track; the
//! library turns it into a position within the current four-beat bar,
//! scaled onto the spinner's circle so that one bar is one revolution.

use vstd::prelude::*;
use crate::angle::FULL_TURN;

verus! {

/// Length of a four-beat bar, in milliseconds, for a tempo of `bpm` beats
/// per minute.
pub fn bar_length_ms(bpm: u64) -> (r: u64)
    requires
        0 < bpm,
    ensures
        r == 240000int / bpm as int,
{
    240000 / bpm
}

/// Where within the current bar the playback sits, scaled onto the circle:
/// a value in `[0, 3600)` tenths of a degree, zero at the start of a bar.
pub fn bar_phase(pos_ms: u64, start_offset_ms: u64, bar_ms: u64) -> (r: u32)
    requires
        0 < bar_ms,
        start_offset_ms <= pos_ms,
    ensures
        r == (pos_ms - start_offset_ms) % bar_ms as int * (FULL_TURN as int) / bar_ms as int,
        r < FULL_TURN,
{
    let in_bar: u64 = (pos_ms - start_offset_ms) % bar_ms;
    let scaled: u128 = in_bar as u128 * FULL_TURN as u128;
    let r: u128 = scaled / bar_ms as u128;
    proof {
        let b = bar_ms as int;
        let turn = FULL_TURN as int;
        assert(in_bar < b);
        assert(in_bar * turn < b * turn) by (nonlinear_arith)
            requires
                in_bar < b,
                0 < turn,
        ;
        vstd::arithmetic::div_mod::lemma_multiply_divide_lt(in_bar * turn, b, turn);
        vstd::arithmetic::div_mod::lemma_div_pos_is_pos(in_bar * turn, b);
    }
    r as u32
}

} // verus!
