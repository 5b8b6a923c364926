//! Angles on the spinner wheel.
//!
//! An angle is a position on a circle, stored in tenths of a degree so that
//! every value lies in `[0, 3600)`.  The sweep advances by a signed number of
//! tenths per tick; a tick never moves a full turn or more.  Crossing
//! detection asks whether the swept arc of one tick passed over a fixed
//! target angle, and is edge-triggered: over a whole revolution each target
//! is crossed exactly once, however the revolution is cut into ticks.

use vstd::prelude::*;

verus! {

/// Tenths of a degree in a full revolution.
pub const FULL_TURN: u32 = 3600;

/// An angle value is well formed when it lies in the canonical range.
pub open spec fn wf_angle(a: u32) -> bool {
    a < FULL_TURN
}

/// Mathematical normalization of an arbitrary angle onto `[0, 3600)`.
/// The Euclidean remainder is non-negative whatever the sign of `x`.
pub open spec fn norm_spec(x: int) -> int {
    x % (FULL_TURN as int)
}

/// The normalized angle always lies in the canonical range.
pub proof fn lemma_norm_range(x: int)
    ensures
        0 <= norm_spec(x) < FULL_TURN,
{
    vstd::arithmetic::div_mod::lemma_mod_division_less_than_divisor(x, FULL_TURN as int);
}

/// Advance `angle` by the signed step `delta`, wrapping into `[0, 3600)`.
pub fn advance(angle: u32, delta: i32) -> (r: u32)
    requires
        wf_angle(angle),
        -(FULL_TURN as int) < delta < FULL_TURN as int,
    ensures
        wf_angle(r),
        r == norm_spec(angle + delta),
{
    let wide: i64 = angle as i64 + delta as i64;
    let wrapped: i64 = if wide < 0 {
        wide + FULL_TURN as i64
    } else if wide >= FULL_TURN as i64 {
        wide - FULL_TURN as i64
    } else {
        wide
    };
    proof {
        let m = FULL_TURN as int;
        vstd::arithmetic::div_mod::lemma_mod_add_multiples_vanish(angle + delta, m);
        vstd::arithmetic::div_mod::lemma_mod_sub_multiples_vanish(angle + delta, m);
        vstd::arithmetic::div_mod::lemma_small_mod(wrapped as nat, m as nat);
    }
    wrapped as u32
}

/// Remainder of `x` on the circle, with the zero residue read as a whole
/// turn.  This is the distance swept by a pointer that starts at a point and
/// travels forward until it reaches a point `x` tenths ahead: never zero, at
/// most a full turn.
pub open spec fn dist1(x: int) -> int {
    if norm_spec(x) == 0 {
        FULL_TURN as int
    } else {
        norm_spec(x)
    }
}

/// Forward distance from `from` to `to`: how far the sweep must travel in
/// the direction of increasing angle to reach `to`, in `[1, 3600]`.
pub open spec fn fwd_dist(from: int, to: int) -> int {
    dist1(to - from)
}

/// Did a tick that started at `old` and moved by `delta` sweep over
/// `target`?  Landing exactly on the target counts as a crossing; starting
/// on it and moving away does not, so a sweep that steps onto a target and
/// then past it reports the crossing exactly once.
pub open spec fn crossed_spec(old: int, delta: int, target: int) -> bool {
    if delta >= 0 {
        fwd_dist(old, target) <= delta
    } else {
        fwd_dist(target, old) <= -delta
    }
}

/// Crossing test for one tick from `old` moving by `delta`.
pub fn crossed(old: u32, delta: i32, target: u32) -> (r: bool)
    requires
        wf_angle(old),
        wf_angle(target),
        -(FULL_TURN as int) < delta < FULL_TURN as int,
    ensures
        r == crossed_spec(old as int, delta as int, target as int),
{
    proof {
        let m = FULL_TURN as int;
        vstd::arithmetic::div_mod::lemma_mod_add_multiples_vanish(target - old, m);
        vstd::arithmetic::div_mod::lemma_mod_add_multiples_vanish(old - target, m);
    }
    if delta >= 0 {
        let gap: u32 = if target >= old {
            target - old
        } else {
            target + FULL_TURN - old
        };
        proof {
            vstd::arithmetic::div_mod::lemma_small_mod(gap as nat, FULL_TURN as nat);
        }
        let gap: u32 = if gap == 0 {
            FULL_TURN
        } else {
            gap
        };
        gap <= delta as u32
    } else {
        let gap: u32 = if old >= target {
            old - target
        } else {
            old + FULL_TURN - target
        };
        proof {
            vstd::arithmetic::div_mod::lemma_small_mod(gap as nat, FULL_TURN as nat);
        }
        let gap: u32 = if gap == 0 {
            FULL_TURN
        } else {
            gap
        };
        gap <= (-delta) as u32
    }
}

/// Sum of the first `n` steps of a sweep.
pub open spec fn sum_first(deltas: Seq<int>, n: int) -> int
    decreases n,
{
    if n <= 0 {
        0
    } else {
        sum_first(deltas, n - 1) + deltas[n - 1]
    }
}

/// Pointer position after the first `n` steps of a sweep that starts at `a0`.
pub open spec fn angle_after(a0: int, deltas: Seq<int>, n: int) -> int {
    norm_spec(a0 + sum_first(deltas, n))
}

/// How many of the first `n` ticks of the sweep report a crossing of
/// `target`.
pub open spec fn crossings(a0: int, deltas: Seq<int>, target: int, n: int) -> int
    decreases n,
{
    if n <= 0 {
        0
    } else {
        crossings(a0, deltas, target, n - 1) + if crossed_spec(
            angle_after(a0, deltas, n - 1),
            deltas[n - 1],
            target,
        ) {
            1int
        } else {
            0int
        }
    }
}

/// However a sweep is advanced, the stored angle stays in `[0, 3600)`.
pub proof fn lemma_wrap_invariant(a0: int, deltas: Seq<int>, n: int)
    ensures
        0 <= angle_after(a0, deltas, n) < FULL_TURN,
{
    lemma_norm_range(a0 + sum_first(deltas, n));
}

/// `dist1` of anything is between one tenth and a whole turn.
proof fn lemma_dist1_range(x: int)
    ensures
        1 <= dist1(x) <= FULL_TURN,
{
    lemma_norm_range(x);
}

/// Two numbers with the same residue are the same distance ahead of any
/// starting point.
proof fn lemma_dist1_congruent(x: int, y: int)
    requires
        norm_spec(x) == norm_spec(y),
    ensures
        dist1(x) == dist1(y),
{
}

/// Shifting the start of a tick forward by `c` shortens the forward distance
/// to the target by `c`, on the circle.
proof fn lemma_fwd_dist_shift(a0: int, c: int, target: int)
    ensures
        fwd_dist(norm_spec(a0 + c), target) == dist1(fwd_dist(a0, target) - c),
{
    let m = FULL_TURN as int;
    let e = fwd_dist(a0, target);
    vstd::arithmetic::div_mod::lemma_sub_mod_noop_right(target, a0 + c, m);
    assert(norm_spec(target - norm_spec(a0 + c)) == norm_spec(target - a0 - c));
    if norm_spec(target - a0) == 0 {
        vstd::arithmetic::div_mod::lemma_mod_self_0(m);
        assert(norm_spec(e) == norm_spec(target - a0));
    } else {
        lemma_norm_range(target - a0);
        vstd::arithmetic::div_mod::lemma_small_mod(e as nat, m as nat);
        assert(norm_spec(e) == norm_spec(target - a0));
    }
    vstd::arithmetic::div_mod::lemma_sub_mod_noop(e, c, m);
    vstd::arithmetic::div_mod::lemma_sub_mod_noop(target - a0, c, m);
    assert(norm_spec(e - c) == norm_spec(target - a0 - c));
    lemma_dist1_congruent(target - norm_spec(a0 + c), e - c);
}

/// Mirror image of `lemma_fwd_dist_shift`, for the distance measured from
/// the target back to the pointer.
proof fn lemma_back_dist_shift(a0: int, c: int, target: int)
    ensures
        fwd_dist(target, norm_spec(a0 + c)) == dist1(fwd_dist(target, a0) + c),
{
    let m = FULL_TURN as int;
    let e = fwd_dist(target, a0);
    assert(norm_spec(norm_spec(a0 + c) - target) == norm_spec(a0 + c - target)) by {
        vstd::arithmetic::div_mod::lemma_sub_mod_noop_right(norm_spec(a0 + c), target, m);
        vstd::arithmetic::div_mod::lemma_sub_mod_noop(a0 + c, target, m);
        vstd::arithmetic::div_mod::lemma_mod_twice(a0 + c, m);
    }
    if norm_spec(a0 - target) == 0 {
        vstd::arithmetic::div_mod::lemma_mod_self_0(m);
        assert(norm_spec(e) == norm_spec(a0 - target));
    } else {
        lemma_norm_range(a0 - target);
        vstd::arithmetic::div_mod::lemma_small_mod(e as nat, m as nat);
        assert(norm_spec(e) == norm_spec(a0 - target));
    }
    vstd::arithmetic::div_mod::lemma_add_mod_noop(e, c, m);
    vstd::arithmetic::div_mod::lemma_add_mod_noop(a0 - target, c, m);
    assert(norm_spec(e + c) == norm_spec(a0 - target + c));
    lemma_dist1_congruent(norm_spec(a0 + c) - target, e + c);
}

/// One tick fires exactly when the cumulative travel first reaches the
/// initial distance to the target.
proof fn lemma_fire_iff(e: int, c: int, d: int)
    requires
        1 <= e <= FULL_TURN,
        0 <= c,
        0 < d,
        c + d <= FULL_TURN,
    ensures
        (dist1(e - c) <= d) <==> (c < e <= c + d),
{
    let m = FULL_TURN as int;
    if c < e {
        if e - c < m {
            vstd::arithmetic::div_mod::lemma_small_mod((e - c) as nat, m as nat);
            assert(dist1(e - c) == e - c);
        } else {
            assert(e - c == m);
            vstd::arithmetic::div_mod::lemma_mod_self_0(m);
            assert(dist1(e - c) == m);
        }
    } else {
        assert(-m < e - c <= 0);
        if e == c {
            vstd::arithmetic::div_mod::lemma_small_mod(0nat, m as nat);
            assert(dist1(e - c) == m);
        } else {
            vstd::arithmetic::div_mod::lemma_mod_add_multiples_vanish(e - c, m);
            vstd::arithmetic::div_mod::lemma_small_mod((e - c + m) as nat, m as nat);
            assert(dist1(e - c) == e - c + m);
        }
        assert(e - c + m > d);
    }
}

/// Sum of a run of positive steps only grows, strictly.
proof fn lemma_sum_mono_pos(deltas: Seq<int>, i: int, j: int)
    requires
        0 <= i <= j,
        forall|k: int| i <= k < j ==> deltas[k] > 0,
    ensures
        sum_first(deltas, i) <= sum_first(deltas, j),
        i < j ==> sum_first(deltas, i) < sum_first(deltas, j),
    decreases j - i,
{
    if i < j {
        lemma_sum_mono_pos(deltas, i, j - 1);
    }
}

/// Sum of a run of negative steps only shrinks, strictly.
proof fn lemma_sum_mono_neg(deltas: Seq<int>, i: int, j: int)
    requires
        0 <= i <= j,
        forall|k: int| i <= k < j ==> deltas[k] < 0,
    ensures
        sum_first(deltas, j) <= sum_first(deltas, i),
        i < j ==> sum_first(deltas, j) < sum_first(deltas, i),
    decreases j - i,
{
    if i < j {
        lemma_sum_mono_neg(deltas, i, j - 1);
    }
}

/// Counting argument for a forward sweep: the crossings of the first `n`
/// ticks number one once the travel has reached the target, zero before.
proof fn lemma_count_forward(a0: int, deltas: Seq<int>, target: int, n: int)
    requires
        forall|i: int| 0 <= i < deltas.len() ==> deltas[i] > 0,
        sum_first(deltas, deltas.len() as int) == FULL_TURN,
        0 <= n <= deltas.len(),
    ensures
        crossings(a0, deltas, target, n) == if fwd_dist(a0, target) <= sum_first(deltas, n) {
            1int
        } else {
            0int
        },
    decreases n,
{
    let e = fwd_dist(a0, target);
    lemma_dist1_range(target - a0);
    if n > 0 {
        lemma_count_forward(a0, deltas, target, n - 1);
        let c = sum_first(deltas, n - 1);
        let d = deltas[n - 1];
        lemma_sum_mono_pos(deltas, 0, n - 1);
        lemma_sum_mono_pos(deltas, n, deltas.len() as int);
        lemma_fwd_dist_shift(a0, c, target);
        lemma_fire_iff(e, c, d);
        assert(crossed_spec(angle_after(a0, deltas, n - 1), d, target) <==> (c < e <= c + d));
    }
}

/// Counting argument for a backward sweep, the mirror of
/// `lemma_count_forward`.
proof fn lemma_count_backward(a0: int, deltas: Seq<int>, target: int, n: int)
    requires
        forall|i: int| 0 <= i < deltas.len() ==> deltas[i] < 0,
        sum_first(deltas, deltas.len() as int) == -(FULL_TURN as int),
        0 <= n <= deltas.len(),
    ensures
        crossings(a0, deltas, target, n) == if fwd_dist(target, a0) <= -sum_first(deltas, n) {
            1int
        } else {
            0int
        },
    decreases n,
{
    let e = fwd_dist(target, a0);
    lemma_dist1_range(a0 - target);
    if n > 0 {
        lemma_count_backward(a0, deltas, target, n - 1);
        let c = sum_first(deltas, n - 1);
        let d = deltas[n - 1];
        lemma_sum_mono_neg(deltas, 0, n - 1);
        lemma_sum_mono_neg(deltas, n, deltas.len() as int);
        lemma_back_dist_shift(a0, c, target);
        lemma_fire_iff(e, -c, -d);
        assert(crossed_spec(angle_after(a0, deltas, n - 1), d, target) <==> (-c < e <= -c + -d));
    }
}

/// A sweep of forward ticks that together travel exactly one revolution
/// crosses every target exactly once, however the revolution is cut into
/// ticks.
pub proof fn lemma_single_fire_forward(a0: int, deltas: Seq<int>, target: int)
    requires
        forall|i: int| 0 <= i < deltas.len() ==> deltas[i] > 0,
        sum_first(deltas, deltas.len() as int) == FULL_TURN,
    ensures
        crossings(a0, deltas, target, deltas.len() as int) == 1,
{
    lemma_dist1_range(target - a0);
    lemma_count_forward(a0, deltas, target, deltas.len() as int);
}

/// A sweep of backward ticks that together travel exactly one revolution
/// crosses every target exactly once.
pub proof fn lemma_single_fire_backward(a0: int, deltas: Seq<int>, target: int)
    requires
        forall|i: int| 0 <= i < deltas.len() ==> deltas[i] < 0,
        sum_first(deltas, deltas.len() as int) == -(FULL_TURN as int),
    ensures
        crossings(a0, deltas, target, deltas.len() as int) == 1,
{
    lemma_dist1_range(a0 - target);
    lemma_count_backward(a0, deltas, target, deltas.len() as int);
}

/// Is `angle` within `fudge` tenths of `target`, for zone highlighting?
/// The second disjunct catches an angle just below a whole turn whose target
/// sits just above zero.
pub open spec fn in_range_spec(angle: int, target: int, fudge: int) -> bool {
    ||| vstd::math::abs(angle - target) < fudge
    ||| vstd::math::abs(angle - FULL_TURN - target) < fudge
}

/// Zone-highlight test: is the pointer within `fudge` tenths of `target`?
pub fn in_range(angle: u32, target: u32, fudge: u32) -> (r: bool)
    requires
        wf_angle(angle),
        wf_angle(target),
    ensures
        r == in_range_spec(angle as int, target as int, fudge as int),
{
    let direct: u32 = if angle >= target {
        angle - target
    } else {
        target - angle
    };
    let wrapped: u32 = target + FULL_TURN - angle;
    direct < fudge || wrapped < fudge
}

/// The highlight window is symmetric about its target: an angle strictly
/// inside the fudge on either side tests in range, one strictly outside
/// tests out of range, also when the window reaches below zero and wraps.
/// The guard `target + fudge <= FULL_TURN` keeps the window from wrapping
/// upward past a whole turn, which the two-branch distance test does not
/// cover.
pub proof fn lemma_highlight_symmetry(target: int, fudge: int, eps: int)
    requires
        0 <= target,
        0 < eps <= fudge,
        target + fudge <= FULL_TURN,
        2 * fudge + eps <= FULL_TURN,
    ensures
        in_range_spec(norm_spec(target + (fudge - eps)), target, fudge),
        in_range_spec(norm_spec(target - (fudge - eps)), target, fudge),
        !in_range_spec(norm_spec(target + (fudge + eps)), target, fudge),
        !in_range_spec(norm_spec(target - (fudge + eps)), target, fudge),
{
    let m = FULL_TURN as int;
    vstd::arithmetic::div_mod::lemma_small_mod((target + (fudge - eps)) as nat, m as nat);
    if target - (fudge - eps) >= 0 {
        vstd::arithmetic::div_mod::lemma_small_mod((target - (fudge - eps)) as nat, m as nat);
    } else {
        vstd::arithmetic::div_mod::lemma_mod_add_multiples_vanish(target - (fudge - eps), m);
        vstd::arithmetic::div_mod::lemma_small_mod((target - (fudge - eps) + m) as nat, m as nat);
    }
    if target + (fudge + eps) < m {
        vstd::arithmetic::div_mod::lemma_small_mod((target + (fudge + eps)) as nat, m as nat);
    } else {
        vstd::arithmetic::div_mod::lemma_mod_sub_multiples_vanish(target + (fudge + eps), m);
        vstd::arithmetic::div_mod::lemma_small_mod((target + (fudge + eps) - m) as nat, m as nat);
    }
    if target - (fudge + eps) >= 0 {
        vstd::arithmetic::div_mod::lemma_small_mod((target - (fudge + eps)) as nat, m as nat);
    } else {
        vstd::arithmetic::div_mod::lemma_mod_add_multiples_vanish(target - (fudge + eps), m);
        vstd::arithmetic::div_mod::lemma_small_mod((target - (fudge + eps) + m) as nat, m as nat);
    }
}

} // verus!
