//! The swing controller: wind-up power and direction from pointer input.
//!
//! While the pointer is held, the controller recomputes — never
//! accumulates — a direction vector from the press anchor to the current
//! pointer position and a power step in `0 ..= CHAIN_LENGTH`.  The power is
//! the wind-up distance scaled to chain links and rounded to the nearest
//! step, saturating once the distance reaches `WINDUP_DISTANCE_H`; the
//! comparison is carried out exactly on squared distances, so no rounding
//! error enters.  Releasing with zero power is a cancelled swing.

use vstd::prelude::*;

use crate::geom::Vec2i;
use crate::geom::in_box;
use crate::level_data::MAX_ANCHOR;
use crate::states::SwingState;

verus! {

/// Number of links in the power chain: the highest power step.
pub const CHAIN_LENGTH: u8 = 7;

/// Wind-up distance at which power saturates, in half-units (200 px).
pub const WINDUP_DISTANCE_H: i64 = 400;

/// Ball launch speed per power step, in pixels per second.
pub const LAUNCH_FACTOR: u32 = 170;

/// Power step for squared wind-up distance `d2`, starting the search at
/// step `p`: the least `q >= p` whose rounding interval contains the
/// wind-up distance, or `CHAIN_LENGTH` once every lower interval is
/// passed.  Step `q` covers distances `d` with
/// `(2q - 1) * W <= 2 * CHAIN_LENGTH * d < (2q + 1) * W`, compared on
/// squares.
pub open spec fn power_from(d2: int, p: int) -> int
    decreases CHAIN_LENGTH as int - p,
{
    if p >= CHAIN_LENGTH as int {
        CHAIN_LENGTH as int
    } else if 4 * (CHAIN_LENGTH as int) * (CHAIN_LENGTH as int) * d2 < (2 * p + 1) * (2 * p + 1) * (
    WINDUP_DISTANCE_H as int) * (WINDUP_DISTANCE_H as int) {
        p
    } else {
        power_from(d2, p + 1)
    }
}

/// Power step for squared wind-up distance `d2`: the nearest chain link to
/// `sqrt(d2) / WINDUP_DISTANCE_H * CHAIN_LENGTH`, halves rounding up,
/// clamped to `CHAIN_LENGTH`.
pub open spec fn power_level(d2: int) -> int {
    power_from(d2, 0)
}

proof fn lemma_power_from_range(d2: int, p: int)
    requires
        0 <= p <= CHAIN_LENGTH as int,
    ensures
        p <= power_from(d2, p) <= CHAIN_LENGTH as int,
    decreases CHAIN_LENGTH as int - p,
{
    if p < CHAIN_LENGTH as int && !(4 * (CHAIN_LENGTH as int) * (CHAIN_LENGTH as int) * d2 < (2 * p
        + 1) * (2 * p + 1) * (WINDUP_DISTANCE_H as int) * (WINDUP_DISTANCE_H as int))  {
        lemma_power_from_range(d2, p + 1);
    }
}

/// Swing power always lies in `[0, CHAIN_LENGTH]`.
pub proof fn lemma_power_range(d2: int)
    ensures
        0 <= power_level(d2) <= CHAIN_LENGTH as int,
{
    lemma_power_from_range(d2, 0);
}

proof fn lemma_power_from_monotone(a: int, b: int, p: int)
    requires
        a <= b,
        0 <= p <= CHAIN_LENGTH as int,
    ensures
        power_from(a, p) <= power_from(b, p),
    decreases CHAIN_LENGTH as int - p,
{
    if p < CHAIN_LENGTH as int {
        let t = (2 * p + 1) * (2 * p + 1) * (WINDUP_DISTANCE_H as int) * (WINDUP_DISTANCE_H as int);
        let k = 4 * (CHAIN_LENGTH as int) * (CHAIN_LENGTH as int);
        assert(k * a <= k * b) by (nonlinear_arith)
            requires
                a <= b,
                k == 196,
        ;
        if k * b < t {
            // both stop at p
        } else if k * a < t {
            lemma_power_from_range(b, p);
        } else {
            lemma_power_from_monotone(a, b, p + 1);
        }
    }
}

/// Swing power is monotonically non-decreasing in wind-up distance.
pub proof fn lemma_power_monotone(a: int, b: int)
    requires
        a <= b,
    ensures
        power_level(a) <= power_level(b),
{
    lemma_power_from_monotone(a, b, 0);
}

proof fn lemma_power_from_saturates(d2: int, p: int)
    requires
        d2 >= (WINDUP_DISTANCE_H as int) * (WINDUP_DISTANCE_H as int),
        0 <= p <= CHAIN_LENGTH as int,
    ensures
        power_from(d2, p) == CHAIN_LENGTH as int,
    decreases CHAIN_LENGTH as int - p,
{
    if p < CHAIN_LENGTH as int {
        let w2 = (WINDUP_DISTANCE_H as int) * (WINDUP_DISTANCE_H as int);
        assert((2 * p + 1) * (2 * p + 1) * w2 <= 169 * w2 && 196 * d2 >= 196 * w2)
            by (nonlinear_arith)
            requires
                0 <= p <= 6,
                w2 == 160000,
                d2 >= w2,
        ;
        lemma_power_from_saturates(d2, p + 1);
    }
}

/// Past the clamp distance the power saturates at `CHAIN_LENGTH`.
pub proof fn lemma_power_saturates(d2: int)
    requires
        d2 >= (WINDUP_DISTANCE_H as int) * (WINDUP_DISTANCE_H as int),
    ensures
        power_level(d2) == CHAIN_LENGTH as int,
{
    lemma_power_from_saturates(d2, 0);
}

/// Power step for an exact squared wind-up distance.
pub fn power_of_distance_sq(d2: i128) -> (p: u8)
    requires
        0 <= d2,
        d2 <= 0x1000_0000_0000_0000_0000_0000,
    ensures
        p as int == power_level(d2 as int),
{
    let mut p: u8 = 0;
    while p < CHAIN_LENGTH
        invariant
            0 <= d2 <= 0x1000_0000_0000_0000_0000_0000,
            0 <= p <= CHAIN_LENGTH,
            power_level(d2 as int) == power_from(d2 as int, p as int),
        decreases CHAIN_LENGTH - p,
    {
        let u: i128 = 2 * (p as i128) + 1;
        proof {
            assert(0 <= u * u <= 225) by (nonlinear_arith)
                requires
                    1 <= u <= 15,
            ;
        }
        let t: i128 = u * u * (WINDUP_DISTANCE_H as i128) * (WINDUP_DISTANCE_H as i128);
        if 196 * d2 < t {
            return p;
        }
        p = p + 1;
    }
    p
}

/// The transient swing value: the current power step and the raw wind-up
/// direction vector (from pointer towards anchor, unnormalised).
#[derive(Clone, Copy, Debug, PartialEq, Eq, Structural)]
pub struct Swing {
    pub power: u8,
    pub dir: Vec2i,
}

/// The swing state machine: idle, or winding up from a press anchor.
#[derive(Clone, Copy, Debug, PartialEq, Eq, Structural)]
pub struct SwingController {
    pub state: SwingState,
    /// World position where the pointer was pressed.
    pub anchor: Vec2i,
    pub swing: Swing,
}

impl SwingController {
    /// A fresh controller: idle with zero power.
    pub fn new() -> (r: SwingController)
        ensures
            r.state == SwingState::Idle,
            r.swing.power == 0,
            r.swing.dir == (Vec2i { x: 0, y: 0 }),
            r.anchor == (Vec2i { x: 0, y: 0 }),
    {
        SwingController {
            state: SwingState::Idle,
            anchor: Vec2i { x: 0, y: 0 },
            swing: Swing { power: 0, dir: Vec2i { x: 0, y: 0 } },
        }
    }

    /// Pointer pressed: anchor the wind-up at the press position.
    pub fn start_swing(&mut self, pointer: Vec2i)
        requires
            old(self).state == SwingState::Idle,
        ensures
            final(self).state == SwingState::WindingUp,
            final(self).anchor == pointer,
            final(self).swing == old(self).swing,
    {
        self.anchor = pointer;
        self.state = SwingState::WindingUp;
    }

    /// Pointer held: recompute power and direction from the current
    /// pointer position.  Both are pure functions of anchor and pointer —
    /// nothing accumulates across ticks.
    pub fn calculate_swing_power(&mut self, pointer: Vec2i)
        requires
            in_box(old(self).anchor, MAX_ANCHOR),
            in_box(pointer, MAX_ANCHOR),
        ensures
            final(self).state == old(self).state,
            final(self).anchor == old(self).anchor,
            final(self).swing.dir.x == old(self).anchor.x - pointer.x,
            final(self).swing.dir.y == old(self).anchor.y - pointer.y,
            final(self).swing.power as int == power_level(
                (old(self).anchor.x - pointer.x) * (old(self).anchor.x - pointer.x) + (old(
                    self,
                ).anchor.y - pointer.y) * (old(self).anchor.y - pointer.y),
            ),
    {
        let dx: i64 = self.anchor.x - pointer.x;
        let dy: i64 = self.anchor.y - pointer.y;
        let dxw: i128 = dx as i128;
        let dyw: i128 = dy as i128;
        proof {
            assert(0 <= dxw * dxw <= 68_000_000_000_000_000_000 && 0 <= dyw * dyw
                <= 68_000_000_000_000_000_000) by (nonlinear_arith)
                requires
                    -8_200_000_000 <= dxw <= 8_200_000_000,
                    -8_200_000_000 <= dyw <= 8_200_000_000,
            ;
        }
        let dx2: i128 = dxw * dxw;
        let dy2: i128 = dyw * dyw;
        let power = power_of_distance_sq(dx2 + dy2);
        self.swing = Swing { power, dir: Vec2i { x: dx, y: dy } };
    }

    /// Pointer released: the controller always returns to idle and the
    /// power resets to zero.  A wind-up with zero power is a cancelled
    /// swing and yields nothing; otherwise the swing to launch is
    /// returned.
    pub fn swing_release(&mut self) -> (r: Option<Swing>)
        ensures
            final(self).state == SwingState::Idle,
            final(self).swing.power == 0,
            final(self).anchor == old(self).anchor,
            old(self).swing.power == 0 ==> r is None,
            old(self).swing.power > 0 ==> r == Some(old(self).swing),
    {
        self.state = SwingState::Idle;
        let released = self.swing;
        self.swing.power = 0;
        if released.power == 0 {
            None
        } else {
            Some(released)
        }
    }
}

} // verus!
