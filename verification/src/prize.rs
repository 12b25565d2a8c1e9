//! The prize of the current game.
//!
//! The prize starts at 1 and is halved on every incorrect guess, but never
//! falls below a floor of 1/10000.  Every value the prize can take is
//! therefore either 1/2^h for some h with 2^-h above the floor, or the floor
//! itself: the state is exactly a count of halvings, saturated once the next
//! halving would land at or below the floor.  Since 2^-13 > 1/10000 > 2^-14,
//! the count saturates at 14, where the value is the floor.
//!
//! All reachable values are integer multiples of 1/(2^13 * 10^4), so the
//! exact value is exposed as an integer numerator over the fixed denominator
//! `PRIZE_SCALE`.

use vstd::prelude::*;

verus! {

use vstd::arithmetic::power2::{
    pow2,
    lemma_pow2_adds,
    lemma_pow2_pos,
    lemma_pow2_strictly_increases,
    lemma2_to64,
};
use vstd::bits::lemma_u64_shl_is_mul;

/// Number of halvings at which the prize sits on the floor: the least h
/// with 2^-h <= 1/10000.
pub const FLOOR_HALVINGS: u32 = 14;

/// Fixed denominator of the exact prize value: 2^13 * 10^4.  A prize of 1
/// has scaled value `PRIZE_SCALE`.
pub const PRIZE_SCALE: u64 = 81920000;

/// Scaled value of the floor 1/10000: `PRIZE_SCALE` / 10^4.
pub const FLOOR_SCALED: u64 = 8192;

/// Exact prize value after `h` halvings, scaled by `PRIZE_SCALE`:
/// max(2^-h, 1/10000) * `PRIZE_SCALE`.
pub open spec fn prize_scaled(h: nat) -> nat {
    if h < FLOOR_HALVINGS {
        pow2((FLOOR_HALVINGS - 1 - h) as nat) * 10000
    } else {
        FLOOR_SCALED as nat
    }
}

/// Halving count after `n` further incorrect guesses from count `h0`:
/// the sum, saturated at `FLOOR_HALVINGS`.
pub open spec fn decayed_n(h0: nat, n: nat) -> nat {
    if h0 + n < FLOOR_HALVINGS {
        h0 + n
    } else {
        FLOOR_HALVINGS as nat
    }
}

/// The decaying prize, as its saturated halving count.  The view of a
/// `Prize` is that count; its exact value is `prize_scaled` of the view.
pub struct Prize {
    halvings: u32,
}

impl View for Prize {
    type V = nat;

    closed spec fn view(&self) -> nat {
        self.halvings as nat
    }
}

impl Prize {
    /// The count never exceeds the saturation point.
    pub open spec fn wf(&self) -> bool {
        self@ <= FLOOR_HALVINGS
    }

    /// The full prize of a freshly started game.
    pub fn initial() -> (p: Prize)
        ensures
            p@ == 0,
            p.wf(),
    {
        Prize { halvings: 0 }
    }

    /// Halve the prize, saturating at the floor.
    pub fn decay(&mut self)
        requires
            old(self).wf(),
        ensures
            final(self)@ == decayed_n(old(self)@, 1),
            final(self).wf(),
    {
        if self.halvings < FLOOR_HALVINGS {
            self.halvings = self.halvings + 1;
        }
    }

    /// The halving count itself.
    pub fn halvings(&self) -> (h: u32)
        ensures
            h == self@,
    {
        self.halvings
    }

    /// The exact prize value, scaled by `PRIZE_SCALE`.
    pub fn scaled_value(&self) -> (v: u64)
        requires
            self.wf(),
        ensures
            v == prize_scaled(self@),
            v >= FLOOR_SCALED,
    {
        if self.halvings < FLOOR_HALVINGS {
            let shift: u64 = (FLOOR_HALVINGS - 1 - self.halvings) as u64;
            proof {
                lemma2_to64();
                lemma_pow2_pos(shift as nat);
                if shift < 13 {
                    lemma_pow2_strictly_increases(shift as nat, 13);
                }
                lemma_u64_shl_is_mul(10000u64, shift);
            }
            10000u64 << shift
        } else {
            FLOOR_SCALED
        }
    }
}

/// Floor law: whatever the halving count, the prize value never falls
/// below the floor 1/10000.
pub proof fn lemma_prize_floor(h: nat)
    ensures
        prize_scaled(h) >= FLOOR_SCALED,
{
    if h < FLOOR_HALVINGS {
        lemma_pow2_pos((FLOOR_HALVINGS - 1 - h) as nat);
    }
}

/// Counting halvings one at a time agrees with counting them in batches:
/// `n` incorrect guesses followed by `m` more land where `n + m` do.
pub proof fn lemma_decayed_n_adds(h0: nat, n: nat, m: nat)
    ensures
        decayed_n(decayed_n(h0, n), m) == decayed_n(h0, n + m),
{
}

/// Decay law: starting from a prize with halving count `h0`, `n` incorrect
/// guesses leave the prize at max(v0 / 2^n, floor), where v0 is the starting
/// value.  Stated without division: the new scaled value times 2^n equals
/// max(old scaled value, floor scaled value times 2^n).
pub proof fn lemma_prize_decay(h0: nat, n: nat)
    requires
        h0 <= FLOOR_HALVINGS,
    ensures
        prize_scaled(decayed_n(h0, n)) * pow2(n) == vstd::math::max(
            prize_scaled(h0) as int,
            FLOOR_SCALED * pow2(n),
        ),
{
    lemma_pow2_pos(n);
    lemma2_to64();
    if h0 + n < FLOOR_HALVINGS {
        // No saturation: the value divides exactly, and stays above the floor.
        lemma_pow2_adds((FLOOR_HALVINGS - 1 - h0 - n) as nat, n);
        assert(prize_scaled(decayed_n(h0, n)) * pow2(n) == prize_scaled(h0)) by (nonlinear_arith)
            requires
                h0 + n < FLOOR_HALVINGS,
                prize_scaled(decayed_n(h0, n)) == pow2((FLOOR_HALVINGS - 1 - h0 - n) as nat)
                    * 10000,
                prize_scaled(h0) == pow2((FLOOR_HALVINGS - 1 - h0) as nat) * 10000,
                pow2((FLOOR_HALVINGS - 1 - h0 - n) as nat) * pow2(n) == pow2(
                    (FLOOR_HALVINGS - 1 - h0) as nat,
                ),
        ;
        if n < FLOOR_HALVINGS - 1 - h0 {
            lemma_pow2_strictly_increases(n, (FLOOR_HALVINGS - 1 - h0) as nat);
        }
        assert(FLOOR_SCALED * pow2(n) <= prize_scaled(h0)) by (nonlinear_arith)
            requires
                pow2(n) <= pow2((FLOOR_HALVINGS - 1 - h0) as nat),
                prize_scaled(h0) == pow2((FLOOR_HALVINGS - 1 - h0) as nat) * 10000,
        ;
    } else if h0 < FLOOR_HALVINGS {
        // Saturation is reached during the n guesses: the floor wins.
        let d = (h0 + n - (FLOOR_HALVINGS - 1)) as nat;
        lemma_pow2_adds((FLOOR_HALVINGS - 1 - h0) as nat, d);
        lemma_pow2_strictly_increases(0, d);
        assert(prize_scaled(h0) <= FLOOR_SCALED * pow2(n)) by (nonlinear_arith)
            requires
                prize_scaled(h0) == pow2((FLOOR_HALVINGS - 1 - h0) as nat) * 10000,
                pow2(n) == pow2((FLOOR_HALVINGS - 1 - h0) as nat) * pow2(d),
                pow2(d) >= 2,
                pow2((FLOOR_HALVINGS - 1 - h0) as nat) >= 1,
        ;
    } else {
        // Already on the floor: it stays there.
        assert(FLOOR_SCALED as nat * pow2(n) >= FLOOR_SCALED) by (nonlinear_arith)
            requires
                pow2(n) >= 1,
        ;
    }
}

} // verus!
