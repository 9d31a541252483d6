//! Modulation schemes and their integer parameters.
//!
//! A modulation scheme is identified by its order M (the number of points in
//! the constellation).  BPSK, QPSK and MSK have fixed orders; M-PSK and M-QAM
//! carry an explicit order.

use vstd::prelude::*;

verus! {

/// Supported modulation types
#[derive(Debug, Clone, Copy, PartialEq, Eq, Structural)]
pub enum Modulation {
    /// Binary Phase Shift Keying (M=2, k=1)
    Bpsk,
    /// Quadrature Phase Shift Keying (M=4, k=2)
    Qpsk,
    /// M-ary Phase Shift Keying
    Mpsk(u32),
    /// M-ary Quadrature Amplitude Modulation
    Mqam(u32),
    /// Minimum Shift Keying (M=2, k=1, continuous phase)
    Msk,
}

impl Modulation {
    /// Modulation order M of this scheme.
    pub open spec fn order_spec(&self) -> u32 {
        match self {
            Modulation::Bpsk => 2,
            Modulation::Qpsk => 4,
            Modulation::Mpsk(m) => *m,
            Modulation::Mqam(m) => *m,
            Modulation::Msk => 2,
        }
    }

    /// Modulation order M
    pub fn order(&self) -> (m: u32)
        ensures
            m == self.order_spec(),
    {
        match self {
            Modulation::Bpsk => 2,
            Modulation::Qpsk => 4,
            Modulation::Mpsk(m) => *m,
            Modulation::Mqam(m) => *m,
            Modulation::Msk => 2,
        }
    }

    /// Bits per symbol: the exact k with 2^k = M, or `None` when the order
    /// is not a power of two (such an order has no whole bits-per-symbol).
    pub fn bits_per_symbol(&self) -> (k: Option<u32>)
        ensures
            match k {
                Some(b) => log2_exact(self.order_spec() as nat) == Some(b as nat) && b <= 31,
                None => log2_exact(self.order_spec() as nat) is None,
            },
    {
        let m = self.order();
        if m == 0 {
            return None;
        }
        let mut cur = m;
        let mut k: u32 = 0;
        proof {
            assert(pow2(0) == 1);
        }
        while cur % 2 == 0
            invariant
                1 <= cur <= m,
                pow2(k as nat) * cur == m,
                log2_exact(m as nat) == match log2_exact(cur as nat) {
                    Some(b) => Some((b + k) as nat),
                    None => None::<nat>,
                },
            decreases cur,
        {
            proof {
                lemma_log2_exact_step(cur as nat, k as nat, m as nat);
                lemma_pow2_above_exponent(k as nat);
                assert(pow2(k as nat) <= pow2(k as nat) * cur) by (nonlinear_arith)
                    requires
                        cur >= 1,
                        pow2(k as nat) >= 0,
                ;
                assert(pow2((k + 1) as nat) == 2 * pow2(k as nat));
                assert(pow2((k + 1) as nat) * ((cur / 2) as nat) == pow2(k as nat) * (
                cur as nat)) by (nonlinear_arith)
                    requires
                        pow2((k + 1) as nat) == 2 * pow2(k as nat),
                        cur as nat == 2 * ((cur / 2) as nat),
                ;
            }
            cur = cur / 2;
            k = k + 1;
        }
        if cur == 1 {
            proof {
                if k > 31 {
                    lemma_pow2_increases(32, k as nat);
                    lemma_pow2_32();
                }
            }
            Some(k)
        } else {
            None
        }
    }
}

/// 2 to the power k.
pub open spec fn pow2(k: nat) -> nat
    decreases k,
{
    if k == 0 {
        1
    } else {
        2 * pow2((k - 1) as nat)
    }
}

/// The exact base-2 logarithm of m, where one exists: `log2_exact(m) ==
/// Some(k)` exactly when m == 2^k.
pub open spec fn log2_exact(m: nat) -> Option<nat>
    decreases m,
{
    if m == 1 {
        Some(0)
    } else if m == 0 || m % 2 == 1 {
        None
    } else {
        match log2_exact(m / 2) {
            Some(k) => Some(k + 1),
            None => None,
        }
    }
}

/// One division step of the exact logarithm: splitting k powers of two off
/// `m` and one more off an even `cur` agree.
proof fn lemma_log2_exact_step(cur: nat, k: nat, m: nat)
    requires
        cur >= 1,
        cur % 2 == 0,
        log2_exact(m) == match log2_exact(cur) {
            Some(b) => Some((b + k) as nat),
            None => None::<nat>,
        },
    ensures
        log2_exact(m) == match log2_exact(cur / 2) {
            Some(b) => Some((b + k + 1) as nat),
            None => None::<nat>,
        },
{
    assert(cur != 1);
}

/// 2^k does not shrink as k grows.
pub proof fn lemma_pow2_increases(a: nat, b: nat)
    requires
        a <= b,
    ensures
        pow2(a) <= pow2(b),
    decreases b,
{
    if a < b {
        lemma_pow2_increases(a, (b - 1) as nat);
    }
}

/// The 32nd power of two, written out.
proof fn lemma_pow2_32()
    ensures
        pow2(32) == 0x1_0000_0000,
{
    reveal_with_fuel(pow2, 33);
}

/// An order that fits in 32 bits has at most 31 bits per symbol.
pub proof fn lemma_log2_exact_u32(m: nat, k: nat)
    requires
        m <= 0xffff_ffff,
        log2_exact(m) == Some(k),
    ensures
        k <= 31,
{
    lemma_log2_exact_sound(m, k);
    if k > 31 {
        lemma_pow2_increases(32, k);
        lemma_pow2_32();
    }
}

/// 2^k outgrows k.
proof fn lemma_pow2_above_exponent(k: nat)
    ensures
        pow2(k) > k,
    decreases k,
{
    if k > 0 {
        lemma_pow2_above_exponent((k - 1) as nat);
    }
}

/// `log2_exact` means what its name says: where it yields k, the order is
/// exactly 2^k.
pub proof fn lemma_log2_exact_sound(m: nat, k: nat)
    requires
        log2_exact(m) == Some(k),
    ensures
        pow2(k) == m,
    decreases m,
{
    if m == 1 {
    } else {
        lemma_log2_exact_sound(m / 2, (k - 1) as nat);
    }
}

} // verus!
