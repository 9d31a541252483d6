//! Forward-error-correction code rates and coding gains, in exact arithmetic.
//!
//! A code rate is an exact ratio, and coding gains are kept in milli-dB, so
//! the whole gain model — the breakpoint table and the clamped linear
//! interpolation between breakpoints — is plain integer arithmetic that can
//! be stated and proved.  The surrounding binary converts its `f64` rates to
//! exact ratios at the edge (every finite float is one) and divides the
//! resulting ratio back out.
//!
//! ## Coding gain
//!
//! Coding gain is the reduction in required Eb/No (at a given BER) achieved
//! by adding FEC redundancy:
//! `required_Eb/No_coded = required_Eb/No_uncoded - coding_gain`.
//!
//! ## Gain table (at BER ≈ 1e-5)
//!
//! | Code                | Rate | Coding gain |
//! |---------------------|------|-------------|
//! | Convolutional (K=7) | 1/2  | 5.0 dB      |
//! | Convolutional (K=7) | 3/4  | 3.5 dB      |
//! | Turbo               | 1/2  | 7.5 dB      |
//! | Turbo               | 3/4  | 5.5 dB      |
//! | LDPC (DVB-S2)       | 1/2  | 8.0 dB      |
//! | LDPC (DVB-S2)       | 2/3  | 7.0 dB      |
//! | LDPC (DVB-S2)       | 3/4  | 6.5 dB      |
//! | LDPC (DVB-S2)       | 5/6  | 5.5 dB      |
//! | LDPC (DVB-S2)       | 9/10 | 5.0 dB      |

use vstd::prelude::*;

use crate::modulation::Modulation;
use crate::modulation::log2_exact;

verus! {

/// Convolutional code, rate 1/2, constraint length K=7: 5.0 dB
pub const CODING_GAIN_CONV_R12_K7_MILLIDB: u64 = 5000;

/// Convolutional code, rate 3/4, constraint length K=7: 3.5 dB
pub const CODING_GAIN_CONV_R34_K7_MILLIDB: u64 = 3500;

/// Turbo code, rate 1/2: 7.5 dB
pub const CODING_GAIN_TURBO_R12_MILLIDB: u64 = 7500;

/// Turbo code, rate 3/4: 5.5 dB
pub const CODING_GAIN_TURBO_R34_MILLIDB: u64 = 5500;

/// LDPC (DVB-S2), rate 1/2: 8.0 dB
pub const CODING_GAIN_LDPC_R12_MILLIDB: u64 = 8000;

/// LDPC (DVB-S2), rate 2/3: 7.0 dB
pub const CODING_GAIN_LDPC_R23_MILLIDB: u64 = 7000;

/// LDPC (DVB-S2), rate 3/4: 6.5 dB
pub const CODING_GAIN_LDPC_R34_MILLIDB: u64 = 6500;

/// LDPC (DVB-S2), rate 5/6: 5.5 dB
pub const CODING_GAIN_LDPC_R56_MILLIDB: u64 = 5500;

/// LDPC (DVB-S2), rate 9/10: 5.0 dB
pub const CODING_GAIN_LDPC_R910_MILLIDB: u64 = 5000;

/// The largest numerator or denominator a code rate may carry; every `f64`
/// rate in (0, 1] reduces to a ratio within this bound, and it keeps the
/// interpolation arithmetic far from overflow.
pub const RATE_BOUND: u128 = 0x8000_0000_0000_0000;

/// An exact ratio `num / den`, `den >= 1`.
#[derive(Debug, Clone, Copy, PartialEq, Eq, Structural)]
pub struct Ratio {
    pub num: u128,
    pub den: u128,
}

impl Ratio {
    /// The ratio is a usable code rate: positive denominator, both parts
    /// within the arithmetic bound.
    pub open spec fn wf(&self) -> bool {
        1 <= self.den <= RATE_BOUND && self.num <= RATE_BOUND
    }
}

/// Common FEC code families with typical coding gains
#[derive(Debug, Clone, Copy, PartialEq, Eq, Structural)]
pub enum FecCode {
    /// No FEC (uncoded)
    Uncoded,
    /// Convolutional code, constraint length K=7
    Convolutional { rate: Ratio },
    /// Turbo code
    Turbo { rate: Ratio },
    /// LDPC code (e.g. DVB-S2)
    Ldpc { rate: Ratio },
    /// Custom FEC with explicit code rate and coding gain
    Custom { rate: Ratio, coding_gain_millidb: u64 },
}

impl FecCode {
    /// Code rate R: one for uncoded, the stored ratio otherwise.
    pub open spec fn rate_spec(&self) -> Ratio {
        match self {
            FecCode::Uncoded => Ratio { num: 1, den: 1 },
            FecCode::Convolutional { rate } => *rate,
            FecCode::Turbo { rate } => *rate,
            FecCode::Ldpc { rate } => *rate,
            FecCode::Custom { rate, .. } => *rate,
        }
    }

    /// The stored rate is usable for the gain arithmetic.
    pub open spec fn wf(&self) -> bool {
        self.rate_spec().wf()
    }

    /// Code rate R (ratio of information bits to total bits)
    pub fn rate(&self) -> (r: Ratio)
        ensures
            r == self.rate_spec(),
    {
        match self {
            FecCode::Uncoded => Ratio { num: 1, den: 1 },
            FecCode::Convolutional { rate } => *rate,
            FecCode::Turbo { rate } => *rate,
            FecCode::Ldpc { rate } => *rate,
            FecCode::Custom { rate, .. } => *rate,
        }
    }
}

/// The clamped linear interpolation of the coding gain between the
/// breakpoints `r1 = r1n/r1d` (gain `g1` milli-dB) and `r2 = r2n/r2d`
/// (gain `g2`), as an exact (numerator, denominator) pair of milli-dB:
/// `g1` at or below `r1`, `g2` at or above `r2`, linear in the rate
/// between them.
pub open spec fn lerp_gain_millidb(
    rate: Ratio,
    r1n: int,
    r1d: int,
    g1: int,
    r2n: int,
    r2d: int,
    g2: int,
) -> (int, int) {
    let a = rate.num as int;
    let b = rate.den as int;
    let tn = r2d * (a * r1d - b * r1n);
    let td = b * (r2n * r1d - r2d * r1n);
    if tn <= 0 {
        (g1, 1)
    } else if tn >= td {
        (g2, 1)
    } else {
        (g1 * td + tn * (g2 - g1), td)
    }
}

/// The coding gain of a code, as an exact (numerator, denominator) pair of
/// milli-dB: zero for uncoded, the stored value for custom codes, and the
/// interpolated table value for the three families (the LDPC table is
/// piecewise across its five breakpoints, clamped to the nearest segment
/// outside them).
pub open spec fn coding_gain_millidb_spec(fec: FecCode) -> (int, int) {
    match fec {
        FecCode::Uncoded => (0, 1),
        FecCode::Convolutional { rate } => lerp_gain_millidb(
            rate,
            1,
            2,
            CODING_GAIN_CONV_R12_K7_MILLIDB as int,
            3,
            4,
            CODING_GAIN_CONV_R34_K7_MILLIDB as int,
        ),
        FecCode::Turbo { rate } => lerp_gain_millidb(
            rate,
            1,
            2,
            CODING_GAIN_TURBO_R12_MILLIDB as int,
            3,
            4,
            CODING_GAIN_TURBO_R34_MILLIDB as int,
        ),
        FecCode::Ldpc { rate } => {
            if 2 * rate.num <= rate.den {
                (CODING_GAIN_LDPC_R12_MILLIDB as int, 1)
            } else if 3 * rate.num <= 2 * rate.den {
                lerp_gain_millidb(
                    rate,
                    1,
                    2,
                    CODING_GAIN_LDPC_R12_MILLIDB as int,
                    2,
                    3,
                    CODING_GAIN_LDPC_R23_MILLIDB as int,
                )
            } else if 4 * rate.num <= 3 * rate.den {
                lerp_gain_millidb(
                    rate,
                    2,
                    3,
                    CODING_GAIN_LDPC_R23_MILLIDB as int,
                    3,
                    4,
                    CODING_GAIN_LDPC_R34_MILLIDB as int,
                )
            } else if 6 * rate.num <= 5 * rate.den {
                lerp_gain_millidb(
                    rate,
                    3,
                    4,
                    CODING_GAIN_LDPC_R34_MILLIDB as int,
                    5,
                    6,
                    CODING_GAIN_LDPC_R56_MILLIDB as int,
                )
            } else {
                lerp_gain_millidb(
                    rate,
                    5,
                    6,
                    CODING_GAIN_LDPC_R56_MILLIDB as int,
                    9,
                    10,
                    CODING_GAIN_LDPC_R910_MILLIDB as int,
                )
            }
        },
        FecCode::Custom { coding_gain_millidb, .. } => (coding_gain_millidb as int, 1),
    }
}

/// Clamped linear interpolation between two rate/gain breakpoints.
/// Higher code rate means less redundancy and less coding gain.
fn lerp_gain(rate: Ratio, r1n: u128, r1d: u128, g1: u64, r2n: u128, r2d: u128, g2: u64) -> (g:
    Ratio)
    requires
        rate.wf(),
        1 <= r1d <= 10,
        r1n <= 10,
        1 <= r2d <= 10,
        r2n <= 10,
        g1 <= 10000,
        g2 <= 10000,
        r2n * r1d > r2d * r1n,
    ensures
        g.den >= 1,
        (g.num as int, g.den as int) == lerp_gain_millidb(
            rate,
            r1n as int,
            r1d as int,
            g1 as int,
            r2n as int,
            r2d as int,
            g2 as int,
        ),
{
    proof {
        assert(rate.num * r1d <= RATE_BOUND * 10 && rate.den * r1n <= RATE_BOUND * 10)
            by (nonlinear_arith)
            requires
                rate.num <= RATE_BOUND,
                rate.den <= RATE_BOUND,
                r1d <= 10,
                r1n <= 10,
        ;
    }
    let ad = rate.num * r1d;
    let bc = rate.den * r1n;
    if ad <= bc {
        proof {
            assert(r2d as int * (ad as int - bc as int) <= 0) by (nonlinear_arith)
                requires
                    r2d >= 1,
                    ad <= bc,
            ;
        }
        return Ratio { num: g1 as u128, den: 1 };
    }
    proof {
        assert(r2d * (ad - bc) <= 10 * (RATE_BOUND * 10)) by (nonlinear_arith)
            requires
                r2d <= 10,
                ad - bc <= RATE_BOUND * 10,
        ;
        assert(r2n * r1d <= 100) by (nonlinear_arith)
            requires
                r2n <= 10,
                r1d <= 10,
        ;
        assert(rate.den * (r2n * r1d - r2d * r1n) <= RATE_BOUND * 100) by (nonlinear_arith)
            requires
                rate.den <= RATE_BOUND,
                r2n * r1d - r2d * r1n <= 100,
        ;
    }
    let tn = r2d * (ad - bc);
    let td = rate.den * (r2n * r1d - r2d * r1n);
    proof {
        assert(tn > 0) by (nonlinear_arith)
            requires
                r2d >= 1,
                ad > bc,
                tn == r2d * (ad - bc),
        ;
        assert(td > 0) by (nonlinear_arith)
            requires
                rate.den >= 1,
                r2n * r1d > r2d * r1n,
                td == rate.den * (r2n * r1d - r2d * r1n),
        ;
    }
    if tn >= td {
        return Ratio { num: g2 as u128, den: 1 };
    }
    proof {
        assert(g1 as u128 * td <= 10000 * (RATE_BOUND * 100)) by (nonlinear_arith)
            requires
                g1 <= 10000,
                td <= RATE_BOUND * 100,
        ;
        if g2 >= g1 {
            assert(tn * ((g2 - g1) as u128) <= (10 * (RATE_BOUND * 10)) * 10000)
                by (nonlinear_arith)
                requires
                    tn <= 10 * (RATE_BOUND * 10),
                    (g2 - g1) as u128 <= 10000,
            ;
        } else {
            assert(tn * ((g1 - g2) as u128) <= g1 as u128 * td) by (nonlinear_arith)
                requires
                    0 < tn < td,
                    (g1 - g2) as u128 <= g1 as u128,
            ;
        }
    }
    let num = if g2 >= g1 {
        g1 as u128 * td + tn * ((g2 - g1) as u128)
    } else {
        g1 as u128 * td - tn * ((g1 - g2) as u128)
    };
    proof {
        assert(num as int == g1 as int * td as int + tn as int * (g2 as int - g1 as int))
            by (nonlinear_arith)
            requires
                g2 >= g1 ==> num as int == g1 as int * td as int + tn as int * ((g2 - g1) as int),
                g2 < g1 ==> num as int == g1 as int * td as int - tn as int * ((g1 - g2) as int),
        ;
    }
    Ratio { num, den: td }
}

impl FecCode {
    /// Approximate coding gain at BER ≈ 1e-5, in milli-dB, as an exact
    /// ratio.
    ///
    /// For convolutional, turbo, and LDPC codes, the gain is interpolated
    /// between the table's rate/gain pairs; for custom codes, the explicit
    /// gain is used.
    pub fn coding_gain_millidb(&self) -> (g: Ratio)
        requires
            self.wf(),
        ensures
            g.den >= 1,
            (g.num as int, g.den as int) == coding_gain_millidb_spec(*self),
    {
        match self {
            FecCode::Uncoded => Ratio { num: 0, den: 1 },
            FecCode::Convolutional { rate } => lerp_gain(
                *rate,
                1,
                2,
                CODING_GAIN_CONV_R12_K7_MILLIDB,
                3,
                4,
                CODING_GAIN_CONV_R34_K7_MILLIDB,
            ),
            FecCode::Turbo { rate } => lerp_gain(
                *rate,
                1,
                2,
                CODING_GAIN_TURBO_R12_MILLIDB,
                3,
                4,
                CODING_GAIN_TURBO_R34_MILLIDB,
            ),
            FecCode::Ldpc { rate } => {
                if 2 * rate.num <= rate.den {
                    Ratio { num: CODING_GAIN_LDPC_R12_MILLIDB as u128, den: 1 }
                } else if 3 * rate.num <= 2 * rate.den {
                    lerp_gain(
                        *rate,
                        1,
                        2,
                        CODING_GAIN_LDPC_R12_MILLIDB,
                        2,
                        3,
                        CODING_GAIN_LDPC_R23_MILLIDB,
                    )
                } else if 4 * rate.num <= 3 * rate.den {
                    lerp_gain(
                        *rate,
                        2,
                        3,
                        CODING_GAIN_LDPC_R23_MILLIDB,
                        3,
                        4,
                        CODING_GAIN_LDPC_R34_MILLIDB,
                    )
                } else if 6 * rate.num <= 5 * rate.den {
                    lerp_gain(
                        *rate,
                        3,
                        4,
                        CODING_GAIN_LDPC_R34_MILLIDB,
                        5,
                        6,
                        CODING_GAIN_LDPC_R56_MILLIDB,
                    )
                } else {
                    lerp_gain(
                        *rate,
                        5,
                        6,
                        CODING_GAIN_LDPC_R56_MILLIDB,
                        9,
                        10,
                        CODING_GAIN_LDPC_R910_MILLIDB,
                    )
                }
            },
            FecCode::Custom { coding_gain_millidb, .. } => Ratio {
                num: *coding_gain_millidb as u128,
                den: 1,
            },
        }
    }
}

/// A modulation scheme combined with FEC coding.
#[derive(Debug, Clone, Copy, PartialEq, Eq, Structural)]
pub struct CodedModulation {
    pub modulation: Modulation,
    pub fec: FecCode,
}

impl CodedModulation {
    /// Spectral efficiency η = k × R as an exact pair, where k is the whole
    /// bits-per-symbol of the order; `None` for an order that is not a
    /// power of two.
    pub open spec fn spectral_efficiency_spec(&self) -> Option<(int, int)> {
        let r = self.fec.rate_spec();
        match log2_exact(self.modulation.order_spec() as nat) {
            Some(k) => Some((k * r.num as int, r.den as int)),
            None => None,
        }
    }

    pub fn new(modulation: Modulation, fec: FecCode) -> (c: Self)
        ensures
            c.modulation == modulation,
            c.fec == fec,
    {
        Self { modulation, fec }
    }

    /// Code rate R
    pub fn code_rate(&self) -> (r: Ratio)
        ensures
            r == self.fec.rate_spec(),
    {
        self.fec.rate()
    }

    /// Coding gain in milli-dB, as an exact ratio
    pub fn coding_gain_millidb(&self) -> (g: Ratio)
        requires
            self.fec.wf(),
        ensures
            g.den >= 1,
            (g.num as int, g.den as int) == coding_gain_millidb_spec(self.fec),
    {
        self.fec.coding_gain_millidb()
    }

    /// Spectral efficiency in bits/s/Hz: η = k × R, exact.
    pub fn spectral_efficiency(&self) -> (eta: Option<Ratio>)
        requires
            self.fec.wf(),
        ensures
            match eta {
                Some(e) => e.den >= 1 && self.spectral_efficiency_spec() == Some(
                    (e.num as int, e.den as int),
                ),
                None => self.spectral_efficiency_spec() is None,
            },
    {
        match self.modulation.bits_per_symbol() {
            None => None,
            Some(k) => {
                let r = self.fec.rate();
                proof {
                    assert((k as u128) * r.num <= 0x1_0000_0000u128 * RATE_BOUND)
                        by (nonlinear_arith)
                        requires
                            k as u128 <= 0x1_0000_0000u128,
                            r.num <= RATE_BOUND,
                    ;
                }
                Some(Ratio { num: (k as u128) * r.num, den: r.den })
            },
        }
    }

    /// Throughput in bits/s for a given channel bandwidth, exact:
    /// throughput = BW × η = BW × k × R; `None` for an order that is not a
    /// power of two.
    pub fn throughput_bps(&self, bandwidth_hz: u64) -> (t: Option<Ratio>)
        requires
            self.fec.wf(),
            bandwidth_hz < 0x800_0000_0000_0000,  // keeps the product in range; far beyond any radio bandwidth
        ensures
            match t {
                Some(tp) => tp.den >= 1 && match self.spectral_efficiency_spec() {
                    Some((n, d)) => tp.num == bandwidth_hz * n && tp.den == d,
                    None => false,
                },
                None => self.spectral_efficiency_spec() is None,
            },
    {
        match self.spectral_efficiency() {
            None => None,
            Some(eta) => {
                proof {
                    match log2_exact(self.modulation.order_spec() as nat) {
                        Some(kk) => {
                            crate::modulation::lemma_log2_exact_u32(
                                self.modulation.order_spec() as nat,
                                kk,
                            );
                            assert(eta.num as int == kk * self.fec.rate_spec().num);
                            assert(eta.num as int <= 31 * RATE_BOUND) by (nonlinear_arith)
                                requires
                                    kk <= 31,
                                    self.fec.rate_spec().num <= RATE_BOUND,
                                    eta.num as int == kk * (self.fec.rate_spec().num as int),
                            ;
                        },
                        None => {
                            assert(false);
                        },
                    }
                    assert((bandwidth_hz as u128) * eta.num <= 0x800_0000_0000_0000u128 * (31
                        * RATE_BOUND)) by (nonlinear_arith)
                        requires
                            bandwidth_hz as u128 <= 0x800_0000_0000_0000u128,
                            eta.num <= 31 * RATE_BOUND,
                    ;
                }
                Some(Ratio { num: (bandwidth_hz as u128) * eta.num, den: eta.den })
            },
        }
    }
}

} // verus!
