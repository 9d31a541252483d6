//! Which bit-error-rate curve each modulation scheme follows.
//!
//! The model has three closed-form BER-vs-Eb/No curves.  Which curve a
//! scheme uses is pure dispatch, settled here once and proved; evaluating a
//! curve is floating-point arithmetic and happens in the surrounding binary,
//! which selects the formula through [`Modulation::ber_curve`].

use vstd::prelude::*;

use crate::modulation::Modulation;

verus! {

/// The closed-form BER curves of the model.
#[derive(Debug, Clone, Copy, PartialEq, Eq, Structural)]
pub enum BerCurve {
    /// BER = Q(sqrt(2 Eb/No)): the binary-PSK curve, shared by everything
    /// whose BER-vs-Eb/No relationship equals it.
    Bpsk,
    /// Gray-coded M-PSK, M > 2: BER ≈ (2/k) Q(sqrt(2 k Eb/No) sin(π/M)).
    Mpsk(u32),
    /// Rectangular Gray-coded M-QAM, M ≠ 4:
    /// BER ≈ (4/k)(1 − 1/√M) Q(sqrt(3 k Eb/No / (M−1))).
    Mqam(u32),
}

/// The curve an M-PSK of order m follows: order two is binary PSK itself.
pub open spec fn mpsk_curve_spec(m: u32) -> BerCurve {
    if m == 2 {
        BerCurve::Bpsk
    } else {
        BerCurve::Mpsk(m)
    }
}

/// The curve an M-QAM of order m follows: 4-QAM is QPSK, which has the
/// BPSK BER-vs-Eb/No relationship.
pub open spec fn mqam_curve_spec(m: u32) -> BerCurve {
    if m == 4 {
        BerCurve::Bpsk
    } else {
        BerCurve::Mqam(m)
    }
}

/// The curve an M-PSK of order m follows.
pub fn mpsk_curve(m: u32) -> (c: BerCurve)
    ensures
        c == mpsk_curve_spec(m),
{
    if m == 2 {
        BerCurve::Bpsk
    } else {
        BerCurve::Mpsk(m)
    }
}

/// The curve an M-QAM of order m follows.
pub fn mqam_curve(m: u32) -> (c: BerCurve)
    ensures
        c == mqam_curve_spec(m),
{
    if m == 4 {
        BerCurve::Bpsk
    } else {
        BerCurve::Mqam(m)
    }
}

impl Modulation {
    /// The curve this scheme's BER follows, delegations resolved: QPSK and
    /// MSK share the BPSK curve, as do 2-PSK and 4-QAM.
    pub open spec fn ber_curve_spec(&self) -> BerCurve {
        match self {
            Modulation::Bpsk => BerCurve::Bpsk,
            Modulation::Qpsk => BerCurve::Bpsk,
            Modulation::Mpsk(m) => mpsk_curve_spec(*m),
            Modulation::Mqam(m) => mqam_curve_spec(*m),
            Modulation::Msk => BerCurve::Bpsk,
        }
    }

    /// The curve this scheme's BER follows.
    pub fn ber_curve(&self) -> (c: BerCurve)
        ensures
            c == self.ber_curve_spec(),
    {
        match self {
            Modulation::Bpsk => BerCurve::Bpsk,
            Modulation::Qpsk => BerCurve::Bpsk,
            Modulation::Mpsk(m) => mpsk_curve(*m),
            Modulation::Mqam(m) => mqam_curve(*m),
            Modulation::Msk => BerCurve::Bpsk,
        }
    }
}

/// QPSK has the same BER-vs-Eb/No relationship as BPSK: the two schemes
/// follow one curve, so their BER agrees exactly at every Eb/No.
pub proof fn lemma_qpsk_shares_bpsk_curve()
    ensures
        Modulation::Qpsk.ber_curve_spec() == Modulation::Bpsk.ber_curve_spec(),
{
}

/// MSK is modelled on the BPSK curve: its BER agrees with BPSK's at every
/// Eb/No (an approximation the model makes deliberately).
pub proof fn lemma_msk_shares_bpsk_curve()
    ensures
        Modulation::Msk.ber_curve_spec() == Modulation::Bpsk.ber_curve_spec(),
{
}

/// The degenerate orders delegate: 2-PSK and 4-QAM are BPSK and QPSK by
/// another name, and land on the BPSK curve.
pub proof fn lemma_degenerate_orders_delegate()
    ensures
        Modulation::Mpsk(2).ber_curve_spec() == BerCurve::Bpsk,
        Modulation::Mqam(4).ber_curve_spec() == BerCurve::Bpsk,
{
}

} // verus!
