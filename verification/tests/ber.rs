use linkbudget::ber::BerCurve;
use linkbudget::ber::mpsk_curve;
use linkbudget::ber::mqam_curve;
use linkbudget::modulation::Modulation;

#[test]
fn qpsk_uses_bpsk_curve() {
    // QPSK and BPSK have identical BER vs Eb/No: one curve serves both
    assert_eq!(Modulation::Qpsk.ber_curve(), BerCurve::Bpsk);
    assert_eq!(Modulation::Bpsk.ber_curve(), BerCurve::Bpsk);
}

#[test]
fn msk_uses_bpsk_curve() {
    assert_eq!(Modulation::Msk.ber_curve(), BerCurve::Bpsk);
}

#[test]
fn binary_psk_delegates() {
    assert_eq!(mpsk_curve(2), BerCurve::Bpsk);
    assert_eq!(Modulation::Mpsk(2).ber_curve(), BerCurve::Bpsk);
}

#[test]
fn quaternary_qam_delegates() {
    assert_eq!(mqam_curve(4), BerCurve::Bpsk);
    assert_eq!(Modulation::Mqam(4).ber_curve(), BerCurve::Bpsk);
}

#[test]
fn higher_orders_keep_their_curve() {
    assert_eq!(Modulation::Mpsk(8).ber_curve(), BerCurve::Mpsk(8));
    assert_eq!(Modulation::Mqam(16).ber_curve(), BerCurve::Mqam(16));
    assert_eq!(Modulation::Mqam(64).ber_curve(), BerCurve::Mqam(64));
}

#[test]
fn bits_per_symbol_exact() {
    assert_eq!(Modulation::Bpsk.bits_per_symbol(), Some(1));
    assert_eq!(Modulation::Qpsk.bits_per_symbol(), Some(2));
    assert_eq!(Modulation::Msk.bits_per_symbol(), Some(1));
    assert_eq!(Modulation::Mqam(16).bits_per_symbol(), Some(4));
    assert_eq!(Modulation::Mqam(64).bits_per_symbol(), Some(6));
    assert_eq!(Modulation::Mpsk(8).bits_per_symbol(), Some(3));
}

#[test]
fn bits_per_symbol_none_for_non_powers() {
    assert_eq!(Modulation::Mpsk(0).bits_per_symbol(), None);
    assert_eq!(Modulation::Mpsk(3).bits_per_symbol(), None);
    assert_eq!(Modulation::Mqam(12).bits_per_symbol(), None);
}
