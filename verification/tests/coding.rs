use linkbudget::coding::CodedModulation;
use linkbudget::coding::FecCode;
use linkbudget::coding::Ratio;
use linkbudget::modulation::Modulation;

fn ratio(num: u128, den: u128) -> Ratio {
    Ratio { num, den }
}

/// The exact value of a gain ratio in milli-dB, where it is whole.
fn millidb(g: Ratio) -> u128 {
    assert_eq!(g.num % g.den, 0, "gain {}/{} is not a whole milli-dB value", g.num, g.den);
    g.num / g.den
}

#[test]
fn uncoded_zero_gain() {
    let fec = FecCode::Uncoded;
    assert_eq!(fec.rate(), ratio(1, 1));
    assert_eq!(millidb(fec.coding_gain_millidb()), 0);
}

#[test]
fn conv_r12_gain() {
    let fec = FecCode::Convolutional { rate: ratio(1, 2) };
    assert_eq!(millidb(fec.coding_gain_millidb()), 5000);
}

#[test]
fn conv_r34_gain() {
    let fec = FecCode::Convolutional { rate: ratio(3, 4) };
    assert_eq!(millidb(fec.coding_gain_millidb()), 3500);
}

#[test]
fn turbo_r12_gain() {
    let fec = FecCode::Turbo { rate: ratio(1, 2) };
    assert_eq!(millidb(fec.coding_gain_millidb()), 7500);
}

#[test]
fn ldpc_r12_gain() {
    // The 8.0 dB LDPC rate-1/2 entry: exactly the gap between coded and
    // uncoded required Eb/No that the model predicts at that rate
    let fec = FecCode::Ldpc { rate: ratio(1, 2) };
    assert_eq!(millidb(fec.coding_gain_millidb()), 8000);
}

#[test]
fn ldpc_r23_gain() {
    let fec = FecCode::Ldpc { rate: ratio(2, 3) };
    assert_eq!(millidb(fec.coding_gain_millidb()), 7000);
}

#[test]
fn ldpc_r34_gain() {
    let fec = FecCode::Ldpc { rate: ratio(3, 4) };
    assert_eq!(millidb(fec.coding_gain_millidb()), 6500);
}

#[test]
fn ldpc_r910_gain() {
    let fec = FecCode::Ldpc { rate: ratio(9, 10) };
    assert_eq!(millidb(fec.coding_gain_millidb()), 5000);
}

#[test]
fn ldpc_interpolated_gain() {
    // Rate 0.625 sits three quarters of the way from 1/2 to 2/3, so the
    // gain is 8.0 − 0.75 × 1.0 = 7.25 dB, exactly
    let fec = FecCode::Ldpc { rate: ratio(5, 8) };
    assert_eq!(millidb(fec.coding_gain_millidb()), 7250);
}

#[test]
fn gain_clamps_outside_the_table() {
    // Below the lowest breakpoint the nearest entry holds, and likewise
    // above the highest
    let low = FecCode::Convolutional { rate: ratio(1, 4) };
    assert_eq!(millidb(low.coding_gain_millidb()), 5000);
    let high = FecCode::Convolutional { rate: ratio(9, 10) };
    assert_eq!(millidb(high.coding_gain_millidb()), 3500);
    let ldpc_high = FecCode::Ldpc { rate: ratio(99, 100) };
    assert_eq!(millidb(ldpc_high.coding_gain_millidb()), 5000);
}

#[test]
fn custom_fec() {
    let fec = FecCode::Custom { rate: ratio(4, 5), coding_gain_millidb: 6000 };
    assert_eq!(fec.rate(), ratio(4, 5));
    assert_eq!(millidb(fec.coding_gain_millidb()), 6000);
}

#[test]
fn coded_modulation_spectral_efficiency() {
    // QPSK (k=2) rate 3/4: η = 2 × 0.75 = 1.5 bits/s/Hz, exactly
    let cm = CodedModulation::new(Modulation::Qpsk, FecCode::Ldpc { rate: ratio(3, 4) });
    let eta = cm.spectral_efficiency().unwrap();
    assert_eq!(eta.num as f64 / eta.den as f64, 1.5);
}

#[test]
fn coded_modulation_throughput() {
    // QPSK rate 3/4 in a 36 MHz channel: 36e6 × 1.5 = 54 Mbps, exactly
    let cm = CodedModulation::new(Modulation::Qpsk, FecCode::Ldpc { rate: ratio(3, 4) });
    let tp = cm.throughput_bps(36_000_000).unwrap();
    assert_eq!(tp.num % tp.den, 0);
    assert_eq!(tp.num / tp.den, 54_000_000);
}

#[test]
fn custom_coded_modulation() {
    // 16-QAM (k=4) rate 1/2: η = 2.0
    let custom = CodedModulation::new(Modulation::Mqam(16), FecCode::Turbo { rate: ratio(1, 2) });
    assert_eq!(custom.code_rate(), ratio(1, 2));
    let eta = custom.spectral_efficiency().unwrap();
    assert_eq!(eta.num as f64 / eta.den as f64, 2.0);
}

#[test]
fn spectral_efficiency_none_for_non_power_order() {
    let cm = CodedModulation::new(Modulation::Mpsk(12), FecCode::Uncoded);
    assert!(cm.spectral_efficiency().is_none());
    assert!(cm.throughput_bps(1_000_000).is_none());
}
