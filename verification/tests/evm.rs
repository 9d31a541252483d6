use linkbudget::evm::evm_margin;
use linkbudget::evm::evm_millidb_from_snr_millidb;
use linkbudget::evm::snr_millidb_from_evm_millidb;

#[test]
fn evm_level_at_20db_snr() {
    // SNR = 20 dB: EVM level is −20 dB (10% rms)
    assert_eq!(evm_millidb_from_snr_millidb(20_000), -20_000);
}

#[test]
fn roundtrip_snr_evm() {
    let snr = 25_000;
    let evm = evm_millidb_from_snr_millidb(snr);
    assert_eq!(snr_millidb_from_evm_millidb(evm), snr);
}

#[test]
fn evm_margin_pass() {
    // Measured 5% (~26.02 dB), required 8% (~21.94 dB): pass with margin
    let (pass, margin) = evm_margin(26_020, 21_940);
    assert!(pass);
    assert_eq!(margin, 4_080);
}

#[test]
fn evm_margin_fail() {
    // Measured 12% (~18.42 dB), required 8% (~21.94 dB): fail
    let (pass, margin) = evm_margin(18_420, 21_940);
    assert!(!pass);
    assert!(margin < 0);
}

#[test]
fn evm_margin_boundary_passes() {
    // Meeting the requirement exactly passes with zero margin
    let (pass, margin) = evm_margin(21_940, 21_940);
    assert!(pass);
    assert_eq!(margin, 0);
}
