//! Error Vector Magnitude (EVM) in the log domain, and the pass/fail
//! margin decision.
//!
//! `EVM_rms = 10^(−SNR_dB / 20)` means that the EVM level in dB (its
//! `20·log10`) is exactly the negated SNR, so the SNR↔EVM conversion is an
//! exact negation in the log domain; only the final step to a linear ratio
//! or a percentage is transcendental and lives in the surrounding binary.

use vstd::prelude::*;

verus! {

/// The EVM level in milli-dB for a given SNR: 20·log10(EVM_rms) = −SNR.
pub open spec fn evm_millidb_from_snr_millidb_spec(snr_millidb: int) -> int {
    -snr_millidb
}

/// The SNR in milli-dB for a given EVM level: SNR = −20·log10(EVM_rms).
pub open spec fn snr_millidb_from_evm_millidb_spec(evm_millidb: int) -> int {
    -evm_millidb
}

/// EVM level in milli-dB from SNR in milli-dB.
pub fn evm_millidb_from_snr_millidb(snr_millidb: i64) -> (r: i64)
    requires
        snr_millidb != i64::MIN,
    ensures
        r == evm_millidb_from_snr_millidb_spec(snr_millidb as int),
{
    -snr_millidb
}

/// SNR in milli-dB from EVM level in milli-dB.
pub fn snr_millidb_from_evm_millidb(evm_millidb: i64) -> (r: i64)
    requires
        evm_millidb != i64::MIN,
    ensures
        r == snr_millidb_from_evm_millidb_spec(evm_millidb as int),
{
    -evm_millidb
}

/// SNR survives the round trip through EVM unchanged, for any SNR level.
pub proof fn lemma_snr_evm_round_trip(snr_millidb: int)
    ensures
        snr_millidb_from_evm_millidb_spec(evm_millidb_from_snr_millidb_spec(snr_millidb))
            == snr_millidb,
{
}

/// Checks a measured EVM against a requirement, both given as their
/// SNR-equivalent levels in milli-dB.
///
/// Returns (pass, margin): the margin is measured minus required, and the
/// check passes exactly when the margin is not negative.
pub fn evm_margin(measured_snr_millidb: i64, required_snr_millidb: i64) -> (r: (bool, i64))
    requires
        i64::MIN <= measured_snr_millidb - required_snr_millidb <= i64::MAX,
    ensures
        r.1 == measured_snr_millidb - required_snr_millidb,
        r.0 == (r.1 >= 0),
{
    let margin = measured_snr_millidb - required_snr_millidb;
    (margin >= 0, margin)
}

} // verus!
