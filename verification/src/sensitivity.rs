//! Receiver sensitivity as exact milli-dB arithmetic.
//!
//! A sensitivity figure is a sum of dB levels over the −174 dBm/Hz thermal
//! density: noise figure, required Eb/No, the `10·log10` of the bit rate or
//! bandwidth, implementation loss, and — for a non-matched bandpass
//! receiver — the roll-off penalty `10·log10(1+α)`.  The transcendental
//! terms are computed by the caller; this module holds the exact
//! composition, including how the bandpass figure relates to the
//! matched-filter one.

use vstd::prelude::*;

verus! {

/// The thermal density −174 dBm/Hz, in milli-dBm.
pub const THERMAL_DENSITY_MILLIDBM_PER_HZ: i64 = -174_000;

/// Thermal noise floor: −174 dBm/Hz plus the bandwidth term plus the noise
/// figure.
pub open spec fn noise_floor_spec(bandwidth_term_millidb: int, noise_figure_millidb: int) -> int {
    THERMAL_DENSITY_MILLIDBM_PER_HZ + bandwidth_term_millidb + noise_figure_millidb
}

/// Matched-filter sensitivity: −174 dBm/Hz plus noise figure, required
/// Eb/No, the bit-rate term, and implementation loss.
pub open spec fn sensitivity_matched_spec(
    noise_figure_millidb: int,
    required_eb_no_millidb: int,
    bit_rate_term_millidb: int,
    implementation_loss_millidb: int,
) -> int {
    THERMAL_DENSITY_MILLIDBM_PER_HZ + noise_figure_millidb + required_eb_no_millidb
        + bit_rate_term_millidb + implementation_loss_millidb
}

/// Bandpass sensitivity: the matched-filter figure degraded by the
/// roll-off penalty.
pub open spec fn sensitivity_bandpass_spec(
    matched_millidbm: int,
    rolloff_penalty_millidb: int,
) -> int {
    matched_millidbm + rolloff_penalty_millidb
}

/// Sensitivity from a required SNR: the noise floor plus the requirement
/// and the implementation loss.
pub open spec fn sensitivity_from_snr_spec(
    noise_floor_millidbm: int,
    required_snr_millidb: int,
    implementation_loss_millidb: int,
) -> int {
    noise_floor_millidbm + required_snr_millidb + implementation_loss_millidb
}

/// Thermal noise floor in milli-dBm.
pub fn noise_floor_millidbm(bandwidth_term_millidb: i64, noise_figure_millidb: i64) -> (r: i64)
    requires
        i64::MIN <= THERMAL_DENSITY_MILLIDBM_PER_HZ + bandwidth_term_millidb <= i64::MAX,
        i64::MIN <= THERMAL_DENSITY_MILLIDBM_PER_HZ + bandwidth_term_millidb
            + noise_figure_millidb <= i64::MAX,
    ensures
        r == noise_floor_spec(bandwidth_term_millidb as int, noise_figure_millidb as int),
{
    THERMAL_DENSITY_MILLIDBM_PER_HZ + bandwidth_term_millidb + noise_figure_millidb
}

/// Matched-filter sensitivity in milli-dBm.
pub fn sensitivity_matched_millidbm(
    noise_figure_millidb: i64,
    required_eb_no_millidb: i64,
    bit_rate_term_millidb: i64,
    implementation_loss_millidb: i64,
) -> (r: i64)
    requires
        i64::MIN <= THERMAL_DENSITY_MILLIDBM_PER_HZ + noise_figure_millidb <= i64::MAX,
        i64::MIN <= THERMAL_DENSITY_MILLIDBM_PER_HZ + noise_figure_millidb
            + required_eb_no_millidb <= i64::MAX,
        i64::MIN <= THERMAL_DENSITY_MILLIDBM_PER_HZ + noise_figure_millidb
            + required_eb_no_millidb + bit_rate_term_millidb <= i64::MAX,
        i64::MIN <= THERMAL_DENSITY_MILLIDBM_PER_HZ + noise_figure_millidb
            + required_eb_no_millidb + bit_rate_term_millidb + implementation_loss_millidb
            <= i64::MAX,
    ensures
        r == sensitivity_matched_spec(
            noise_figure_millidb as int,
            required_eb_no_millidb as int,
            bit_rate_term_millidb as int,
            implementation_loss_millidb as int,
        ),
{
    THERMAL_DENSITY_MILLIDBM_PER_HZ + noise_figure_millidb + required_eb_no_millidb
        + bit_rate_term_millidb + implementation_loss_millidb
}

/// Bandpass sensitivity in milli-dBm, from the matched-filter figure and
/// the roll-off penalty.
pub fn sensitivity_bandpass_millidbm(matched_millidbm: i64, rolloff_penalty_millidb: i64) -> (r:
    i64)
    requires
        i64::MIN <= matched_millidbm + rolloff_penalty_millidb <= i64::MAX,
    ensures
        r == sensitivity_bandpass_spec(matched_millidbm as int, rolloff_penalty_millidb as int),
{
    matched_millidbm + rolloff_penalty_millidb
}

/// Sensitivity in milli-dBm from a required SNR.
pub fn sensitivity_from_snr_millidbm(
    noise_floor_millidbm: i64,
    required_snr_millidb: i64,
    implementation_loss_millidb: i64,
) -> (r: i64)
    requires
        i64::MIN <= noise_floor_millidbm + required_snr_millidb <= i64::MAX,
        i64::MIN <= noise_floor_millidbm + required_snr_millidb + implementation_loss_millidb
            <= i64::MAX,
    ensures
        r == sensitivity_from_snr_spec(
            noise_floor_millidbm as int,
            required_snr_millidb as int,
            implementation_loss_millidb as int,
        ),
{
    noise_floor_millidbm + required_snr_millidb + implementation_loss_millidb
}

/// A bandpass receiver is never more sensitive than the matched filter: it
/// differs by exactly the roll-off penalty, so a non-negative penalty can
/// only raise the required power, and a zero penalty (roll-off zero)
/// leaves it unchanged.
pub proof fn lemma_bandpass_degrades_by_penalty(
    matched_millidbm: int,
    rolloff_penalty_millidb: int,
)
    requires
        rolloff_penalty_millidb >= 0,
    ensures
        sensitivity_bandpass_spec(matched_millidbm, rolloff_penalty_millidb)
            >= matched_millidbm,
        rolloff_penalty_millidb == 0 ==> sensitivity_bandpass_spec(
            matched_millidbm,
            rolloff_penalty_millidb,
        ) == matched_millidbm,
{
}

/// A higher bit rate needs more power: the matched-filter sensitivity
/// rises exactly with the bit-rate term, everything else fixed.
pub proof fn lemma_sensitivity_tracks_bit_rate(
    noise_figure_millidb: int,
    required_eb_no_millidb: int,
    bit_rate_term_lo: int,
    bit_rate_term_hi: int,
    implementation_loss_millidb: int,
)
    requires
        bit_rate_term_lo <= bit_rate_term_hi,
    ensures
        sensitivity_matched_spec(
            noise_figure_millidb,
            required_eb_no_millidb,
            bit_rate_term_lo,
            implementation_loss_millidb,
        ) <= sensitivity_matched_spec(
            noise_figure_millidb,
            required_eb_no_millidb,
            bit_rate_term_hi,
            implementation_loss_millidb,
        ),
{
}

} // verus!
