//! The link-budget chain — path loss, received power, SNR, Eb/No, link
//! margin — as exact milli-dB arithmetic.
//!
//! Every step of the aggregator is a sum or difference of dB levels; the
//! transcendental terms (the free-space loss for a distance and frequency,
//! the noise floor for a bandwidth, the `10·log10` of bits-per-symbol,
//! code rate and spectral efficiency) are computed by the caller and enter
//! as plain milli-dB values.  Over that chain the comparison between a
//! coded and an uncoded link closes exactly, which is what
//! [`lemma_coding_improves_margin`] states.

use vstd::prelude::*;

verus! {

/// Total path loss: the free-space loss plus the fade margin, when one is
/// given.
pub open spec fn total_path_loss_spec(fspl_millidb: int, fade_margin_millidb: Option<int>) -> int {
    fspl_millidb + match fade_margin_millidb {
        Some(fade) => fade,
        None => 0,
    }
}

/// Power at the receiver input: transmit power and gain, less the path
/// loss, plus the receive gain.
pub open spec fn pin_at_receiver_spec(
    tx_power_millidbm: int,
    tx_gain_millidb: int,
    path_loss_millidb: int,
    rx_gain_millidb: int,
) -> int {
    tx_power_millidbm + tx_gain_millidb - path_loss_millidb + rx_gain_millidb
}

/// SNR: input power over the noise floor raised by the noise figure.
pub open spec fn snr_spec(
    pin_millidbm: int,
    noise_floor_millidbm: int,
    noise_figure_millidb: int,
) -> int {
    pin_millidbm - (noise_floor_millidbm + noise_figure_millidb)
}

/// Uncoded Eb/No: the SNR less the `10·log10` of bits-per-symbol.
pub open spec fn eb_no_spec(snr_millidb: int, bits_term_millidb: int) -> int {
    snr_millidb - bits_term_millidb
}

/// Coded Eb/No: the SNR less the `10·log10` of the spectral efficiency
/// k × R, which splits into the bits-per-symbol and code-rate terms.
pub open spec fn eb_no_coded_spec(
    snr_millidb: int,
    bits_term_millidb: int,
    rate_term_millidb: int,
) -> int {
    snr_millidb - (bits_term_millidb + rate_term_millidb)
}

/// Link margin: actual Eb/No less the Eb/No the target BER requires.
pub open spec fn link_margin_spec(eb_no_millidb: int, required_eb_no_millidb: int) -> int {
    eb_no_millidb - required_eb_no_millidb
}

/// Total path loss in milli-dB.
pub fn total_path_loss(fspl_millidb: i64, fade_margin_millidb: Option<i64>) -> (r: i64)
    requires
        i64::MIN <= fspl_millidb + match fade_margin_millidb {
            Some(fade) => fade as int,
            None => 0int,
        } <= i64::MAX,
    ensures
        r == total_path_loss_spec(
            fspl_millidb as int,
            match fade_margin_millidb {
                Some(fade) => Some(fade as int),
                None => None,
            },
        ),
{
    match fade_margin_millidb {
        Some(fade) => fspl_millidb + fade,
        None => fspl_millidb,
    }
}

/// Power at the receiver input in milli-dBm.
pub fn pin_at_receiver(
    tx_power_millidbm: i64,
    tx_gain_millidb: i64,
    path_loss_millidb: i64,
    rx_gain_millidb: i64,
) -> (r: i64)
    requires
        i64::MIN <= tx_power_millidbm + tx_gain_millidb <= i64::MAX,
        i64::MIN <= tx_power_millidbm + tx_gain_millidb - path_loss_millidb <= i64::MAX,
        i64::MIN <= tx_power_millidbm + tx_gain_millidb - path_loss_millidb + rx_gain_millidb
            <= i64::MAX,
    ensures
        r == pin_at_receiver_spec(
            tx_power_millidbm as int,
            tx_gain_millidb as int,
            path_loss_millidb as int,
            rx_gain_millidb as int,
        ),
{
    tx_power_millidbm + tx_gain_millidb - path_loss_millidb + rx_gain_millidb
}

/// SNR in milli-dB.
pub fn snr(pin_millidbm: i64, noise_floor_millidbm: i64, noise_figure_millidb: i64) -> (r: i64)
    requires
        i64::MIN <= noise_floor_millidbm + noise_figure_millidb <= i64::MAX,
        i64::MIN <= pin_millidbm - (noise_floor_millidbm + noise_figure_millidb) <= i64::MAX,
    ensures
        r == snr_spec(
            pin_millidbm as int,
            noise_floor_millidbm as int,
            noise_figure_millidb as int,
        ),
{
    pin_millidbm - (noise_floor_millidbm + noise_figure_millidb)
}

/// Link margin in milli-dB.
pub fn link_margin(eb_no_millidb: i64, required_eb_no_millidb: i64) -> (r: i64)
    requires
        i64::MIN <= eb_no_millidb - required_eb_no_millidb <= i64::MAX,
    ensures
        r == link_margin_spec(eb_no_millidb as int, required_eb_no_millidb as int),
{
    eb_no_millidb - required_eb_no_millidb
}

/// Coding never hurts the margin: on one link (same SNR, same modulation,
/// same target BER), a code with rate R ≤ 1 (its dB term is not positive)
/// and a non-negative coding gain — which lowers the required Eb/No by
/// exactly that gain — closes with at least the uncoded margin, and beats
/// it by the gain minus the rate term.
pub proof fn lemma_coding_improves_margin(
    snr_millidb: int,
    bits_term_millidb: int,
    rate_term_millidb: int,
    required_uncoded_millidb: int,
    coding_gain_millidb: int,
)
    requires
        rate_term_millidb <= 0,
        coding_gain_millidb >= 0,
    ensures
        link_margin_spec(
            eb_no_coded_spec(snr_millidb, bits_term_millidb, rate_term_millidb),
            required_uncoded_millidb - coding_gain_millidb,
        ) == link_margin_spec(
            eb_no_spec(snr_millidb, bits_term_millidb),
            required_uncoded_millidb,
        ) + coding_gain_millidb - rate_term_millidb,
        link_margin_spec(
            eb_no_coded_spec(snr_millidb, bits_term_millidb, rate_term_millidb),
            required_uncoded_millidb - coding_gain_millidb,
        ) >= link_margin_spec(
            eb_no_spec(snr_millidb, bits_term_millidb),
            required_uncoded_millidb,
        ),
{
}

} // verus!
