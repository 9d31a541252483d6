//! Energy-ratio conversions — SNR, C/No, Es/No, Ec/No, Eb/No — as exact
//! milli-dB arithmetic.
//!
//! Every conversion in this chain is an algebraic identity in the dB
//! domain: a sum or difference of the input level and fixed `10·log10`
//! terms.  Those terms (of a bandwidth, a symbol rate, a bit rate, the
//! bits-per-symbol k, the code rate R) are transcendental and are computed
//! by the caller; this module holds the exact bookkeeping over them, in
//! milli-dB, where every forward conversion has an exact inverse.
//!
//! ## Key relationships (all in dB)
//! - C/No  = SNR   + 10·log10(BW)
//! - Es/No = C/No  − 10·log10(Rs)
//! - Ec/No = Es/No − 10·log10(k)
//! - Eb/No = Ec/No − 10·log10(R)  =  Es/No − 10·log10(k) − 10·log10(R)
//! - Eb/No = C/No  − 10·log10(Rb)

use vstd::prelude::*;

verus! {

/// C/No = SNR + 10·log10(BW): the carrier-to-noise-density level in
/// milli-dB·Hz, given the SNR and the bandwidth term, both in milli-dB.
pub open spec fn snr_to_c_over_no_spec(snr_millidb: int, bandwidth_term_millidb: int) -> int {
    snr_millidb + bandwidth_term_millidb
}

/// SNR = C/No − 10·log10(BW): the exact inverse of
/// [`snr_to_c_over_no_spec`].
pub open spec fn c_over_no_to_snr_spec(
    c_over_no_millidb_hz: int,
    bandwidth_term_millidb: int,
) -> int {
    c_over_no_millidb_hz - bandwidth_term_millidb
}

/// Es/No = C/No − 10·log10(Rs), with the symbol-rate term in milli-dB.
pub open spec fn c_over_no_to_es_over_no_spec(
    c_over_no_millidb_hz: int,
    symbol_rate_term_millidb: int,
) -> int {
    c_over_no_millidb_hz - symbol_rate_term_millidb
}

/// Eb/No = Es/No − 10·log10(k) − 10·log10(R), with the bits-per-symbol and
/// code-rate terms in milli-dB.
pub open spec fn es_over_no_to_eb_over_no_spec(
    es_over_no_millidb: int,
    bits_term_millidb: int,
    rate_term_millidb: int,
) -> int {
    es_over_no_millidb - bits_term_millidb - rate_term_millidb
}

/// Es/No = Eb/No + 10·log10(k) + 10·log10(R): the exact inverse of
/// [`es_over_no_to_eb_over_no_spec`].
pub open spec fn eb_over_no_to_es_over_no_spec(
    eb_over_no_millidb: int,
    bits_term_millidb: int,
    rate_term_millidb: int,
) -> int {
    eb_over_no_millidb + bits_term_millidb + rate_term_millidb
}

/// Eb/No = C/No − 10·log10(Rb), with the information-bit-rate term in
/// milli-dB.
pub open spec fn c_over_no_to_eb_over_no_spec(
    c_over_no_millidb_hz: int,
    bit_rate_term_millidb: int,
) -> int {
    c_over_no_millidb_hz - bit_rate_term_millidb
}

/// C/No = Eb/No + 10·log10(Rb): the exact inverse of
/// [`c_over_no_to_eb_over_no_spec`].
pub open spec fn eb_over_no_to_c_over_no_spec(
    eb_over_no_millidb: int,
    bit_rate_term_millidb: int,
) -> int {
    eb_over_no_millidb + bit_rate_term_millidb
}

/// Ec/No = Es/No − 10·log10(k).
pub open spec fn es_over_no_to_ec_over_no_spec(
    es_over_no_millidb: int,
    bits_term_millidb: int,
) -> int {
    es_over_no_millidb - bits_term_millidb
}

/// Eb/No = Ec/No − 10·log10(R).
pub open spec fn ec_over_no_to_eb_over_no_spec(
    ec_over_no_millidb: int,
    rate_term_millidb: int,
) -> int {
    ec_over_no_millidb - rate_term_millidb
}

/// Convert SNR to C/No, in milli-dB.
pub fn snr_to_c_over_no(snr_millidb: i64, bandwidth_term_millidb: i64) -> (r: i64)
    requires
        i64::MIN <= snr_millidb + bandwidth_term_millidb <= i64::MAX,
    ensures
        r == snr_to_c_over_no_spec(snr_millidb as int, bandwidth_term_millidb as int),
{
    snr_millidb + bandwidth_term_millidb
}

/// Convert C/No back to SNR, in milli-dB.
pub fn c_over_no_to_snr(c_over_no_millidb_hz: i64, bandwidth_term_millidb: i64) -> (r: i64)
    requires
        i64::MIN <= c_over_no_millidb_hz - bandwidth_term_millidb <= i64::MAX,
    ensures
        r == c_over_no_to_snr_spec(c_over_no_millidb_hz as int, bandwidth_term_millidb as int),
{
    c_over_no_millidb_hz - bandwidth_term_millidb
}

/// Convert C/No to Es/No, in milli-dB.
pub fn c_over_no_to_es_over_no(c_over_no_millidb_hz: i64, symbol_rate_term_millidb: i64) -> (r:
    i64)
    requires
        i64::MIN <= c_over_no_millidb_hz - symbol_rate_term_millidb <= i64::MAX,
    ensures
        r == c_over_no_to_es_over_no_spec(
            c_over_no_millidb_hz as int,
            symbol_rate_term_millidb as int,
        ),
{
    c_over_no_millidb_hz - symbol_rate_term_millidb
}

/// Convert Es/No to Eb/No, in milli-dB.
pub fn es_over_no_to_eb_over_no(
    es_over_no_millidb: i64,
    bits_term_millidb: i64,
    rate_term_millidb: i64,
) -> (r: i64)
    requires
        i64::MIN <= es_over_no_millidb - bits_term_millidb <= i64::MAX,
        i64::MIN <= es_over_no_millidb - bits_term_millidb - rate_term_millidb <= i64::MAX,
    ensures
        r == es_over_no_to_eb_over_no_spec(
            es_over_no_millidb as int,
            bits_term_millidb as int,
            rate_term_millidb as int,
        ),
{
    es_over_no_millidb - bits_term_millidb - rate_term_millidb
}

/// Convert Eb/No back to Es/No, in milli-dB.
pub fn eb_over_no_to_es_over_no(
    eb_over_no_millidb: i64,
    bits_term_millidb: i64,
    rate_term_millidb: i64,
) -> (r: i64)
    requires
        i64::MIN <= eb_over_no_millidb + bits_term_millidb <= i64::MAX,
        i64::MIN <= eb_over_no_millidb + bits_term_millidb + rate_term_millidb <= i64::MAX,
    ensures
        r == eb_over_no_to_es_over_no_spec(
            eb_over_no_millidb as int,
            bits_term_millidb as int,
            rate_term_millidb as int,
        ),
{
    eb_over_no_millidb + bits_term_millidb + rate_term_millidb
}

/// Convert C/No directly to Eb/No, in milli-dB.
pub fn c_over_no_to_eb_over_no(c_over_no_millidb_hz: i64, bit_rate_term_millidb: i64) -> (r:
    i64)
    requires
        i64::MIN <= c_over_no_millidb_hz - bit_rate_term_millidb <= i64::MAX,
    ensures
        r == c_over_no_to_eb_over_no_spec(
            c_over_no_millidb_hz as int,
            bit_rate_term_millidb as int,
        ),
{
    c_over_no_millidb_hz - bit_rate_term_millidb
}

/// Convert Eb/No back to C/No, in milli-dB.
pub fn eb_over_no_to_c_over_no(eb_over_no_millidb: i64, bit_rate_term_millidb: i64) -> (r: i64)
    requires
        i64::MIN <= eb_over_no_millidb + bit_rate_term_millidb <= i64::MAX,
    ensures
        r == eb_over_no_to_c_over_no_spec(
            eb_over_no_millidb as int,
            bit_rate_term_millidb as int,
        ),
{
    eb_over_no_millidb + bit_rate_term_millidb
}

/// Convert Es/No to Ec/No, in milli-dB.
pub fn es_over_no_to_ec_over_no(es_over_no_millidb: i64, bits_term_millidb: i64) -> (r: i64)
    requires
        i64::MIN <= es_over_no_millidb - bits_term_millidb <= i64::MAX,
    ensures
        r == es_over_no_to_ec_over_no_spec(es_over_no_millidb as int, bits_term_millidb as int),
{
    es_over_no_millidb - bits_term_millidb
}

/// Convert Ec/No to Eb/No, in milli-dB.
pub fn ec_over_no_to_eb_over_no(ec_over_no_millidb: i64, rate_term_millidb: i64) -> (r: i64)
    requires
        i64::MIN <= ec_over_no_millidb - rate_term_millidb <= i64::MAX,
    ensures
        r == ec_over_no_to_eb_over_no_spec(ec_over_no_millidb as int, rate_term_millidb as int),
{
    ec_over_no_millidb - rate_term_millidb
}

/// Comprehensive conversion, SNR to Eb/No: chains SNR → C/No → Es/No →
/// Eb/No.
pub fn snr_to_eb_over_no(
    snr_millidb: i64,
    bandwidth_term_millidb: i64,
    symbol_rate_term_millidb: i64,
    bits_term_millidb: i64,
    rate_term_millidb: i64,
) -> (r: i64)
    requires
        i64::MIN <= snr_millidb + bandwidth_term_millidb <= i64::MAX,
        i64::MIN <= snr_millidb + bandwidth_term_millidb - symbol_rate_term_millidb
            <= i64::MAX,
        i64::MIN <= snr_millidb + bandwidth_term_millidb - symbol_rate_term_millidb
            - bits_term_millidb <= i64::MAX,
        i64::MIN <= snr_millidb + bandwidth_term_millidb - symbol_rate_term_millidb
            - bits_term_millidb - rate_term_millidb <= i64::MAX,
    ensures
        r == es_over_no_to_eb_over_no_spec(
            c_over_no_to_es_over_no_spec(
                snr_to_c_over_no_spec(snr_millidb as int, bandwidth_term_millidb as int),
                symbol_rate_term_millidb as int,
            ),
            bits_term_millidb as int,
            rate_term_millidb as int,
        ),
{
    let c_no = snr_to_c_over_no(snr_millidb, bandwidth_term_millidb);
    let es_no = c_over_no_to_es_over_no(c_no, symbol_rate_term_millidb);
    es_over_no_to_eb_over_no(es_no, bits_term_millidb, rate_term_millidb)
}

/// SNR and C/No convert back and forth without loss: for any SNR level and
/// any bandwidth term, converting to C/No and back is the identity.
pub proof fn lemma_snr_c_over_no_round_trip(snr_millidb: int, bandwidth_term_millidb: int)
    ensures
        c_over_no_to_snr_spec(
            snr_to_c_over_no_spec(snr_millidb, bandwidth_term_millidb),
            bandwidth_term_millidb,
        ) == snr_millidb,
{
}

/// Eb/No and Es/No convert back and forth without loss, for any level and
/// any bits-per-symbol and code-rate terms.
pub proof fn lemma_eb_es_round_trip(
    eb_over_no_millidb: int,
    bits_term_millidb: int,
    rate_term_millidb: int,
)
    ensures
        es_over_no_to_eb_over_no_spec(
            eb_over_no_to_es_over_no_spec(
                eb_over_no_millidb,
                bits_term_millidb,
                rate_term_millidb,
            ),
            bits_term_millidb,
            rate_term_millidb,
        ) == eb_over_no_millidb,
{
}

/// Eb/No and C/No convert back and forth without loss, for any level and
/// any bit-rate term.
pub proof fn lemma_eb_c_over_no_round_trip(eb_over_no_millidb: int, bit_rate_term_millidb: int)
    ensures
        c_over_no_to_eb_over_no_spec(
            eb_over_no_to_c_over_no_spec(eb_over_no_millidb, bit_rate_term_millidb),
            bit_rate_term_millidb,
        ) == eb_over_no_millidb,
{
}

/// The two routes from Es/No to Eb/No agree: going through Ec/No (subtract
/// the bits term, then the rate term) lands exactly where the direct
/// conversion does.
pub proof fn lemma_ec_chain_agrees(
    es_over_no_millidb: int,
    bits_term_millidb: int,
    rate_term_millidb: int,
)
    ensures
        ec_over_no_to_eb_over_no_spec(
            es_over_no_to_ec_over_no_spec(es_over_no_millidb, bits_term_millidb),
            rate_term_millidb,
        ) == es_over_no_to_eb_over_no_spec(
            es_over_no_millidb,
            bits_term_millidb,
            rate_term_millidb,
        ),
{
}

} // verus!
