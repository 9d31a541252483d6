use linkbudget::energy::c_over_no_to_eb_over_no;
use linkbudget::energy::c_over_no_to_snr;
use linkbudget::energy::eb_over_no_to_c_over_no;
use linkbudget::energy::eb_over_no_to_es_over_no;
use linkbudget::energy::ec_over_no_to_eb_over_no;
use linkbudget::energy::es_over_no_to_eb_over_no;
use linkbudget::energy::es_over_no_to_ec_over_no;
use linkbudget::energy::snr_to_c_over_no;
use linkbudget::energy::snr_to_eb_over_no;

#[test]
fn snr_to_c_over_no_1mhz() {
    // SNR = 10 dB in 1 MHz bandwidth (term 60 dB):
    // C/No = 10 + 60 = 70 dB·Hz, in milli-dB
    assert_eq!(snr_to_c_over_no(10_000, 60_000), 70_000);
}

#[test]
fn c_over_no_roundtrip() {
    // 15 dB SNR, 36 MHz bandwidth term (~75.56 dB), forth and back
    let snr = 15_000;
    let bw_term = 75_563;
    let c_no = snr_to_c_over_no(snr, bw_term);
    assert_eq!(c_over_no_to_snr(c_no, bw_term), snr);
}

#[test]
fn c_over_no_to_eb_over_no_direct() {
    // C/No = 70 dB·Hz, Rb = 1 Mbps (term 60 dB): Eb/No = 10 dB
    assert_eq!(c_over_no_to_eb_over_no(70_000, 60_000), 10_000);
}

#[test]
fn eb_no_roundtrip_via_c_no() {
    let eb_no = 9_600;
    let rb_term = 66_990;
    let c_no = eb_over_no_to_c_over_no(eb_no, rb_term);
    assert_eq!(c_over_no_to_eb_over_no(c_no, rb_term), eb_no);
}

#[test]
fn eb_no_es_no_roundtrip() {
    // 16-QAM (k term ~6.02 dB), rate 3/4 (term ~−1.25 dB), Eb/No = 8 dB
    let eb_no = 8_000;
    let bits_term = 6_021;
    let rate_term = -1_249;
    let es_no = eb_over_no_to_es_over_no(eb_no, bits_term, rate_term);
    assert_eq!(es_over_no_to_eb_over_no(es_no, bits_term, rate_term), eb_no);
}

#[test]
fn ec_no_chain() {
    // QPSK (k term ~3.01 dB), rate 3/4 (term ~−1.25 dB), Es/No = 12 dB:
    // Ec/No = 12 − 3.01, and Eb/No via Ec/No equals the direct conversion
    let es_no = 12_000;
    let bits_term = 3_010;
    let rate_term = -1_249;
    let ec_no = es_over_no_to_ec_over_no(es_no, bits_term);
    assert_eq!(ec_no, 8_990);
    let eb_no = ec_over_no_to_eb_over_no(ec_no, rate_term);
    assert_eq!(eb_no, es_over_no_to_eb_over_no(es_no, bits_term, rate_term));
}

#[test]
fn full_chain_snr_to_eb_no() {
    // SNR = 20 dB, 10 MHz noise bandwidth (70 dB), Rs = 5 Msps (~66.99 dB),
    // QPSK (3.01 dB), R = 3/4 (~−1.25 dB):
    // Eb/No = 20 + 70 − 66.99 − 3.01 + 1.25 = 21.25 dB
    let eb_no = snr_to_eb_over_no(20_000, 70_000, 66_990, 3_010, -1_250);
    assert_eq!(eb_no, 21_250);
}
