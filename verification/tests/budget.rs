use linkbudget::budget::link_margin;
use linkbudget::budget::pin_at_receiver;
use linkbudget::budget::snr;
use linkbudget::budget::total_path_loss;

#[test]
fn path_loss_includes_fade_margin() {
    // 173.27 dB free-space loss plus a 3 dB fade margin
    assert_eq!(total_path_loss(173_270, Some(3_000)), 176_270);
}

#[test]
fn path_loss_without_fade_margin() {
    assert_eq!(total_path_loss(173_270, None), 173_270);
}

#[test]
fn receiver_input_power() {
    // 10 dBm out, 35 dB Tx gain, 176.27 dB loss, 40 dB Rx gain
    assert_eq!(pin_at_receiver(10_000, 35_000, 176_270, 40_000), -91_270);
}

#[test]
fn snr_over_noise_power() {
    // −91.27 dBm in, −98.43 dBm floor, 2 dB noise figure
    assert_eq!(snr(-91_270, -98_430, 2_000), 5_160);
}

#[test]
fn coded_margin_beats_uncoded_margin() {
    // QPSK at 5.16 dB SNR, target BER 1e-5 (uncoded requirement ~9.59 dB):
    // with LDPC R=3/4 (rate term ~−1.25 dB, gain 6.5 dB) the margin gains
    // exactly the 6.5 dB of coding gain plus the 1.25 dB rate term
    let snr_mdb = 5_160;
    let bits_term = 3_010;
    let rate_term = -1_249;
    let required_uncoded = 9_590;
    let gain = 6_500;

    let uncoded_margin = link_margin(snr_mdb - bits_term, required_uncoded);
    let coded_margin = link_margin(snr_mdb - (bits_term + rate_term), required_uncoded - gain);

    assert_eq!(coded_margin, uncoded_margin + gain - rate_term);
    assert!(coded_margin > uncoded_margin);
}
