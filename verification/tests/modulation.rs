use linkbudget::modulation::Modulation;

#[test]
fn bpsk_order() {
    assert_eq!(Modulation::Bpsk.order(), 2);
}

#[test]
fn qpsk_order() {
    assert_eq!(Modulation::Qpsk.order(), 4);
}

#[test]
fn msk_order() {
    assert_eq!(Modulation::Msk.order(), 2);
}

#[test]
fn mpsk_order_is_carried() {
    assert_eq!(Modulation::Mpsk(8).order(), 8);
}

#[test]
fn mqam_order_is_carried() {
    assert_eq!(Modulation::Mqam(64).order(), 64);
}

#[test]
fn print_table_header() {
    // Smoke test: printing a header row must not panic
    linkbudget::utils::print::print_header();
}
