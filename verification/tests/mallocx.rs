use uplc_zkvm::mallocx::{MALLOCX_ALIGN, MALLOCX_ZERO};

#[test]
fn align_flag_of_zero_is_zero() {
    assert_eq!(MALLOCX_ALIGN(0), 0);
}

#[test]
fn align_flag_encodes_the_log_of_the_alignment() {
    assert_eq!(MALLOCX_ALIGN(1), 0);
    assert_eq!(MALLOCX_ALIGN(2), 2);
    assert_eq!(MALLOCX_ALIGN(8), 6);
    assert_eq!(MALLOCX_ALIGN(16), 8);
    assert_eq!(MALLOCX_ALIGN(4096), 24);
}

#[test]
fn align_flag_rounds_down_between_powers_of_two() {
    assert_eq!(MALLOCX_ALIGN(3), MALLOCX_ALIGN(2));
    assert_eq!(MALLOCX_ALIGN(15), MALLOCX_ALIGN(8));
}

#[test]
fn zero_flag_is_its_reserved_bit() {
    assert_eq!(MALLOCX_ZERO(), 1 << 10);
}
