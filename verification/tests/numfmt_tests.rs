use layout::numfmt::{fmt_centi, fmt_centi1, fmt_centi2, fmt_milli0, fmt_milli3, fmt_tenths, u64_to_string};

#[test]
fn decimal_rendering_of_integers() {
    assert_eq!(u64_to_string(0), "0");
    assert_eq!(u64_to_string(7), "7");
    assert_eq!(u64_to_string(40), "40");
    assert_eq!(u64_to_string(1234567890), "1234567890");
}

#[test]
fn hundredths_trim_trailing_zeros() {
    assert_eq!(fmt_centi(17200), "172");
    assert_eq!(fmt_centi(59528), "595.28");
    assert_eq!(fmt_centi(1050), "10.5");
    assert_eq!(fmt_centi(5), "0.05");
}

#[test]
fn fixed_width_fractions() {
    assert_eq!(fmt_centi2(3600), "36.00");
    assert_eq!(fmt_centi2(2159), "21.59");
    assert_eq!(fmt_centi1(17200), "172.0");
    assert_eq!(fmt_centi1(1234), "12.3");
    assert_eq!(fmt_centi1(1235), "12.4");
    assert_eq!(fmt_tenths(8), "0.8");
    assert_eq!(fmt_tenths(15), "1.5");
}

#[test]
fn thousandths_rendering() {
    assert_eq!(fmt_milli3(125), "0.125");
    assert_eq!(fmt_milli3(3070), "3.070");
    assert_eq!(fmt_milli0(11000), "11");
    assert_eq!(fmt_milli0(11500), "12");
}
