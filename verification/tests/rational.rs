use lumen_frame::media::rational::{fraction_shown, FractionShown};

#[test]
fn fractions_are_reduced_before_they_are_shown() {
    assert_eq!(fraction_shown(1, 250), FractionShown::Ratio(1, 250));
    assert_eq!(fraction_shown(10, 2500), FractionShown::Ratio(1, 250));
    assert_eq!(fraction_shown(500, 10), FractionShown::Whole(50));
    assert_eq!(fraction_shown(18, 10), FractionShown::Decimal(9, 5));
    assert_eq!(fraction_shown(-1, 3), FractionShown::Ratio(-1, 3));
    assert_eq!(fraction_shown(-2, -6), FractionShown::Ratio(-1, -3));
    assert_eq!(fraction_shown(4, -2), FractionShown::Ratio(2, -1));
    assert_eq!(fraction_shown(0, 7), FractionShown::Whole(0));
}

#[test]
fn a_fraction_over_zero_is_shown_by_its_sign() {
    assert_eq!(fraction_shown(5, 0), FractionShown::Decimal(1, 0));
    assert_eq!(fraction_shown(-5, 0), FractionShown::Ratio(-1, 0));
}
