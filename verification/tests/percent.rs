use claudometer::percent::{clamp_percent_whole, parse_percent_hundredths, round_to_whole_percent};

#[test]
fn parsing_clamps_into_range_and_rejects_non_numeric() {
    // Plain values, in hundredths of a percent.
    assert_eq!(parse_percent_hundredths("20"), 2000);
    assert_eq!(parse_percent_hundredths("89.9"), 8990);
    assert_eq!(parse_percent_hundredths(" 42.25 "), 4225);
    assert_eq!(parse_percent_hundredths("+7"), 700);
    assert_eq!(parse_percent_hundredths(".5"), 50);
    assert_eq!(parse_percent_hundredths("5."), 500);

    // Clamping.
    assert_eq!(parse_percent_hundredths("150"), 10000);
    assert_eq!(parse_percent_hundredths("100.5"), 10000);
    assert_eq!(parse_percent_hundredths("99999999999999999999999"), 10000);
    assert_eq!(parse_percent_hundredths("-5"), 0);

    // Non-numeric inputs yield zero.
    assert_eq!(parse_percent_hundredths(""), 0);
    assert_eq!(parse_percent_hundredths("   "), 0);
    assert_eq!(parse_percent_hundredths("abc"), 0);
    assert_eq!(parse_percent_hundredths("12x"), 0);
    assert_eq!(parse_percent_hundredths("1.2.3"), 0);
    assert_eq!(parse_percent_hundredths("."), 0);
}

#[test]
fn fractions_beyond_hundredths_are_dropped() {
    assert_eq!(parse_percent_hundredths("89.999"), 8999);
    assert_eq!(parse_percent_hundredths("75.505"), 7550);
}

#[test]
fn whole_percent_clamping() {
    assert_eq!(clamp_percent_whole(-3), 0);
    assert_eq!(clamp_percent_whole(0), 0);
    assert_eq!(clamp_percent_whole(40), 4000);
    assert_eq!(clamp_percent_whole(100), 10000);
    assert_eq!(clamp_percent_whole(250), 10000);
}

#[test]
fn rounding_to_whole_percent_is_half_up() {
    assert_eq!(round_to_whole_percent(4990), 50);
    assert_eq!(round_to_whole_percent(7540), 75);
    assert_eq!(round_to_whole_percent(7570), 76);
    assert_eq!(round_to_whole_percent(7550), 76);
    assert_eq!(round_to_whole_percent(10000), 100);
    assert_eq!(round_to_whole_percent(0), 0);
}
