use tickets::saturating::SaturatingU16;

#[test]
fn conv() {
    assert_eq!(SaturatingU16::new(10u16), SaturatingU16::from(10u8));
    assert_eq!(SaturatingU16::new(10u16), SaturatingU16::from(10u16));
    assert_eq!(SaturatingU16::new(10u16), SaturatingU16::from(&10u8));
    assert_eq!(SaturatingU16::new(10u16), SaturatingU16::from(&10u16));
}

#[test]
fn add() {
    assert_eq!(SaturatingU16::new(10u16) + SaturatingU16::new(6u16), SaturatingU16::new(16u16));
}

#[test]
fn saturating_add() {
    assert_eq!(SaturatingU16::new(u16::MAX), SaturatingU16::new(u16::MAX) + SaturatingU16::from(100u16));
}

#[test]
fn add_just_below_and_at_the_limit() {
    assert_eq!((SaturatingU16::new(65_000) + SaturatingU16::new(535)).value(), 65_535);
    assert_eq!((SaturatingU16::new(65_000) + SaturatingU16::new(536)).value(), 65_535);
    assert_eq!((SaturatingU16::new(65_000) + SaturatingU16::new(534)).value(), 65_534);
}

#[test]
fn add_is_commutative_and_associative_on_examples() {
    let a = || SaturatingU16::new(40_000);
    let b = || SaturatingU16::new(20_000);
    let c = || SaturatingU16::new(10_000);
    assert_eq!(a() + b(), b() + a());
    assert_eq!((a() + b()) + c(), a() + (b() + c()));
    assert_eq!(((a() + b()) + c()).value(), 65_535);
}

#[test]
fn zero_is_neutral() {
    assert_eq!(SaturatingU16::new(1234) + SaturatingU16::from(0u8), SaturatingU16::new(1234));
}

#[test]
fn values_compare_as_numbers() {
    assert!(SaturatingU16::new(3) < SaturatingU16::new(4));
    assert!(SaturatingU16::new(4) > SaturatingU16::new(3));
    assert!(SaturatingU16::new(4) <= SaturatingU16::from(4u8));
    assert_eq!(
        SaturatingU16::new(7).partial_cmp(&SaturatingU16::new(7)),
        Some(std::cmp::Ordering::Equal)
    );
}

#[test]
fn wide_conversion_keeps_value() {
    assert_eq!(SaturatingU16::from(255u8).value(), 255);
    assert_eq!(SaturatingU16::from(&65_535u16).value(), 65_535);
}

#[test]
fn add_with_other_right_hand_sides() {
    assert_eq!(SaturatingU16::new(10) + 6u16, SaturatingU16::new(16));
    assert_eq!(SaturatingU16::new(10) + &6u16, SaturatingU16::new(16));
    assert_eq!(SaturatingU16::new(10) + &SaturatingU16::new(6), SaturatingU16::new(16));
    assert_eq!(SaturatingU16::new(u16::MAX) + 1u16, SaturatingU16::new(u16::MAX));
    assert_eq!(SaturatingU16::new(65_000) + &600u16, SaturatingU16::new(u16::MAX));
    assert_eq!(SaturatingU16::new(65_000) + &SaturatingU16::new(600), SaturatingU16::new(u16::MAX));
}

#[test]
fn compares_with_plain_values() {
    assert!(SaturatingU16::new(16) == 16u16);
    assert!(SaturatingU16::new(16) != 17u16);
    assert!(SaturatingU16::new(16) < 17u16);
    assert!(SaturatingU16::new(u16::MAX) >= u16::MAX);
    assert_eq!(SaturatingU16::new(3).partial_cmp(&2u16), Some(std::cmp::Ordering::Greater));
}
