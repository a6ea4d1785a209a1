use result_like::boolean::Flag;

#[test]
fn test_flag_conversions() {
    let v = Flag::Primary;
    assert!(v.to_bool());
    assert!(!Flag::Secondary.to_bool());
    assert_eq!(Flag::from_bool(true), Flag::Primary);
    assert_eq!(Flag::from_bool(false), Flag::Secondary);
}

#[test]
fn test_flag_then() {
    let v = Flag::Primary;
    assert_eq!(v.then_with(|| 1), Some(1));
    assert_eq!(v.then_some(1), Some(1));
    assert_eq!(Flag::Secondary.then_with(|| 1), None::<i32>);
    assert_eq!(Flag::Secondary.then_some(1), None);
}

#[test]
fn test_flag_round_trip() {
    assert_eq!(Flag::from_bool(Flag::Primary.to_bool()), Flag::Primary);
    assert_eq!(Flag::from_bool(Flag::Secondary.to_bool()), Flag::Secondary);
    assert!(Flag::from_bool(true).to_bool());
    assert!(!Flag::from_bool(false).to_bool());
}
