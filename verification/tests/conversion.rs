use lenient_bool::{LenientBool, LenientBoolError};

#[test]
fn from() {
    let lb = "true".parse::<LenientBool>();
    assert!(lb.is_ok());
    let lb = lb.unwrap();

    // The preferred way.
    let b: bool = lb.into();
    assert_eq!(b, true);

    let lb = "false".parse::<LenientBool>();
    assert!(lb.is_ok());
    let lb = lb.unwrap();

    // The preferred way.
    let b: bool = lb.into();
    assert_eq!(b, false);
}

#[test]
fn deref() {
    let lb = "true".parse::<LenientBool>();
    assert!(lb.is_ok());
    let lb = lb.unwrap();

    assert_eq!(lb.get(), true);

    let lb = "false".parse::<LenientBool>();
    assert!(lb.is_ok());
    let lb = lb.unwrap();

    assert_eq!(lb.get(), false);
}

#[test]
fn wrap_then_unwrap_round_trip() {
    assert_eq!(bool::from(LenientBool::from(true)), true);
    assert_eq!(bool::from(LenientBool::from(false)), false);
}

#[test]
fn unwrap_then_wrap_round_trip() {
    assert_eq!(LenientBool::from(bool::from(LenientBool(true))), LenientBool(true));
    assert_eq!(LenientBool::from(bool::from(LenientBool(false))), LenientBool(false));
}

#[test]
fn get_reads_the_field() {
    assert_eq!(LenientBool(true).get(), true);
    assert_eq!(LenientBool(false).get(), false);
}

#[test]
fn set_writes_the_field() {
    let mut lb = LenientBool(false);
    lb.set(true);
    assert_eq!(lb, LenientBool(true));
    lb.set(false);
    assert_eq!(lb, LenientBool(false));
}

#[test]
fn default_is_false() {
    assert_eq!(LenientBool::default(), LenientBool(false));
}

#[test]
fn ordering_false_before_true() {
    assert!(LenientBool(false) < LenientBool(true));
    assert_eq!(LenientBool(true).max(LenientBool(false)), LenientBool(true));
}

#[test]
fn error_is_comparable() {
    assert_eq!(LenientBoolError, LenientBoolError);
}
