use tiny_orm::query_operators::{ArrayColumnOperator, ColumnOperator};
use tiny_orm::set_option::{SetOption, TinyOrmError};

#[test]
fn from_value_is_set() {
    let set_option: SetOption<i32> = 1.into();
    assert_eq!(set_option, SetOption::SetTo(1));
}

#[test]
fn from_option() {
    let a: SetOption<i32> = Some(3).into();
    let b: SetOption<i32> = None.into();
    assert_eq!(a, SetOption::SetTo(3));
    assert_eq!(b, SetOption::NotSet);
}

#[test]
fn into_result() {
    let set_option: SetOption<i32> = 1.into();
    let result: Result<i32, _> = set_option.into();
    assert_eq!(result, Ok(1));
    let not_set: SetOption<i32> = SetOption::NotSet;
    let result: Result<i32, _> = not_set.into();
    assert_eq!(result, Err("Cannot convert NotSet variant to value"));
}

#[test]
fn inner() {
    assert_eq!(SetOption::SetTo(1).inner(), Some(1));
    let not_set: SetOption<i32> = SetOption::NotSet;
    assert_eq!(not_set.inner(), None);
}

#[test]
fn take() {
    let mut set = SetOption::SetTo(1);
    assert_eq!(set.take(), Some(1));
    assert_eq!(set, SetOption::NotSet);
    let mut not_set: SetOption<i32> = SetOption::NotSet;
    assert_eq!(not_set.take(), None);
    assert_eq!(not_set, SetOption::NotSet);
}

#[test]
fn value() {
    assert_eq!(SetOption::SetTo(1).value(), Ok(1));
    let not_set: SetOption<i32> = SetOption::NotSet;
    assert_eq!(not_set.value(), Err(TinyOrmError::SetOptionNotSet));
}

#[test]
fn value_ref() {
    let set = SetOption::SetTo(1);
    assert_eq!(set.value_ref(), Ok(&1));
    let not_set: SetOption<i32> = SetOption::NotSet;
    assert_eq!(not_set.value_ref(), Err(TinyOrmError::SetOptionNotSet));
}

#[test]
fn is_set_and_is_not_set() {
    let set = SetOption::SetTo(1);
    assert!(set.is_set());
    assert!(!set.is_not_set());
    let not_set: SetOption<i32> = SetOption::NotSet;
    assert!(!not_set.is_set());
    assert!(not_set.is_not_set());
}

#[test]
fn round_trip_through_option() {
    for o in [Some(5), None] {
        let s: SetOption<i32> = o.into();
        assert_eq!(s.inner(), o);
    }
}

#[test]
fn operators_carry_their_value() {
    let c = ColumnOperator::GreaterThan(3);
    assert!(matches!(c, ColumnOperator::GreaterThan(3)));
    let a = ArrayColumnOperator::NotContains("x");
    assert!(matches!(a, ArrayColumnOperator::NotContains("x")));
}
