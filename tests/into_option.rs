use tailsome::IntoOption;

#[derive(Clone, Debug, PartialEq)]
struct Thing;

fn check_something<T: Clone + std::fmt::Debug + PartialEq>(anything: T) {
    match anything.clone().into_some() {
        Some(thing) => assert_eq!(thing, anything),
        None => unreachable!(),
    }
}

#[test]
fn anything_can_be_something() {
    check_something(());
    check_something(42);
    check_something(Thing);
    check_something("a str");
    check_something(Some(Thing));
}

#[test]
fn unit_into_some() {
    assert_eq!(().into_some(), Some(()));
}

#[test]
fn nested_option_is_not_flattened() {
    let inner: Option<Thing> = Some(Thing);
    let outer = inner.clone().into_some();
    assert_eq!(outer, Some(Some(Thing)));
    assert_eq!(outer.unwrap(), inner);
}

#[test]
fn absent_value_is_wrapped_as_present() {
    let inner: Option<u8> = None;
    assert_eq!(inner.into_some(), Some(None));
}

#[test]
fn owned_value_round_trips_through_some() {
    let v = vec![String::from("x"), String::from("yz")];
    assert_eq!(v.clone().into_some().unwrap(), v);
}
