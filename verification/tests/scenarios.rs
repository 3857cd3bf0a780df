//! End-to-end scenarios: record types carrying the implementation text the
//! generator emits for them, checked to construct fully empty instances.

struct Zoo {
    a: Vec<i64>,
    b: Option<String>,
}

impl leer::Empty for Zoo {
    fn empty() -> Self {
        Self { a: <Vec<i64> as leer::Empty>::empty(), b: <Option<String> as leer::Empty>::empty(), }
    }
}

struct Pair(String, Vec<i64>);

impl leer::Empty for Pair {
    fn empty() -> Self {
        Pair(<String as leer::Empty>::empty(), <Vec<i64> as leer::Empty>::empty(), )
    }
}

#[derive(PartialEq, Debug)]
struct Marker;

impl leer::Empty for Marker {
    fn empty() -> Self {
        Marker
    }
}

struct Wrapper<T> {
    items: Vec<T>,
}

impl<T> leer::Empty for Wrapper<T> {
    fn empty() -> Self {
        Self { items: <Vec<T> as leer::Empty>::empty(), }
    }
}

/// A type that does not implement `Empty`, to show that `Wrapper<T>` stays
/// derivable without an `Empty` bound on its parameter.
struct NoCapability;

#[test]
fn named_record_fields_are_empty() {
    let zoo = <Zoo as leer::Empty>::empty();
    assert_eq!(zoo.a, Vec::<i64>::new());
    assert_eq!(zoo.b, None);
}

#[test]
fn positional_record_fields_are_empty() {
    let pair = <Pair as leer::Empty>::empty();
    assert_eq!(pair.0, String::new());
    assert_eq!(pair.1, Vec::<i64>::new());
}

#[test]
fn unit_record_is_the_sole_instance() {
    let m = <Marker as leer::Empty>::empty();
    assert_eq!(m, Marker);
}

#[test]
fn generic_record_needs_no_empty_bound_on_its_parameter() {
    let w = <Wrapper<NoCapability> as leer::Empty>::empty();
    assert_eq!(w.items.len(), 0);
}
