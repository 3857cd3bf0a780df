//! Tests the generated implementations for `Empty`.
//!
//! Each struct here carries the implementation text that the generator emits
//! for its shape (see the tests in `generator.rs`, which pin that text), and
//! uses complete paths everywhere to make sure the generated code does not
//! falsely assume a symbol is in scope.

struct UnitLike;

impl leer::Empty for UnitLike {
    fn empty() -> Self {
        UnitLike
    }
}

struct UnnamedEmpty();

impl leer::Empty for UnnamedEmpty {
    fn empty() -> Self {
        UnnamedEmpty()
    }
}

struct UnnamedSingle(String);

impl leer::Empty for UnnamedSingle {
    fn empty() -> Self {
        UnnamedSingle(<String as leer::Empty>::empty(), )
    }
}

struct UnnamedTwo(String, Vec<u32>);

impl leer::Empty for UnnamedTwo {
    fn empty() -> Self {
        UnnamedTwo(<String as leer::Empty>::empty(), <Vec<u32> as leer::Empty>::empty(), )
    }
}

struct NamedEmpty {}

impl leer::Empty for NamedEmpty {
    fn empty() -> Self {
        Self { }
    }
}

struct NamedSingle {
    string: String,
}

impl leer::Empty for NamedSingle {
    fn empty() -> Self {
        Self { string: <String as leer::Empty>::empty(), }
    }
}

struct NamedTwo {
    string: String,
    vec: Vec<u32>,
}

impl leer::Empty for NamedTwo {
    fn empty() -> Self {
        Self { string: <String as leer::Empty>::empty(), vec: <Vec<u32> as leer::Empty>::empty(), }
    }
}

#[test]
fn unit_like() {
    let _ = <UnitLike as leer::Empty>::empty();
}

#[test]
fn unnamed() {
    let _ = <UnnamedEmpty as leer::Empty>::empty();
    let _ = <UnnamedSingle as leer::Empty>::empty();
    let _ = <UnnamedTwo as leer::Empty>::empty();
}

#[test]
fn named() {
    let _ = <NamedEmpty as leer::Empty>::empty();
    let _ = <NamedSingle as leer::Empty>::empty();
    let _ = <NamedTwo as leer::Empty>::empty();
}

#[test]
fn unnamed_fields_are_empty() {
    let v = <UnnamedTwo as leer::Empty>::empty();
    assert_eq!(v.0, String::new());
    assert_eq!(v.1, Vec::<u32>::new());
}

#[test]
fn named_fields_are_empty() {
    let v = <NamedTwo as leer::Empty>::empty();
    assert_eq!(v.string, String::new());
    assert_eq!(v.vec, Vec::<u32>::new());
}
