//! Partial overlays applied to an aggregate of two levels.

use step_planning::partial::Partial;

#[derive(Clone, Debug, PartialEq)]
struct Bar {
    field3: usize,
}

#[derive(Clone, Debug, PartialEq)]
struct Foo {
    field1: usize,
    field2: Bar,
}

#[derive(Debug, Default)]
struct PartialBar {
    field3: Option<usize>,
}

#[derive(Debug, Default)]
struct PartialFoo {
    field1: Option<usize>,
    field2: Option<PartialBar>,
}

impl Partial for Bar {
    type Partial = PartialBar;

    fn apply_partial(&mut self, partial: Self::Partial) {
        if let Some(field3) = partial.field3 {
            self.field3.apply_partial(field3);
        }
    }
}

impl Partial for Foo {
    type Partial = PartialFoo;

    fn apply_partial(&mut self, partial: Self::Partial) {
        if let Some(field1) = partial.field1 {
            self.field1.apply_partial(field1);
        }
        if let Some(field2) = partial.field2 {
            self.field2.apply_partial(field2);
        }
    }
}

#[test]
fn test1() {
    let full_orig = Foo {
        field1: 42,
        field2: Bar { field3: 1337 },
    };
    let partial = PartialFoo::default();

    let mut full = full_orig.clone();
    full.apply_partial(partial);
    assert_eq!(full, full_orig);
}

#[test]
fn test2() {
    let full_orig = Foo {
        field1: 42,
        field2: Bar { field3: 1337 },
    };
    let partial = PartialFoo {
        field1: Some(33),
        field2: None,
    };

    let mut full = full_orig.clone();
    full.apply_partial(partial);
    assert_eq!(
        full,
        Foo {
            field1: 33,
            field2: Bar { field3: 1337 }
        }
    );
}

#[test]
fn test3() {
    let full_orig = Foo {
        field1: 42,
        field2: Bar { field3: 1337 },
    };
    let partial = PartialFoo {
        field1: None,
        field2: Some(PartialBar { field3: None }),
    };

    let mut full = full_orig.clone();
    full.apply_partial(partial);
    assert_eq!(full, full_orig);
}

#[test]
fn test4() {
    let full_orig = Foo {
        field1: 42,
        field2: Bar { field3: 1337 },
    };
    let partial = PartialFoo {
        field1: None,
        field2: Some(PartialBar { field3: Some(0) }),
    };

    let mut full = full_orig.clone();
    full.apply_partial(partial);
    assert_eq!(
        full,
        Foo {
            field1: 42,
            field2: Bar { field3: 0 }
        }
    );
}
