use etils::types::{Attributed, Named, SimpleAttributed, SimpleNamed, SimpleNamedAttributed};

#[test]
fn wrappers_carry_their_facts() {
    let named = SimpleNamed::create(41u64, "answer".to_string());
    assert_eq!(*named.name(), "answer".to_string());
    assert_eq!(*named.inner(), 41);

    let attributed = SimpleAttributed::create(41u64, "deref".to_string());
    assert_eq!(*attributed.attribute(), "deref".to_string());
    assert_eq!(*attributed.inner(), 41);

    let both = SimpleNamedAttributed::create(41u64, "deref".to_string(), "answer".to_string());
    assert_eq!(*both.name(), "answer".to_string());
    assert_eq!(*both.attribute(), "deref".to_string());
    assert_eq!(*both.inner(), 41);
}

#[test]
fn reads_and_writes_go_through_to_the_inner_value() {
    let mut named = SimpleNamed::create(1u64, "n".to_string());
    named.set_inner(2);
    assert_eq!(*named.inner(), 2);
    assert_eq!(*named.name(), "n".to_string());
    assert_eq!(named.into_inner(), 2);

    let mut attributed = SimpleAttributed::create(1u64, "a".to_string());
    attributed.set_inner(3);
    assert_eq!(*attributed.inner(), 3);
    assert_eq!(*attributed.attribute(), "a".to_string());
    assert_eq!(attributed.into_inner(), 3);

    let mut both = SimpleNamedAttributed::create(1u64, "a".to_string(), "n".to_string());
    both.set_inner(4);
    assert_eq!(*both.inner(), 4);
    assert_eq!(*both.name(), "n".to_string());
    assert_eq!(*both.attribute(), "a".to_string());
    assert_eq!(both.into_inner(), 4);
}

#[test]
fn conversions_preserve_both_facts() {
    let named = SimpleNamed::create(7u64, "n".to_string());
    let combined = SimpleNamedAttributed::from_named(named, "a".to_string());
    assert_eq!(combined.inner, 7);
    assert_eq!(combined.attribute, "a".to_string());
    assert_eq!(combined.name, "n".to_string());

    let attributed = SimpleAttributed::create(7u64, "a".to_string());
    let combined = SimpleNamedAttributed::from_attributed(attributed, "n".to_string());
    assert_eq!(combined.inner, 7);
    assert_eq!(combined.attribute, "a".to_string());
    assert_eq!(combined.name, "n".to_string());
}

#[test]
fn tuple_conversions_build_the_wrappers() {
    let named = SimpleNamed::from((7u64, "n".to_string()));
    assert_eq!(named.inner, 7);
    assert_eq!(named.name, "n".to_string());

    let attributed = SimpleAttributed::from((7u64, "a".to_string()));
    assert_eq!(attributed.inner, 7);
    assert_eq!(attributed.attribute, "a".to_string());
}

#[test]
fn combination_order_is_irrelevant() {
    let decorated_then_marked = SimpleNamedAttributed::from(SimpleAttributed::create(
        SimpleNamed::create(7u64, "n".to_string()),
        "a".to_string(),
    ));
    let marked_then_decorated = SimpleNamedAttributed::from(SimpleNamed::create(
        SimpleAttributed::create(7u64, "a".to_string()),
        "n".to_string(),
    ));
    assert_eq!(decorated_then_marked.inner, marked_then_decorated.inner);
    assert_eq!(decorated_then_marked.attribute, marked_then_decorated.attribute);
    assert_eq!(decorated_then_marked.name, marked_then_decorated.name);
}
