use rhai::any::Dynamic;
use rhai::scope::{EntryType, Scope};

fn int_of(d: Dynamic) -> i64 {
    match d {
        Dynamic::Int(i) => i,
        _ => panic!("should be an integer"),
    }
}

#[test]
fn scope_new_and_push() {
    let mut my_scope = Scope::new();
    my_scope.push("x", Dynamic::Int(42));
    assert_eq!(int_of(my_scope.get_value("x").unwrap()), 42);
}

#[test]
fn scope_clear() {
    let mut my_scope = Scope::new();
    my_scope.push("x", Dynamic::Int(42));
    assert!(my_scope.contains("x"));
    assert_eq!(my_scope.len(), 1);
    assert!(!my_scope.is_empty());

    my_scope.clear();
    assert!(!my_scope.contains("x"));
    assert_eq!(my_scope.len(), 0);
    assert!(my_scope.is_empty());
}

#[test]
fn scope_len_and_is_empty() {
    let mut my_scope = Scope::new();
    assert_eq!(my_scope.len(), 0);
    assert!(my_scope.is_empty());
    my_scope.push("x", Dynamic::Int(42));
    assert_eq!(my_scope.len(), 1);
    assert!(!my_scope.is_empty());
}

#[test]
fn scope_push_dynamic_and_constants() {
    let mut my_scope = Scope::new();
    my_scope.push_dynamic("x", Dynamic::Int(42));
    assert_eq!(int_of(my_scope.get_value("x").unwrap()), 42);
    assert_eq!(my_scope.get("x"), Some((0, EntryType::Normal)));

    my_scope.push_constant("y", Dynamic::Int(43));
    assert_eq!(int_of(my_scope.get_value("y").unwrap()), 43);
    assert_eq!(my_scope.get("y"), Some((1, EntryType::Constant)));

    my_scope.push_constant_dynamic("z", Dynamic::Int(44));
    assert_eq!(int_of(my_scope.get_value("z").unwrap()), 44);
    assert_eq!(my_scope.get("z"), Some((2, EntryType::Constant)));

    my_scope.push_dynamic_value("w", EntryType::Normal, Dynamic::Int(45));
    assert_eq!(my_scope.get("w"), Some((3, EntryType::Normal)));
    assert_eq!(my_scope.get("nothing"), None);
}

#[test]
fn scope_rewind() {
    let mut my_scope = Scope::new();

    my_scope.push("x", Dynamic::Int(42));
    my_scope.push("y", Dynamic::Int(123));
    assert!(my_scope.contains("x"));
    assert!(my_scope.contains("y"));
    assert_eq!(my_scope.len(), 2);

    my_scope.rewind(1);
    assert!(my_scope.contains("x"));
    assert!(!my_scope.contains("y"));
    assert_eq!(my_scope.len(), 1);

    my_scope.rewind(0);
    assert!(!my_scope.contains("x"));
    assert!(!my_scope.contains("y"));
    assert_eq!(my_scope.len(), 0);
    assert!(my_scope.is_empty());
}

#[test]
fn scope_rewind_keeps_the_first_entries() {
    let mut my_scope = Scope::new();
    my_scope.push("a", Dynamic::Int(1));
    my_scope.push_constant("b", Dynamic::Int(2));
    let size = my_scope.len();
    for i in 0..5 {
        my_scope.push("t", Dynamic::Int(i));
    }
    assert_eq!(my_scope.len(), 7);
    my_scope.rewind(size);
    assert_eq!(my_scope.len(), 2);
    assert_eq!(int_of(my_scope.get_value("a").unwrap()), 1);
    assert_eq!(my_scope.get("b"), Some((1, EntryType::Constant)));
    assert_eq!(int_of(my_scope.get_value("b").unwrap()), 2);
    assert!(!my_scope.contains("t"));
    // a size beyond the scope leaves it as it is
    my_scope.rewind(10);
    assert_eq!(my_scope.len(), 2);
}

#[test]
fn scope_contains() {
    let mut my_scope = Scope::new();
    my_scope.push("x", Dynamic::Int(42));
    assert!(my_scope.contains("x"));
    assert!(!my_scope.contains("y"));
}

#[test]
fn scope_shadowing() {
    let mut my_scope = Scope::new();
    my_scope.push("x", Dynamic::Int(1));
    my_scope.push("x", Dynamic::Int(2));
    assert_eq!(my_scope.get("x"), Some((1, EntryType::Normal)));
    assert_eq!(int_of(my_scope.get_value("x").unwrap()), 2);
    my_scope.rewind(1);
    assert_eq!(int_of(my_scope.get_value("x").unwrap()), 1);
}

#[test]
fn scope_set_value() {
    let mut my_scope = Scope::new();

    my_scope.push("x", Dynamic::Int(42));
    assert_eq!(int_of(my_scope.get_value("x").unwrap()), 42);

    my_scope.set_value("x", Dynamic::Int(0));
    assert_eq!(int_of(my_scope.get_value("x").unwrap()), 0);
    assert_eq!(my_scope.len(), 1);

    my_scope.set_value("fresh", Dynamic::Int(5));
    assert_eq!(my_scope.len(), 2);
    assert_eq!(int_of(my_scope.get_value("fresh").unwrap()), 5);
}

#[test]
fn scope_get_mut_and_set_at() {
    let mut my_scope = Scope::new();
    my_scope.push("x", Dynamic::Int(1));
    my_scope.push_constant("k", Dynamic::Int(2));
    {
        let (value, typ) = my_scope.get_mut(0);
        assert_eq!(typ, EntryType::Normal);
        *value = Dynamic::Int(10);
    }
    assert_eq!(int_of(my_scope.get_value("x").unwrap()), 10);
    let (_, typ) = my_scope.get_mut(1);
    assert_eq!(typ, EntryType::Constant);
    my_scope.set_at(0, Dynamic::Int(11));
    assert_eq!(int_of(my_scope.get_value("x").unwrap()), 11);
}

#[test]
fn scope_iter_is_newest_first() {
    let mut my_scope = Scope::new();
    my_scope.push("a", Dynamic::Int(1));
    my_scope.push("b", Dynamic::Int(2));
    let entries = my_scope.iter();
    assert_eq!(entries.len(), 2);
    assert_eq!(entries[0].name, "b");
    assert_eq!(entries[1].name, "a");
    assert_eq!(Scope::default().len(), 0);
}

#[test]
fn extend_pushes_the_entries_in_order() {
    let mut scope = Scope::new();
    scope.push("a", Dynamic::Int(1));
    scope.extend(vec![
        ("b".to_string(), EntryType::Constant, Dynamic::Int(2)),
        ("a".to_string(), EntryType::Normal, Dynamic::Int(3)),
    ]);
    assert_eq!(scope.len(), 3);
    assert!(matches!(scope.get("b"), Some((1, EntryType::Constant))));
    assert!(matches!(scope.get("a"), Some((2, EntryType::Normal))));
    scope.extend(vec![]);
    assert_eq!(scope.len(), 3);
}
