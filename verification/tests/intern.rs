use rhai::intern::{Interner, Str, KEYWORD_FN, KEYWORD_LET, KEYWORD_PRINT};

#[test]
fn test_interner() {
    let mut interner = Interner::new();
    let interned_var: Str = interner.intern_str("let");
    assert_eq!(interned_var.index(), 7);
    assert_eq!(interned_var.static_str().index(), KEYWORD_LET);
    if interned_var.static_str().index() != KEYWORD_LET {
        panic!("Wait, wat");
    }
    assert!(matches!(interned_var.static_str().index(), KEYWORD_LET));
}

#[test]
fn interner_holds_the_keywords() {
    let mut interner = Interner::new();
    assert_eq!(interner.len(), 20);
    let print = interner.intern_string("print".to_string());
    let func = interner.intern_str("fn");
    assert_eq!(print.index(), KEYWORD_PRINT);
    assert_eq!(func.index(), KEYWORD_FN);
    assert_eq!(interner.get_str(&print), "print");
    assert_eq!(interner.get_string(&func), "fn");
    assert_eq!(interner.len(), 20);
}

#[test]
fn interner_keeps_each_text_once() {
    let mut interner = Interner::new();
    let a = interner.intern_str("alpha");
    let b = interner.intern_str("beta");
    let a2 = interner.intern_str("alpha");
    assert_eq!(a.index(), 20);
    assert_eq!(b.index(), 21);
    assert_eq!(a2.index(), 20);
    assert_eq!(a, a2);
    assert_eq!(a.static_str(), a2.static_str());
    assert_ne!(a.static_str(), b.static_str());
    assert_eq!(interner.get_str(&a), "alpha");
    assert_eq!(interner.get_str(&b), "beta");
    assert_eq!(interner.len(), 22);
}

#[test]
fn interner_frees_a_slot_with_the_last_user() {
    let mut interner = Interner::new();
    let a = interner.intern_str("alpha");
    let b = interner.intern_str("beta");
    let a2 = interner.clone_str(&a);
    assert_eq!(a2.index(), a.index());
    interner.release(a);
    // one user is left
    assert_eq!(interner.get_str(&a2), "alpha");
    interner.release(a2);
    // the slot is free and taken by the next new text
    let c = interner.intern_str("gamma");
    assert_eq!(c.index(), 20);
    assert_eq!(interner.get_str(&c), "gamma");
    assert_eq!(interner.get_str(&b), "beta");
    assert_eq!(interner.len(), 22);
    // a keyword stays whatever is given up
    let kw = interner.intern_str("let");
    interner.release(kw);
    let kw = interner.intern_str("let");
    interner.release(kw);
    let kw = interner.intern_str("let");
    assert_eq!(kw.index(), KEYWORD_LET);
    assert_eq!(interner.get_str(&kw), "let");
}
