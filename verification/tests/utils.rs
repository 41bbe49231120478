use rhai::any::{Dynamic, TYPE_ID_INT, TYPE_ID_STRING};
use rhai::engine::{extract_prop_from_getter, extract_prop_from_setter, make_getter, make_setter};
use rhai::text::{char_to_string, join, replace_char};
use rhai::token::Position;
use rhai::utils::{calc_fn_def, calc_fn_hash, calc_fn_spec};

#[test]
fn digests_have_their_exact_values() {
    assert_eq!(calc_fn_hash("+", &vec![TYPE_ID_INT, TYPE_ID_INT]), 1301430444146058776);
    assert_eq!(calc_fn_hash("f", &vec![]), 12638186101044013785);
    assert_eq!(calc_fn_def("f", 1), 619380221799435528);
    assert_eq!(calc_fn_hash("print", &vec![TYPE_ID_STRING]), 7439314480003733815);
    assert_eq!(calc_fn_hash("", &vec![]), 14695981039346656037);
}

#[test]
fn digest_of_arguments_is_digest_of_their_types() {
    let args = vec![Dynamic::Int(1), Dynamic::Str("x".to_string())];
    assert_eq!(
        calc_fn_spec("g", &args),
        calc_fn_hash("g", &vec![TYPE_ID_INT, TYPE_ID_STRING])
    );
    assert_ne!(
        calc_fn_hash("g", &vec![TYPE_ID_INT, TYPE_ID_STRING]),
        calc_fn_hash("g", &vec![TYPE_ID_STRING, TYPE_ID_INT])
    );
    assert_ne!(calc_fn_def("g", 1), calc_fn_def("g", 2));
}

#[test]
fn getter_and_setter_names() {
    assert_eq!(make_getter("size"), "get$size");
    assert_eq!(make_setter("size"), "set$size");
    assert_eq!(extract_prop_from_getter("get$size"), Some("size"));
    assert_eq!(extract_prop_from_getter("set$size"), None);
    assert_eq!(extract_prop_from_getter("get$"), Some(""));
    assert_eq!(extract_prop_from_setter("set$size"), Some("size"));
    assert_eq!(extract_prop_from_setter("get$size"), None);
    assert_eq!(extract_prop_from_setter("size"), None);
}

#[test]
fn text_helpers() {
    assert_eq!(char_to_string('x'), "x");
    assert_eq!(join("ab", "cd"), "abcd");
    assert_eq!(replace_char("h\u{e9}llo", 1, 'e'), "hello");
    assert_eq!(replace_char("abc", 2, '\u{e9}'), "ab\u{e9}");
}

#[test]
fn positions() {
    let p = Position::new(3, 4);
    assert_eq!((p.line, p.pos), (3, 4));
    assert!(!p.is_none());
    assert!(Position::none().is_none());
    assert_eq!(Position::none(), Position::new(0, 0));
}
