use rhai::any::{Dynamic, TYPE_ID_CHAR, TYPE_ID_INT, TYPE_ID_UNIT};
use rhai::engine::Engine;
use rhai::result::EvalAltResult;
use rhai::target::Target;
use rhai::token::Position;

fn p() -> Position {
    Position::new(1, 1)
}

fn array() -> Dynamic {
    Dynamic::Array(vec![Dynamic::Int(1), Dynamic::Str("two".to_string())])
}

#[test]
fn indexing_an_array_gives_a_place() {
    let engine = Engine::new();
    let mut base = array();
    let t = engine.get_indexed_mut(&mut base, Dynamic::Int(1), p(), p(), false).unwrap();
    assert!(matches!(t, Target::Place(1)));
    assert!(t.is_string(&base) && !t.is_map(&base) && !t.is_array(&base));
    assert_eq!(t.clone_into_dynamic(&base).as_str(), Ok("two"));
    t.set_value(&mut base, Dynamic::Int(2), p()).unwrap();
    match &base {
        Dynamic::Array(items) => {
            assert_eq!(items.len(), 2);
            assert_eq!(items[0].as_int(), Ok(1));
            assert_eq!(items[1].as_int(), Ok(2));
        }
        _ => panic!("should be an array"),
    }
    assert_eq!(Target::Place(0).contents_type_id(&base), TYPE_ID_INT);
    assert_eq!(Target::Place(5).contents_type_id(&base), TYPE_ID_UNIT);
}

#[test]
fn indexing_a_map_makes_a_place_on_demand() {
    let engine = Engine::new();
    let mut base = Dynamic::ObjMap(vec![("a".to_string(), Dynamic::Int(1))]);
    let t = engine.get_indexed_mut(&mut base, Dynamic::Str("b".to_string()), p(), p(), false).unwrap();
    assert!(matches!(t, Target::Temp(Dynamic::Unit)));
    assert!(matches!(
        t.set_value(&mut base, Dynamic::Int(1), p()),
        Err(EvalAltResult::ErrorAssignmentToUnknownLHS(_))
    ));
    let t = engine.get_indexed_mut(&mut base, Dynamic::Str("b".to_string()), p(), p(), true).unwrap();
    assert!(matches!(t, Target::Place(1)));
    assert!(t.clone_into_dynamic(&base).is_unit());
    t.set_value(&mut base, Dynamic::Array(vec![]), p()).unwrap();
    assert!(Target::Place(1).is_array(&base));
    let t = engine.get_indexed_mut(&mut base, Dynamic::Str("a".to_string()), p(), p(), true).unwrap();
    assert!(matches!(t, Target::Place(0)));
    match &base {
        Dynamic::ObjMap(entries) => assert_eq!(entries.len(), 2),
        _ => panic!("should be a map"),
    }
}

#[test]
fn indexing_a_string_gives_a_character() {
    let engine = Engine::new();
    let mut base = Dynamic::Str("abc".to_string());
    let t = engine.get_indexed_mut(&mut base, Dynamic::Int(2), p(), p(), false).unwrap();
    assert!(matches!(t, Target::StringChar(2, 'c')));
    assert_eq!(t.contents_type_id(&base), TYPE_ID_CHAR);
    assert_eq!(t.clone_into_dynamic(&base).as_char(), Ok('c'));
    assert!(matches!(
        Target::StringChar(2, 'c').set_value(&mut base, Dynamic::Int(1), p()),
        Err(EvalAltResult::ErrorCharMismatch(_))
    ));
    Target::StringChar(2, 'c').set_value(&mut base, Dynamic::Char('z'), p()).unwrap();
    assert_eq!(base.as_str(), Ok("abz"));
    Target::StringChar(0, 'a').set_value(&mut base, Dynamic::Char('a'), p()).unwrap();
    assert_eq!(base.as_str(), Ok("abz"));
}

#[test]
fn a_handle_that_points_nowhere_refuses_writes() {
    let mut base = Dynamic::Int(1);
    assert!(matches!(
        Target::Place(0).set_value(&mut base, Dynamic::Int(2), p()),
        Err(EvalAltResult::ErrorAssignmentToUnknownLHS(_))
    ));
    assert!(matches!(
        Target::StringChar(0, 'a').set_value(&mut base, Dynamic::Char('b'), p()),
        Err(EvalAltResult::ErrorAssignmentToUnknownLHS(_))
    ));
    let mut base = array();
    assert!(matches!(
        Target::Place(2).set_value(&mut base, Dynamic::Int(2), p()),
        Err(EvalAltResult::ErrorAssignmentToUnknownLHS(_))
    ));
    assert!(Target::Place(2).clone_into_dynamic(&base).is_unit());
    assert_eq!(base.as_int(), Err("array"));
}
