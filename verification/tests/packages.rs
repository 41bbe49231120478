use rhai::any::{Dynamic, TYPE_ID_ARRAY, TYPE_ID_BOOL, TYPE_ID_INT, TYPE_ID_STRING};
use rhai::engine::{Engine, FunctionsLib, Host};
use rhai::fn_register::{cloned, identity, map_dynamic, map_identity, map_result};
use rhai::optimize::OptimizationLevel;
use rhai::packages::{
    reg_binary, reg_iterator, reg_none, reg_trinary, reg_unary, standard_package, PackageStore,
    StandardHost, FN_ADD, FN_CONCAT, FN_EQ, FN_GE, FN_GT, FN_LE, FN_LT, FN_MUL, FN_NE, FN_NEG,
    FN_NOT, FN_SAME, FN_SUB, ITER_ARRAY,
};
use rhai::parser::{FnDef, Stmt};
use rhai::result::{EvalAltResult, ParseErrorType};
use rhai::token::Position;
use rhai::utils::calc_fn_hash;

fn p() -> Position {
    Position::new(1, 1)
}

#[test]
fn functions_are_kept_under_their_digests() {
    let mut lib = PackageStore::new();
    reg_none(&mut lib, "zero", 10);
    reg_unary(&mut lib, "one", TYPE_ID_INT, 11);
    reg_binary(&mut lib, "two", TYPE_ID_INT, TYPE_ID_BOOL, 12);
    reg_trinary(&mut lib, "three", TYPE_ID_INT, TYPE_ID_BOOL, TYPE_ID_STRING, 13);
    reg_iterator(&mut lib, TYPE_ID_STRING, 14);
    assert_eq!(lib.functions.len(), 4);
    assert_eq!(lib.functions.get(&calc_fn_hash("zero", &vec![])), Some(&10));
    assert_eq!(lib.functions.get(&calc_fn_hash("one", &vec![TYPE_ID_INT])), Some(&11));
    assert_eq!(lib.functions.get(&calc_fn_hash("two", &vec![TYPE_ID_INT, TYPE_ID_BOOL])), Some(&12));
    assert_eq!(
        lib.functions.get(&calc_fn_hash("three", &vec![TYPE_ID_INT, TYPE_ID_BOOL, TYPE_ID_STRING])),
        Some(&13)
    );
    assert_eq!(lib.functions.get(&calc_fn_hash("two", &vec![TYPE_ID_BOOL, TYPE_ID_INT])), None);
    assert_eq!(lib.type_iterators.get(&TYPE_ID_STRING), Some(&14));
    // a function registered again replaces the earlier one
    reg_none(&mut lib, "zero", 20);
    assert_eq!(lib.functions.len(), 4);
    assert_eq!(lib.functions.get(&calc_fn_hash("zero", &vec![])), Some(&20));
}

#[test]
fn the_standard_package() {
    let lib = standard_package();
    assert_eq!(lib.functions.get(&calc_fn_hash("+", &vec![TYPE_ID_INT, TYPE_ID_INT])), Some(&FN_ADD));
    assert_eq!(lib.functions.get(&calc_fn_hash("+", &vec![TYPE_ID_STRING, TYPE_ID_STRING])), Some(&FN_CONCAT));
    assert_eq!(lib.functions.get(&calc_fn_hash("-", &vec![TYPE_ID_INT])), Some(&FN_NEG));
    assert_eq!(lib.functions.get(&calc_fn_hash("print", &vec![TYPE_ID_STRING])), Some(&FN_SAME));
    assert_eq!(lib.type_iterators.get(&TYPE_ID_ARRAY), Some(&ITER_ARRAY));
    assert_eq!(lib.functions.len(), 20);
}

fn run(id: u64, args: Vec<Dynamic>) -> Result<Dynamic, EvalAltResult> {
    let mut args = args;
    let n = args.len();
    let r = StandardHost {}.call_native(id, &mut args, p());
    assert_eq!(args.len(), n);
    r
}

fn ints(a: i64, b: i64) -> Vec<Dynamic> {
    vec![Dynamic::Int(a), Dynamic::Int(b)]
}

#[test]
fn the_standard_functions() {
    assert_eq!(run(FN_ADD, ints(40, 2)).unwrap().as_int(), Ok(42));
    assert_eq!(run(FN_SUB, ints(40, 2)).unwrap().as_int(), Ok(38));
    assert_eq!(run(FN_MUL, ints(-6, 7)).unwrap().as_int(), Ok(-42));
    assert_eq!(run(FN_NEG, vec![Dynamic::Int(5)]).unwrap().as_int(), Ok(-5));
    assert_eq!(run(FN_EQ, ints(1, 1)).unwrap().as_bool(), Ok(true));
    assert_eq!(run(FN_NE, ints(1, 1)).unwrap().as_bool(), Ok(false));
    assert_eq!(run(FN_LT, ints(1, 2)).unwrap().as_bool(), Ok(true));
    assert_eq!(run(FN_LE, ints(2, 2)).unwrap().as_bool(), Ok(true));
    assert_eq!(run(FN_GT, ints(1, 2)).unwrap().as_bool(), Ok(false));
    assert_eq!(run(FN_GE, ints(1, 2)).unwrap().as_bool(), Ok(false));
    assert_eq!(run(FN_NOT, vec![Dynamic::Bool(false)]).unwrap().as_bool(), Ok(true));
    assert_eq!(run(FN_EQ, vec![Dynamic::Bool(true), Dynamic::Bool(true)]).unwrap().as_bool(), Ok(true));
    assert_eq!(run(FN_NE, vec![Dynamic::Char('a'), Dynamic::Char('b')]).unwrap().as_bool(), Ok(true));
    assert_eq!(run(FN_EQ, vec![Dynamic::Char('a'), Dynamic::Char('b')]).unwrap().as_bool(), Ok(false));
    let s = |t: &str| Dynamic::Str(t.to_string());
    assert_eq!(run(FN_EQ, vec![s("a"), s("a")]).unwrap().as_bool(), Ok(true));
    assert_eq!(run(FN_NE, vec![s("a"), s("a")]).unwrap().as_bool(), Ok(false));
    assert_eq!(run(FN_EQ, vec![s("a"), s("b")]).unwrap().as_bool(), Ok(false));
    assert_eq!(run(FN_CONCAT, vec![s("ab"), s("cd")]).unwrap().as_str(), Ok("abcd"));
    assert_eq!(run(FN_SAME, vec![s("ab")]).unwrap().as_str(), Ok("ab"));
    assert!(matches!(run(FN_ADD, vec![s("a"), Dynamic::Int(1)]), Err(EvalAltResult::ErrorFunctionNotFound(_, _))));
    assert!(matches!(run(FN_LT, vec![s("a"), s("b")]), Err(EvalAltResult::ErrorFunctionNotFound(_, _))));
    assert!(matches!(run(999, ints(1, 2)), Err(EvalAltResult::ErrorFunctionNotFound(_, _))));
    assert!(matches!(run(FN_ADD, vec![]), Err(EvalAltResult::ErrorFunctionNotFound(_, _))));
    assert!(matches!(run(FN_NOT, vec![Dynamic::Int(1)]), Err(EvalAltResult::ErrorFunctionNotFound(_, _))));
    assert!(matches!(run(FN_ADD, ints(i64::MAX, 1)), Err(EvalAltResult::ErrorRuntime(_, _))));
}

#[test]
fn the_standard_host_iterates_arrays_and_parses_nothing() {
    let host = StandardHost {};
    let items = host.iterate(ITER_ARRAY, Dynamic::Array(vec![Dynamic::Int(1), Dynamic::Int(2)]));
    assert_eq!(items.len(), 2);
    assert_eq!(items[1].as_int(), Ok(2));
    assert_eq!(host.iterate(ITER_ARRAY, Dynamic::Int(1)).len(), 0);
    assert_eq!(host.iterate(7, Dynamic::Array(vec![Dynamic::Int(1)])).len(), 0);
    let r: Result<(Vec<Stmt>, Vec<FnDef>), (ParseErrorType, Position)> = host.compile("1");
    assert!(matches!(r, Err((ParseErrorType::BadInput, _))));
    host.print("nothing happens");
    host.debug("nothing happens");
}

#[test]
fn a_new_engine() {
    let engine = Engine::new();
    assert_eq!(engine.packages.len(), 1);
    assert_eq!(engine.functions.len(), 0);
    assert_eq!(engine.max_call_stack_depth, 28);
    assert_eq!(engine.max_loop_rounds, u64::MAX);
    assert_eq!(engine.optimization_level, OptimizationLevel::Simple);
    let mut raw = Engine::new_raw(StandardHost {});
    assert_eq!(raw.packages.len(), 0);
    raw.set_optimization_level(OptimizationLevel::Full);
    raw.set_max_call_levels(5);
    raw.set_max_loop_rounds(6);
    raw.register_iterator(TYPE_ID_STRING, 3);
    assert_eq!(raw.optimization_level, OptimizationLevel::Full);
    assert_eq!(raw.max_call_stack_depth, 5);
    assert_eq!(raw.max_loop_rounds, 6);
    assert_eq!(raw.lookup_iterator(TYPE_ID_STRING), Some(3));
    assert_eq!(raw.lookup_iterator(TYPE_ID_ARRAY), None);
    assert_eq!(engine.lookup_iterator(TYPE_ID_ARRAY), Some(ITER_ARRAY));
    assert_eq!(engine.lookup_native(calc_fn_hash("+", &vec![TYPE_ID_INT, TYPE_ID_INT])), Some(FN_ADD));
    assert_eq!(engine.lookup_native(calc_fn_hash("+", &vec![TYPE_ID_INT])), None);
    assert_eq!(engine.map_type_name("i64"), "i64");
}

#[test]
fn function_libraries() {
    let def = |name: &str, params: Vec<&str>, line: u16| FnDef {
        name: name.to_string(),
        params: params.into_iter().map(|s| s.to_string()).collect(),
        body: Box::new(Stmt::Noop(Position::new(line, 1))),
        pos: Position::new(line, 1),
    };
    let empty = FunctionsLib::new();
    assert_eq!(empty.len(), 0);
    assert!(!empty.has_function("f", 0));
    // of two definitions of the same name and number of parameters the later one stays
    let first = FunctionsLib::from_vec(vec![def("f", vec![], 1), def("f", vec!["a"], 2), def("f", vec![], 3)]);
    assert_eq!(first.len(), 2);
    assert!(first.has_function("f", 0) && first.has_function("f", 1) && !first.has_function("f", 2));
    assert_eq!(first.get_function("f", 0).unwrap().pos, Position::new(3, 1));
    assert_eq!(first.get_function("f", 1).unwrap().params, vec!["a".to_string()]);
    assert!(first.get_function("g", 0).is_none());

    let second = FunctionsLib::from_vec(vec![def("f", vec![], 4), def("g", vec![], 5)]);
    let merged = first.merge(&second);
    assert_eq!(merged.len(), 3);
    assert_eq!(merged.get_function("f", 0).unwrap().pos, Position::new(4, 1));
    assert_eq!(merged.get_function("f", 1).unwrap().pos, Position::new(2, 1));
    assert_eq!(merged.get_function("g", 0).unwrap().pos, Position::new(5, 1));
    assert_eq!(first.len(), 2);
    assert_eq!(empty.merge(&second).len(), 2);
    assert_eq!(second.merge(&empty).len(), 2);
}

#[test]
fn results_of_native_functions() {
    let mut x = 5;
    *identity(&mut x) += 1;
    assert_eq!(x, 6);
    let mut s = "a".to_string();
    let copy = cloned(&mut s);
    assert_eq!(copy, "a");
    assert_eq!(s, "a");
    assert!(matches!(map_dynamic(Dynamic::Int(1), p()), Ok(Dynamic::Int(1))));
    assert!(matches!(map_identity(Dynamic::Bool(true), p()), Ok(Dynamic::Bool(true))));
    assert!(matches!(map_result(Ok(Dynamic::Int(2)), p()), Ok(Dynamic::Int(2))));
    let moved = map_result(
        Err(EvalAltResult::ErrorRuntime("bad".to_string(), Position::new(9, 9))),
        Position::new(2, 3),
    );
    assert!(matches!(moved, Err(EvalAltResult::ErrorRuntime(msg, pos)) if msg == "bad" && pos == Position::new(2, 3)));
}
