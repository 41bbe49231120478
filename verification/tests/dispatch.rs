use rhai::any::{Dynamic, Text, Value, Values, TYPE_ID_ARRAY, TYPE_ID_INT, TYPE_ID_STRING};
use rhai::api::{cast_int, cast_string, cast_unit};
use rhai::engine::{Engine, FunctionsLib, Host};
use rhai::model::Script;
use rhai::packages::{reg_none, PackageStore, StandardHost, standard_package};
use rhai::parser::{Expr, FnDef, Stmt, AST};
use rhai::result::{ErrorValue, EvalAltResult, ParseErrorType};
use rhai::scope::Scope;
use rhai::token::Position;
use std::cell::RefCell;

const TEST_STRUCT: u64 = 50;
const INNER: u64 = 51;

const FN_FROM_ENGINE: u64 = 100;
const FN_FROM_FIRST_PACKAGE: u64 = 200;
const FN_FROM_SECOND_PACKAGE: u64 = 300;
const FN_PUSH: u64 = 101;
const FN_GET_X: u64 = 102;
const FN_SET_X: u64 = 103;
const FN_NEW_TS: u64 = 104;
const FN_GET_INNER: u64 = 105;
const FN_SET_INNER: u64 = 106;
const FN_NOT_A_STRING: u64 = 107;

/// A host with a few functions of its own, a parser that knows three
/// scripts, and sinks that keep what they are given.
struct TestHost {
    printed: RefCell<Vec<String>>,
    debugged: RefCell<Vec<String>>,
}

impl TestHost {
    fn new() -> Self {
        TestHost { printed: RefCell::new(vec![]), debugged: RefCell::new(vec![]) }
    }
}

impl Host for TestHost {
    // The three mathematical functions of a host are never run.
    fn native_outcome(&self, _: u64, _: Values, _: Position) -> (Result<Value, ErrorValue>, Values) {
        unreachable!()
    }

    fn iter_items(&self, _: u64, _: Value) -> Values {
        unreachable!()
    }

    fn parsed(&self, _: Text) -> Result<Script, (ParseErrorType, Position)> {
        unreachable!()
    }

    fn call_native(
        &self,
        id: u64,
        args: &mut Vec<Dynamic>,
        pos: Position,
    ) -> Result<Dynamic, EvalAltResult> {
        match id {
            FN_FROM_ENGINE => Ok(Dynamic::Int(100)),
            FN_FROM_FIRST_PACKAGE => Ok(Dynamic::Int(200)),
            FN_FROM_SECOND_PACKAGE => Ok(Dynamic::Int(300)),
            FN_PUSH => {
                let item = args[1].clone();
                match &mut args[0] {
                    Dynamic::Array(items) => items.push(item),
                    _ => unreachable!(),
                }
                Ok(Dynamic::Unit)
            }
            FN_GET_X => match &args[0] {
                Dynamic::Custom(_, _, data) => Ok(Dynamic::Int(data[0] as i64)),
                _ => unreachable!(),
            },
            FN_SET_X => {
                let value = args[1].as_int().unwrap() as u8;
                match &mut args[0] {
                    Dynamic::Custom(_, _, data) => data[0] = value,
                    _ => unreachable!(),
                }
                Ok(Dynamic::Unit)
            }
            FN_NEW_TS => Ok(Dynamic::Custom(TEST_STRUCT, "TestStruct".to_string(), vec![1, 2])),
            FN_GET_INNER => match &args[0] {
                Dynamic::Custom(_, _, data) => {
                    Ok(Dynamic::Custom(INNER, "Inner".to_string(), vec![data[1]]))
                }
                _ => unreachable!(),
            },
            FN_SET_INNER => {
                let value = match &args[1] {
                    Dynamic::Custom(_, _, data) => data[0],
                    _ => unreachable!(),
                };
                match &mut args[0] {
                    Dynamic::Custom(_, _, data) => data[1] = value,
                    _ => unreachable!(),
                }
                Ok(Dynamic::Unit)
            }
            FN_NOT_A_STRING => Ok(Dynamic::Int(1)),
            _ => StandardHost {}.call_native(id, args, pos),
        }
    }

    fn iterate(&self, id: u64, value: Dynamic) -> Vec<Dynamic> {
        StandardHost {}.iterate(id, value)
    }

    fn compile(&self, script: &str) -> Result<(Vec<Stmt>, Vec<FnDef>), (ParseErrorType, Position)> {
        let at = Position::new(1, 1);
        match script {
            "let z = 5;" => Ok((
                vec![Stmt::Let("z".to_string(), Some(Box::new(Expr::IntegerConstant(5, at))), at)],
                vec![],
            )),
            "41 + 1" => Ok((
                vec![Stmt::Expr(Box::new(Expr::FnCall(
                    "+".to_string(),
                    vec![Expr::IntegerConstant(41, at), Expr::IntegerConstant(1, at)],
                    None,
                    at,
                )))],
                vec![],
            )),
            "fn f() {}" => Ok((
                vec![],
                vec![FnDef {
                    name: "f".to_string(),
                    params: vec![],
                    body: Box::new(Stmt::Noop(at)),
                    pos: at,
                }],
            )),
            _ => Err((ParseErrorType::BadInput, Position::new(1, 9))),
        }
    }

    fn print(&self, text: &str) {
        self.printed.borrow_mut().push(text.to_string());
    }

    fn debug(&self, text: &str) {
        self.debugged.borrow_mut().push(text.to_string());
    }
}

fn p() -> Position {
    Position::new(1, 1)
}

fn num(i: i64) -> Expr {
    Expr::IntegerConstant(i, p())
}

fn text(s: &str) -> Expr {
    Expr::StringConstant(s.to_string(), p())
}

fn var(name: &str) -> Expr {
    Expr::Variable(name.to_string(), None, p())
}

fn call(name: &str, args: Vec<Expr>) -> Expr {
    Expr::FnCall(name.to_string(), args, None, Position::new(2, 2))
}

fn dot(lhs: Expr, rhs: Expr) -> Expr {
    Expr::Dot(Box::new(lhs), Box::new(rhs), p())
}

fn prop(name: &str) -> Expr {
    Expr::Property(name.to_string(), Position::new(3, 3))
}

fn assign(lhs: Expr, rhs: Expr) -> Expr {
    Expr::Assignment(Box::new(lhs), Box::new(rhs), p())
}

fn stmt(e: Expr) -> Stmt {
    Stmt::Expr(Box::new(e))
}

fn let_(name: &str, e: Expr) -> Stmt {
    Stmt::Let(name.to_string(), Some(Box::new(e)), p())
}

fn script(stmts: Vec<Stmt>) -> AST {
    AST::new(stmts, FunctionsLib::new())
}

fn test_engine() -> Engine<TestHost> {
    let mut engine = Engine::new_raw(TestHost::new());
    engine.load_package(standard_package());
    engine.register_fn("push", &vec![TYPE_ID_ARRAY, TYPE_ID_INT], FN_PUSH);
    engine.register_fn("get$x", &vec![TEST_STRUCT], FN_GET_X);
    engine.register_fn("set$x", &vec![TEST_STRUCT, TYPE_ID_INT], FN_SET_X);
    engine.register_fn("get$x", &vec![INNER], FN_GET_X);
    engine.register_fn("set$x", &vec![INNER, TYPE_ID_INT], FN_SET_X);
    engine.register_fn("get$inner", &vec![TEST_STRUCT], FN_GET_INNER);
    engine.register_fn("set$inner", &vec![TEST_STRUCT, INNER], FN_SET_INNER);
    engine.register_fn("new_ts", &vec![], FN_NEW_TS);
    engine
}

#[test]
fn engine_function_comes_before_packages() {
    let mut engine = test_engine();
    engine.register_fn("ver", &vec![], FN_FROM_ENGINE);
    let mut package = PackageStore::new();
    reg_none(&mut package, "ver", FN_FROM_FIRST_PACKAGE);
    engine.load_package(package);
    let ast = script(vec![stmt(call("ver", vec![]))]);
    assert_eq!(cast_int(engine.eval_ast(&ast).unwrap()).unwrap(), 100);
}

#[test]
fn newest_package_comes_first() {
    let mut engine = test_engine();
    let mut first = PackageStore::new();
    reg_none(&mut first, "who", FN_FROM_FIRST_PACKAGE);
    engine.load_package(first);
    let ast = script(vec![stmt(call("who", vec![]))]);
    assert_eq!(cast_int(engine.eval_ast(&ast).unwrap()).unwrap(), 200);

    let mut second = PackageStore::new();
    reg_none(&mut second, "who", FN_FROM_SECOND_PACKAGE);
    engine.load_package(second);
    assert_eq!(cast_int(engine.eval_ast(&ast).unwrap()).unwrap(), 300);
    assert_eq!(engine.packages.len(), 3);
}

#[test]
fn script_function_comes_before_natives() {
    let mut engine = test_engine();
    engine.register_fn("ver", &vec![], FN_FROM_ENGINE);
    let ver = FnDef {
        name: "ver".to_string(),
        params: vec![],
        body: Box::new(stmt(num(1))),
        pos: p(),
    };
    let ast = AST::new(vec![stmt(call("ver", vec![]))], FunctionsLib::from_vec(vec![ver]));
    assert_eq!(cast_int(engine.eval_ast(&ast).unwrap()).unwrap(), 1);
    // one argument more, and the script function does not answer
    let ast_other = script(vec![stmt(call("ver", vec![]))]);
    assert_eq!(cast_int(engine.eval_ast(&ast_other).unwrap()).unwrap(), 100);
}

#[test]
fn later_registration_replaces_earlier() {
    let mut engine = test_engine();
    engine.register_fn("ver", &vec![], FN_FROM_FIRST_PACKAGE);
    engine.register_fn("ver", &vec![], FN_FROM_ENGINE);
    let ast = script(vec![stmt(call("ver", vec![]))]);
    assert_eq!(cast_int(engine.eval_ast(&ast).unwrap()).unwrap(), 100);
}

#[test]
fn test_mismatched_op_custom_type() {
    let engine = test_engine();
    let ast = script(vec![stmt(call("+", vec![num(60), call("new_ts", vec![])]))]);
    let r = cast_int_result(engine.eval_ast(&ast)).expect_err("expects error");
    assert!(matches!(
        r,
        EvalAltResult::ErrorFunctionNotFound(err, _) if err == "+ (i64, TestStruct)"
    ));
}

fn cast_int_result(r: Result<Dynamic, EvalAltResult>) -> Result<i64, EvalAltResult> {
    match r {
        Ok(v) => cast_int(v),
        Err(e) => Err(e),
    }
}

#[test]
fn function_not_found_names_the_shown_types() {
    let mut engine = test_engine();
    engine.register_type_with_name("string", "text");
    let ast = script(vec![stmt(call("nothing", vec![text("a"), num(1), Expr::Unit(p())]))]);
    match engine.eval_ast(&ast) {
        Err(EvalAltResult::ErrorFunctionNotFound(sig, pos)) => {
            assert_eq!(sig, "nothing (text, i64, ())");
            assert_eq!(pos, Position::new(2, 2));
        }
        _ => panic!("should not be found"),
    }
    let ast = script(vec![stmt(call("nothing", vec![]))]);
    match engine.eval_ast(&ast) {
        Err(EvalAltResult::ErrorFunctionNotFound(sig, _)) => assert_eq!(sig, "nothing ()"),
        _ => panic!("should not be found"),
    }
}

#[test]
fn default_value_stands_in_for_a_missing_function() {
    let engine = test_engine();
    let ast = script(vec![stmt(Expr::FnCall(
        "nothing".to_string(),
        vec![num(1)],
        Some(Dynamic::Int(9)),
        p(),
    ))]);
    assert_eq!(cast_int(engine.eval_ast(&ast).unwrap()).unwrap(), 9);
}

#[test]
fn missing_getter_and_setter_are_reported_before_the_default() {
    let engine = test_engine();
    let ast = script(vec![let_("i", num(1)), stmt(dot(var("i"), prop("size")))]);
    match engine.eval_ast(&ast) {
        Err(EvalAltResult::ErrorDotExpr(msg, pos)) => {
            assert_eq!(msg, "- property 'size' unknown or write-only");
            assert_eq!(pos, Position::new(3, 3));
        }
        _ => panic!("should be a dot error"),
    }
    let ast = script(vec![let_("i", num(1)), stmt(assign(dot(var("i"), prop("size")), num(2)))]);
    match engine.eval_ast(&ast) {
        Err(EvalAltResult::ErrorDotExpr(msg, _)) => {
            assert_eq!(msg, "- property 'size' unknown or read-only")
        }
        _ => panic!("should be a dot error"),
    }
    let mut scope = Scope::new();
    let mut args = vec![Dynamic::Int(1)];
    let default = Dynamic::Int(3);
    match engine.call_fn_raw(
        &mut scope,
        &FunctionsLib::new(),
        "get$size",
        &mut args,
        Some(&default),
        p(),
        0,
    ) {
        Err(EvalAltResult::ErrorDotExpr(_, _)) => (),
        _ => panic!("should be a dot error"),
    }
}

#[test]
fn method_call_changes_its_target() {
    let engine = test_engine();
    let ast = script(vec![
        let_("a", Expr::Array(vec![num(1), num(2), num(3)], p())),
        stmt(dot(var("a"), call("push", vec![num(4)]))),
        stmt(Expr::Index(Box::new(var("a")), Box::new(num(3)), p())),
    ]);
    let mut scope = Scope::new();
    assert_eq!(cast_int(engine.eval_ast_with_scope(&mut scope, &ast).unwrap()).unwrap(), 4);
    match scope.get_value("a").unwrap() {
        Dynamic::Array(items) => assert_eq!(items.len(), 4),
        _ => panic!("should be an array"),
    }
}

#[test]
fn property_goes_through_getter_and_setter() {
    let engine = test_engine();
    let ast = script(vec![
        let_("t", call("new_ts", vec![])),
        stmt(assign(dot(var("t"), prop("x")), num(5))),
        stmt(dot(var("t"), prop("x"))),
    ]);
    assert_eq!(cast_int(engine.eval_ast(&ast).unwrap()).unwrap(), 5);
}

#[test]
fn nested_property_is_written_back() {
    let engine = test_engine();
    let inner_x = || dot(var("t"), dot(prop("inner"), prop("x")));
    let ast = script(vec![
        let_("t", call("new_ts", vec![])),
        stmt(inner_x()),
    ]);
    assert_eq!(cast_int(engine.eval_ast(&ast).unwrap()).unwrap(), 2);
    let ast = script(vec![
        let_("t", call("new_ts", vec![])),
        stmt(assign(inner_x(), num(7))),
        stmt(inner_x()),
    ]);
    assert_eq!(cast_int(engine.eval_ast(&ast).unwrap()).unwrap(), 7);
}

#[test]
fn print_and_debug_go_to_their_sinks() {
    let engine = test_engine();
    let ast = script(vec![
        stmt(call("print", vec![text("hello")])),
        stmt(call("debug", vec![text("world")])),
    ]);
    cast_unit(engine.eval_ast(&ast).unwrap()).unwrap();
    assert_eq!(*engine.host.printed.borrow(), vec!["hello".to_string()]);
    assert_eq!(*engine.host.debugged.borrow(), vec!["world".to_string()]);
}

#[test]
fn print_of_something_other_than_a_string_fails() {
    let mut engine = test_engine();
    engine.register_fn("print", &vec![TYPE_ID_INT], FN_NOT_A_STRING);
    let ast = script(vec![stmt(call("print", vec![num(1)]))]);
    match engine.eval_ast(&ast) {
        Err(EvalAltResult::ErrorMismatchOutputType(name, _)) => assert_eq!(name, "i64"),
        _ => panic!("should be a mismatch"),
    }
    assert!(engine.host.printed.borrow().is_empty());
}

#[test]
fn type_of_can_be_overridden() {
    let mut engine = test_engine();
    let ast = script(vec![stmt(call("type_of", vec![text("a")]))]);
    assert_eq!(cast_string(engine.eval_ast(&ast).unwrap()).unwrap(), "string");
    assert!(!engine.has_override(&FunctionsLib::new(), "type_of"));
    engine.register_fn("type_of", &vec![TYPE_ID_STRING], FN_FROM_ENGINE);
    assert!(engine.has_override(&FunctionsLib::new(), "type_of"));
    assert_eq!(cast_int(engine.eval_ast(&ast).unwrap()).unwrap(), 100);
}

#[test]
fn eval_runs_a_script_in_the_current_scope() {
    let engine = test_engine();
    let ast = script(vec![stmt(call("eval", vec![text("41 + 1")]))]);
    assert_eq!(cast_int(engine.eval_ast(&ast).unwrap()).unwrap(), 42);

    // a variable that the script declares is found afterwards, whatever the
    // parser recorded of its distance from the top
    let ast = script(vec![
        let_("a", num(1)),
        stmt(call("eval", vec![text("let z = 5;")])),
        stmt(Expr::Variable("a".to_string(), Some(1), p())),
    ]);
    let mut scope = Scope::new();
    assert_eq!(cast_int(engine.eval_ast_with_scope(&mut scope, &ast).unwrap()).unwrap(), 1);
    assert!(scope.contains("z"));
    assert_eq!(scope.len(), 2);
}

#[test]
fn eval_refuses_function_definitions_and_bad_scripts() {
    let engine = test_engine();
    let at = Position::new(7, 7);
    let ast = script(vec![stmt(call("eval", vec![Expr::StringConstant("fn f() {}".to_string(), at)]))]);
    match engine.eval_ast(&ast) {
        Err(EvalAltResult::ErrorParsing(ParseErrorType::WrongFnDefinition, pos)) => {
            assert_eq!(pos, at)
        }
        _ => panic!("should be a parse error"),
    }
    let ast = script(vec![stmt(call("eval", vec![text("???")]))]);
    match engine.eval_ast(&ast) {
        Err(EvalAltResult::ErrorParsing(ParseErrorType::BadInput, pos)) => {
            assert_eq!(pos, Position::new(1, 9))
        }
        _ => panic!("should be a parse error"),
    }
    let ast = script(vec![stmt(call("eval", vec![num(1)]))]);
    match engine.eval_ast(&ast) {
        Err(EvalAltResult::ErrorMismatchOutputType(name, _)) => assert_eq!(name, "i64"),
        _ => panic!("should be a mismatch"),
    }
}

#[test]
fn eval_in_method_style_is_refused() {
    let engine = test_engine();
    let ast = script(vec![let_("s", text("41 + 1")), stmt(dot(var("s"), call("eval", vec![])))]);
    match engine.eval_ast(&ast) {
        Err(EvalAltResult::ErrorRuntime(msg, _)) => {
            assert_eq!(msg, "'eval' should not be called in method style. Try eval(...);")
        }
        _ => panic!("should be refused"),
    }
}

#[test]
fn compile_and_eval_go_through_the_parser() {
    let engine = test_engine();
    assert_eq!(cast_int(engine.eval("41 + 1").unwrap()).unwrap(), 42);
    let mut scope = Scope::new();
    cast_unit(engine.eval_with_scope(&mut scope, "let z = 5;").unwrap()).unwrap();
    assert!(scope.contains("z"));
    let ast = engine.compile("fn f() {}").unwrap();
    assert!(ast.fn_lib.has_function("f", 0));
    assert_eq!(ast.statements.len(), 0);
    match engine.compile("???") {
        Err(EvalAltResult::ErrorParsing(ParseErrorType::BadInput, _)) => (),
        _ => panic!("should be a parse error"),
    }
    match Engine::new().eval("41 + 1") {
        Err(EvalAltResult::ErrorParsing(ParseErrorType::BadInput, pos)) => assert!(pos.is_none()),
        _ => panic!("should be a parse error"),
    }
}
