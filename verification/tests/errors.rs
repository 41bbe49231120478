use rhai::any::Dynamic;
use rhai::engine::{Engine, FunctionsLib};
use rhai::packages::check_num_args;
use rhai::parser::{Expr, FnDef, ReturnType, Stmt, AST};
use rhai::result::{EvalAltResult, ParseErrorType};
use rhai::scope::Scope;
use rhai::token::Position;

fn p(line: u16, pos: u16) -> Position {
    Position::new(line, pos)
}

fn num(i: i64) -> Expr {
    Expr::IntegerConstant(i, p(1, 1))
}

fn text(s: &str) -> Expr {
    Expr::StringConstant(s.to_string(), p(1, 1))
}

fn var(name: &str) -> Expr {
    Expr::Variable(name.to_string(), None, p(4, 4))
}

fn call(name: &str, args: Vec<Expr>) -> Expr {
    Expr::FnCall(name.to_string(), args, None, p(2, 2))
}

fn index(lhs: Expr, idx: Expr) -> Expr {
    Expr::Index(Box::new(lhs), Box::new(idx), p(3, 3))
}

fn assign(lhs: Expr, rhs: Expr) -> Expr {
    Expr::Assignment(Box::new(lhs), Box::new(rhs), p(6, 6))
}

fn stmt(e: Expr) -> Stmt {
    Stmt::Expr(Box::new(e))
}

fn let_(name: &str, e: Expr) -> Stmt {
    Stmt::Let(name.to_string(), Some(Box::new(e)), p(1, 7))
}

fn run(stmts: Vec<Stmt>) -> Result<Dynamic, EvalAltResult> {
    Engine::new().eval_ast(&AST::new(stmts, FunctionsLib::new()))
}

fn array123() -> Expr {
    Expr::Array(vec![num(1), num(2), num(3)], p(1, 1))
}

#[test]
fn error_variable_not_found() {
    match run(vec![stmt(var("nobody"))]) {
        Err(EvalAltResult::ErrorVariableNotFound(name, pos)) => {
            assert_eq!(name, "nobody");
            assert_eq!(pos, p(4, 4));
        }
        _ => panic!("should not be found"),
    }
}

#[test]
fn error_array_bounds() {
    match run(vec![let_("a", array123()), stmt(index(var("a"), num(3)))]) {
        Err(EvalAltResult::ErrorArrayBounds(len, idx, pos)) => {
            assert_eq!((len, idx), (3, 3));
            assert_eq!(pos, p(1, 1));
        }
        _ => panic!("should be out of bounds"),
    }
    match run(vec![let_("a", array123()), stmt(index(var("a"), num(-1)))]) {
        Err(EvalAltResult::ErrorArrayBounds(len, idx, _)) => assert_eq!((len, idx), (3, -1)),
        _ => panic!("should be out of bounds"),
    }
    match run(vec![let_("a", array123()), stmt(assign(index(var("a"), num(7)), num(0)))]) {
        Err(EvalAltResult::ErrorArrayBounds(len, idx, _)) => assert_eq!((len, idx), (3, 7)),
        _ => panic!("should be out of bounds"),
    }
    for i in 0..3 {
        match run(vec![let_("a", array123()), stmt(index(var("a"), num(i)))]) {
            Ok(Dynamic::Int(v)) => assert_eq!(v, i + 1),
            _ => panic!("should be an element"),
        }
    }
}

#[test]
fn error_string_bounds() {
    match run(vec![let_("s", text("abc")), stmt(index(var("s"), num(3)))]) {
        Err(EvalAltResult::ErrorStringBounds(len, idx, _)) => assert_eq!((len, idx), (3, 3)),
        _ => panic!("should be out of bounds"),
    }
    match run(vec![let_("s", text("abc")), stmt(index(var("s"), num(-2)))]) {
        Err(EvalAltResult::ErrorStringBounds(len, idx, _)) => assert_eq!((len, idx), (3, -2)),
        _ => panic!("should be out of bounds"),
    }
}

#[test]
fn error_index_expressions() {
    match run(vec![let_("a", array123()), stmt(index(var("a"), text("x")))]) {
        Err(EvalAltResult::ErrorNumericIndexExpr(_)) => (),
        _ => panic!("should want a number"),
    }
    match run(vec![let_("s", text("abc")), stmt(index(var("s"), text("x")))]) {
        Err(EvalAltResult::ErrorNumericIndexExpr(_)) => (),
        _ => panic!("should want a number"),
    }
    match run(vec![
        let_("m", Expr::ObjMap(vec![("x".to_string(), num(1), p(1, 1))], p(1, 1))),
        stmt(index(var("m"), num(0))),
    ]) {
        Err(EvalAltResult::ErrorStringIndexExpr(_)) => (),
        _ => panic!("should want a string"),
    }
    match run(vec![let_("i", num(5)), stmt(index(var("i"), num(0)))]) {
        Err(EvalAltResult::ErrorIndexingType(name, pos)) => {
            assert_eq!(name, "i64");
            assert_eq!(pos, p(3, 3));
        }
        _ => panic!("should not be indexable"),
    }
}

#[test]
fn map_read_of_a_missing_key_is_unit_and_makes_nothing() {
    let ast = AST::new(
        vec![
            let_("m", Expr::ObjMap(vec![("x".to_string(), num(1), p(1, 1))], p(1, 1))),
            stmt(index(var("m"), text("y"))),
        ],
        FunctionsLib::new(),
    );
    let mut scope = Scope::new();
    assert!(Engine::new().eval_ast_with_scope(&mut scope, &ast).unwrap().is_unit());
    match scope.get_value("m").unwrap() {
        Dynamic::ObjMap(entries) => assert_eq!(entries.len(), 1),
        _ => panic!("should be a map"),
    }
    // a write makes the entry
    let ast = AST::new(
        vec![stmt(assign(index(var("m"), text("y")), num(2))), stmt(index(var("m"), text("y")))],
        FunctionsLib::new(),
    );
    match Engine::new().eval_ast_with_scope(&mut scope, &ast) {
        Ok(Dynamic::Int(2)) => (),
        _ => panic!("should be two"),
    }
    match scope.get_value("m").unwrap() {
        Dynamic::ObjMap(entries) => assert_eq!(entries.len(), 2),
        _ => panic!("should be a map"),
    }
}

#[test]
fn error_assignment() {
    match run(vec![stmt(assign(num(5), num(1)))]) {
        Err(EvalAltResult::ErrorAssignmentToConstant(name, _)) => assert_eq!(name, "i64"),
        _ => panic!("should be assignment to constant"),
    }
    match run(vec![stmt(assign(call("+", vec![num(1), num(2)]), num(1)))]) {
        Err(EvalAltResult::ErrorAssignmentToUnknownLHS(pos)) => assert_eq!(pos, p(2, 2)),
        _ => panic!("should be no place"),
    }
    // a chain that starts from a value, not from a variable, cannot be written
    match run(vec![stmt(assign(index(array123(), num(0)), num(1)))]) {
        Err(EvalAltResult::ErrorAssignmentToUnknownLHS(_)) => (),
        _ => panic!("should be no place"),
    }
    // but it can be read
    match run(vec![stmt(index(array123(), num(2)))]) {
        Ok(Dynamic::Int(3)) => (),
        _ => panic!("should be three"),
    }
}

#[test]
fn error_char_mismatch() {
    match run(vec![let_("s", text("abc")), stmt(assign(index(var("s"), num(0)), num(1)))]) {
        Err(EvalAltResult::ErrorCharMismatch(_)) => (),
        _ => panic!("should want a character"),
    }
}

#[test]
fn error_dot_expr() {
    match run(vec![stmt(Expr::Property("loose".to_string(), p(8, 8)))]) {
        Err(EvalAltResult::ErrorDotExpr(msg, pos)) => {
            assert_eq!(msg, "");
            assert_eq!(pos, p(8, 8));
        }
        _ => panic!("should be a dot error"),
    }
    // the head of a nested chain in dot mode must be a property
    let chain = Expr::Dot(
        Box::new(var("a")),
        Box::new(Expr::Dot(Box::new(num(1)), Box::new(Expr::Property("x".to_string(), p(1, 1))), p(1, 1))),
        p(1, 1),
    );
    match run(vec![let_("a", num(1)), stmt(chain)]) {
        Err(EvalAltResult::ErrorDotExpr(_, _)) => (),
        _ => panic!("should be a dot error"),
    }
}

#[test]
fn error_in_expr() {
    let in_ = |l: Expr, r: Expr| stmt(Expr::In(Box::new(l), Box::new(r), p(1, 1)));
    match run(vec![in_(num(1), num(2))]) {
        Err(EvalAltResult::ErrorInExpr(_)) => (),
        _ => panic!("should be an `in` error"),
    }
    match run(vec![in_(num(1), text("abc"))]) {
        Err(EvalAltResult::ErrorInExpr(_)) => (),
        _ => panic!("should be an `in` error"),
    }
    match run(vec![in_(text("bc"), text("abc"))]) {
        Ok(Dynamic::Bool(true)) => (),
        _ => panic!("should be found"),
    }
    match run(vec![in_(text("cb"), text("abc"))]) {
        Ok(Dynamic::Bool(false)) => (),
        _ => panic!("should not be found"),
    }
    match run(vec![in_(Expr::CharConstant('c', p(1, 1)), text("abc"))]) {
        Ok(Dynamic::Bool(true)) => (),
        _ => panic!("should be found"),
    }
    match run(vec![in_(num(2), array123())]) {
        Ok(Dynamic::Bool(true)) => (),
        _ => panic!("should be found"),
    }
    match run(vec![in_(num(4), array123())]) {
        Ok(Dynamic::Bool(false)) => (),
        _ => panic!("should not be found"),
    }
    // no `==` answers for a string and an integer: the default is `false`
    match run(vec![in_(text("2"), array123())]) {
        Ok(Dynamic::Bool(false)) => (),
        _ => panic!("should not be found"),
    }
    match run(vec![in_(
        Expr::CharConstant('k', p(1, 1)),
        Expr::ObjMap(vec![("k".to_string(), num(1), p(1, 1))], p(1, 1)),
    )]) {
        Ok(Dynamic::Bool(true)) => (),
        _ => panic!("should be found"),
    }
}

#[test]
fn error_for() {
    match run(vec![Stmt::For(
        "x".to_string(),
        Box::new(Expr::IntegerConstant(5, p(9, 9))),
        Box::new(Stmt::Noop(p(1, 1))),
    )]) {
        Err(EvalAltResult::ErrorFor(pos)) => assert_eq!(pos, p(9, 9)),
        _ => panic!("should not be iterable"),
    }
}

#[test]
fn error_boolean_and_guard() {
    match run(vec![stmt(Expr::And(Box::new(num(1)), Box::new(Expr::True(p(1, 1))), p(1, 1)))]) {
        Err(EvalAltResult::ErrorBooleanArgMismatch(op, _)) => assert_eq!(op, "AND"),
        _ => panic!("should want a boolean"),
    }
    match run(vec![stmt(Expr::Or(Box::new(Expr::False(p(1, 1))), Box::new(num(1)), p(1, 1)))]) {
        Err(EvalAltResult::ErrorBooleanArgMismatch(op, _)) => assert_eq!(op, "OR"),
        _ => panic!("should want a boolean"),
    }
    match run(vec![Stmt::IfThenElse(
        Box::new(Expr::IntegerConstant(1, p(5, 5))),
        Box::new(Stmt::Noop(p(1, 1))),
        None,
    )]) {
        Err(EvalAltResult::ErrorLogicGuard(pos)) => assert_eq!(pos, p(5, 5)),
        _ => panic!("should want a boolean"),
    }
    match run(vec![Stmt::While(Box::new(num(1)), Box::new(Stmt::Noop(p(1, 1))))]) {
        Err(EvalAltResult::ErrorLogicGuard(_)) => (),
        _ => panic!("should want a boolean"),
    }
}

#[test]
fn error_runtime_from_throw_and_from_a_native_function() {
    match run(vec![Stmt::ReturnWithVal(
        Some(Box::new(text("boom"))),
        ReturnType::Exception,
        p(1, 1),
    )]) {
        Err(EvalAltResult::ErrorRuntime(msg, _)) => assert_eq!(msg, "boom"),
        _ => panic!("should be thrown"),
    }
    match run(vec![Stmt::ReturnWithVal(None, ReturnType::Exception, p(1, 1))]) {
        Err(EvalAltResult::ErrorRuntime(msg, _)) => assert_eq!(msg, ""),
        _ => panic!("should be thrown"),
    }
    match run(vec![Stmt::ReturnWithVal(Some(Box::new(num(1))), ReturnType::Exception, p(1, 1))]) {
        Err(EvalAltResult::ErrorRuntime(msg, _)) => assert_eq!(msg, ""),
        _ => panic!("should be thrown"),
    }
    match run(vec![stmt(call("+", vec![num(i64::MAX), num(1)]))]) {
        Err(EvalAltResult::ErrorRuntime(msg, _)) => assert_eq!(msg, "Addition overflow"),
        _ => panic!("should overflow"),
    }
    match run(vec![stmt(call("-", vec![num(i64::MIN), num(1)]))]) {
        Err(EvalAltResult::ErrorRuntime(msg, _)) => assert_eq!(msg, "Subtraction underflow"),
        _ => panic!("should overflow"),
    }
    match run(vec![stmt(call("*", vec![num(i64::MAX), num(2)]))]) {
        Err(EvalAltResult::ErrorRuntime(msg, _)) => assert_eq!(msg, "Multiplication overflow"),
        _ => panic!("should overflow"),
    }
    match run(vec![stmt(call("-", vec![num(i64::MIN)]))]) {
        Err(EvalAltResult::ErrorRuntime(msg, _)) => assert_eq!(msg, "Negation overflow"),
        _ => panic!("should overflow"),
    }
}

#[test]
fn error_in_a_function_moves_to_the_call() {
    let fails = FnDef {
        name: "fails".to_string(),
        params: vec![],
        body: Box::new(stmt(var("nobody"))),
        pos: p(1, 1),
    };
    let ast = AST::new(vec![stmt(call("fails", vec![]))], FunctionsLib::from_vec(vec![fails]));
    match Engine::new().eval_ast(&ast) {
        Err(EvalAltResult::ErrorVariableNotFound(name, pos)) => {
            assert_eq!(name, "nobody");
            assert_eq!(pos, p(2, 2));
        }
        _ => panic!("should not be found"),
    }
}

#[test]
fn error_too_many_operations() {
    let mut engine = Engine::new();
    engine.set_max_loop_rounds(10);
    let endless = AST::new(vec![Stmt::Loop(Box::new(Stmt::Noop(p(1, 1))))], FunctionsLib::new());
    match engine.eval_ast(&endless) {
        Err(EvalAltResult::ErrorTooManyOperations(_)) => (),
        _ => panic!("should run out of rounds"),
    }
    let endless = AST::new(
        vec![Stmt::While(Box::new(Expr::True(p(1, 1))), Box::new(Stmt::Noop(p(1, 1))))],
        FunctionsLib::new(),
    );
    match engine.eval_ast(&endless) {
        Err(EvalAltResult::ErrorTooManyOperations(_)) => (),
        _ => panic!("should run out of rounds"),
    }
}

#[test]
fn error_stack_overflow_at_the_limit() {
    let mut engine = Engine::new();
    engine.set_max_call_levels(3);
    let calls = |n: &str, m: &str| FnDef {
        name: n.to_string(),
        params: vec![],
        body: Box::new(stmt(call(m, vec![]))),
        pos: p(1, 1),
    };
    let last = FnDef { name: "d".to_string(), params: vec![], body: Box::new(stmt(num(1))), pos: p(1, 1) };
    // a -> b -> c -> d: the calls are at levels 0, 1, 2 and 3
    let lib = FunctionsLib::from_vec(vec![calls("a", "b"), calls("b", "c"), calls("c", "d"), last]);
    let ast = AST::new(vec![stmt(call("a", vec![]))], lib);
    match engine.eval_ast(&ast) {
        Ok(Dynamic::Int(1)) => (),
        _ => panic!("should be one"),
    }
    engine.set_max_call_levels(2);
    match engine.eval_ast(&ast) {
        Err(EvalAltResult::ErrorStackOverflow(_)) => (),
        _ => panic!("should be stack overflow"),
    }
}

#[test]
fn error_function_args_mismatch() {
    assert!(check_num_args("f", 2, 2, p(1, 1)).is_ok());
    match check_num_args("f", 2, 3, p(1, 1)) {
        Err(EvalAltResult::ErrorFunctionArgsMismatch(name, wanted, given, pos)) => {
            assert_eq!(name, "f");
            assert_eq!((wanted, given), (2, 3));
            assert_eq!(pos, p(1, 1));
        }
        _ => panic!("should be a mismatch"),
    }
}

#[test]
fn error_position_can_be_moved() {
    let e = EvalAltResult::ErrorModuleNotFound("m".to_string(), p(1, 1));
    assert_eq!(e.position(), p(1, 1));
    let moved = e.set_position(p(2, 3));
    assert_eq!(moved.position(), p(2, 3));
    assert!(matches!(moved, EvalAltResult::ErrorModuleNotFound(name, _) if name == "m"));
    let r = EvalAltResult::Return(Dynamic::Int(1), p(1, 1)).set_position(p(5, 5));
    assert!(matches!(r, EvalAltResult::Return(Dynamic::Int(1), pos) if pos == p(5, 5)));
    let b = EvalAltResult::ErrorLoopBreak(true, p(1, 1)).set_position(p(6, 6));
    assert!(matches!(b, EvalAltResult::ErrorLoopBreak(true, pos) if pos == p(6, 6)));
    let s: EvalAltResult = EvalAltResult::ErrorParsing(ParseErrorType::BadInput, p(1, 1));
    assert_eq!(s.position(), p(1, 1));
}
