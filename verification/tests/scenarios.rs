use rhai::any::Dynamic;
use rhai::api::{cast_bool, cast_char, cast_int, cast_string};
use rhai::engine::{Engine, FunctionsLib};
use rhai::optimize::{optimize_into_ast, OptimizationLevel};

use rhai::parser::{Expr, FnDef, ReturnType, Stmt, AST};
use rhai::result::EvalAltResult;
use rhai::scope::Scope;
use rhai::token::Position;

fn p(line: u16, pos: u16) -> Position {
    Position::new(line, pos)
}

fn num(i: i64) -> Expr {
    Expr::IntegerConstant(i, p(1, 1))
}

fn text(s: &str) -> Expr {
    Expr::StringConstant(s.to_string(), p(1, 1))
}

fn var(name: &str) -> Expr {
    Expr::Variable(name.to_string(), None, p(1, 1))
}

fn call(name: &str, args: Vec<Expr>) -> Expr {
    Expr::FnCall(name.to_string(), args, None, p(1, 2))
}

fn index(lhs: Expr, idx: Expr) -> Expr {
    Expr::Index(Box::new(lhs), Box::new(idx), p(1, 3))
}

fn dot(lhs: Expr, rhs: Expr) -> Expr {
    Expr::Dot(Box::new(lhs), Box::new(rhs), p(1, 4))
}

fn prop(name: &str) -> Expr {
    Expr::Property(name.to_string(), p(1, 5))
}

fn assign(lhs: Expr, rhs: Expr) -> Expr {
    Expr::Assignment(Box::new(lhs), Box::new(rhs), p(1, 6))
}

fn stmt(e: Expr) -> Stmt {
    Stmt::Expr(Box::new(e))
}

fn let_(name: &str, e: Expr) -> Stmt {
    Stmt::Let(name.to_string(), Some(Box::new(e)), p(1, 7))
}

fn block(stmts: Vec<Stmt>) -> Stmt {
    Stmt::Block(stmts, p(1, 8))
}

fn script(stmts: Vec<Stmt>) -> AST {
    AST::new(stmts, FunctionsLib::new())
}

/// fn f(n) { if n == 0 { 0 } else { n + f(n - 1) } }
fn sum_to() -> FnDef {
    FnDef {
        name: "f".to_string(),
        params: vec!["n".to_string()],
        body: Box::new(Stmt::IfThenElse(
            Box::new(call("==", vec![var("n"), num(0)])),
            Box::new(block(vec![stmt(num(0))])),
            Some(Box::new(block(vec![stmt(call(
                "+",
                vec![var("n"), call("f", vec![call("-", vec![var("n"), num(1)])])],
            ))]))),
        )),
        pos: p(1, 1),
    }
}

#[test]
fn scenario_addition() {
    let engine = Engine::new();
    let ast = script(vec![stmt(call("+", vec![num(40), num(2)]))]);
    let result = engine.eval_ast(&ast).unwrap();
    assert_eq!(cast_int(result).unwrap(), 42);
}

#[test]
fn scenario_array_element_write() {
    let engine = Engine::new();
    let ast = script(vec![
        let_("a", Expr::Array(vec![num(1), num(2), num(3)], p(1, 1))),
        stmt(assign(index(var("a"), num(1)), num(20))),
        stmt(call(
            "+",
            vec![
                call("+", vec![index(var("a"), num(0)), index(var("a"), num(1))]),
                index(var("a"), num(2)),
            ],
        )),
    ]);
    let result = engine.eval_ast(&ast).unwrap();
    assert_eq!(cast_int(result).unwrap(), 24);
}

#[test]
fn scenario_map_property_write() {
    let engine = Engine::new();
    let ast = script(vec![
        let_("m", Expr::ObjMap(vec![("x".to_string(), num(1), p(1, 1))], p(1, 1))),
        stmt(assign(
            dot(var("m"), prop("x")),
            call("+", vec![dot(var("m"), prop("x")), num(41)]),
        )),
        stmt(dot(var("m"), prop("x"))),
    ]);
    let result = engine.eval_ast(&ast).unwrap();
    assert_eq!(cast_int(result).unwrap(), 42);
}

#[test]
fn scenario_recursion() {
    let engine = Engine::new();
    let ast = AST::new(
        vec![stmt(call("f", vec![num(25)]))],
        FunctionsLib::from_vec(vec![sum_to()]),
    );
    let result = engine.eval_ast(&ast).unwrap();
    assert_eq!(cast_int(result).unwrap(), 325);
}

#[test]
fn scenario_recursion_too_deep() {
    let engine = Engine::new();
    assert_eq!(engine.max_call_stack_depth, 28);
    let ast = AST::new(
        vec![stmt(call("f", vec![num(1000)]))],
        FunctionsLib::from_vec(vec![sum_to()]),
    );
    match engine.eval_ast(&ast) {
        Err(EvalAltResult::ErrorStackOverflow(_)) => (),
        _ => panic!("should be stack overflow"),
    }
}

#[test]
fn test_stack_overflow() {
    let engine = Engine::new();

    let ast = AST::new(
        vec![stmt(call("f", vec![num(25)]))],
        FunctionsLib::from_vec(vec![sum_to()]),
    );
    assert_eq!(cast_int(engine.eval_ast(&ast).unwrap()).unwrap(), 325);

    let ast = AST::new(
        vec![stmt(call("f", vec![num(1000)]))],
        FunctionsLib::from_vec(vec![sum_to()]),
    );
    match engine.eval_ast(&ast) {
        Ok(_) => panic!("should be stack overflow"),
        Err(err) => match err {
            EvalAltResult::ErrorStackOverflow(_) => (),
            _ => panic!("should be stack overflow"),
        },
    }
}

#[test]
fn test_mismatched_op() {
    let engine = Engine::new();
    let ast = script(vec![stmt(call("+", vec![text("hello, "), text("world!")]))]);
    let result = engine.eval_ast(&ast).unwrap();
    assert!(matches!(
        cast_int(result).expect_err("expects error"),
        EvalAltResult::ErrorMismatchOutputType(err, _) if err == "string"
    ));
}

#[test]
fn scenario_string_concat_value() {
    let engine = Engine::new();
    let ast = script(vec![stmt(call("+", vec![text("hello, "), text("world!")]))]);
    let result = engine.eval_ast(&ast).unwrap();
    assert_eq!(cast_string(result).unwrap(), "hello, world!");
}

#[test]
fn scenario_string_character_write() {
    let engine = Engine::new();
    let ast = script(vec![
        let_("s", text("abc")),
        stmt(assign(index(var("s"), num(1)), Expr::CharConstant('X', p(1, 1)))),
        stmt(var("s")),
    ]);
    let result = engine.eval_ast(&ast).unwrap();
    assert_eq!(cast_string(result).unwrap(), "aXc");
}

#[test]
fn string_character_write_of_same_character() {
    let engine = Engine::new();
    let ast = script(vec![
        let_("s", text("abc")),
        stmt(assign(index(var("s"), num(1)), Expr::CharConstant('b', p(1, 1)))),
        stmt(var("s")),
    ]);
    let result = engine.eval_ast(&ast).unwrap();
    assert_eq!(cast_string(result).unwrap(), "abc");
}

#[test]
fn string_character_read() {
    let engine = Engine::new();
    let ast = script(vec![let_("s", text("h\u{e9}llo")), stmt(index(var("s"), num(1)))]);
    assert_eq!(cast_char(engine.eval_ast(&ast).unwrap()).unwrap(), '\u{e9}');
    assert!(cast_char(Dynamic::Int(1)).is_err());
}

#[test]
fn scenario_in_map() {
    let engine = Engine::new();
    let ast = script(vec![stmt(Expr::In(
        Box::new(text("a")),
        Box::new(Expr::ObjMap(vec![("a".to_string(), num(1), p(1, 1))], p(1, 1))),
        p(1, 1),
    ))]);
    let result = engine.eval_ast(&ast).unwrap();
    assert_eq!(cast_bool(result).unwrap(), true);
}

#[test]
fn scenario_block_scope() {
    let engine = Engine::new();
    let ast = script(vec![
        let_("x", num(10)),
        block(vec![let_("x", num(1))]),
        stmt(var("x")),
    ]);
    let result = engine.eval_ast(&ast).unwrap();
    assert_eq!(cast_int(result).unwrap(), 10);
}

#[test]
fn scenario_assignment_to_constant() {
    let engine = Engine::new();
    let ast = script(vec![
        Stmt::Const("K".to_string(), Box::new(num(3)), p(1, 1)),
        stmt(assign(var("K"), num(4))),
    ]);
    match engine.eval_ast(&ast) {
        Err(EvalAltResult::ErrorAssignmentToConstant(name, _)) => assert_eq!(name, "K"),
        _ => panic!("should be assignment to constant"),
    }
}

#[test]
fn constant_refuses_chain_write() {
    let engine = Engine::new();
    let mut scope = Scope::new();
    scope.push_constant("K", Dynamic::Array(vec![Dynamic::Int(1), Dynamic::Int(2)]));
    let ast = script(vec![stmt(assign(index(var("K"), num(0)), num(9)))]);
    match engine.eval_ast_with_scope(&mut scope, &ast) {
        Err(EvalAltResult::ErrorAssignmentToConstant(name, _)) => assert_eq!(name, "K"),
        _ => panic!("should be assignment to constant"),
    }
    match scope.get_value("K").unwrap() {
        Dynamic::Array(items) => {
            assert_eq!(items.len(), 2);
            assert!(matches!(items[0], Dynamic::Int(1)));
        }
        _ => panic!("should be an array"),
    }
}

#[test]
fn evaluation_is_deterministic() {
    let engine = Engine::new();
    let ast = script(vec![
        let_("a", Expr::Array(vec![num(1), num(2), num(3)], p(1, 1))),
        stmt(assign(index(var("a"), num(2)), call("*", vec![num(6), num(7)]))),
        stmt(index(var("a"), num(2))),
    ]);
    let mut first_scope = Scope::new();
    first_scope.push("z", Dynamic::Int(1));
    let mut second_scope = Scope::new();
    second_scope.push("z", Dynamic::Int(1));
    let first = engine.eval_ast_with_scope(&mut first_scope, &ast).unwrap();
    let second = engine.eval_ast_with_scope(&mut second_scope, &ast).unwrap();
    assert_eq!(cast_int(first).unwrap(), 42);
    assert_eq!(cast_int(second).unwrap(), 42);
    assert_eq!(first_scope.len(), second_scope.len());
    assert_eq!(first_scope.len(), 2);
    assert!(first_scope.contains("a"));
    assert!(second_scope.contains("a"));
}

#[test]
fn scenarios_after_optimization() {
    let engine = Engine::new();
    let scope = Scope::new();
    // let x = 10; { let x = 1; } x
    let ast = optimize_into_ast(
        &engine,
        &scope,
        vec![let_("x", num(10)), block(vec![let_("x", num(1))]), stmt(var("x"))],
        vec![],
        OptimizationLevel::Simple,
    );
    assert_eq!(cast_int(engine.eval_ast(&ast).unwrap()).unwrap(), 10);

    // f(25) with the body of f optimized
    let ast = optimize_into_ast(
        &engine,
        &scope,
        vec![stmt(call("f", vec![num(25)]))],
        vec![sum_to()],
        OptimizationLevel::Full,
    );
    assert_eq!(cast_int(engine.eval_ast(&ast).unwrap()).unwrap(), 325);
}

#[test]
fn nested_index_chain_round_trip() {
    let engine = Engine::new();
    // let a = [[1, 2], [3, 4]]; a[1][0] = 30; a[1][0] + a[0][1]
    let row = |x: i64, y: i64| Expr::Array(vec![num(x), num(y)], p(1, 1));
    let cell = |i: i64, j: i64| {
        Expr::Index(
            Box::new(var("a")),
            Box::new(Expr::Index(Box::new(num(i)), Box::new(num(j)), p(1, 3))),
            p(1, 3),
        )
    };
    let ast = script(vec![
        let_("a", Expr::Array(vec![row(1, 2), row(3, 4)], p(1, 1))),
        stmt(assign(cell(1, 0), num(30))),
        stmt(call("+", vec![cell(1, 0), cell(0, 1)])),
    ]);
    assert_eq!(cast_int(engine.eval_ast(&ast).unwrap()).unwrap(), 32);
}

#[test]
fn map_in_array_chain_round_trip() {
    let engine = Engine::new();
    // let a = [#{x: 1}]; a[0].x = 5; a[0].y = 7; a[0].x + a[0].y
    let field = |name: &str| {
        Expr::Index(
            Box::new(var("a")),
            Box::new(Expr::Dot(Box::new(num(0)), Box::new(prop(name)), p(1, 4))),
            p(1, 3),
        )
    };
    let ast = script(vec![
        let_(
            "a",
            Expr::Array(
                vec![Expr::ObjMap(vec![("x".to_string(), num(1), p(1, 1))], p(1, 1))],
                p(1, 1),
            ),
        ),
        stmt(assign(field("x"), num(5))),
        stmt(assign(field("y"), num(7))),
        stmt(call("+", vec![field("x"), field("y")])),
    ]);
    assert_eq!(cast_int(engine.eval_ast(&ast).unwrap()).unwrap(), 12);
}

#[test]
fn while_loop_counts() {
    let engine = Engine::new();
    // let i = 0; let s = 0; while i < 5 { i = i + 1; if i == 3 { continue; } s = s + i; } s
    let ast = script(vec![
        let_("i", num(0)),
        let_("s", num(0)),
        Stmt::While(
            Box::new(call("<", vec![var("i"), num(5)])),
            Box::new(block(vec![
                stmt(assign(var("i"), call("+", vec![var("i"), num(1)]))),
                Stmt::IfThenElse(
                    Box::new(call("==", vec![var("i"), num(3)])),
                    Box::new(block(vec![Stmt::Continue(p(2, 1))])),
                    None,
                ),
                stmt(assign(var("s"), call("+", vec![var("s"), var("i")]))),
            ])),
        ),
        stmt(var("s")),
    ]);
    assert_eq!(cast_int(engine.eval_ast(&ast).unwrap()).unwrap(), 12);
}

#[test]
fn loop_with_break() {
    let engine = Engine::new();
    // let i = 0; loop { i = i + 1; if i == 4 { break; } } i
    let ast = script(vec![
        let_("i", num(0)),
        Stmt::Loop(Box::new(block(vec![
            stmt(assign(var("i"), call("+", vec![var("i"), num(1)]))),
            Stmt::IfThenElse(
                Box::new(call("==", vec![var("i"), num(4)])),
                Box::new(block(vec![Stmt::Break(p(2, 1))])),
                None,
            ),
        ]))),
        stmt(var("i")),
    ]);
    assert_eq!(cast_int(engine.eval_ast(&ast).unwrap()).unwrap(), 4);
}

#[test]
fn for_loop_over_array() {
    let engine = Engine::new();
    // let s = 0; for x in [1, 2, 3, 4] { s = s + x; } s
    let ast = script(vec![
        let_("s", num(0)),
        Stmt::For(
            "x".to_string(),
            Box::new(Expr::Array(vec![num(1), num(2), num(3), num(4)], p(1, 1))),
            Box::new(block(vec![stmt(assign(var("s"), call("+", vec![var("s"), var("x")])))])),
        ),
        stmt(var("s")),
    ]);
    let mut scope = Scope::new();
    assert_eq!(cast_int(engine.eval_ast_with_scope(&mut scope, &ast).unwrap()).unwrap(), 10);
    assert!(!scope.contains("x"));
    assert!(scope.contains("s"));
}

#[test]
fn return_ends_a_function_and_a_script() {
    let engine = Engine::new();
    let early = FnDef {
        name: "g".to_string(),
        params: vec![],
        body: Box::new(block(vec![
            Stmt::ReturnWithVal(Some(Box::new(num(7))), ReturnType::Return, p(3, 1)),
            stmt(num(8)),
        ])),
        pos: p(1, 1),
    };
    let ast = AST::new(vec![stmt(call("g", vec![]))], FunctionsLib::from_vec(vec![early]));
    assert_eq!(cast_int(engine.eval_ast(&ast).unwrap()).unwrap(), 7);

    let ast = script(vec![
        Stmt::ReturnWithVal(Some(Box::new(num(5))), ReturnType::Return, p(1, 1)),
        stmt(num(6)),
    ]);
    assert_eq!(cast_int(engine.eval_ast(&ast).unwrap()).unwrap(), 5);
}

#[test]
fn short_circuit_skips_the_right_operand() {
    let engine = Engine::new();
    let ast = script(vec![stmt(Expr::And(
        Box::new(Expr::False(p(1, 1))),
        Box::new(var("missing")),
        p(1, 1),
    ))]);
    assert_eq!(cast_bool(engine.eval_ast(&ast).unwrap()).unwrap(), false);
    let ast = script(vec![stmt(Expr::Or(
        Box::new(Expr::True(p(1, 1))),
        Box::new(var("missing")),
        p(1, 1),
    ))]);
    assert_eq!(cast_bool(engine.eval_ast(&ast).unwrap()).unwrap(), true);
}

#[test]
fn cached_index_and_name_search() {
    let engine = Engine::new();
    let mut scope = Scope::new();
    scope.push("a", Dynamic::Int(1));
    scope.push("b", Dynamic::Int(2));
    // a distance of two from the top is the entry of `a`, whatever the name says
    let ast = script(vec![stmt(Expr::Variable("b".to_string(), Some(2), p(1, 1)))]);
    assert_eq!(cast_int(engine.eval_ast_with_scope(&mut scope, &ast).unwrap()).unwrap(), 1);
    // a distance beyond the scope falls back on the name
    let ast = script(vec![stmt(Expr::Variable("b".to_string(), Some(9), p(1, 1)))]);
    assert_eq!(cast_int(engine.eval_ast_with_scope(&mut scope, &ast).unwrap()).unwrap(), 2);
}

#[test]
fn type_of_gives_the_type_name() {
    let mut engine = Engine::new();
    let ast = script(vec![stmt(call("type_of", vec![num(1)]))]);
    assert_eq!(cast_string(engine.eval_ast(&ast).unwrap()).unwrap(), "i64");
    engine.register_type_with_name("i64", "integer");
    assert_eq!(cast_string(engine.eval_ast(&ast).unwrap()).unwrap(), "integer");
}

#[test]
fn call_fn_runs_a_script_function() {
    let engine = Engine::new();
    let ast = AST::new(vec![], FunctionsLib::from_vec(vec![sum_to()]));
    let mut scope = Scope::new();
    scope.push("outer", Dynamic::Int(1));
    let mut args = vec![Dynamic::Int(4)];
    let result = engine.call_fn(&mut scope, &ast, "f", &mut args).unwrap();
    assert_eq!(cast_int(result).unwrap(), 10);
    assert_eq!(scope.len(), 1);
    let mut none: Vec<Dynamic> = vec![];
    match engine.call_fn(&mut scope, &ast, "f", &mut none) {
        Err(EvalAltResult::ErrorFunctionNotFound(name, _)) => assert_eq!(name, "f"),
        _ => panic!("should not be found"),
    }
}
