use rhai::any::Dynamic;
use rhai::api::cast_int;
use rhai::engine::Engine;
use rhai::optimize::{
    call_fn, cut_dead, drop_pure, optimize, optimize_expr, optimize_into_ast, optimize_stmt,
    strip_lets, OptimizationLevel, State,
};
use rhai::parser::{map_dynamic_to_expr, Expr, FnDef, ReturnType, Stmt};
use rhai::scope::Scope;
use rhai::token::Position;

fn p(line: u16, pos: u16) -> Position {
    Position::new(line, pos)
}

fn num(i: i64) -> Expr {
    Expr::IntegerConstant(i, p(1, 1))
}

fn text(s: &str) -> Expr {
    Expr::StringConstant(s.to_string(), p(1, 1))
}

fn var(name: &str) -> Expr {
    Expr::Variable(name.to_string(), None, p(4, 4))
}

fn call(name: &str, args: Vec<Expr>) -> Expr {
    Expr::FnCall(name.to_string(), args, None, p(2, 2))
}

fn stmt(e: Expr) -> Stmt {
    Stmt::Expr(Box::new(e))
}

fn let_(name: &str, e: Expr) -> Stmt {
    Stmt::Let(name.to_string(), Some(Box::new(e)), p(1, 7))
}

fn assign(lhs: Expr, rhs: Expr) -> Expr {
    Expr::Assignment(Box::new(lhs), Box::new(rhs), p(6, 6))
}

/// Optimize one expression at the given level; also say whether anything changed.
fn opt_expr(e: Expr, level: OptimizationLevel) -> (Expr, bool) {
    let engine = Engine::new();
    let names: Vec<(String, usize)> = vec![("scripted".to_string(), 1)];
    let mut state = State::new(&engine, &names, level);
    let r = optimize_expr(e, &mut state);
    (r, state.is_dirty())
}

fn simple(e: Expr) -> Expr {
    opt_expr(e, OptimizationLevel::Simple).0
}

fn full(e: Expr) -> Expr {
    opt_expr(e, OptimizationLevel::Full).0
}

/// Optimize one statement at the simple level.
fn opt_stmt(s: Stmt, preserve_result: bool) -> (Stmt, bool) {
    let engine = Engine::new();
    let names: Vec<(String, usize)> = vec![];
    let mut state = State::new(&engine, &names, OptimizationLevel::Simple);
    let r = optimize_stmt(s, &mut state, preserve_result);
    (r, state.is_dirty())
}

#[test]
fn levels() {
    assert!(OptimizationLevel::Off.is_none());
    assert!(!OptimizationLevel::Simple.is_none());
    assert!(OptimizationLevel::Full.is_full());
    assert!(!OptimizationLevel::Simple.is_full());
}

#[test]
fn if_with_a_constant_guard() {
    let noisy = || stmt(call("f", vec![]));
    let (r, dirty) = opt_stmt(
        Stmt::IfThenElse(Box::new(Expr::False(p(9, 9))), Box::new(noisy()), None),
        true,
    );
    assert!(matches!(r, Stmt::Noop(pos) if pos == p(9, 9)));
    assert!(dirty);

    let (r, _) = opt_stmt(
        Stmt::IfThenElse(Box::new(Expr::True(p(9, 9))), Box::new(noisy()), Some(Box::new(stmt(num(2))))),
        true,
    );
    assert!(matches!(r, Stmt::Expr(e) if matches!(*e, Expr::FnCall(_, _, _, _))));

    let (r, _) = opt_stmt(
        Stmt::IfThenElse(Box::new(Expr::False(p(9, 9))), Box::new(noisy()), Some(Box::new(stmt(num(2))))),
        true,
    );
    assert!(matches!(r, Stmt::Expr(e) if matches!(*e, Expr::IntegerConstant(2, _))));

    let (r, _) = opt_stmt(
        Stmt::IfThenElse(Box::new(Expr::True(p(9, 9))), Box::new(noisy()), None),
        true,
    );
    assert!(matches!(r, Stmt::Expr(_)));
}

#[test]
fn if_with_an_empty_branch() {
    // if expr { } -> expr, or { expr; no-op } where the result is kept
    let empty = || Stmt::IfThenElse(Box::new(var("x")), Box::new(Stmt::Noop(p(1, 1))), None);
    let (r, dirty) = opt_stmt(empty(), false);
    assert!(matches!(r, Stmt::Expr(e) if matches!(*e, Expr::Variable(_, _, _))));
    assert!(dirty);
    let (r, _) = opt_stmt(empty(), true);
    match r {
        Stmt::Block(stmts, pos) => {
            assert_eq!(stmts.len(), 2);
            assert_eq!(pos, p(4, 4));
            assert!(matches!(stmts[0], Stmt::Expr(_)));
            assert!(matches!(stmts[1], Stmt::Noop(_)));
        }
        _ => panic!("should be a block"),
    }
    // an else branch that comes to nothing is dropped
    let (r, _) = opt_stmt(
        Stmt::IfThenElse(
            Box::new(var("x")),
            Box::new(stmt(call("f", vec![]))),
            Some(Box::new(Stmt::Block(vec![], p(1, 1)))),
        ),
        true,
    );
    assert!(matches!(r, Stmt::IfThenElse(_, _, None)));
}

#[test]
fn loops_with_constant_guards_and_lone_breaks() {
    let body = || stmt(call("f", vec![]));
    let (r, _) = opt_stmt(Stmt::While(Box::new(Expr::False(p(9, 9))), Box::new(body())), false);
    assert!(matches!(r, Stmt::Noop(pos) if pos == p(9, 9)));
    let (r, _) = opt_stmt(Stmt::While(Box::new(Expr::True(p(9, 9))), Box::new(body())), false);
    assert!(matches!(r, Stmt::Loop(_)));
    let (r, _) =
        opt_stmt(Stmt::While(Box::new(var("x")), Box::new(Stmt::Break(p(8, 8)))), false);
    match r {
        Stmt::Block(stmts, pos) => {
            assert_eq!(stmts.len(), 1);
            assert_eq!(pos, p(8, 8));
            assert!(matches!(&stmts[0], Stmt::Expr(e) if matches!(**e, Expr::Variable(_, _, _))));
        }
        _ => panic!("should be a block"),
    }
    let (r, _) = opt_stmt(Stmt::While(Box::new(var("x")), Box::new(Stmt::Break(p(8, 8)))), true);
    assert!(matches!(r, Stmt::Block(stmts, _) if stmts.len() == 2));
    let (r, _) = opt_stmt(Stmt::Loop(Box::new(Stmt::Break(p(8, 8)))), false);
    assert!(matches!(r, Stmt::Noop(pos) if pos == p(8, 8)));
    let (r, _) = opt_stmt(Stmt::Loop(Box::new(body())), false);
    assert!(matches!(r, Stmt::Loop(_)));
    let (r, _) = opt_stmt(Stmt::While(Box::new(var("x")), Box::new(body())), false);
    assert!(matches!(r, Stmt::While(_, _)));
}

#[test]
fn block_flattening() {
    // pure statements go, but for the last one
    let (r, dirty) = opt_stmt(
        Stmt::Block(vec![stmt(num(1)), stmt(call("f", vec![])), stmt(var("x")), stmt(num(4))], p(1, 1)),
        true,
    );
    assert!(dirty);
    match r {
        Stmt::Block(stmts, _) => {
            assert_eq!(stmts.len(), 2);
            assert!(matches!(&stmts[0], Stmt::Expr(e) if matches!(**e, Expr::FnCall(_, _, _, _))));
            assert!(matches!(&stmts[1], Stmt::Expr(e) if matches!(**e, Expr::IntegerConstant(4, _))));
        }
        _ => panic!("should be a block"),
    }
    // where the result is not kept, the last one goes too
    let (r, _) = opt_stmt(Stmt::Block(vec![stmt(call("f", vec![])), stmt(num(4))], p(1, 1)), false);
    assert!(matches!(r, Stmt::Expr(e) if matches!(*e, Expr::FnCall(_, _, _, _))));
    // an empty block is a no-op, a block of one statement is that statement
    let (r, _) = opt_stmt(Stmt::Block(vec![], p(7, 7)), true);
    assert!(matches!(r, Stmt::Noop(pos) if pos == p(7, 7)));
    let (r, _) = opt_stmt(Stmt::Block(vec![stmt(call("f", vec![]))], p(7, 7)), true);
    assert!(matches!(r, Stmt::Expr(_)));
    // trailing `let`s with pure values go; a no-op stands for them where the result is kept
    let (r, _) = opt_stmt(
        Stmt::Block(
            vec![
                stmt(call("f", vec![])),
                let_("a", num(1)),
                Stmt::Let("b".to_string(), None, p(1, 1)),
            ],
            p(7, 7),
        ),
        true,
    );
    match r {
        Stmt::Block(stmts, _) => {
            assert_eq!(stmts.len(), 2);
            assert!(matches!(stmts[1], Stmt::Noop(pos) if pos == p(7, 7)));
        }
        _ => panic!("should be a block"),
    }
    // a trailing `let` with a value that is not pure stays
    let (r, _) = opt_stmt(
        Stmt::Block(vec![stmt(call("f", vec![])), let_("a", call("g", vec![]))], p(7, 7)),
        true,
    );
    assert!(matches!(r, Stmt::Block(stmts, _) if stmts.len() == 2 && matches!(stmts[1], Stmt::Let(_, _, _))));
    // what follows a `return` or a `break` goes
    let (r, _) = opt_stmt(
        Stmt::Block(
            vec![
                stmt(call("f", vec![])),
                Stmt::ReturnWithVal(None, ReturnType::Return, p(1, 1)),
                stmt(call("g", vec![])),
                stmt(call("h", vec![])),
            ],
            p(7, 7),
        ),
        true,
    );
    assert!(matches!(r, Stmt::Block(stmts, _) if stmts.len() == 2 && matches!(stmts[1], Stmt::ReturnWithVal(_, _, _))));
}

#[test]
fn list_helpers() {
    let kept = drop_pure(vec![stmt(num(1)), stmt(call("f", vec![])), stmt(num(2))], true);
    assert_eq!(kept.len(), 2);
    let kept = drop_pure(vec![stmt(num(1)), stmt(call("f", vec![])), stmt(num(2))], false);
    assert_eq!(kept.len(), 1);
    assert_eq!(drop_pure(vec![], true).len(), 0);

    let (kept, removed) = strip_lets(vec![stmt(num(1)), let_("a", num(1)), let_("b", var("x"))]);
    assert_eq!(kept.len(), 1);
    assert!(removed);
    let (kept, removed) = strip_lets(vec![let_("a", num(1)), stmt(num(1))]);
    assert_eq!(kept.len(), 2);
    assert!(!removed);

    let kept = cut_dead(vec![stmt(num(1)), Stmt::Break(p(1, 1)), stmt(num(2)), stmt(num(3))]);
    assert_eq!(kept.len(), 2);
    let kept = cut_dead(vec![stmt(num(1)), stmt(num(2))]);
    assert_eq!(kept.len(), 2);
}

#[test]
fn statement_expressions() {
    let (r, dirty) = opt_expr(
        Expr::Stmt(Box::new(Stmt::Noop(p(1, 1))), p(8, 8)),
        OptimizationLevel::Simple,
    );
    assert!(matches!(r, Expr::Unit(pos) if pos == p(8, 8)));
    assert!(dirty);
    let r = simple(Expr::Stmt(Box::new(stmt(var("x"))), p(8, 8)));
    assert!(matches!(r, Expr::Variable(name, _, _) if name == "x"));
    let r = simple(Expr::Stmt(Box::new(let_("a", call("f", vec![]))), p(8, 8)));
    assert!(matches!(r, Expr::Stmt(_, pos) if pos == p(8, 8)));
}

#[test]
fn double_assignment_to_the_same_variable() {
    let r = simple(assign(var("x"), assign(var("x"), call("f", vec![]))));
    match r {
        Expr::Assignment(lhs, rhs, pos) => {
            assert_eq!(pos, p(6, 6));
            assert!(matches!(*lhs, Expr::Variable(name, _, at) if name == "x" && at == p(6, 6)));
            assert!(matches!(*rhs, Expr::FnCall(_, _, _, _)));
        }
        _ => panic!("should be an assignment"),
    }
    let r = simple(assign(var("x"), assign(var("y"), call("f", vec![]))));
    assert!(matches!(r, Expr::Assignment(_, rhs, _) if matches!(*rhs, Expr::Assignment(_, _, _))));
}

#[test]
fn literal_collections_are_looked_into() {
    let map = || {
        Expr::ObjMap(
            vec![("a".to_string(), num(1), p(1, 1)), ("b".to_string(), num(2), p(1, 1))],
            p(5, 5),
        )
    };
    let r = simple(Expr::Dot(Box::new(map()), Box::new(Expr::Property("b".to_string(), p(1, 1))), p(1, 1)));
    assert!(matches!(r, Expr::IntegerConstant(2, pos) if pos == p(5, 5)));
    let r = simple(Expr::Dot(Box::new(map()), Box::new(Expr::Property("c".to_string(), p(1, 1))), p(1, 1)));
    assert!(matches!(r, Expr::Unit(pos) if pos == p(5, 5)));
    let r = simple(Expr::Index(Box::new(map()), Box::new(text("a")), p(1, 1)));
    assert!(matches!(r, Expr::IntegerConstant(1, _)));

    let array = || Expr::Array(vec![num(10), num(20), num(30)], p(5, 5));
    let r = simple(Expr::Index(Box::new(array()), Box::new(num(1)), p(1, 1)));
    assert!(matches!(r, Expr::IntegerConstant(20, pos) if pos == p(5, 5)));
    let r = simple(Expr::Index(Box::new(array()), Box::new(num(3)), p(1, 1)));
    assert!(matches!(r, Expr::Index(_, _, _)));
    let r = simple(Expr::Index(Box::new(array()), Box::new(num(-1)), p(1, 1)));
    assert!(matches!(r, Expr::Index(_, _, _)));
    // a part that is not pure keeps the whole
    let r = simple(Expr::Index(
        Box::new(Expr::Array(vec![num(10), call("f", vec![])], p(5, 5))),
        Box::new(num(0)),
        p(1, 1),
    ));
    assert!(matches!(r, Expr::Index(_, _, _)));

    let r = simple(Expr::Index(Box::new(text("h\u{e9}llo")), Box::new(num(1)), p(1, 1)));
    assert!(matches!(r, Expr::CharConstant('\u{e9}', _)));
    let r = simple(Expr::Index(Box::new(text("abc")), Box::new(num(3)), p(1, 1)));
    assert!(matches!(r, Expr::Index(_, _, _)));
}

#[test]
fn membership_of_literals() {
    let in_ = |l: Expr, r: Expr| Expr::In(Box::new(l), Box::new(r), p(1, 1));
    assert!(matches!(simple(in_(text("bc"), text("abcd"))), Expr::True(_)));
    assert!(matches!(simple(in_(text("cb"), text("abcd"))), Expr::False(_)));
    assert!(matches!(simple(in_(Expr::CharConstant('d', p(1, 1)), text("abcd"))), Expr::True(_)));
    assert!(matches!(simple(in_(Expr::CharConstant('x', p(1, 1)), text("abcd"))), Expr::False(_)));
    let map = || Expr::ObjMap(vec![("k".to_string(), call("f", vec![]), p(1, 1))], p(1, 1));
    assert!(matches!(simple(in_(text("k"), map())), Expr::True(_)));
    assert!(matches!(simple(in_(text("j"), map())), Expr::False(_)));
    assert!(matches!(simple(in_(Expr::CharConstant('k', p(1, 1)), map())), Expr::True(_)));
    assert!(matches!(simple(in_(var("x"), text("abcd"))), Expr::In(_, _, _)));
}

#[test]
fn boolean_identities() {
    let t = || Expr::True(p(1, 1));
    let f = || Expr::False(p(3, 3));
    let and = |l: Expr, r: Expr| Expr::And(Box::new(l), Box::new(r), p(1, 1));
    let or = |l: Expr, r: Expr| Expr::Or(Box::new(l), Box::new(r), p(1, 1));
    assert!(matches!(simple(and(t(), var("x"))), Expr::Variable(_, _, _)));
    assert!(matches!(simple(and(f(), var("x"))), Expr::False(pos) if pos == p(3, 3)));
    assert!(matches!(simple(and(var("x"), t())), Expr::Variable(_, _, _)));
    assert!(matches!(simple(and(var("x"), var("y"))), Expr::And(_, _, _)));
    assert!(matches!(simple(or(f(), var("x"))), Expr::Variable(_, _, _)));
    assert!(matches!(simple(or(t(), var("x"))), Expr::True(_)));
    assert!(matches!(simple(or(var("x"), f())), Expr::Variable(_, _, _)));
    assert!(matches!(simple(or(var("x"), var("y"))), Expr::Or(_, _, _)));
}

#[test]
fn calls_are_made_ahead_of_time_at_the_full_level_only() {
    let sum = || call("+", vec![num(40), num(2)]);
    assert!(matches!(simple(sum()), Expr::FnCall(_, _, _, _)));
    assert!(matches!(full(sum()), Expr::IntegerConstant(42, pos) if pos == p(2, 2)));
    // not with an argument that is no constant
    assert!(matches!(full(call("+", vec![num(40), var("x")])), Expr::FnCall(_, _, _, _)));
    // not where the call fails
    assert!(matches!(full(call("+", vec![num(i64::MAX), num(1)])), Expr::FnCall(_, _, _, _)));
    // not a keyword
    assert!(matches!(full(call("print", vec![text("a")])), Expr::FnCall(_, _, _, _)));
    assert!(matches!(full(call("debug", vec![text("a")])), Expr::FnCall(_, _, _, _)));
    assert!(matches!(full(call("eval", vec![text("a")])), Expr::FnCall(_, _, _, _)));
    // not where the script defines the function
    assert!(matches!(full(call("scripted", vec![num(1)])), Expr::FnCall(_, _, _, _)));
    // the arguments are optimized all the same
    match full(call("scripted", vec![call("+", vec![num(1), num(1)])])) {
        Expr::FnCall(_, args, _, _) => assert!(matches!(args[0], Expr::IntegerConstant(2, _))),
        _ => panic!("should be a call"),
    }
    // `type_of` and the default value
    assert!(matches!(full(call("type_of", vec![num(1)])), Expr::StringConstant(s, _) if s == "i64"));
    let with_default = Expr::FnCall("nothing".to_string(), vec![num(1)], Some(Dynamic::Bool(false)), p(2, 2));
    assert!(matches!(full(with_default), Expr::False(_)));
    assert!(matches!(full(call("nothing", vec![num(1)])), Expr::FnCall(_, _, _, _)));
    assert!(matches!(full(call("==", vec![text("a"), text("a")])), Expr::True(_)));
}

#[test]
fn native_functions_are_called_by_name_and_types() {
    let engine = Engine::new();
    let mut args = vec![Dynamic::Int(6), Dynamic::Int(7)];
    match call_fn(&engine, "*", &mut args, p(1, 1)) {
        Ok(Some(Dynamic::Int(42))) => (),
        _ => panic!("should be forty-two"),
    }
    let mut args = vec![Dynamic::Int(6), Dynamic::Bool(true)];
    assert!(matches!(call_fn(&engine, "*", &mut args, p(1, 1)), Ok(None)));
    let mut args = vec![Dynamic::Int(i64::MAX), Dynamic::Int(2)];
    assert!(matches!(call_fn(&engine, "*", &mut args, p(1, 1)), Err(_)));
}

#[test]
fn constants_are_propagated() {
    // { const K = 3; K } -> 3
    let (r, _) = opt_stmt(
        Stmt::Block(
            vec![Stmt::Const("K".to_string(), Box::new(num(3)), p(1, 1)), stmt(var("K"))],
            p(1, 1),
        ),
        true,
    );
    assert!(matches!(r, Stmt::Expr(e) if matches!(*e, Expr::IntegerConstant(3, pos) if pos == p(4, 4))));
    // the constant is not known after its block
    let engine = Engine::new();
    let names: Vec<(String, usize)> = vec![];
    let mut state = State::new(&engine, &names, OptimizationLevel::Simple);
    let _ = optimize_stmt(
        Stmt::Block(vec![Stmt::Const("K".to_string(), Box::new(num(3)), p(1, 1)), stmt(call("f", vec![var("K")]))], p(1, 1)),
        &mut state,
        true,
    );
    assert!(!state.contains_constant("K"));
    assert!(matches!(optimize_expr(var("K"), &mut state), Expr::Variable(_, _, _)));
    // constants by hand
    state.push_constant("A".to_string(), num(1));
    state.push_constant("A".to_string(), num(2));
    assert!(state.contains_constant("A"));
    assert!(matches!(state.find_constant("A"), Some(Expr::IntegerConstant(2, _))));
    assert!(state.find_constant("B").is_none());
    state.reset();
    assert!(!state.is_dirty());
    assert!(matches!(optimize_expr(var("A"), &mut state), Expr::IntegerConstant(2, _)));
    assert!(state.is_dirty());
    state.restore_constants(1);
    assert!(matches!(state.find_constant("A"), Some(Expr::IntegerConstant(1, _))));
    state.set_dirty();
    assert!(state.is_dirty());
}

#[test]
fn scripts_are_optimized_in_passes() {
    let engine = Engine::new();
    let names: Vec<(String, usize)> = vec![];
    let mut scope = Scope::new();
    scope.push_constant("LIMIT", Dynamic::Int(10));
    scope.push("free", Dynamic::Int(1));

    // with no optimization nothing changes
    let r = optimize(vec![stmt(num(1)), stmt(num(2))], &engine, &scope, &names, OptimizationLevel::Off);
    assert_eq!(r.len(), 2);

    // const K = LIMIT; 1; if true { f(K, free) }
    let script = vec![
        Stmt::Const("K".to_string(), Box::new(num(3)), p(1, 1)),
        stmt(num(1)),
        Stmt::IfThenElse(
            Box::new(Expr::True(p(1, 1))),
            Box::new(Stmt::Block(vec![stmt(call("f", vec![var("K"), var("LIMIT"), var("free")]))], p(1, 1))),
            None,
        ),
    ];
    let r = optimize(script, &engine, &scope, &names, OptimizationLevel::Simple);
    assert_eq!(r.len(), 2);
    assert!(matches!(r[0], Stmt::Const(_, _, _)));
    match &r[1] {
        Stmt::Expr(e) => match &**e {
            Expr::FnCall(name, args, _, _) => {
                assert_eq!(name, "f");
                assert!(matches!(args[0], Expr::IntegerConstant(3, _)));
                assert!(matches!(args[1], Expr::IntegerConstant(10, _)));
                assert!(matches!(args[2], Expr::Variable(_, _, _)));
            }
            _ => panic!("should be a call"),
        },
        _ => panic!("should be an expression"),
    }
    // a lone no-op at the end goes
    let r = optimize(vec![stmt(num(1)), Stmt::Noop(p(1, 1))], &engine, &scope, &names, OptimizationLevel::Simple);
    assert_eq!(r.len(), 0);
    let r = optimize(vec![], &engine, &scope, &names, OptimizationLevel::Simple);
    assert_eq!(r.len(), 0);
}

#[test]
fn function_bodies_are_optimized() {
    let engine = Engine::new();
    let scope = Scope::new();
    let returns = FnDef {
        name: "one".to_string(),
        params: vec![],
        body: Box::new(Stmt::Block(
            vec![Stmt::ReturnWithVal(Some(Box::new(num(1))), ReturnType::Return, p(1, 1))],
            p(1, 1),
        )),
        pos: p(1, 1),
    };
    let empty = FnDef {
        name: "nothing".to_string(),
        params: vec!["a".to_string()],
        body: Box::new(Stmt::Block(vec![], p(3, 3))),
        pos: p(1, 1),
    };
    let bare = FnDef {
        name: "bare".to_string(),
        params: vec![],
        body: Box::new(Stmt::ReturnWithVal(None, ReturnType::Return, p(5, 5))),
        pos: p(1, 1),
    };
    let ast = optimize_into_ast(
        &engine,
        &scope,
        vec![stmt(call("one", vec![]))],
        vec![returns, empty, bare],
        OptimizationLevel::Simple,
    );
    assert_eq!(ast.fn_lib.len(), 3);
    let one = ast.fn_lib.get_function("one", 0).unwrap();
    assert!(matches!(&*one.body, Stmt::Expr(e) if matches!(**e, Expr::IntegerConstant(1, _))));
    let nothing = ast.fn_lib.get_function("nothing", 1).unwrap();
    assert!(matches!(&*nothing.body, Stmt::Noop(pos) if *pos == p(3, 3)));
    let bare = ast.fn_lib.get_function("bare", 0).unwrap();
    assert!(matches!(&*bare.body, Stmt::Expr(e) if matches!(**e, Expr::Unit(pos) if pos == p(5, 5))));
    assert_eq!(cast_int(engine.eval_ast(&ast).unwrap()).unwrap(), 1);
}

#[test]
fn values_as_constant_expressions() {
    assert!(matches!(map_dynamic_to_expr(Dynamic::Int(1), p(1, 1)), Some(Expr::IntegerConstant(1, _))));
    assert!(matches!(map_dynamic_to_expr(Dynamic::Bool(true), p(1, 1)), Some(Expr::True(_))));
    assert!(matches!(map_dynamic_to_expr(Dynamic::Bool(false), p(1, 1)), Some(Expr::False(_))));
    assert!(matches!(map_dynamic_to_expr(Dynamic::Unit, p(1, 1)), Some(Expr::Unit(_))));
    assert!(matches!(map_dynamic_to_expr(Dynamic::Char('c'), p(1, 1)), Some(Expr::CharConstant('c', _))));
    assert!(matches!(map_dynamic_to_expr(Dynamic::Str("s".to_string()), p(1, 1)), Some(Expr::StringConstant(s, _)) if s == "s"));
    match map_dynamic_to_expr(Dynamic::Array(vec![Dynamic::Int(1), Dynamic::Int(2)]), p(1, 1)) {
        Some(e) => {
            assert!(e.is_constant());
            assert!(matches!(e.get_constant_value(), Some(Dynamic::Array(items)) if items.len() == 2));
            assert_eq!(e.get_constant_str(), "array");
            assert_eq!(e.position(), p(1, 1));
        }
        None => panic!("should be an expression"),
    }
    assert!(map_dynamic_to_expr(Dynamic::Custom(9, "T".to_string(), vec![]), p(1, 1)).is_none());
    assert!(map_dynamic_to_expr(
        Dynamic::Array(vec![Dynamic::Custom(9, "T".to_string(), vec![])]),
        p(1, 1)
    )
    .is_none());
}

#[test]
fn purity_and_constness() {
    assert!(num(1).is_constant() && num(1).is_pure());
    assert!(!var("x").is_constant() && var("x").is_pure());
    assert!(!call("f", vec![]).is_pure() && !call("f", vec![]).is_constant());
    let in_ = Expr::In(Box::new(text("a")), Box::new(text("abc")), p(1, 1));
    assert!(in_.is_constant());
    assert!(in_.get_constant_value().is_none());
    assert!(Expr::Array(vec![num(1), var("x")], p(1, 1)).is_pure());
    assert!(!Expr::Array(vec![num(1), var("x")], p(1, 1)).is_constant());
    assert!(Stmt::Noop(p(1, 1)).is_pure());
    assert!(stmt(num(1)).is_pure());
    assert!(!let_("a", num(1)).is_pure());
    assert!(!Stmt::Break(p(1, 1)).is_pure());
    assert!(Stmt::Block(vec![stmt(num(1)), stmt(var("x"))], p(1, 1)).is_pure());
    assert_eq!(Stmt::Loop(Box::new(Stmt::Break(p(2, 2)))).position(), p(2, 2));
    assert_eq!(assign(var("x"), num(1)).position(), p(4, 4));
    assert_eq!(num(1).set_position(p(9, 9)).position(), p(9, 9));
}

#[test]
fn the_change_mark_follows_the_rewrites() {
    let body = || stmt(call("f", vec![]));
    // nothing to rewrite, nothing marked
    let (_, dirty) = opt_stmt(body(), true);
    assert!(!dirty);
    let (_, dirty) = opt_expr(var("x"), OptimizationLevel::Simple);
    assert!(!dirty);
    let (_, dirty) = opt_stmt(Stmt::Loop(Box::new(body())), false);
    assert!(!dirty);
    // a guard that is `true` gives way without a mark of its own
    let (r, dirty) = opt_stmt(
        Stmt::IfThenElse(Box::new(Expr::True(p(9, 9))), Box::new(body()), None),
        true,
    );
    assert!(matches!(r, Stmt::Expr(_)));
    assert!(!dirty);
    let (r, dirty) = opt_stmt(Stmt::While(Box::new(Expr::True(p(9, 9))), Box::new(body())), false);
    assert!(matches!(r, Stmt::Loop(_)));
    assert!(!dirty);
    // each of these is a rewrite
    let (_, dirty) = opt_stmt(Stmt::Loop(Box::new(Stmt::Break(p(8, 8)))), false);
    assert!(dirty);
    let (_, dirty) = opt_expr(
        Expr::And(Box::new(var("x")), Box::new(Expr::True(p(1, 1))), p(1, 1)),
        OptimizationLevel::Simple,
    );
    assert!(dirty);
    let (_, dirty) = opt_expr(assign(var("x"), assign(var("x"), num(1))), OptimizationLevel::Simple);
    assert!(dirty);
    let (_, dirty) = opt_expr(assign(var("x"), assign(var("y"), num(1))), OptimizationLevel::Simple);
    assert!(!dirty);
    // a block of one statement collapses, one of two that stay does not
    let (r, dirty) = opt_stmt(Stmt::Block(vec![body()], p(3, 3)), true);
    assert!(matches!(r, Stmt::Expr(_)));
    assert!(dirty);
    let (r, dirty) = opt_stmt(Stmt::Block(vec![body(), body()], p(3, 3)), true);
    assert!(matches!(r, Stmt::Block(stmts, _) if stmts.len() == 2));
    assert!(!dirty);
}

#[test]
fn a_statement_that_only_reads_is_dropped_with_its_failure() {
    // `y; 1` reads a variable that no scope holds
    let script = || vec![stmt(var("y")), stmt(num(1))];
    let engine = Engine::new();
    let scope = Scope::new();

    let plain = optimize_into_ast(&engine, &scope, script(), vec![], OptimizationLevel::Off);
    assert_eq!(plain.statements.len(), 2);
    assert!(matches!(
        engine.eval_ast(&plain),
        Err(rhai::result::EvalAltResult::ErrorVariableNotFound(name, _)) if name == "y"
    ));

    let tidy = optimize_into_ast(&engine, &scope, script(), vec![], OptimizationLevel::Simple);
    assert_eq!(tidy.statements.len(), 1);
    assert!(matches!(cast_int(engine.eval_ast(&tidy).unwrap()), Ok(1)));
}
