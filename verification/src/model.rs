//! The mathematical models of syntax trees, and what holds of a tree by its
//! model alone: its position, whether it is pure, whether it is a constant.

use vstd::prelude::*;
use crate::any::{Dynamic, Value, opt_view};
use crate::parser::{Expr, FnDef, ReturnType, Stmt};
use crate::token::Position;

verus! {

/// The mathematical model of an expression.
pub enum ExprValue {
    IntegerConstant(i64, Position),
    CharConstant(char, Position),
    StringConstant(Seq<char>, Position),
    Variable(Seq<char>, Option<usize>, Position),
    Property(Seq<char>, Position),
    Stmt(Box<StmtValue>, Position),
    FnCall(Seq<char>, Seq<ExprValue>, Option<Value>, Position),
    Assignment(Box<ExprValue>, Box<ExprValue>, Position),
    Dot(Box<ExprValue>, Box<ExprValue>, Position),
    Index(Box<ExprValue>, Box<ExprValue>, Position),
    Array(Seq<ExprValue>, Position),
    ObjMap(Seq<(Seq<char>, ExprValue, Position)>, Position),
    In(Box<ExprValue>, Box<ExprValue>, Position),
    And(Box<ExprValue>, Box<ExprValue>, Position),
    Or(Box<ExprValue>, Box<ExprValue>, Position),
    True(Position),
    False(Position),
    Unit(Position),
}

/// The mathematical model of a statement.
pub enum StmtValue {
    Noop(Position),
    IfThenElse(Box<ExprValue>, Box<StmtValue>, Option<Box<StmtValue>>),
    While(Box<ExprValue>, Box<StmtValue>),
    Loop(Box<StmtValue>),
    For(Seq<char>, Box<ExprValue>, Box<StmtValue>),
    Let(Seq<char>, Option<Box<ExprValue>>, Position),
    Const(Seq<char>, Box<ExprValue>, Position),
    Block(Seq<StmtValue>, Position),
    Expr(Box<ExprValue>),
    Continue(Position),
    Break(Position),
    ReturnWithVal(Option<Box<ExprValue>>, ReturnType, Position),
}

/// The mathematical model of a function definition.
pub struct FnDefValue {
    pub name: Seq<char>,
    pub params: Seq<Seq<char>>,
    pub body: StmtValue,
    pub pos: Position,
}

/// What a script is made of: its statements and the functions that it defines.
pub type Script = (Seq<StmtValue>, Seq<FnDefValue>);

/// The models of a sequence of expressions.
pub open spec fn exprs_of(s: Seq<Expr>) -> Seq<ExprValue>
    decreases s,
{
    Seq::new(
        s.len(),
        |i: int|
            if 0 <= i < s.len() {
                expr_value(&s[i])
            } else {
                ExprValue::Unit(Position::spec_none())
            },
    )
}

/// The models of the entries of an object map literal.
pub open spec fn items_of(s: Seq<(String, Expr, Position)>) -> Seq<(Seq<char>, ExprValue, Position)>
    decreases s,
{
    Seq::new(
        s.len(),
        |i: int|
            if 0 <= i < s.len() {
                (s[i].0@, expr_value(&s[i].1), s[i].2)
            } else {
                (Seq::empty(), ExprValue::Unit(Position::spec_none()), Position::spec_none())
            },
    )
}

/// The models of a sequence of statements.
pub open spec fn stmts_of(s: Seq<Stmt>) -> Seq<StmtValue>
    decreases s,
{
    Seq::new(
        s.len(),
        |i: int|
            if 0 <= i < s.len() {
                stmt_value(&s[i])
            } else {
                StmtValue::Noop(Position::spec_none())
            },
    )
}

/// The models of a sequence of function definitions.
pub open spec fn defs_of(s: Seq<FnDef>) -> Seq<FnDefValue> {
    Seq::new(s.len(), |i: int| s[i]@)
}

/// The texts of a sequence of strings.
pub open spec fn texts_of(s: Seq<String>) -> Seq<Seq<char>> {
    Seq::new(s.len(), |i: int| s[i]@)
}

/// The model of an expression.
pub open spec fn expr_value(e: &Expr) -> ExprValue
    decreases e,
{
    match e {
        Expr::IntegerConstant(i, p) => ExprValue::IntegerConstant(*i, *p),
        Expr::CharConstant(c, p) => ExprValue::CharConstant(*c, *p),
        Expr::StringConstant(s, p) => ExprValue::StringConstant(s@, *p),
        Expr::Variable(n, i, p) => ExprValue::Variable(n@, *i, *p),
        Expr::Property(n, p) => ExprValue::Property(n@, *p),
        Expr::Stmt(s, p) => ExprValue::Stmt(Box::new(stmt_value(&**s)), *p),
        Expr::FnCall(n, a, d, p) => ExprValue::FnCall(n@, exprs_of(a@), opt_view(*d), *p),
        Expr::Assignment(l, r, p) => ExprValue::Assignment(
            Box::new(expr_value(&**l)),
            Box::new(expr_value(&**r)),
            *p,
        ),
        Expr::Dot(l, r, p) => ExprValue::Dot(Box::new(expr_value(&**l)), Box::new(expr_value(&**r)), *p),
        Expr::Index(l, r, p) => ExprValue::Index(
            Box::new(expr_value(&**l)),
            Box::new(expr_value(&**r)),
            *p,
        ),
        Expr::Array(a, p) => ExprValue::Array(exprs_of(a@), *p),
        Expr::ObjMap(a, p) => ExprValue::ObjMap(items_of(a@), *p),
        Expr::In(l, r, p) => ExprValue::In(Box::new(expr_value(&**l)), Box::new(expr_value(&**r)), *p),
        Expr::And(l, r, p) => ExprValue::And(Box::new(expr_value(&**l)), Box::new(expr_value(&**r)), *p),
        Expr::Or(l, r, p) => ExprValue::Or(Box::new(expr_value(&**l)), Box::new(expr_value(&**r)), *p),
        Expr::True(p) => ExprValue::True(*p),
        Expr::False(p) => ExprValue::False(*p),
        Expr::Unit(p) => ExprValue::Unit(*p),
    }
}

/// The model of a statement.
pub open spec fn stmt_value(s: &Stmt) -> StmtValue
    decreases s,
{
    match s {
        Stmt::Noop(p) => StmtValue::Noop(*p),
        Stmt::IfThenElse(e, b, None) => StmtValue::IfThenElse(
            Box::new(expr_value(&**e)),
            Box::new(stmt_value(&**b)),
            None,
        ),
        Stmt::IfThenElse(e, b, Some(t)) => StmtValue::IfThenElse(
            Box::new(expr_value(&**e)),
            Box::new(stmt_value(&**b)),
            Some(Box::new(stmt_value(&**t))),
        ),
        Stmt::While(e, b) => StmtValue::While(Box::new(expr_value(&**e)), Box::new(stmt_value(&**b))),
        Stmt::Loop(b) => StmtValue::Loop(Box::new(stmt_value(&**b))),
        Stmt::For(n, e, b) => StmtValue::For(
            n@,
            Box::new(expr_value(&**e)),
            Box::new(stmt_value(&**b)),
        ),
        Stmt::Let(n, None, p) => StmtValue::Let(n@, None, *p),
        Stmt::Let(n, Some(e), p) => StmtValue::Let(n@, Some(Box::new(expr_value(&**e))), *p),
        Stmt::Const(n, e, p) => StmtValue::Const(n@, Box::new(expr_value(&**e)), *p),
        Stmt::Block(b, p) => StmtValue::Block(stmts_of(b@), *p),
        Stmt::Expr(e) => StmtValue::Expr(Box::new(expr_value(&**e))),
        Stmt::Continue(p) => StmtValue::Continue(*p),
        Stmt::Break(p) => StmtValue::Break(*p),
        Stmt::ReturnWithVal(None, r, p) => StmtValue::ReturnWithVal(None, *r, *p),
        Stmt::ReturnWithVal(Some(e), r, p) => StmtValue::ReturnWithVal(
            Some(Box::new(expr_value(&**e))),
            *r,
            *p,
        ),
    }
}

impl View for Expr {
    type V = ExprValue;

    open spec fn view(&self) -> ExprValue {
        expr_value(self)
    }
}

impl View for Stmt {
    type V = StmtValue;

    open spec fn view(&self) -> StmtValue {
        stmt_value(self)
    }
}

impl View for FnDef {
    type V = FnDefValue;

    open spec fn view(&self) -> FnDefValue {
        FnDefValue { name: self.name@, params: texts_of(self.params@), body: self.body@, pos: self.pos }
    }
}

/// The model of a function call holds the models of its arguments.
pub broadcast proof fn lemma_call_view(n: String, a: Vec<Expr>, d: Option<Dynamic>, p: Position)
    ensures
        #[trigger] expr_value(&Expr::FnCall(n, a, d, p)) == ExprValue::FnCall(
            n@,
            exprs_of(a@),
            opt_view(d),
            p,
        ),
{
}

/// The model of an array literal holds the models of its items.
pub broadcast proof fn lemma_array_view(a: Vec<Expr>, p: Position)
    ensures
        #[trigger] expr_value(&Expr::Array(a, p)) == ExprValue::Array(exprs_of(a@), p),
{
}

/// The model of an object map literal holds the models of its entries.
pub broadcast proof fn lemma_map_view(a: Vec<(String, Expr, Position)>, p: Position)
    ensures
        #[trigger] expr_value(&Expr::ObjMap(a, p)) == ExprValue::ObjMap(items_of(a@), p),
{
}

/// The model of a block holds the models of its statements.
pub broadcast proof fn lemma_block_view(b: Vec<Stmt>, p: Position)
    ensures
        #[trigger] stmt_value(&Stmt::Block(b, p)) == StmtValue::Block(stmts_of(b@), p),
{
}

/// The models of a sequence of expressions are as many as the expressions.
pub broadcast proof fn lemma_exprs_len(s: Seq<Expr>)
    ensures
        #[trigger] exprs_of(s).len() == s.len(),
{
}

/// The models of a sequence of expressions are those of the expressions, in order.
pub broadcast proof fn lemma_exprs_index(s: Seq<Expr>, i: int)
    requires
        0 <= i < s.len(),
    ensures
        #[trigger] exprs_of(s)[i] == s[i]@,
{
}

/// The models of the entries of an object map literal are as many as the entries.
pub broadcast proof fn lemma_items_len(s: Seq<(String, Expr, Position)>)
    ensures
        #[trigger] items_of(s).len() == s.len(),
{
}

/// The models of the entries of an object map literal are those of the entries, in order.
pub broadcast proof fn lemma_items_index(s: Seq<(String, Expr, Position)>, i: int)
    requires
        0 <= i < s.len(),
    ensures
        #[trigger] items_of(s)[i] == (s[i].0@, s[i].1@, s[i].2),
{
}

/// The models of a sequence of statements are as many as the statements.
pub broadcast proof fn lemma_stmts_len(s: Seq<Stmt>)
    ensures
        #[trigger] stmts_of(s).len() == s.len(),
{
}

/// The models of a sequence of statements are those of the statements, in order.
pub broadcast proof fn lemma_stmts_index(s: Seq<Stmt>, i: int)
    requires
        0 <= i < s.len(),
    ensures
        #[trigger] stmts_of(s)[i] == s[i]@,
{
}

pub broadcast group group_tree_views {
    lemma_call_view,
    lemma_array_view,
    lemma_map_view,
    lemma_block_view,
    lemma_exprs_len,
    lemma_exprs_index,
    lemma_items_len,
    lemma_items_index,
    lemma_stmts_len,
    lemma_stmts_index,
}

/// Pushing an expression onto a sequence pushes its model.
pub proof fn lemma_exprs_push(s: Seq<Expr>, e: Expr)
    ensures
        exprs_of(s.push(e)) == exprs_of(s).push(e@),
{
    broadcast use group_tree_views;

    assert(exprs_of(s.push(e)) =~= exprs_of(s).push(e@));
}

/// Pushing an entry onto a sequence pushes its model.
pub proof fn lemma_items_push(s: Seq<(String, Expr, Position)>, e: (String, Expr, Position))
    ensures
        items_of(s.push(e)) == items_of(s).push((e.0@, e.1@, e.2)),
{
    broadcast use group_tree_views;

    assert(items_of(s.push(e)) =~= items_of(s).push((e.0@, e.1@, e.2)));
}

/// Pushing a statement onto a sequence pushes its model.
pub proof fn lemma_stmts_push(s: Seq<Stmt>, e: Stmt)
    ensures
        stmts_of(s.push(e)) == stmts_of(s).push(e@),
{
    broadcast use group_tree_views;

    assert(stmts_of(s.push(e)) =~= stmts_of(s).push(e@));
}

/// Are the first `n` expressions pure?
pub open spec fn all_pure(items: Seq<ExprValue>, n: int) -> bool
    decreases items, n,
{
    if n <= 0 || n > items.len() {
        true
    } else {
        all_pure(items, n - 1) && items[n - 1].is_pure()
    }
}

/// Are the expressions of the first `n` entries pure?
pub open spec fn all_values_pure(items: Seq<(Seq<char>, ExprValue, Position)>, n: int) -> bool
    decreases items, n,
{
    if n <= 0 || n > items.len() {
        true
    } else {
        all_values_pure(items, n - 1) && items[n - 1].1.is_pure()
    }
}

/// Are the first `n` statements pure?
pub open spec fn all_stmts_pure(stmts: Seq<StmtValue>, n: int) -> bool
    decreases stmts, n,
{
    if n <= 0 || n > stmts.len() {
        true
    } else {
        all_stmts_pure(stmts, n - 1) && stmts[n - 1].is_pure()
    }
}

/// Are the first `n` expressions constants?
pub open spec fn all_constant(items: Seq<ExprValue>, n: int) -> bool
    decreases items, n,
{
    if n <= 0 || n > items.len() {
        true
    } else {
        all_constant(items, n - 1) && items[n - 1].is_constant()
    }
}

/// Are the expressions of the first `n` entries constants?
pub open spec fn all_values_constant(items: Seq<(Seq<char>, ExprValue, Position)>, n: int) -> bool
    decreases items, n,
{
    if n <= 0 || n > items.len() {
        true
    } else {
        all_values_constant(items, n - 1) && items[n - 1].1.is_constant()
    }
}

/// The values of the first `n` expressions, if each of them has one.
pub open spec fn constant_values(items: Seq<ExprValue>, n: int) -> Option<Seq<Value>>
    decreases items, n,
{
    if n <= 0 || n > items.len() {
        Some(Seq::empty())
    } else {
        match (constant_values(items, n - 1), items[n - 1].constant_value()) {
            (Some(vs), Some(v)) => Some(vs.push(v)),
            _ => None,
        }
    }
}

/// The keys of the first `n` entries with the values of their expressions,
/// if each of them has one.
pub open spec fn constant_entries(items: Seq<(Seq<char>, ExprValue, Position)>, n: int) -> Option<
    Seq<(Seq<char>, Value)>,
>
    decreases items, n,
{
    if n <= 0 || n > items.len() {
        Some(Seq::empty())
    } else {
        match (constant_entries(items, n - 1), items[n - 1].1.constant_value()) {
            (Some(es), Some(v)) => Some(es.push((items[n - 1].0, v))),
            _ => None,
        }
    }
}

impl ExprValue {
    /// The source position of the expression: that of its left-most part
    /// for an assignment, a dot or an index expression.
    pub open spec fn position(self) -> Position
        decreases self,
    {
        match self {
            ExprValue::IntegerConstant(_, pos) => pos,
            ExprValue::CharConstant(_, pos) => pos,
            ExprValue::StringConstant(_, pos) => pos,
            ExprValue::Variable(_, _, pos) => pos,
            ExprValue::Property(_, pos) => pos,
            ExprValue::Stmt(_, pos) => pos,
            ExprValue::FnCall(_, _, _, pos) => pos,
            ExprValue::Assignment(lhs, _, _) => lhs.position(),
            ExprValue::Dot(lhs, _, _) => lhs.position(),
            ExprValue::Index(lhs, _, _) => lhs.position(),
            ExprValue::Array(_, pos) => pos,
            ExprValue::ObjMap(_, pos) => pos,
            ExprValue::In(_, _, pos) => pos,
            ExprValue::And(_, _, pos) => pos,
            ExprValue::Or(_, _, pos) => pos,
            ExprValue::True(pos) => pos,
            ExprValue::False(pos) => pos,
            ExprValue::Unit(pos) => pos,
        }
    }

    /// The same expression at another position.
    pub open spec fn at(self, pos: Position) -> ExprValue {
        match self {
            ExprValue::IntegerConstant(i, _) => ExprValue::IntegerConstant(i, pos),
            ExprValue::CharConstant(c, _) => ExprValue::CharConstant(c, pos),
            ExprValue::StringConstant(s, _) => ExprValue::StringConstant(s, pos),
            ExprValue::Variable(n, i, _) => ExprValue::Variable(n, i, pos),
            ExprValue::Property(n, _) => ExprValue::Property(n, pos),
            ExprValue::Stmt(s, _) => ExprValue::Stmt(s, pos),
            ExprValue::FnCall(n, a, d, _) => ExprValue::FnCall(n, a, d, pos),
            ExprValue::Assignment(l, r, _) => ExprValue::Assignment(l, r, pos),
            ExprValue::Dot(l, r, _) => ExprValue::Dot(l, r, pos),
            ExprValue::Index(l, r, _) => ExprValue::Index(l, r, pos),
            ExprValue::Array(a, _) => ExprValue::Array(a, pos),
            ExprValue::ObjMap(a, _) => ExprValue::ObjMap(a, pos),
            ExprValue::In(l, r, _) => ExprValue::In(l, r, pos),
            ExprValue::And(l, r, _) => ExprValue::And(l, r, pos),
            ExprValue::Or(l, r, _) => ExprValue::Or(l, r, pos),
            ExprValue::True(_) => ExprValue::True(pos),
            ExprValue::False(_) => ExprValue::False(pos),
            ExprValue::Unit(_) => ExprValue::Unit(pos),
        }
    }

    /// Is the expression a constant? Literals are; arrays and object maps of
    /// constants are; so is a string or a character `in` a string literal.
    pub open spec fn is_constant(self) -> bool
        decreases self, 0int,
    {
        match self {
            ExprValue::IntegerConstant(_, _) => true,
            ExprValue::CharConstant(_, _) => true,
            ExprValue::StringConstant(_, _) => true,
            ExprValue::True(_) => true,
            ExprValue::False(_) => true,
            ExprValue::Unit(_) => true,
            ExprValue::Array(items, _) => all_constant(items, items.len() as int),
            ExprValue::ObjMap(items, _) => all_values_constant(items, items.len() as int),
            ExprValue::In(lhs, rhs, _) => (*lhs is StringConstant || *lhs is CharConstant)
                && *rhs is StringConstant,
            _ => false,
        }
    }

    /// Is the expression pure? A pure expression has no side effects: a
    /// variable, a constant, or an array, an index, `in`, `&&` or `||` over
    /// pure expressions, or a pure statement.
    pub open spec fn is_pure(self) -> bool
        decreases self, 0int,
    {
        match self {
            ExprValue::Array(items, _) => all_pure(items, items.len() as int),
            ExprValue::Index(x, y, _) => x.is_pure() && y.is_pure(),
            ExprValue::And(x, y, _) => x.is_pure() && y.is_pure(),
            ExprValue::Or(x, y, _) => x.is_pure() && y.is_pure(),
            ExprValue::In(x, y, _) => x.is_pure() && y.is_pure(),
            ExprValue::Stmt(stmt, _) => stmt.is_pure(),
            ExprValue::Variable(_, _, _) => true,
            _ => self.is_constant(),
        }
    }

    /// The name under which a constant expression is reported.
    pub open spec fn constant_label(self) -> Seq<char> {
        match self {
            ExprValue::IntegerConstant(_, _) => "i64"@,
            ExprValue::CharConstant(_, _) => "char"@,
            ExprValue::StringConstant(_, _) => "string"@,
            ExprValue::True(_) => "true"@,
            ExprValue::False(_) => "false"@,
            ExprValue::Unit(_) => "()"@,
            ExprValue::Array(_, _) => "array"@,
            ExprValue::ObjMap(_, _) => "map"@,
            _ => "in"@,
        }
    }

    /// The value of a constant expression: that of a literal, or of an array
    /// or an object map of such expressions, its entries in source order. No
    /// other expression has one.
    pub open spec fn constant_value(self) -> Option<Value>
        decreases self, 0int,
    {
        match self {
            ExprValue::IntegerConstant(i, _) => Some(Value::Int(i)),
            ExprValue::CharConstant(c, _) => Some(Value::Char(c)),
            ExprValue::StringConstant(s, _) => Some(Value::Str(s)),
            ExprValue::True(_) => Some(Value::Bool(true)),
            ExprValue::False(_) => Some(Value::Bool(false)),
            ExprValue::Unit(_) => Some(Value::Unit),
            ExprValue::Array(items, _) => match constant_values(items, items.len() as int) {
                Some(vs) => Some(Value::Array(vs)),
                None => None,
            },
            ExprValue::ObjMap(items, _) => match constant_entries(items, items.len() as int) {
                Some(es) => Some(Value::ObjMap(es)),
                None => None,
            },
            _ => None,
        }
    }
}

impl StmtValue {
    /// Is the statement pure? A pure statement declares nothing, leaves no
    /// loop or function, and holds pure expressions and statements only.
    pub open spec fn is_pure(self) -> bool
        decreases self, 0int,
    {
        match self {
            StmtValue::Noop(_) => true,
            StmtValue::Expr(expr) => expr.is_pure(),
            StmtValue::IfThenElse(guard, if_block, Some(else_block)) => guard.is_pure()
                && if_block.is_pure() && else_block.is_pure(),
            StmtValue::IfThenElse(guard, block, None) => guard.is_pure() && block.is_pure(),
            StmtValue::While(guard, block) => guard.is_pure() && block.is_pure(),
            StmtValue::Loop(block) => block.is_pure(),
            StmtValue::For(_, range, block) => range.is_pure() && block.is_pure(),
            StmtValue::Let(_, _, _) => false,
            StmtValue::Const(_, _, _) => false,
            StmtValue::Block(statements, _) => all_stmts_pure(statements, statements.len() as int),
            StmtValue::Continue(_) => false,
            StmtValue::Break(_) => false,
            StmtValue::ReturnWithVal(_, _, _) => false,
        }
    }

    /// The source position of the statement: that of its guard or expression
    /// where it begins with one.
    pub open spec fn position(self) -> Position
        decreases self,
    {
        match self {
            StmtValue::Noop(pos) => pos,
            StmtValue::Let(_, _, pos) => pos,
            StmtValue::Const(_, _, pos) => pos,
            StmtValue::Block(_, pos) => pos,
            StmtValue::Continue(pos) => pos,
            StmtValue::Break(pos) => pos,
            StmtValue::ReturnWithVal(_, _, pos) => pos,
            StmtValue::IfThenElse(expr, _, _) => expr.position(),
            StmtValue::Expr(expr) => expr.position(),
            StmtValue::While(expr, _) => expr.position(),
            StmtValue::For(_, expr, _) => expr.position(),
            StmtValue::Loop(stmt) => stmt.position(),
        }
    }
}

/// The constant expressions at a position that the first `n` values are
/// written as, if each of them can be.
pub open spec fn literals(items: Seq<Value>, pos: Position, n: int) -> Option<Seq<ExprValue>>
    decreases items, n,
{
    if n <= 0 || n > items.len() {
        Some(Seq::empty())
    } else {
        match (literals(items, pos, n - 1), literal(items[n - 1], pos)) {
            (Some(es), Some(e)) => Some(es.push(e)),
            _ => None,
        }
    }
}

/// The entries of an object map literal at a position that the first `n`
/// entries are written as, if each of their values can be.
pub open spec fn literal_entries(entries: Seq<(Seq<char>, Value)>, pos: Position, n: int) -> Option<
    Seq<(Seq<char>, ExprValue, Position)>,
>
    decreases entries, n,
{
    if n <= 0 || n > entries.len() {
        Some(Seq::empty())
    } else {
        match (literal_entries(entries, pos, n - 1), literal(entries[n - 1].1, pos)) {
            (Some(es), Some(e)) => Some(es.push((entries[n - 1].0, e, pos))),
            _ => None,
        }
    }
}

/// The constant expression at a position that a value is written as: a
/// literal, or an array or an object map of such expressions. A value that
/// holds an opaque host value has no such expression.
pub open spec fn literal(v: Value, pos: Position) -> Option<ExprValue>
    decreases v, 0int,
{
    match v {
        Value::Unit => Some(ExprValue::Unit(pos)),
        Value::Bool(true) => Some(ExprValue::True(pos)),
        Value::Bool(false) => Some(ExprValue::False(pos)),
        Value::Int(i) => Some(ExprValue::IntegerConstant(i, pos)),
        Value::Char(c) => Some(ExprValue::CharConstant(c, pos)),
        Value::Str(s) => Some(ExprValue::StringConstant(s, pos)),
        Value::Array(items) => match literals(items, pos, items.len() as int) {
            Some(es) => Some(ExprValue::Array(es, pos)),
            None => None,
        },
        Value::ObjMap(entries) => match literal_entries(entries, pos, entries.len() as int) {
            Some(es) => Some(ExprValue::ObjMap(es, pos)),
            None => None,
        },
        Value::Custom(_, _, _) => None,
    }
}

/// If one of the first `n` expressions is not pure, not all of them are.
pub proof fn lemma_not_all_pure(items: Seq<ExprValue>, i: int, n: int)
    requires
        0 <= i < n <= items.len(),
        !items[i].is_pure(),
    ensures
        !all_pure(items, n),
    decreases n,
{
    if i < n - 1 {
        lemma_not_all_pure(items, i, n - 1);
    }
}

/// If the expression of one of the first `n` entries is not pure, not all of them are.
pub proof fn lemma_not_all_values_pure(items: Seq<(Seq<char>, ExprValue, Position)>, i: int, n: int)
    requires
        0 <= i < n <= items.len(),
        !items[i].1.is_pure(),
    ensures
        !all_values_pure(items, n),
    decreases n,
{
    if i < n - 1 {
        lemma_not_all_values_pure(items, i, n - 1);
    }
}

/// If one of the first `n` statements is not pure, not all of them are.
pub proof fn lemma_not_all_stmts_pure(stmts: Seq<StmtValue>, i: int, n: int)
    requires
        0 <= i < n <= stmts.len(),
        !stmts[i].is_pure(),
    ensures
        !all_stmts_pure(stmts, n),
    decreases n,
{
    if i < n - 1 {
        lemma_not_all_stmts_pure(stmts, i, n - 1);
    }
}

/// If one of the first `n` expressions is no constant, not all of them are.
pub proof fn lemma_not_all_constant(items: Seq<ExprValue>, i: int, n: int)
    requires
        0 <= i < n <= items.len(),
        !items[i].is_constant(),
    ensures
        !all_constant(items, n),
    decreases n,
{
    if i < n - 1 {
        lemma_not_all_constant(items, i, n - 1);
    }
}

/// If the expression of one of the first `n` entries is no constant, not all of them are.
pub proof fn lemma_not_all_values_constant(items: Seq<(Seq<char>, ExprValue, Position)>, i: int, n: int)
    requires
        0 <= i < n <= items.len(),
        !items[i].1.is_constant(),
    ensures
        !all_values_constant(items, n),
    decreases n,
{
    if i < n - 1 {
        lemma_not_all_values_constant(items, i, n - 1);
    }
}

/// If one of the first `n` expressions has no value, they have no values.
pub proof fn lemma_no_constant_values(items: Seq<ExprValue>, i: int, n: int)
    requires
        0 <= i < n <= items.len(),
        items[i].constant_value().is_none(),
    ensures
        constant_values(items, n).is_none(),
    decreases n,
{
    if i < n - 1 {
        lemma_no_constant_values(items, i, n - 1);
    }
}

/// If the expression of one of the first `n` entries has no value, they have no values.
pub proof fn lemma_no_constant_entries(items: Seq<(Seq<char>, ExprValue, Position)>, i: int, n: int)
    requires
        0 <= i < n <= items.len(),
        items[i].1.constant_value().is_none(),
    ensures
        constant_entries(items, n).is_none(),
    decreases n,
{
    if i < n - 1 {
        lemma_no_constant_entries(items, i, n - 1);
    }
}

/// If one of the first `n` values cannot be written as a constant expression, none of the lists can.
pub proof fn lemma_no_literals(items: Seq<Value>, pos: Position, i: int, n: int)
    requires
        0 <= i < n <= items.len(),
        literal(items[i], pos).is_none(),
    ensures
        literals(items, pos, n).is_none(),
    decreases n,
{
    if i < n - 1 {
        lemma_no_literals(items, pos, i, n - 1);
    }
}

/// If the value of one of the first `n` entries cannot be written as a
/// constant expression, the entries cannot.
pub proof fn lemma_no_literal_entries(entries: Seq<(Seq<char>, Value)>, pos: Position, i: int, n: int)
    requires
        0 <= i < n <= entries.len(),
        literal(entries[i].1, pos).is_none(),
    ensures
        literal_entries(entries, pos, n).is_none(),
    decreases n,
{
    if i < n - 1 {
        lemma_no_literal_entries(entries, pos, i, n - 1);
    }
}

/// The values of the first `n` expressions do not depend on what follows them.
pub proof fn lemma_constant_values_prefix(a: Seq<ExprValue>, b: Seq<ExprValue>, n: int)
    requires
        n <= a.len(),
        n <= b.len(),
        forall|k: int| 0 <= k < n ==> a[k] == b[k],
    ensures
        constant_values(a, n) == constant_values(b, n),
    decreases n,
{
    if n > 0 {
        lemma_constant_values_prefix(a, b, n - 1);
    }
}

/// The values of the first `n` entries do not depend on what follows them.
pub proof fn lemma_constant_entries_prefix(
    a: Seq<(Seq<char>, ExprValue, Position)>,
    b: Seq<(Seq<char>, ExprValue, Position)>,
    n: int,
)
    requires
        n <= a.len(),
        n <= b.len(),
        forall|k: int| 0 <= k < n ==> a[k] == b[k],
    ensures
        constant_entries(a, n) == constant_entries(b, n),
    decreases n,
{
    if n > 0 {
        lemma_constant_entries_prefix(a, b, n - 1);
    }
}

/// The constant expressions that values are written as have those values.
pub proof fn lemma_literals_values(items: Seq<Value>, pos: Position, n: int)
    requires
        0 <= n <= items.len(),
    ensures
        literals(items, pos, n) matches Some(es) ==> es.len() == n && constant_values(es, n) == Some(
            items.subrange(0, n),
        ),
    decreases items, n,
{
    if n > 0 {
        lemma_literals_values(items, pos, n - 1);
        lemma_literal_value(items[n - 1], pos);
        if literals(items, pos, n).is_some() {
            let es = literals(items, pos, n).unwrap();
            let done = literals(items, pos, n - 1).unwrap();
            lemma_constant_values_prefix(done, es, n - 1);
            assert(items.subrange(0, n) =~= items.subrange(0, n - 1).push(items[n - 1]));
        }
    } else {
        assert(items.subrange(0, 0) =~= Seq::<Value>::empty());
    }
}

/// The entries that the entries of an object map are written as have their keys and values.
pub proof fn lemma_literal_entries_values(entries: Seq<(Seq<char>, Value)>, pos: Position, n: int)
    requires
        0 <= n <= entries.len(),
    ensures
        literal_entries(entries, pos, n) matches Some(es) ==> es.len() == n && constant_entries(es, n)
            == Some(entries.subrange(0, n)),
    decreases entries, n,
{
    if n > 0 {
        lemma_literal_entries_values(entries, pos, n - 1);
        lemma_literal_value(entries[n - 1].1, pos);
        if literal_entries(entries, pos, n).is_some() {
            let es = literal_entries(entries, pos, n).unwrap();
            let done = literal_entries(entries, pos, n - 1).unwrap();
            lemma_constant_entries_prefix(done, es, n - 1);
            assert(entries.subrange(0, n) =~= entries.subrange(0, n - 1).push(entries[n - 1]));
        }
    } else {
        assert(entries.subrange(0, 0) =~= Seq::<(Seq<char>, Value)>::empty());
    }
}

/// The constant expression that a value is written as has that value.
pub proof fn lemma_literal_value(v: Value, pos: Position)
    ensures
        literal(v, pos) matches Some(e) ==> e.constant_value() == Some(v),
    decreases v, 0int,
{
    match v {
        Value::Array(items) => {
            lemma_literals_values(items, pos, items.len() as int);
            assert(items.subrange(0, items.len() as int) =~= items);
        },
        Value::ObjMap(entries) => {
            lemma_literal_entries_values(entries, pos, entries.len() as int);
            assert(entries.subrange(0, entries.len() as int) =~= entries);
        },
        _ => {},
    }
}

/// The values of the first `n` expressions are the values of each of them, in order.
pub proof fn lemma_constant_values(items: Seq<ExprValue>, n: int)
    requires
        0 <= n <= items.len(),
        constant_values(items, n).is_some(),
    ensures
        forall|i: int| 0 <= i < n ==> (#[trigger] items[i]).constant_value().is_some(),
        constant_values(items, n).unwrap() == Seq::new(
            n as nat,
            |k: int| items[k].constant_value().unwrap(),
        ),
    decreases n,
{
    if n > 0 {
        lemma_constant_values(items, n - 1);
    }
    assert(constant_values(items, n).unwrap() =~= Seq::new(
        n as nat,
        |k: int| items[k].constant_value().unwrap(),
    ));
}

/// The values of the first `n` entries are the keys with the values of each of them, in order.
pub proof fn lemma_constant_entries(items: Seq<(Seq<char>, ExprValue, Position)>, n: int)
    requires
        0 <= n <= items.len(),
        constant_entries(items, n).is_some(),
    ensures
        forall|i: int| 0 <= i < n ==> (#[trigger] items[i]).1.constant_value().is_some(),
        constant_entries(items, n).unwrap() == Seq::new(
            n as nat,
            |k: int| (items[k].0, items[k].1.constant_value().unwrap()),
        ),
    decreases n,
{
    if n > 0 {
        lemma_constant_entries(items, n - 1);
    }
    assert(constant_entries(items, n).unwrap() =~= Seq::new(
        n as nat,
        |k: int| (items[k].0, items[k].1.constant_value().unwrap()),
    ));
}

} // verus!
