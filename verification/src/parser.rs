//! The abstract syntax tree that the evaluator walks.

use vstd::prelude::*;
use crate::any::{Dynamic, Value, values_of, entries_of};
use crate::model::ExprValue;
use crate::engine::FunctionsLib;
use crate::model::{
    all_constant, all_pure, all_stmts_pure, all_values_constant, constant_entries, constant_values,
    exprs_of, items_of, literal, literal_entries, literals, stmts_of, lemma_exprs_push,
    lemma_items_push, lemma_no_constant_entries, lemma_no_constant_values, lemma_no_literal_entries,
    lemma_no_literals, lemma_not_all_constant, lemma_not_all_pure, lemma_not_all_stmts_pure,
    lemma_not_all_values_constant,
};
use crate::token::Position;

verus! {

broadcast use crate::model::group_tree_views;

/// How a function is left.
#[derive(Debug, Eq, PartialEq, Structural, Hash, Clone, Copy)]
pub enum ReturnType {
    /// `return` statement.
    Return,
    /// `throw` statement.
    Exception,
}

/// A script-defined function.
#[derive(Debug)]
pub struct FnDef {
    /// Function name.
    pub name: String,
    /// Names of the parameters, in declaration order.
    pub params: Vec<String>,
    /// Function body.
    pub body: Box<Stmt>,
    /// Position of the function definition.
    pub pos: Position,
}

/// A statement.
#[derive(Debug)]
pub enum Stmt {
    /// No-op.
    Noop(Position),
    /// if expr { stmt } else { stmt }
    IfThenElse(Box<Expr>, Box<Stmt>, Option<Box<Stmt>>),
    /// while expr { stmt }
    While(Box<Expr>, Box<Stmt>),
    /// loop { stmt }
    Loop(Box<Stmt>),
    /// for id in expr { stmt }
    For(String, Box<Expr>, Box<Stmt>),
    /// let id = expr
    Let(String, Option<Box<Expr>>, Position),
    /// const id = expr
    Const(String, Box<Expr>, Position),
    /// { stmt; ... }
    Block(Vec<Stmt>, Position),
    /// { stmt }
    Expr(Box<Expr>),
    /// continue
    Continue(Position),
    /// break
    Break(Position),
    /// `return` or `throw`
    ReturnWithVal(Option<Box<Expr>>, ReturnType, Position),
}

/// An expression.
#[derive(Debug)]
pub enum Expr {
    /// Integer constant.
    IntegerConstant(i64, Position),
    /// Character constant.
    CharConstant(char, Position),
    /// String constant.
    StringConstant(String, Position),
    /// Variable access: its name and, where the parser knows it, the distance
    /// of its entry from the top of the scope (at least one).
    Variable(String, Option<usize>, Position),
    /// Property access.
    Property(String, Position),
    /// { stmt }
    Stmt(Box<Stmt>, Position),
    /// func(expr, ... ): the name, the arguments and the value to return where
    /// no function answers.
    FnCall(String, Vec<Expr>, Option<Dynamic>, Position),
    /// expr = expr
    Assignment(Box<Expr>, Box<Expr>, Position),
    /// lhs.rhs
    Dot(Box<Expr>, Box<Expr>, Position),
    /// expr[expr]
    Index(Box<Expr>, Box<Expr>, Position),
    /// [ expr, ... ]
    Array(Vec<Expr>, Position),
    /// #{ name:expr, ... }
    ObjMap(Vec<(String, Expr, Position)>, Position),
    /// lhs in rhs
    In(Box<Expr>, Box<Expr>, Position),
    /// lhs && rhs
    And(Box<Expr>, Box<Expr>, Position),
    /// lhs || rhs
    Or(Box<Expr>, Box<Expr>, Position),
    /// true
    True(Position),
    /// false
    False(Position),
    /// ()
    Unit(Position),
}

/// A compiled script: its statements and the functions it defines.
#[derive(Debug)]
pub struct AST {
    pub statements: Vec<Stmt>,
    pub fn_lib: FunctionsLib,
}

impl AST {
    /// Create a new `AST`.
    pub fn new(statements: Vec<Stmt>, fn_lib: FunctionsLib) -> (ast: AST)
        ensures
            ast.statements == statements,
            ast.fn_lib == fn_lib,
    {
        AST { statements, fn_lib }
    }
}

impl Expr {
    /// The source position of the expression: that of its left-most part
    /// for an assignment, a dot or an index expression.
    pub fn position(&self) -> (pos: Position)
        ensures
            pos == self@.position(),
        decreases self,
    {
        match self {
            Expr::IntegerConstant(_, pos) => *pos,
            Expr::CharConstant(_, pos) => *pos,
            Expr::StringConstant(_, pos) => *pos,
            Expr::Variable(_, _, pos) => *pos,
            Expr::Property(_, pos) => *pos,
            Expr::Stmt(_, pos) => *pos,
            Expr::FnCall(_, _, _, pos) => *pos,
            Expr::Assignment(lhs, _, _) => lhs.position(),
            Expr::Dot(lhs, _, _) => lhs.position(),
            Expr::Index(lhs, _, _) => lhs.position(),
            Expr::Array(_, pos) => *pos,
            Expr::ObjMap(_, pos) => *pos,
            Expr::In(_, _, pos) => *pos,
            Expr::And(_, _, pos) => *pos,
            Expr::Or(_, _, pos) => *pos,
            Expr::True(pos) => *pos,
            Expr::False(pos) => *pos,
            Expr::Unit(pos) => *pos,
        }
    }

    /// Move the expression to another position: the position that the
    /// expression itself carries is replaced, its parts stay where they are.
    pub fn set_position(self, pos: Position) -> (r: Expr)
        ensures
            r@ == self@.at(pos),
    {
        match self {
            Expr::IntegerConstant(i, _) => Expr::IntegerConstant(i, pos),
            Expr::CharConstant(c, _) => Expr::CharConstant(c, pos),
            Expr::StringConstant(s, _) => Expr::StringConstant(s, pos),
            Expr::Variable(n, i, _) => Expr::Variable(n, i, pos),
            Expr::Property(n, _) => Expr::Property(n, pos),
            Expr::Stmt(s, _) => Expr::Stmt(s, pos),
            Expr::FnCall(n, a, d, _) => Expr::FnCall(n, a, d, pos),
            Expr::Assignment(l, r, _) => Expr::Assignment(l, r, pos),
            Expr::Dot(l, r, _) => Expr::Dot(l, r, pos),
            Expr::Index(l, r, _) => Expr::Index(l, r, pos),
            Expr::Array(a, _) => Expr::Array(a, pos),
            Expr::ObjMap(a, _) => Expr::ObjMap(a, pos),
            Expr::In(l, r, _) => Expr::In(l, r, pos),
            Expr::And(l, r, _) => Expr::And(l, r, pos),
            Expr::Or(l, r, _) => Expr::Or(l, r, pos),
            Expr::True(_) => Expr::True(pos),
            Expr::False(_) => Expr::False(pos),
            Expr::Unit(_) => Expr::Unit(pos),
        }
    }

    /// Is the expression a constant? Literals are; arrays and object maps of
    /// constants are; so is a string or a character `in` a string literal.
    #[verifier::loop_isolation(false)]
    pub fn is_constant(&self) -> (b: bool)
        ensures
            b == self@.is_constant(),
        decreases self,
    {
        match self {
            Expr::IntegerConstant(_, _) => true,
            Expr::CharConstant(_, _) => true,
            Expr::StringConstant(_, _) => true,
            Expr::True(_) => true,
            Expr::False(_) => true,
            Expr::Unit(_) => true,
            Expr::Array(items, _) => {
                let mut i: usize = 0;
                while i < items.len()
                    invariant
                        i <= items.len(),
                        all_constant(exprs_of(items@), i as int),
                    decreases items.len() - i,
                {
                    if !items[i].is_constant() {
                        proof {
                            lemma_not_all_constant(exprs_of(items@), i as int, items@.len() as int);
                        }
                        return false;
                    }
                    i += 1;
                }
                true
            },
            Expr::ObjMap(items, _) => {
                let mut i: usize = 0;
                while i < items.len()
                    invariant
                        i <= items.len(),
                        all_values_constant(items_of(items@), i as int),
                    decreases items.len() - i,
                {
                    if !items[i].1.is_constant() {
                        proof {
                            lemma_not_all_values_constant(items_of(items@), i as int, items@.len() as int);
                        }
                        return false;
                    }
                    i += 1;
                }
                true
            },
            Expr::In(lhs, rhs, _) => {
                let left = match &**lhs {
                    Expr::StringConstant(_, _) => true,
                    Expr::CharConstant(_, _) => true,
                    _ => false,
                };
                let right = match &**rhs {
                    Expr::StringConstant(_, _) => true,
                    _ => false,
                };
                assert(left == (lhs@ is StringConstant || lhs@ is CharConstant));
                assert(right == (rhs@ is StringConstant));
                left && right
            },
            _ => false,
        }
    }

    /// Is the expression pure? A pure expression has no side effects: a
    /// variable, a constant, or an array, an index, `in`, `&&` or `||` over
    /// pure expressions, or a pure statement.
    #[verifier::loop_isolation(false)]
    pub fn is_pure(&self) -> (b: bool)
        ensures
            b == self@.is_pure(),
        decreases self,
    {
        match self {
            Expr::Array(items, _) => {
                let mut i: usize = 0;
                while i < items.len()
                    invariant
                        i <= items.len(),
                        all_pure(exprs_of(items@), i as int),
                    decreases items.len() - i,
                {
                    if !items[i].is_pure() {
                        proof {
                            lemma_not_all_pure(exprs_of(items@), i as int, items@.len() as int);
                        }
                        return false;
                    }
                    i += 1;
                }
                true
            },
            Expr::Index(x, y, _) => x.is_pure() && y.is_pure(),
            Expr::And(x, y, _) => x.is_pure() && y.is_pure(),
            Expr::Or(x, y, _) => x.is_pure() && y.is_pure(),
            Expr::In(x, y, _) => x.is_pure() && y.is_pure(),
            Expr::Stmt(stmt, _) => stmt.is_pure(),
            Expr::Variable(_, _, _) => true,
            _ => self.is_constant(),
        }
    }

    /// The value of a constant expression: that of a literal, or of an array or
    /// an object map of such expressions, its entries in source order. No other
    /// expression has one.
    #[verifier::loop_isolation(false)]
    pub fn get_constant_value(&self) -> (r: Option<Dynamic>)
        ensures
            match r {
                Some(d) => self@.constant_value() == Some(d@),
                None => self@.constant_value().is_none(),
            },
        decreases self,
    {
        broadcast use crate::any::group_value_views;

        match self {
            Expr::IntegerConstant(i, _) => Some(Dynamic::Int(*i)),
            Expr::CharConstant(c, _) => Some(Dynamic::Char(*c)),
            Expr::StringConstant(s, _) => Some(Dynamic::Str(s.clone())),
            Expr::True(_) => Some(Dynamic::Bool(true)),
            Expr::False(_) => Some(Dynamic::Bool(false)),
            Expr::Unit(_) => Some(Dynamic::Unit),
            Expr::Array(items, _) => {
                let mut out: Vec<Dynamic> = Vec::new();
                let mut i: usize = 0;
                assert(values_of(out@) =~= Seq::<Value>::empty());
                while i < items.len()
                    invariant
                        i <= items.len(),
                        out.len() == i,
                        constant_values(exprs_of(items@), i as int) == Some(values_of(out@)),
                    decreases items.len() - i,
                {
                    match items[i].get_constant_value() {
                        Some(d) => {
                            proof {
                                crate::any::lemma_values_push(out@, d);
                            }
                            out.push(d);
                        },
                        None => {
                            proof {
                                lemma_no_constant_values(exprs_of(items@), i as int, items@.len() as int);
                            }
                            return None;
                        },
                    }
                    i += 1;
                }
                Some(Dynamic::Array(out))
            },
            Expr::ObjMap(items, _) => {
                let mut out: Vec<(String, Dynamic)> = Vec::new();
                let mut i: usize = 0;
                assert(entries_of(out@) =~= Seq::<(Seq<char>, Value)>::empty());
                while i < items.len()
                    invariant
                        i <= items.len(),
                        out.len() == i,
                        constant_entries(items_of(items@), i as int) == Some(entries_of(out@)),
                    decreases items.len() - i,
                {
                    match items[i].1.get_constant_value() {
                        Some(d) => {
                            let key = items[i].0.clone();
                            proof {
                                crate::any::lemma_entries_push(out@, (key, d));
                            }
                            out.push((key, d));
                        },
                        None => {
                            proof {
                                lemma_no_constant_entries(items_of(items@), i as int, items@.len() as int);
                            }
                            return None;
                        },
                    }
                    i += 1;
                }
                Some(Dynamic::ObjMap(out))
            },
            _ => None,
        }
    }

    /// The name under which a constant expression is reported, as when a
    /// script assigns to it.
    pub fn get_constant_str(&self) -> (r: String)
        ensures
            r@ == self@.constant_label(),
    {
        match self {
            Expr::IntegerConstant(_, _) => "i64".to_owned(),
            Expr::CharConstant(_, _) => "char".to_owned(),
            Expr::StringConstant(_, _) => "string".to_owned(),
            Expr::True(_) => "true".to_owned(),
            Expr::False(_) => "false".to_owned(),
            Expr::Unit(_) => "()".to_owned(),
            Expr::Array(_, _) => "array".to_owned(),
            Expr::ObjMap(_, _) => "map".to_owned(),
            _ => "in".to_owned(),
        }
    }
}

/// Write a value as a constant expression at the given position: a literal,
/// or an array or an object map of such expressions. A value that holds an
/// opaque host value has no such expression.
pub fn map_dynamic_to_expr(value: Dynamic, pos: Position) -> (r: Option<Expr>)
    ensures
        match r {
            Some(e) => literal(value@, pos) == Some(e@),
            None => literal(value@, pos).is_none(),
        },
{
    constant_for(&value, pos)
}

/// Write a borrowed value as a constant expression at the given position.
#[verifier::loop_isolation(false)]
pub fn constant_for(value: &Dynamic, pos: Position) -> (r: Option<Expr>)
    ensures
        match r {
            Some(e) => literal(value@, pos) == Some(e@),
            None => literal(value@, pos).is_none(),
        },
    decreases value,
{
    broadcast use crate::any::group_value_views;

    match value {
        Dynamic::Unit => Some(Expr::Unit(pos)),
        Dynamic::Bool(true) => Some(Expr::True(pos)),
        Dynamic::Bool(false) => Some(Expr::False(pos)),
        Dynamic::Int(i) => Some(Expr::IntegerConstant(*i, pos)),
        Dynamic::Char(c) => Some(Expr::CharConstant(*c, pos)),
        Dynamic::Str(s) => Some(Expr::StringConstant(s.clone(), pos)),
        Dynamic::Array(items) => {
            let mut out: Vec<Expr> = Vec::new();
            let mut i: usize = 0;
            assert(exprs_of(out@) =~= Seq::<ExprValue>::empty());
            while i < items.len()
                invariant
                    i <= items.len(),
                    out.len() == i,
                    literals(values_of(items@), pos, i as int) == Some(exprs_of(out@)),
                decreases items.len() - i,
            {
                match constant_for(&items[i], pos) {
                    Some(e) => {
                        proof {
                            lemma_exprs_push(out@, e);
                        }
                        out.push(e);
                    },
                    None => {
                        proof {
                            lemma_no_literals(values_of(items@), pos, i as int, items@.len() as int);
                        }
                        return None;
                    },
                }
                i += 1;
            }
            Some(Expr::Array(out, pos))
        },
        Dynamic::ObjMap(entries) => {
            let mut out: Vec<(String, Expr, Position)> = Vec::new();
            let mut i: usize = 0;
            assert(items_of(out@) =~= Seq::<(Seq<char>, ExprValue, Position)>::empty());
            while i < entries.len()
                invariant
                    i <= entries.len(),
                    out.len() == i,
                    literal_entries(entries_of(entries@), pos, i as int) == Some(items_of(out@)),
                decreases entries.len() - i,
            {
                match constant_for(&entries[i].1, pos) {
                    Some(e) => {
                        let key = entries[i].0.clone();
                        proof {
                            lemma_items_push(out@, (key, e, pos));
                        }
                        out.push((key, e, pos));
                    },
                    None => {
                        proof {
                            lemma_no_literal_entries(
                                entries_of(entries@),
                                pos,
                                i as int,
                                entries@.len() as int,
                            );
                        }
                        return None;
                    },
                }
                i += 1;
            }
            Some(Expr::ObjMap(out, pos))
        },
        Dynamic::Custom(_, _, _) => None,
    }
}

impl Stmt {
    /// Is the statement pure? A pure statement declares nothing, leaves no
    /// loop or function, and holds pure expressions and statements only.
    #[verifier::loop_isolation(false)]
    pub fn is_pure(&self) -> (b: bool)
        ensures
            b == self@.is_pure(),
        decreases self,
    {
        match self {
            Stmt::Noop(_) => true,
            Stmt::Expr(expr) => expr.is_pure(),
            Stmt::IfThenElse(guard, if_block, Some(else_block)) => guard.is_pure()
                && if_block.is_pure() && else_block.is_pure(),
            Stmt::IfThenElse(guard, block, None) => guard.is_pure() && block.is_pure(),
            Stmt::While(guard, block) => guard.is_pure() && block.is_pure(),
            Stmt::Loop(block) => block.is_pure(),
            Stmt::For(_, range, block) => range.is_pure() && block.is_pure(),
            Stmt::Let(_, _, _) => false,
            Stmt::Const(_, _, _) => false,
            Stmt::Block(statements, _) => {
                let mut i: usize = 0;
                while i < statements.len()
                    invariant
                        i <= statements.len(),
                        all_stmts_pure(stmts_of(statements@), i as int),
                    decreases statements.len() - i,
                {
                    if !statements[i].is_pure() {
                        proof {
                            lemma_not_all_stmts_pure(stmts_of(statements@), i as int, statements@.len() as int);
                        }
                        return false;
                    }
                    i += 1;
                }
                true
            },
            Stmt::Continue(_) => false,
            Stmt::Break(_) => false,
            Stmt::ReturnWithVal(_, _, _) => false,
        }
    }

    /// The source position of the statement: that of its guard or expression
    /// where it begins with one.
    pub fn position(&self) -> (pos: Position)
        ensures
            pos == self@.position(),
        decreases self,
    {
        match self {
            Stmt::Noop(pos) => *pos,
            Stmt::Let(_, _, pos) => *pos,
            Stmt::Const(_, _, pos) => *pos,
            Stmt::Block(_, pos) => *pos,
            Stmt::Continue(pos) => *pos,
            Stmt::Break(pos) => *pos,
            Stmt::ReturnWithVal(_, _, pos) => *pos,
            Stmt::IfThenElse(expr, _, _) => expr.position(),
            Stmt::Expr(expr) => expr.position(),
            Stmt::While(expr, _) => expr.position(),
            Stmt::For(_, expr, _) => expr.position(),
            Stmt::Loop(stmt) => stmt.position(),
        }
    }
}

} // verus!
