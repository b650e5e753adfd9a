//! The body-description mini-language: expressions, statements, and the
//! expression evaluator.
//!
//! A procedure body is a `Stmt` tree. Expressions are effect-free and total:
//! an ill-typed operation yields a fixed default (`Unit`, `Bool(false)` or
//! `Int(0)`), so evaluation never fails and never suspends. Suspension is
//! expressed only by the `Suspend` statement.

use vstd::prelude::*;

use crate::value::{Env, Value};

verus! {

/// Unary operators. `HexDigit` maps the code of an ASCII hexadecimal digit to
/// its numeric value (`Just`), any other code to `Nothing`. `CharOf` maps a
/// code point to `Just` of itself when it is a valid Unicode scalar value and
/// to `Nothing` otherwise. `IsJust` and `GetJust` observe optional values.
#[derive(Debug, Clone, Copy, PartialEq, Eq)]
pub enum UnOp {
    Not,
    HexDigit,
    CharOf,
    IsJust,
    GetJust,
}

/// Binary operators. Arithmetic and shifts act on `Int` values modulo 2^32,
/// with shift amounts taken modulo 32; comparisons act on `Int` values and
/// the logical connectives on `Bool` values. `EqV` compares two `Int` or two
/// `Bool` values. Any operand outside an operator's domain yields the
/// operator's default result.
#[derive(Debug, Clone, Copy, PartialEq, Eq)]
pub enum BinOp {
    Add,
    Sub,
    Shl,
    Shr,
    BitAnd,
    BitOr,
    EqV,
    Lt,
    Le,
    Gt,
    Ge,
    And,
    Or,
}

/// An effect-free expression over the variable store.
#[derive(Debug, PartialEq, Eq)]
pub enum Expr {
    UnitLit,
    BoolLit(bool),
    IntLit(u32),
    Var(u8),
    NothingLit,
    JustOf(Box<Expr>),
    Un(UnOp, Box<Expr>),
    Bin(BinOp, Box<Expr>, Box<Expr>),
}

impl Clone for Expr {
    fn clone(&self) -> (r: Self)
        ensures
            r == self,
        decreases self,
    {
        match self {
            Expr::UnitLit => Expr::UnitLit,
            Expr::BoolLit(b) => Expr::BoolLit(*b),
            Expr::IntLit(n) => Expr::IntLit(*n),
            Expr::Var(i) => Expr::Var(*i),
            Expr::NothingLit => Expr::NothingLit,
            Expr::JustOf(e) => Expr::JustOf(Box::new((**e).clone())),
            Expr::Un(op, e) => Expr::Un(*op, Box::new((**e).clone())),
            Expr::Bin(op, a, b) => Expr::Bin(*op, Box::new((**a).clone()), Box::new((**b).clone())),
        }
    }
}

/// One statement of a procedure body.
///
/// The surface forms are `Skip`, `Assign`, `Then`, `IfElse`, `While`, `Loop`
/// and `Suspend`; a body is built from these alone. A suspend point always
/// carries an expression; one that has no value to publish carries
/// `UnitLit`, the empty value. `Ret`, `ForeignAwait` and
/// `TryShortcut` stand for the three constructs a front end may pass through
/// but the transformer must reject: early termination, a foreign suspension
/// context, and error-shortcut propagation. `Publish`, `Invalidate`, `Tick`
/// and `Reacquire` are the protocol forms the transformer lowers `Suspend`
/// into; they never appear in a surface body.
#[derive(Debug, PartialEq, Eq)]
pub enum Stmt {
    Skip,
    Assign(u8, Expr),
    Then(Box<Stmt>, Box<Stmt>),
    IfElse(Expr, Box<Stmt>, Box<Stmt>),
    While(Expr, Box<Stmt>),
    Loop(Box<Stmt>),
    Suspend(Expr),
    Ret,
    ForeignAwait,
    TryShortcut,
    Publish(Expr),
    Invalidate(u8),
    Tick,
    Reacquire(u8),
}

impl Clone for Stmt {
    fn clone(&self) -> (r: Self)
        ensures
            r == self,
        decreases self,
    {
        match self {
            Stmt::Skip => Stmt::Skip,
            Stmt::Assign(i, e) => Stmt::Assign(*i, e.clone()),
            Stmt::Then(a, b) => Stmt::Then(Box::new((**a).clone()), Box::new((**b).clone())),
            Stmt::IfElse(c, t, e) => Stmt::IfElse(
                c.clone(),
                Box::new((**t).clone()),
                Box::new((**e).clone()),
            ),
            Stmt::While(c, b) => Stmt::While(c.clone(), Box::new((**b).clone())),
            Stmt::Loop(b) => Stmt::Loop(Box::new((**b).clone())),
            Stmt::Suspend(e) => Stmt::Suspend(e.clone()),
            Stmt::Ret => Stmt::Ret,
            Stmt::ForeignAwait => Stmt::ForeignAwait,
            Stmt::TryShortcut => Stmt::TryShortcut,
            Stmt::Publish(e) => Stmt::Publish(e.clone()),
            Stmt::Invalidate(n) => Stmt::Invalidate(*n),
            Stmt::Tick => Stmt::Tick,
            Stmt::Reacquire(n) => Stmt::Reacquire(*n),
        }
    }
}

/// The numeric value of an ASCII hexadecimal digit code, if it is one.
pub open spec fn spec_hex_digit(c: u32) -> Value {
    if 48 <= c && c <= 57 {
        Value::Just(Box::new(Value::Int((c - 48) as u32)))
    } else if 65 <= c && c <= 70 {
        Value::Just(Box::new(Value::Int((c - 55) as u32)))
    } else if 97 <= c && c <= 102 {
        Value::Just(Box::new(Value::Int((c - 87) as u32)))
    } else {
        Value::Nothing
    }
}

/// Whether `c` is a valid Unicode scalar value (not a surrogate, not above
/// the last code point).
pub open spec fn spec_is_scalar(c: u32) -> bool {
    c < 0xD800 || (0xE000 <= c && c <= 0x10FFFF)
}

pub open spec fn spec_eval_un(op: UnOp, v: Value) -> Value {
    match op {
        UnOp::Not => match v {
            Value::Bool(b) => Value::Bool(!b),
            _ => Value::Bool(false),
        },
        UnOp::HexDigit => match v {
            Value::Int(c) => spec_hex_digit(c),
            _ => Value::Nothing,
        },
        UnOp::CharOf => match v {
            Value::Int(c) => if spec_is_scalar(c) {
                Value::Just(Box::new(Value::Int(c)))
            } else {
                Value::Nothing
            },
            _ => Value::Nothing,
        },
        UnOp::IsJust => Value::Bool(v is Just),
        UnOp::GetJust => match v {
            Value::Just(x) => *x,
            _ => Value::Unit,
        },
    }
}

pub open spec fn spec_eval_bin(op: BinOp, a: Value, b: Value) -> Value {
    match op {
        BinOp::Add => match (a, b) {
            (Value::Int(x), Value::Int(y)) => Value::Int(
                ((x as int + y as int) % 0x1_0000_0000) as u32,
            ),
            _ => Value::Int(0),
        },
        BinOp::Sub => match (a, b) {
            (Value::Int(x), Value::Int(y)) => Value::Int(
                ((0x1_0000_0000 + x as int - y as int) % 0x1_0000_0000) as u32,
            ),
            _ => Value::Int(0),
        },
        BinOp::Shl => match (a, b) {
            (Value::Int(x), Value::Int(y)) => Value::Int(x << (y % 32)),
            _ => Value::Int(0),
        },
        BinOp::Shr => match (a, b) {
            (Value::Int(x), Value::Int(y)) => Value::Int(x >> (y % 32)),
            _ => Value::Int(0),
        },
        BinOp::BitAnd => match (a, b) {
            (Value::Int(x), Value::Int(y)) => Value::Int(x & y),
            _ => Value::Int(0),
        },
        BinOp::BitOr => match (a, b) {
            (Value::Int(x), Value::Int(y)) => Value::Int(x | y),
            _ => Value::Int(0),
        },
        BinOp::EqV => match (a, b) {
            (Value::Int(x), Value::Int(y)) => Value::Bool(x == y),
            (Value::Bool(x), Value::Bool(y)) => Value::Bool(x == y),
            _ => Value::Bool(false),
        },
        BinOp::Lt => match (a, b) {
            (Value::Int(x), Value::Int(y)) => Value::Bool(x < y),
            _ => Value::Bool(false),
        },
        BinOp::Le => match (a, b) {
            (Value::Int(x), Value::Int(y)) => Value::Bool(x <= y),
            _ => Value::Bool(false),
        },
        BinOp::Gt => match (a, b) {
            (Value::Int(x), Value::Int(y)) => Value::Bool(x > y),
            _ => Value::Bool(false),
        },
        BinOp::Ge => match (a, b) {
            (Value::Int(x), Value::Int(y)) => Value::Bool(x >= y),
            _ => Value::Bool(false),
        },
        BinOp::And => match (a, b) {
            (Value::Bool(x), Value::Bool(y)) => Value::Bool(x && y),
            _ => Value::Bool(false),
        },
        BinOp::Or => match (a, b) {
            (Value::Bool(x), Value::Bool(y)) => Value::Bool(x || y),
            _ => Value::Bool(false),
        },
    }
}

/// The value of `e` in store `env`. Total: evaluation has no effects and
/// cannot fail.
pub open spec fn spec_eval(env: Env, e: Expr) -> Value
    decreases e,
{
    match e {
        Expr::UnitLit => Value::Unit,
        Expr::BoolLit(b) => Value::Bool(b),
        Expr::IntLit(n) => Value::Int(n),
        Expr::Var(i) => env.read(i),
        Expr::NothingLit => Value::Nothing,
        Expr::JustOf(x) => Value::Just(Box::new(spec_eval(env, *x))),
        Expr::Un(op, x) => spec_eval_un(op, spec_eval(env, *x)),
        Expr::Bin(op, x, y) => spec_eval_bin(op, spec_eval(env, *x), spec_eval(env, *y)),
    }
}

fn eval_un(op: UnOp, v: Value) -> (r: Value)
    ensures
        r == spec_eval_un(op, v),
{
    match op {
        UnOp::Not => match v {
            Value::Bool(b) => Value::Bool(!b),
            _ => Value::Bool(false),
        },
        UnOp::HexDigit => match v {
            Value::Int(c) => {
                if 48 <= c && c <= 57 {
                    Value::Just(Box::new(Value::Int(c - 48)))
                } else if 65 <= c && c <= 70 {
                    Value::Just(Box::new(Value::Int(c - 55)))
                } else if 97 <= c && c <= 102 {
                    Value::Just(Box::new(Value::Int(c - 87)))
                } else {
                    Value::Nothing
                }
            },
            _ => Value::Nothing,
        },
        UnOp::CharOf => match v {
            Value::Int(c) => {
                if c < 0xD800 || (0xE000 <= c && c <= 0x10FFFF) {
                    Value::Just(Box::new(Value::Int(c)))
                } else {
                    Value::Nothing
                }
            },
            _ => Value::Nothing,
        },
        UnOp::IsJust => match v {
            Value::Just(_) => Value::Bool(true),
            _ => Value::Bool(false),
        },
        UnOp::GetJust => match v {
            Value::Just(x) => *x,
            _ => Value::Unit,
        },
    }
}

fn eval_bin(op: BinOp, a: Value, b: Value) -> (r: Value)
    ensures
        r == spec_eval_bin(op, a, b),
{
    match op {
        BinOp::Add => match (a, b) {
            (Value::Int(x), Value::Int(y)) => Value::Int(
                ((x as u64 + y as u64) % 0x1_0000_0000u64) as u32,
            ),
            _ => Value::Int(0),
        },
        BinOp::Sub => match (a, b) {
            (Value::Int(x), Value::Int(y)) => Value::Int(
                ((0x1_0000_0000u64 + x as u64 - y as u64) % 0x1_0000_0000u64) as u32,
            ),
            _ => Value::Int(0),
        },
        BinOp::Shl => match (a, b) {
            (Value::Int(x), Value::Int(y)) => Value::Int(x << (y % 32)),
            _ => Value::Int(0),
        },
        BinOp::Shr => match (a, b) {
            (Value::Int(x), Value::Int(y)) => Value::Int(x >> (y % 32)),
            _ => Value::Int(0),
        },
        BinOp::BitAnd => match (a, b) {
            (Value::Int(x), Value::Int(y)) => Value::Int(x & y),
            _ => Value::Int(0),
        },
        BinOp::BitOr => match (a, b) {
            (Value::Int(x), Value::Int(y)) => Value::Int(x | y),
            _ => Value::Int(0),
        },
        BinOp::EqV => match (a, b) {
            (Value::Int(x), Value::Int(y)) => Value::Bool(x == y),
            (Value::Bool(x), Value::Bool(y)) => Value::Bool(x == y),
            _ => Value::Bool(false),
        },
        BinOp::Lt => match (a, b) {
            (Value::Int(x), Value::Int(y)) => Value::Bool(x < y),
            _ => Value::Bool(false),
        },
        BinOp::Le => match (a, b) {
            (Value::Int(x), Value::Int(y)) => Value::Bool(x <= y),
            _ => Value::Bool(false),
        },
        BinOp::Gt => match (a, b) {
            (Value::Int(x), Value::Int(y)) => Value::Bool(x > y),
            _ => Value::Bool(false),
        },
        BinOp::Ge => match (a, b) {
            (Value::Int(x), Value::Int(y)) => Value::Bool(x >= y),
            _ => Value::Bool(false),
        },
        BinOp::And => match (a, b) {
            (Value::Bool(x), Value::Bool(y)) => Value::Bool(x && y),
            _ => Value::Bool(false),
        },
        BinOp::Or => match (a, b) {
            (Value::Bool(x), Value::Bool(y)) => Value::Bool(x || y),
            _ => Value::Bool(false),
        },
    }
}

/// Evaluate `e` in `env`. Expressions are effect-free, so the store is only
/// read.
pub fn eval(env: &Env, e: &Expr) -> (r: Value)
    ensures
        r == spec_eval(*env, *e),
    decreases e,
{
    match e {
        Expr::UnitLit => Value::Unit,
        Expr::BoolLit(b) => Value::Bool(*b),
        Expr::IntLit(n) => Value::Int(*n),
        Expr::Var(i) => env.get(*i),
        Expr::NothingLit => Value::Nothing,
        Expr::JustOf(x) => Value::Just(Box::new(eval(env, x))),
        Expr::Un(op, x) => {
            let v = eval(env, x);
            eval_un(*op, v)
        },
        Expr::Bin(op, x, y) => {
            let va = eval(env, x);
            let vb = eval(env, y);
            eval_bin(*op, va, vb)
        },
    }
}

} // verus!
