use yield_closures::ast::{BinOp, Expr, Stmt, UnOp};
use yield_closures::driver::{Callable, Resumed};
use yield_closures::transform::BuildError;
use yield_closures::value::Value;
use yield_closures::{co, co0, co2, co3, pend_once};

fn vint(n: u32) -> Expr {
    Expr::IntLit(n)
}

fn var(i: u8) -> Expr {
    Expr::Var(i)
}

fn bin(op: BinOp, a: Expr, b: Expr) -> Expr {
    Expr::Bin(op, Box::new(a), Box::new(b))
}

fn un(op: UnOp, a: Expr) -> Expr {
    Expr::Un(op, Box::new(a))
}

fn eqv(a: Expr, b: Expr) -> Expr {
    bin(BinOp::EqV, a, b)
}

fn just(e: Expr) -> Expr {
    Expr::JustOf(Box::new(e))
}

fn nothing() -> Expr {
    Expr::NothingLit
}

fn then2(a: Stmt, b: Stmt) -> Stmt {
    Stmt::Then(Box::new(a), Box::new(b))
}

fn chain(stmts: Vec<Stmt>) -> Stmt {
    let mut it = stmts.into_iter().rev();
    let mut acc = it.next().expect("chain of no statements");
    for s in it {
        acc = then2(s, acc);
    }
    acc
}

fn ifelse(c: Expr, t: Stmt, e: Stmt) -> Stmt {
    Stmt::IfElse(c, Box::new(t), Box::new(e))
}

fn wloop(c: Expr, b: Stmt) -> Stmt {
    Stmt::While(c, Box::new(b))
}

fn forever(b: Stmt) -> Stmt {
    Stmt::Loop(Box::new(b))
}

fn assign(i: u8, e: Expr) -> Stmt {
    Stmt::Assign(i, e)
}

fn suspend(e: Expr) -> Stmt {
    Stmt::Suspend(e)
}

#[test]
fn echo() {
    let body = forever(suspend(var(0)));
    let mut f = co(1, body).unwrap();
    assert_eq!(f.invoke(Value::Int(1)), Resumed::Output(Value::Int(1)));
    assert_eq!(f.invoke(Value::Int(2)), Resumed::Output(Value::Int(2)));
    assert_eq!(f.invoke(Value::Int(3)), Resumed::Output(Value::Int(3)));
}

/// The streaming escape decoder's body: one character per call in slot zero,
/// escape state carried across calls in the control position and in the two
/// digit slots.
fn escape_decoder_body() -> Stmt {
    let backslash: u32 = 92;
    let hex_arm = chain(vec![
        // Go past the x
        suspend(nothing()),
        assign(1, un(UnOp::HexDigit, var(0))),
        // Go past the first digit
        suspend(nothing()),
        assign(2, un(UnOp::HexDigit, var(0))),
        // Yield the decoded char if both digits were valid
        ifelse(
            bin(BinOp::And, un(UnOp::IsJust, var(1)), un(UnOp::IsJust, var(2))),
            suspend(un(
                UnOp::CharOf,
                bin(
                    BinOp::BitOr,
                    bin(BinOp::Shl, un(UnOp::GetJust, var(1)), vint(4)),
                    un(UnOp::GetJust, var(2)),
                ),
            )),
            suspend(nothing()),
        ),
    ]);
    let simple_arms = ifelse(
        eqv(var(0), vint('n' as u32)),
        suspend(just(vint('\n' as u32))),
        ifelse(
            eqv(var(0), vint('r' as u32)),
            suspend(just(vint('\r' as u32))),
            ifelse(
                eqv(var(0), vint('t' as u32)),
                suspend(just(vint('\t' as u32))),
                ifelse(
                    eqv(var(0), vint('0' as u32)),
                    suspend(just(vint(0))),
                    ifelse(
                        eqv(var(0), vint(backslash)),
                        suspend(just(vint(backslash))),
                        // Unnecessary escape
                        suspend(just(var(0))),
                    ),
                ),
            ),
        ),
    );
    forever(ifelse(
        un(UnOp::Not, eqv(var(0), vint(backslash))),
        // Not escaped
        suspend(just(var(0))),
        chain(vec![
            // Go past the backslash
            suspend(nothing()),
            ifelse(eqv(var(0), vint('x' as u32)), hex_arm, simple_arms),
        ]),
    ))
}

fn decode_with(f: &mut Callable, text: &str) -> String {
    let mut decoded = String::new();
    for c in text.chars() {
        match f.invoke(Value::Int(c as u32)) {
            Resumed::Output(Value::Nothing) => {}
            Resumed::Output(Value::Just(v)) => match *v {
                Value::Int(n) => decoded.push(char::from_u32(n).expect("invalid code point")),
                other => panic!("unexpected output payload: {:?}", other),
            },
            other => panic!("unexpected result: {:?}", other),
        }
    }
    decoded
}

#[test]
fn decode_escape_string() {
    let escaped_text = "Hello,\x20world!\\n";
    let mut f = co(1, escape_decoder_body()).unwrap();
    let text = decode_with(&mut f, escaped_text);
    assert_eq!(text, "Hello, world!\n");
}

#[test]
fn decode_hex_escape() {
    let mut f = co(1, escape_decoder_body()).unwrap();
    assert_eq!(decode_with(&mut f, "\\x41\\x4a"), "AJ");
}

#[test]
fn decode_bad_hex_escape_is_dropped() {
    let mut f = co(1, escape_decoder_body()).unwrap();
    assert_eq!(decode_with(&mut f, "\\xg1ok"), "ok");
}

#[test]
fn fib() {
    let body = chain(vec![
        assign(0, vint(1)),
        assign(1, vint(1)),
        forever(chain(vec![
            suspend(var(0)),
            assign(2, var(0)),
            assign(0, var(1)),
            assign(1, bin(BinOp::Add, var(1), var(2))),
        ])),
    ]);
    let mut f = co0(body).unwrap();
    assert_eq!(f.call(), Resumed::Output(Value::Int(1)));
    assert_eq!(f.call(), Resumed::Output(Value::Int(1)));
    assert_eq!(f.call(), Resumed::Output(Value::Int(2)));
    assert_eq!(f.call(), Resumed::Output(Value::Int(3)));
    assert_eq!(f.call(), Resumed::Output(Value::Int(5)));
}

/// Assign the base64 value of the character in slot zero to `slot`. An
/// invalid character gets value zero; the inputs below use none.
fn sextet_into(slot: u8) -> Stmt {
    ifelse(
        bin(BinOp::And, bin(BinOp::Ge, var(0), vint('A' as u32)), bin(BinOp::Le, var(0), vint('Z' as u32))),
        assign(slot, bin(BinOp::Sub, var(0), vint('A' as u32))),
        ifelse(
            bin(BinOp::And, bin(BinOp::Ge, var(0), vint('a' as u32)), bin(BinOp::Le, var(0), vint('z' as u32))),
            // 26 + c - 'a'
            assign(slot, bin(BinOp::Sub, var(0), vint('a' as u32 - 26))),
            ifelse(
                bin(BinOp::And, bin(BinOp::Ge, var(0), vint('0' as u32)), bin(BinOp::Le, var(0), vint('9' as u32))),
                // 52 + c - '0'
                assign(slot, bin(BinOp::Add, var(0), vint(52 - '0' as u32))),
                ifelse(
                    eqv(var(0), vint('+' as u32)),
                    assign(slot, vint(62)),
                    ifelse(
                        eqv(var(0), vint('/' as u32)),
                        assign(slot, vint(63)),
                        assign(slot, vint(0)),
                    ),
                ),
            ),
        ),
    )
}

#[test]
fn decode_base64() {
    let s = "QUJDREVGRw";
    let body = forever(chain(vec![
        sextet_into(1),
        suspend(nothing()),
        sextet_into(2),
        // aaaaaabb
        suspend(just(bin(
            BinOp::BitOr,
            bin(BinOp::Shl, var(1), vint(2)),
            bin(BinOp::Shr, var(2), vint(4)),
        ))),
        sextet_into(3),
        // bbbbcccc
        suspend(just(bin(
            BinOp::BitOr,
            bin(BinOp::Shl, bin(BinOp::BitAnd, var(2), vint(0b1111)), vint(4)),
            bin(BinOp::Shr, var(3), vint(2)),
        ))),
        sextet_into(4),
        // ccdddddd
        suspend(just(bin(
            BinOp::BitOr,
            bin(BinOp::Shl, bin(BinOp::BitAnd, var(3), vint(0b11)), vint(6)),
            var(4),
        ))),
    ]));
    let mut f = co(1, body).unwrap();
    let mut output: Vec<u8> = vec![];
    for x in s.chars() {
        match f.invoke(Value::Int(x as u32)) {
            Resumed::Output(Value::Nothing) => {}
            Resumed::Output(Value::Just(v)) => match *v {
                Value::Int(n) => output.push(n as u8),
                other => panic!("unexpected output payload: {:?}", other),
            },
            other => panic!("unexpected result: {:?}", other),
        }
    }
    assert_eq!(String::from_utf8_lossy(&output), "ABCDEFG");
}

#[test]
fn game() {
    let wander: u32 = 0;
    let attack: u32 = 1;
    let evade: u32 = 2;
    let heal: u32 = 3;
    // Parameters: slot 0 is_opponent_near, slot 1 my_health; slot 2 min_health.
    let body = forever(chain(vec![
        // Find opponent
        wloop(un(UnOp::Not, var(0)), suspend(vint(wander))),
        // Do battle!
        assign(2, var(1)),
        wloop(
            bin(BinOp::And, bin(BinOp::Gt, var(1), vint(1)), var(0)),
            chain(vec![
                suspend(vint(attack)),
                ifelse(
                    bin(BinOp::Lt, var(1), var(2)),
                    chain(vec![assign(2, var(1)), suspend(vint(evade))]),
                    Stmt::Skip,
                ),
            ]),
        ),
        // Recover
        ifelse(bin(BinOp::Lt, var(1), vint(5)), suspend(vint(heal)), Stmt::Skip),
    ]));
    let mut game = co2(body).unwrap();
    let mut play = |near: bool, health: u32| -> u32 {
        match game.call(Value::Bool(near), Value::Int(health)) {
            Resumed::Output(Value::Int(n)) => n,
            other => panic!("unexpected result: {:?}", other),
        }
    };
    assert_eq!(play(false, 3), wander);
    assert_eq!(play(true, 3), attack);
    assert_eq!(play(true, 2), evade);
    assert_eq!(play(true, 2), attack);
    assert_eq!(play(true, 1), evade);
    assert_eq!(play(true, 1), heal);
    assert_eq!(play(true, 5), attack);
    assert_eq!(play(false, 5), wander);
}

#[test]
fn three_parameter_sum() {
    let body = forever(suspend(bin(
        BinOp::Add,
        bin(BinOp::Add, var(0), var(1)),
        var(2),
    )));
    let mut f = co3(body).unwrap();
    let r = f.call(Value::Int(1), Value::Int(2), Value::Int(3));
    assert_eq!(r, Resumed::Output(Value::Int(6)));
    let r = f.call(Value::Int(10), Value::Int(20), Value::Int(30));
    assert_eq!(r, Resumed::Output(Value::Int(60)));
}

#[test]
fn addition_wraps() {
    let body = forever(suspend(bin(BinOp::Add, var(0), vint(u32::MAX))));
    let mut f = co(1, body).unwrap();
    assert_eq!(f.invoke(Value::Int(2)), Resumed::Output(Value::Int(1)));
}

#[test]
fn terminating_body_is_fatal() {
    // A body with no suspend point terminates at once: the protocol
    // violation is reported, not recovered from.
    let mut f = co(1, Stmt::Skip).unwrap();
    assert_eq!(f.invoke(Value::Int(7)), Resumed::Completed);
}

#[test]
fn construction_is_quiescent() {
    let c = co(1, forever(suspend(var(0)))).unwrap();
    assert!(c.m.input.v.is_none());
    assert!(c.m.output.v.is_none());
    assert!(!c.m.pend.polled);
}

#[test]
fn pend_once_suspends_exactly_once() {
    let mut p = pend_once();
    assert!(!p.poll());
    assert!(p.poll());
}

#[test]
fn rejects_early_termination() {
    let body = forever(then2(suspend(var(0)), Stmt::Ret));
    assert_eq!(co(1, body).unwrap_err(), BuildError::EarlyTermination);
}

#[test]
fn rejects_foreign_suspension() {
    let body = forever(then2(Stmt::ForeignAwait, suspend(var(0))));
    assert_eq!(co(1, body).unwrap_err(), BuildError::ForeignSuspension);
}

#[test]
fn rejects_error_shortcut() {
    let body = ifelse(eqv(var(0), vint(0)), Stmt::TryShortcut, forever(suspend(var(0))));
    assert_eq!(co(1, body).unwrap_err(), BuildError::ErrorShortcut);
}

#[test]
fn adapters_report_build_errors() {
    assert_eq!(co0(Stmt::Ret).unwrap_err(), BuildError::EarlyTermination);
    assert_eq!(co2(Stmt::ForeignAwait).unwrap_err(), BuildError::ForeignSuspension);
    assert_eq!(co3(Stmt::TryShortcut).unwrap_err(), BuildError::ErrorShortcut);
}

#[test]
fn determinism_across_fresh_constructions() {
    let body = || {
        chain(vec![
            assign(0, vint(1)),
            assign(1, vint(1)),
            forever(chain(vec![
                suspend(var(0)),
                assign(2, var(0)),
                assign(0, var(1)),
                assign(1, bin(BinOp::Add, var(1), var(2))),
            ])),
        ])
    };
    let mut f = co0(body()).unwrap();
    let mut g = co0(body()).unwrap();
    for _ in 0..8 {
        assert_eq!(f.call(), g.call());
    }
}

#[test]
fn rejects_protocol_form() {
    let body = forever(then2(Stmt::Tick, suspend(var(0))));
    assert_eq!(co(1, body).unwrap_err(), BuildError::ProtocolForm);
}
