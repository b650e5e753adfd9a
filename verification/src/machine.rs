//! The procedure instance as an explicit state machine.
//!
//! A `Machine` holds a lowered body's remaining control (`Cont`), the
//! variable store, the two single-slot rendezvous buffers, and the suspension
//! primitive. `step` advances the machine by exactly one small step and
//! reports what happened; `spec_drive` iterates `spec_step` until the next
//! suspension, which is what one invocation of a callable observes.

use vstd::prelude::*;

use crate::ast::{spec_eval, Stmt};
use crate::ast;
use crate::transform::spec_lowered;
use crate::value::{Env, Value};

verus! {

/// A rendezvous buffer: a single-slot handoff channel. Exactly one
/// unconsumed value may occupy it at a time; `send` demands a free slot and
/// `recv` an occupied one, so the two sides alternate strictly.
#[derive(Debug, PartialEq, Eq)]
pub struct Slot {
    pub v: Option<Value>,
}

impl Slot {
    pub open spec fn is_empty(self) -> bool {
        self.v is None
    }

    pub fn vacant() -> (r: Slot)
        ensures
            r.is_empty(),
    {
        Slot { v: None }
    }

    /// Hand a value over. The slot must be free: a send onto an occupied
    /// slot would block forever in this strictly alternating protocol, so it
    /// is a caller's contract violation, not a recoverable state.
    pub fn send(&mut self, x: Value)
        requires
            old(self).is_empty(),
        ensures
            final(self).v == Some(x),
    {
        self.v = Some(x);
    }

    /// Take the value out. The slot must be occupied, for the same reason
    /// `send` demands a free one.
    pub fn recv(&mut self) -> (r: Value)
        requires
            !old(self).is_empty(),
        ensures
            old(self).v == Some(r),
            final(self).is_empty(),
    {
        let mut taken: Option<Value> = None;
        core::mem::swap(&mut self.v, &mut taken);
        match taken {
            Some(r) => r,
            None => {
                proof {
                    assert(false);
                }
                Value::Unit
            },
        }
    }
}

/// The once-only suspension primitive: driven a first time it reports "not
/// complete" and arms itself; driven again it reports "complete". This
/// guarantees exactly one suspension per lowered suspend point.
#[derive(Debug, Clone, Copy, PartialEq, Eq, Structural)]
pub struct PendOnce {
    pub polled: bool,
}

/// A fresh suspension primitive, not yet driven.
pub fn pend_once() -> (r: PendOnce)
    ensures
        !r.polled,
{
    PendOnce { polled: false }
}

impl PendOnce {
    /// Drive the primitive once: `false` (suspend here) the first time,
    /// `true` (move on) the second.
    pub fn poll(&mut self) -> (complete: bool)
        ensures
            final(self).polled,
            complete == old(self).polled,
    {
        let c = self.polled;
        self.polled = true;
        c
    }
}

/// What one small step of the machine did.
#[derive(Debug, Clone, Copy, PartialEq, Eq, Structural)]
pub enum Event {
    /// Ordinary progress; the machine can be stepped again.
    Progress,
    /// The body reached a suspension tick and yielded control.
    Suspend,
    /// The body terminated. A correct body never terminates, so this is the
    /// fatal protocol violation of the explosive contract.
    Complete,
    /// The body would block forever on a buffer (send onto an occupied slot
    /// or receive from a free one).
    Blocked,
}

/// The remaining control of a procedure instance.
#[derive(Debug, PartialEq, Eq)]
pub enum Cont {
    /// Nothing left to run: reaching this is the fatal termination.
    Halt,
    /// Run the statement, then continue.
    Run(Box<Stmt>, Box<Cont>),
    /// Re-enter the body of an unconditional loop.
    LoopK(Box<Stmt>, Box<Cont>),
    /// Re-test a `While` condition; on success run its body once more.
    WhileK(ast::Expr, Box<Stmt>, Box<Cont>),
}

/// The full state of one procedure instance, exclusively owned by its
/// callable: variable store, remaining control, the two rendezvous buffers,
/// and the suspension primitive for the tick in flight.
#[derive(Debug, PartialEq, Eq)]
pub struct Machine {
    pub arity: u8,
    pub env: Env,
    pub ctrl: Cont,
    pub input: Slot,
    pub output: Slot,
    pub pend: PendOnce,
}

/// The store after invalidating the parameter bindings of a procedure of
/// `n` parameters: slots `0..n` reset to `Unit`, locals untouched.
pub open spec fn spec_invalidate(env: Env, n: u8) -> Env {
    let e0 = if n >= 1 {
        env.write(0, Value::Unit)
    } else {
        env
    };
    let e1 = if n >= 2 {
        e0.write(1, Value::Unit)
    } else {
        e0
    };
    if n >= 3 {
        e1.write(2, Value::Unit)
    } else {
        e1
    }
}

/// The store after binding a fresh input for a procedure of `n` parameters:
/// the composite input is unpacked across slots `0..n`. With zero parameters
/// the input is dropped; a composite of the wrong width lands whole in slot
/// zero.
pub open spec fn spec_bind(env: Env, n: u8, v: Value) -> Env {
    if n == 0 {
        env
    } else if n == 1 {
        env.write(0, v)
    } else if n == 2 {
        match v {
            Value::Pair(a, b) => env.write(0, *a).write(1, *b),
            _ => env.write(0, v),
        }
    } else if n == 3 {
        match v {
            Value::Triple(a, b, c) => env.write(0, *a).write(1, *b).write(2, *c),
            _ => env.write(0, v),
        }
    } else {
        env
    }
}

/// One small step of the machine. The lowered protocol forms drive the
/// buffers and the suspension primitive; a surface form left in the control
/// (never the case for a transformed body) counts as termination.
pub open spec fn spec_step(m: Machine) -> (Machine, Event) {
    match m.ctrl {
        Cont::Halt => (m, Event::Complete),
        Cont::LoopK(b, k) => (
            Machine { ctrl: Cont::Run(b, Box::new(Cont::LoopK(b, k))), ..m },
            Event::Progress,
        ),
        Cont::WhileK(c, b, k) => if spec_eval(m.env, c) == Value::Bool(true) {
            (
                Machine { ctrl: Cont::Run(b, Box::new(Cont::WhileK(c, b, k))), ..m },
                Event::Progress,
            )
        } else {
            (Machine { ctrl: *k, ..m }, Event::Progress)
        },
        Cont::Run(s, k) => match *s {
            Stmt::Skip => (Machine { ctrl: *k, ..m }, Event::Progress),
            Stmt::Assign(i, e) => (
                Machine { env: m.env.write(i, spec_eval(m.env, e)), ctrl: *k, ..m },
                Event::Progress,
            ),
            Stmt::Then(a, b) => (
                Machine { ctrl: Cont::Run(a, Box::new(Cont::Run(b, k))), ..m },
                Event::Progress,
            ),
            Stmt::IfElse(c, t, e) => if spec_eval(m.env, c) == Value::Bool(true) {
                (Machine { ctrl: Cont::Run(t, k), ..m }, Event::Progress)
            } else {
                (Machine { ctrl: Cont::Run(e, k), ..m }, Event::Progress)
            },
            Stmt::While(c, b) => (
                Machine { ctrl: Cont::WhileK(c, b, k), ..m },
                Event::Progress,
            ),
            Stmt::Loop(b) => (
                Machine { ctrl: Cont::Run(b, Box::new(Cont::LoopK(b, k))), ..m },
                Event::Progress,
            ),
            Stmt::Publish(e) => if m.output.is_empty() {
                (
                    Machine {
                        output: Slot { v: Some(spec_eval(m.env, e)) },
                        ctrl: *k,
                        ..m
                    },
                    Event::Progress,
                )
            } else {
                (m, Event::Blocked)
            },
            Stmt::Invalidate(n) => (
                Machine { env: spec_invalidate(m.env, n), ctrl: *k, ..m },
                Event::Progress,
            ),
            Stmt::Tick => if !m.pend.polled {
                (Machine { pend: PendOnce { polled: true }, ..m }, Event::Suspend)
            } else {
                (
                    Machine { pend: PendOnce { polled: false }, ctrl: *k, ..m },
                    Event::Progress,
                )
            },
            Stmt::Reacquire(n) => match m.input.v {
                Some(v) => (
                    Machine {
                        env: spec_bind(m.env, n, v),
                        input: Slot { v: None },
                        ctrl: *k,
                        ..m
                    },
                    Event::Progress,
                ),
                None => (m, Event::Blocked),
            },
            _ => (m, Event::Complete),
        },
    }
}

fn invalidate(env: &mut Env, n: u8)
    ensures
        *final(env) == spec_invalidate(*old(env), n),
{
    if n >= 1 {
        env.set(0, Value::Unit);
    }
    if n >= 2 {
        env.set(1, Value::Unit);
    }
    if n >= 3 {
        env.set(2, Value::Unit);
    }
}

fn bind(env: &mut Env, n: u8, v: Value)
    ensures
        *final(env) == spec_bind(*old(env), n, v),
{
    if n == 1 {
        env.set(0, v);
    } else if n == 2 {
        match v {
            Value::Pair(a, b) => {
                env.set(0, *a);
                env.set(1, *b);
            },
            other => env.set(0, other),
        }
    } else if n == 3 {
        match v {
            Value::Triple(a, b, c) => {
                env.set(0, *a);
                env.set(1, *b);
                env.set(2, *c);
            },
            other => env.set(0, other),
        }
    }
}

/// Advance the machine by one small step.
pub fn step(m: Machine) -> (r: (Machine, Event))
    ensures
        r == spec_step(m),
{
    let Machine { arity, env, ctrl, input, output, pend } = m;
    match ctrl {
        Cont::Halt => (
            Machine { arity, env, ctrl: Cont::Halt, input, output, pend },
            Event::Complete,
        ),
        Cont::LoopK(b, k) => {
            let body = (*b).clone();
            (
                Machine {
                    arity,
                    env,
                    ctrl: Cont::Run(Box::new(body), Box::new(Cont::LoopK(b, k))),
                    input,
                    output,
                    pend,
                },
                Event::Progress,
            )
        },
        Cont::WhileK(c, b, k) => {
            let taken = match ast::eval(&env, &c) {
                Value::Bool(t) => t,
                _ => false,
            };
            if taken {
                let body = (*b).clone();
                (
                    Machine {
                        arity,
                        env,
                        ctrl: Cont::Run(Box::new(body), Box::new(Cont::WhileK(c, b, k))),
                        input,
                        output,
                        pend,
                    },
                    Event::Progress,
                )
            } else {
                (Machine { arity, env, ctrl: *k, input, output, pend }, Event::Progress)
            }
        },
        Cont::Run(s, k) => {
            let stmt: Stmt = *s;
            match stmt {
                Stmt::Skip => (
                    Machine { arity, env, ctrl: *k, input, output, pend },
                    Event::Progress,
                ),
                Stmt::Assign(i, e) => {
                    let val = ast::eval(&env, &e);
                    let mut env2 = env;
                    env2.set(i, val);
                    (
                        Machine { arity, env: env2, ctrl: *k, input, output, pend },
                        Event::Progress,
                    )
                },
                Stmt::Then(a, b) => (
                    Machine {
                        arity,
                        env,
                        ctrl: Cont::Run(a, Box::new(Cont::Run(b, k))),
                        input,
                        output,
                        pend,
                    },
                    Event::Progress,
                ),
                Stmt::IfElse(c, t, e) => {
                    let taken = match ast::eval(&env, &c) {
                        Value::Bool(b) => b,
                        _ => false,
                    };
                    if taken {
                        (
                            Machine { arity, env, ctrl: Cont::Run(t, k), input, output, pend },
                            Event::Progress,
                        )
                    } else {
                        (
                            Machine { arity, env, ctrl: Cont::Run(e, k), input, output, pend },
                            Event::Progress,
                        )
                    }
                },
                Stmt::While(c, b) => (
                    Machine { arity, env, ctrl: Cont::WhileK(c, b, k), input, output, pend },
                    Event::Progress,
                ),
                Stmt::Loop(b) => {
                    let body = (*b).clone();
                    (
                        Machine {
                            arity,
                            env,
                            ctrl: Cont::Run(Box::new(body), Box::new(Cont::LoopK(b, k))),
                            input,
                            output,
                            pend,
                        },
                        Event::Progress,
                    )
                },
                Stmt::Publish(e) => {
                    if output.v.is_none() {
                        let val = ast::eval(&env, &e);
                        let mut out2 = output;
                        out2.send(val);
                        (
                            Machine { arity, env, ctrl: *k, input, output: out2, pend },
                            Event::Progress,
                        )
                    } else {
                        (
                            Machine {
                                arity,
                                env,
                                ctrl: Cont::Run(Box::new(Stmt::Publish(e)), k),
                                input,
                                output,
                                pend,
                            },
                            Event::Blocked,
                        )
                    }
                },
                Stmt::Invalidate(n) => {
                    let mut env2 = env;
                    invalidate(&mut env2, n);
                    (
                        Machine { arity, env: env2, ctrl: *k, input, output, pend },
                        Event::Progress,
                    )
                },
                Stmt::Tick => {
                    let mut p = pend;
                    let complete = p.poll();
                    if !complete {
                        (
                            Machine {
                                arity,
                                env,
                                ctrl: Cont::Run(Box::new(Stmt::Tick), k),
                                input,
                                output,
                                pend: p,
                            },
                            Event::Suspend,
                        )
                    } else {
                        (
                            Machine { arity, env, ctrl: *k, input, output, pend: pend_once() },
                            Event::Progress,
                        )
                    }
                },
                Stmt::Reacquire(n) => {
                    if input.v.is_some() {
                        let mut in2 = input;
                        let v = in2.recv();
                        let mut env2 = env;
                        bind(&mut env2, n, v);
                        (
                            Machine { arity, env: env2, ctrl: *k, input: in2, output, pend },
                            Event::Progress,
                        )
                    } else {
                        (
                            Machine {
                                arity,
                                env,
                                ctrl: Cont::Run(Box::new(Stmt::Reacquire(n)), k),
                                input,
                                output,
                                pend,
                            },
                            Event::Blocked,
                        )
                    }
                },
                Stmt::Suspend(e) => (
                    Machine {
                        arity,
                        env,
                        ctrl: Cont::Run(Box::new(Stmt::Suspend(e)), k),
                        input,
                        output,
                        pend,
                    },
                    Event::Complete,
                ),
                Stmt::Ret => (
                    Machine {
                        arity,
                        env,
                        ctrl: Cont::Run(Box::new(Stmt::Ret), k),
                        input,
                        output,
                        pend,
                    },
                    Event::Complete,
                ),
                Stmt::ForeignAwait => (
                    Machine {
                        arity,
                        env,
                        ctrl: Cont::Run(Box::new(Stmt::ForeignAwait), k),
                        input,
                        output,
                        pend,
                    },
                    Event::Complete,
                ),
                Stmt::TryShortcut => (
                    Machine {
                        arity,
                        env,
                        ctrl: Cont::Run(Box::new(Stmt::TryShortcut), k),
                        input,
                        output,
                        pend,
                    },
                    Event::Complete,
                ),
            }
        },
    }
}

/// What one invocation observes: the machine stepped up to its next
/// suspension. `Out` carries the value found in the output buffer at the
/// suspension, with the buffer emptied (the driver consumes it); `Completed`
/// is the fatal termination; `Stalled` is a body stuck on a buffer, or
/// suspended without having published — either would block the caller
/// forever; `Spin` means the fuel ran out before anything was observed.
pub enum DriveOutcome {
    Out(Value, Machine),
    Completed(Machine),
    Stalled(Machine),
    Spin,
}

/// Iterate `spec_step` for at most `fuel` steps, to the next suspension.
pub open spec fn spec_drive(m: Machine, fuel: nat) -> DriveOutcome
    decreases fuel,
{
    if fuel == 0 {
        DriveOutcome::Spin
    } else {
        let sm = spec_step(m);
        match sm.1 {
            Event::Progress => spec_drive(sm.0, (fuel - 1) as nat),
            Event::Suspend => match sm.0.output.v {
                Some(v) => DriveOutcome::Out(v, Machine { output: Slot { v: None }, ..sm.0 }),
                None => DriveOutcome::Stalled(sm.0),
            },
            Event::Complete => DriveOutcome::Completed(sm.0),
            Event::Blocked => DriveOutcome::Stalled(sm.0),
        }
    }
}

/// A control made of lowered statements alone: what remains of a
/// transformed body is always of this shape.
pub open spec fn lowered_cont(c: Cont) -> bool
    decreases c,
{
    match c {
        Cont::Halt => true,
        Cont::Run(s, k) => spec_lowered(*s) && lowered_cont(*k),
        Cont::LoopK(b, k) => spec_lowered(*b) && lowered_cont(*k),
        Cont::WhileK(_, b, k) => spec_lowered(*b) && lowered_cont(*k),
    }
}

/// Stepping preserves lowered control, and a lowered control terminates
/// only by reaching its very end: the unexecutable surface forms can never
/// be the reason a lowered body reports completion.
pub proof fn lemma_step_preserves_lowered(m: Machine)
    requires
        lowered_cont(m.ctrl),
    ensures
        lowered_cont(spec_step(m).0.ctrl),
        spec_step(m).1 is Complete ==> m.ctrl is Halt,
{
    reveal_with_fuel(lowered_cont, 3);
    reveal_with_fuel(spec_lowered, 2);
}

/// `lemma_step_preserves_lowered`, carried through a whole drive: from
/// lowered control, `Completed` arises only with the control fully
/// exhausted, and the machine a decided drive leaves behind has lowered
/// control again.
pub proof fn lemma_drive_preserves_lowered(m: Machine, n: nat)
    requires
        lowered_cont(m.ctrl),
    ensures
        spec_drive(m, n) matches DriveOutcome::Out(_, m2) ==> lowered_cont(m2.ctrl),
        spec_drive(m, n) matches DriveOutcome::Completed(m2) ==> m2.ctrl is Halt,
        spec_drive(m, n) matches DriveOutcome::Stalled(m2) ==> lowered_cont(m2.ctrl),
    decreases n,
{
    if n > 0 {
        lemma_step_preserves_lowered(m);
        let sm = spec_step(m);
        if sm.1 is Progress {
            lemma_drive_preserves_lowered(sm.0, (n - 1) as nat);
        }
    }
}

/// A drive that hands an output out leaves the machine resting at its
/// suspension: the tick armed, the published value consumed, the control
/// still at the tick with the rest of the body behind it. This is the state
/// the next invocation resumes from.
pub proof fn lemma_drive_rests_at_tick(m: Machine, n: nat)
    ensures
        spec_drive(m, n) matches DriveOutcome::Out(_, m2) ==> {
            &&& m2.pend.polled
            &&& m2.output.is_empty()
            &&& m2.ctrl matches Cont::Run(s, _) && *s == Stmt::Tick
        },
    decreases n,
{
    if n > 0 {
        let sm = spec_step(m);
        if sm.1 is Progress {
            lemma_drive_rests_at_tick(sm.0, (n - 1) as nat);
        }
    }
}

/// Once decided, more fuel changes nothing: the outcome of a drive is the
/// outcome at every larger fuel as well.
pub proof fn lemma_drive_mono(m: Machine, n1: nat, n2: nat)
    requires
        n1 <= n2,
        spec_drive(m, n1) !is Spin,
    ensures
        spec_drive(m, n2) == spec_drive(m, n1),
    decreases n1,
{
    let sm = spec_step(m);
    if sm.1 is Progress {
        lemma_drive_mono(sm.0, (n1 - 1) as nat, (n2 - 1) as nat);
    }
}

/// Determinism of the drive relation: whatever two fuels both suffice to
/// decide, they decide alike. With `spec_step` a function, a procedure
/// instance has exactly one behaviour on a given input sequence.
pub proof fn lemma_drive_deterministic(m: Machine, n1: nat, n2: nat)
    requires
        spec_drive(m, n1) !is Spin,
        spec_drive(m, n2) !is Spin,
    ensures
        spec_drive(m, n1) == spec_drive(m, n2),
{
    if n1 <= n2 {
        lemma_drive_mono(m, n1, n2);
    } else {
        lemma_drive_mono(m, n2, n1);
    }
}

} // verus!
