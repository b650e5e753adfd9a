//! The coroutine driver and the arity adapters.
//!
//! `co` builds a callable from a surface body: it runs the transformer and
//! allocates the machine without running any step. `Callable::invoke` pushes
//! one input, advances the machine by exactly one suspension tick, and hands
//! back the value published there. The adapters `co0`, `co2` and `co3` pack
//! and unpack the caller's arguments into the one composite input the
//! generic driver exchanges, so the driver is written once for every arity.

use vstd::prelude::*;

use crate::ast::{spec_eval, Expr, Stmt};
use crate::machine::{
    lemma_drive_preserves_lowered, lowered_cont, pend_once, spec_bind, spec_drive,
    spec_invalidate, spec_step, step, Cont, DriveOutcome, Event, Machine, PendOnce, Slot,
};
use crate::transform::{
    lemma_transform_lowered, spec_lower_suspend, spec_lowered, spec_transform, transform,
    BuildError,
};
use crate::value::{Env, Value};

verus! {

/// What one invocation of a callable returns. `Output` is the ordinary case:
/// the value published at the suspension reached. `Completed` reports a body
/// that terminated instead of suspending, and `Stalled` one that would block
/// on a buffer forever; both are protocol violations a transformed body
/// cannot produce, fatal to the callable.
#[derive(Debug, PartialEq, Eq)]
pub enum Resumed {
    Output(Value),
    Completed,
    Stalled,
}

/// The machine a callable starts from: store all `Unit`, both buffers free,
/// the suspension primitive fresh, and the control about to reacquire the
/// first input and then run the lowered body. No step has been taken.
pub open spec fn initial_machine(arity: u8, lowered: Stmt) -> Machine {
    Machine {
        arity,
        env: Env::initial(),
        ctrl: Cont::Run(
            Box::new(Stmt::Then(Box::new(Stmt::Reacquire(arity)), Box::new(lowered))),
            Box::new(Cont::Halt),
        ),
        input: Slot { v: None },
        output: Slot { v: None },
        pend: PendOnce { polled: false },
    }
}

/// The machine just after an input was pushed into its input buffer.
pub open spec fn fed(m: Machine, x: Value) -> Machine {
    Machine { input: Slot { v: Some(x) }, ..m }
}

/// The drive outcome that returning `r` and leaving `m2` behind stands for.
pub open spec fn outcome_of(r: Resumed, m2: Machine) -> DriveOutcome {
    match r {
        Resumed::Output(v) => DriveOutcome::Out(v, m2),
        Resumed::Completed => DriveOutcome::Completed(m2),
        Resumed::Stalled => DriveOutcome::Stalled(m2),
    }
}

/// The drive relation a finished invocation satisfies: some fuel decides the
/// drive of `m`, and it decides exactly `r` with `m2` as the machine left
/// behind. By `lemma_invoke_deterministic` only one `(r, m2)` can satisfy it
/// for a given `m`.
pub open spec fn drive_gives(m: Machine, r: Resumed, m2: Machine) -> bool {
    exists|n: nat| spec_drive(m, n) == outcome_of(r, m2)
}

/// A stateful callable: one procedure instance, exclusively owned, advanced
/// by one suspension per invocation.
#[derive(Debug, PartialEq, Eq)]
pub struct Callable {
    pub m: Machine,
}

/// An inert placeholder machine, swapped into a callable while its real
/// machine is being driven.
fn resting_machine() -> (r: Machine)
    ensures
        r == (Machine {
            arity: 0u8,
            env: Env::initial(),
            ctrl: Cont::Halt,
            input: Slot { v: None },
            output: Slot { v: None },
            pend: PendOnce { polled: false },
        }),
{
    Machine {
        arity: 0u8,
        env: Env::empty(),
        ctrl: Cont::Halt,
        input: Slot::vacant(),
        output: Slot::vacant(),
        pend: pend_once(),
    }
}

/// Whether some fuel suffices to decide the drive of `m`: the machine
/// reaches a suspension, a termination, or a blocked buffer in finitely many
/// steps. A body that makes no such progress would block its caller forever,
/// so a drive is only begun where this holds.
pub open spec fn drive_decided(m: Machine) -> bool {
    exists|n: nat| !(spec_drive(m, n) is Spin)
}

/// Any one fuel that decides the drive witnesses `drive_decided`.
pub proof fn lemma_drive_decided(m: Machine, n: nat)
    requires
        !(spec_drive(m, n) is Spin),
    ensures
        drive_decided(m),
{
}

/// Step the machine to its next suspension and consume the published value.
fn drive(m0: Machine) -> (res: (Machine, Resumed))
    requires
        drive_decided(m0),
    ensures
        drive_gives(m0, res.1, res.0),
{
    let ghost n0: nat = choose|n: nat| !(spec_drive(m0, n) is Spin);
    let mut cur = m0;
    let ghost mut steps: nat = 0;
    loop
        invariant
            steps <= n0,
            !(spec_drive(m0, n0) is Spin),
            forall|n: nat| spec_drive(m0, steps + n) == spec_drive(cur, n),
        decreases n0 - steps,
    {
        proof {
            assert(spec_drive(m0, steps + 0) == spec_drive(cur, 0));
            assert(steps < n0);
        }
        let (m2, ev) = step(cur);
        match ev {
            Event::Progress => {
                proof {
                    assert forall|n: nat| spec_drive(m0, (steps + 1) + n) == spec_drive(m2, n) by {
                        assert(spec_drive(m0, steps + (n + 1)) == spec_drive(cur, n + 1));
                        assert(spec_drive(cur, n + 1) == spec_drive(m2, n));
                    }
                    steps = steps + 1;
                }
                cur = m2;
            },
            Event::Suspend => {
                let mut mm = m2;
                if mm.output.v.is_some() {
                    let v = mm.output.recv();
                    proof {
                        assert(spec_drive(m0, steps + 1) == spec_drive(cur, 1));
                        assert(spec_drive(cur, 1) == DriveOutcome::Out(v, mm));
                    }
                    return (mm, Resumed::Output(v));
                } else {
                    proof {
                        assert(spec_drive(m0, steps + 1) == spec_drive(cur, 1));
                        assert(spec_drive(cur, 1) == DriveOutcome::Stalled(mm));
                    }
                    return (mm, Resumed::Stalled);
                }
            },
            Event::Complete => {
                proof {
                    assert(spec_drive(m0, steps + 1) == spec_drive(cur, 1));
                    assert(spec_drive(cur, 1) == DriveOutcome::Completed(m2));
                }
                return (m2, Resumed::Completed);
            },
            Event::Blocked => {
                proof {
                    assert(spec_drive(m0, steps + 1) == spec_drive(cur, 1));
                    assert(spec_drive(cur, 1) == DriveOutcome::Stalled(m2));
                }
                return (m2, Resumed::Stalled);
            },
        }
    }
}

impl Callable {
    /// The callable can accept an input: no prior input is still unconsumed.
    /// Invoking while this fails is reentrant misuse — the send would block
    /// forever — so it is demanded of every caller rather than handled.
    pub open spec fn ready(self) -> bool {
        self.m.input.is_empty()
    }

    /// One drive step of the protocol: push `x` into the input buffer,
    /// advance the instance by exactly one suspension tick, and return what
    /// it published there. One invocation consumes one input and observes
    /// one suspend expression. The caller must know the drive decides: a
    /// body that neither suspends nor terminates would block the call
    /// forever, and there is no way to abandon it from outside.
    pub fn invoke(&mut self, x: Value) -> (r: Resumed)
        requires
            old(self).ready(),
            drive_decided(fed(old(self).m, x)),
        ensures
            drive_gives(fed(old(self).m, x), r, final(self).m),
    {
        self.m.input.send(x);
        let mut taken = resting_machine();
        core::mem::swap(&mut self.m, &mut taken);
        let (m2, r) = drive(taken);
        self.m = m2;
        r
    }
}

/// Build a callable of `arity` parameters from a surface body: transform the
/// body, allocate the buffer pair, and place the instance at its start.
/// Construction runs no step: the new machine is exactly `initial_machine`,
/// its buffers free and its suspension primitive fresh.
pub fn co(arity: u8, body: Stmt) -> (r: Result<Callable, BuildError>)
    requires
        arity <= 3,
    ensures
        (match spec_transform(body, arity) {
            Ok(t) => r matches Ok(c) && c.m == initial_machine(arity, t),
            Err(e) => r == Err::<Callable, BuildError>(e),
        }),
{
    match transform(body, arity) {
        Ok(t) => Ok(
            Callable {
                m: Machine {
                    arity,
                    env: Env::empty(),
                    ctrl: Cont::Run(
                        Box::new(Stmt::Then(Box::new(Stmt::Reacquire(arity)), Box::new(t))),
                        Box::new(Cont::Halt),
                    ),
                    input: Slot::vacant(),
                    output: Slot::vacant(),
                    pend: pend_once(),
                },
            },
        ),
        Err(e) => Err(e),
    }
}

/// A zero-parameter callable: each call supplies the empty input.
#[derive(Debug, PartialEq, Eq)]
pub struct Callable0 {
    pub inner: Callable,
}

impl Callable0 {
    pub fn call(&mut self) -> (r: Resumed)
        requires
            old(self).inner.ready(),
            drive_decided(fed(old(self).inner.m, Value::Unit)),
        ensures
            drive_gives(fed(old(self).inner.m, Value::Unit), r, final(self).inner.m),
    {
        self.inner.invoke(Value::Unit)
    }
}

/// Build a zero-parameter callable; its body sees no parameter bindings.
pub fn co0(body: Stmt) -> (r: Result<Callable0, BuildError>)
    ensures
        (match spec_transform(body, 0) {
            Ok(t) => r matches Ok(c) && c.inner.m == initial_machine(0, t),
            Err(e) => r == Err::<Callable0, BuildError>(e),
        }),
{
    match co(0, body) {
        Ok(c) => Ok(Callable0 { inner: c }),
        Err(e) => Err(e),
    }
}

/// A two-parameter callable: each call packs its two arguments into one
/// composite input before delegating to the generic driver.
#[derive(Debug, PartialEq, Eq)]
pub struct Callable2 {
    pub inner: Callable,
}

impl Callable2 {
    pub fn call(&mut self, a: Value, b: Value) -> (r: Resumed)
        requires
            old(self).inner.ready(),
            drive_decided(fed(old(self).inner.m, Value::Pair(Box::new(a), Box::new(b)))),
        ensures
            drive_gives(
                fed(old(self).inner.m, Value::Pair(Box::new(a), Box::new(b))),
                r,
                final(self).inner.m,
            ),
    {
        self.inner.invoke(Value::Pair(Box::new(a), Box::new(b)))
    }
}

/// Build a two-parameter callable; its body sees the arguments in slots zero
/// and one.
pub fn co2(body: Stmt) -> (r: Result<Callable2, BuildError>)
    ensures
        (match spec_transform(body, 2) {
            Ok(t) => r matches Ok(c) && c.inner.m == initial_machine(2, t),
            Err(e) => r == Err::<Callable2, BuildError>(e),
        }),
{
    match co(2, body) {
        Ok(c) => Ok(Callable2 { inner: c }),
        Err(e) => Err(e),
    }
}

/// A three-parameter callable: each call packs its three arguments into one
/// composite input before delegating to the generic driver.
#[derive(Debug, PartialEq, Eq)]
pub struct Callable3 {
    pub inner: Callable,
}

impl Callable3 {
    pub fn call(&mut self, a: Value, b: Value, c: Value) -> (r: Resumed)
        requires
            old(self).inner.ready(),
            drive_decided(
                fed(old(self).inner.m, Value::Triple(Box::new(a), Box::new(b), Box::new(c))),
            ),
        ensures
            drive_gives(
                fed(old(self).inner.m, Value::Triple(Box::new(a), Box::new(b), Box::new(c))),
                r,
                final(self).inner.m,
            ),
    {
        self.inner.invoke(Value::Triple(Box::new(a), Box::new(b), Box::new(c)))
    }
}

/// Build a three-parameter callable; its body sees the arguments in slots
/// zero, one and two. The three parameter slots are independent: no slot
/// reuses another's binding.
pub fn co3(body: Stmt) -> (r: Result<Callable3, BuildError>)
    ensures
        (match spec_transform(body, 3) {
            Ok(t) => r matches Ok(c) && c.inner.m == initial_machine(3, t),
            Err(e) => r == Err::<Callable3, BuildError>(e),
        }),
{
    match co(3, body) {
        Ok(c) => Ok(Callable3 { inner: c }),
        Err(e) => Err(e),
    }
}

/// Determinism: two invocations begun from equal machines with equal inputs
/// return the same value and leave equal machines behind. By induction over
/// a whole input sequence, repeated runs from a fresh construction of the
/// same body produce identical output sequences.
pub proof fn lemma_invoke_deterministic(
    m: Machine,
    x: Value,
    r1: Resumed,
    m1: Machine,
    r2: Resumed,
    m2: Machine,
)
    requires
        drive_gives(fed(m, x), r1, m1),
        drive_gives(fed(m, x), r2, m2),
    ensures
        r1 == r2,
        m1 == m2,
{
    let n1 = choose|n: nat| spec_drive(fed(m, x), n) == outcome_of(r1, m1);
    let n2 = choose|n: nat| spec_drive(fed(m, x), n) == outcome_of(r2, m2);
    crate::machine::lemma_drive_deterministic(fed(m, x), n1, n2);
}

/// A whole run: feeding `inputs` one invocation at a time from `m` can
/// return the results `outs` and leave `m_end` behind.
pub open spec fn run_gives(m: Machine, inputs: Seq<Value>, outs: Seq<Resumed>, m_end: Machine) -> bool
    decreases inputs.len(),
{
    if inputs.len() == 0 {
        outs.len() == 0 && m_end == m
    } else {
        outs.len() == inputs.len() && exists|r: Resumed, m2: Machine|
            #[trigger] drive_gives(fed(m, inputs[0]), r, m2) && outs[0] == r && run_gives(
                m2,
                inputs.skip(1),
                outs.skip(1),
                m_end,
            )
    }
}

/// Determinism over whole input sequences: for any finite sequence of
/// inputs fed to a given callable, two runs from equal machines — in
/// particular, repeated runs from a fresh construction of the same body —
/// produce identical output sequences and end in equal states.
pub proof fn lemma_run_deterministic(
    m: Machine,
    inputs: Seq<Value>,
    o1: Seq<Resumed>,
    e1: Machine,
    o2: Seq<Resumed>,
    e2: Machine,
)
    requires
        run_gives(m, inputs, o1, e1),
        run_gives(m, inputs, o2, e2),
    ensures
        o1 == o2,
        e1 == e2,
    decreases inputs.len(),
{
    if inputs.len() == 0 {
        assert(o1 =~= o2);
    } else {
        let (r1, m21) = choose|r: Resumed, m2: Machine|
            #[trigger] drive_gives(fed(m, inputs[0]), r, m2) && o1[0] == r && run_gives(
                m2,
                inputs.skip(1),
                o1.skip(1),
                e1,
            );
        let (r2, m22) = choose|r: Resumed, m2: Machine|
            #[trigger] drive_gives(fed(m, inputs[0]), r, m2) && o2[0] == r && run_gives(
                m2,
                inputs.skip(1),
                o2.skip(1),
                e2,
            );
        lemma_invoke_deterministic(m, inputs[0], r1, m21, r2, m22);
        lemma_run_deterministic(m21, inputs.skip(1), o1.skip(1), e1, o2.skip(1), e2);
        assert forall|i: int| 0 <= i < o1.len() implies o1[i] == o2[i] by {
            if i > 0 {
                assert(o1.skip(1)[i - 1] == o2.skip(1)[i - 1]);
            }
        }
        assert(o1 =~= o2);
    }
}

/// Construction is side-effect-free: a fresh callable's machine has free
/// buffers, an undriven suspension primitive, and has taken no step.
pub proof fn lemma_construction_quiescent(arity: u8, lowered: Stmt)
    ensures
        initial_machine(arity, lowered).input.is_empty(),
        initial_machine(arity, lowered).output.is_empty(),
        !initial_machine(arity, lowered).pend.polled,
{
}

/// A callable built by `co` starts with lowered control: its whole body
/// went through the transformer.
pub proof fn lemma_initial_lowered(arity: u8, body: Stmt, t: Stmt)
    requires
        spec_transform(body, arity) == Ok::<Stmt, BuildError>(t),
    ensures
        lowered_cont(initial_machine(arity, t).ctrl),
{
    lemma_transform_lowered(body, arity, t);
    reveal_with_fuel(spec_lowered, 2);
    reveal_with_fuel(lowered_cont, 2);
    assert(spec_lowered(Stmt::Then(Box::new(Stmt::Reacquire(arity)), Box::new(t))));
}

/// The explosive contract, enforced. From lowered control — which a
/// callable built by `co` has from construction on, and keeps — an
/// invocation that reports `Completed` means the instance really ran off
/// the end of its body: termination is never reported for any other reason.
pub proof fn lemma_completion_is_real(m: Machine, x: Value, r: Resumed, m2: Machine)
    requires
        lowered_cont(m.ctrl),
        drive_gives(fed(m, x), r, m2),
    ensures
        r is Completed ==> m2.ctrl is Halt,
        r is Output ==> lowered_cont(m2.ctrl),
        r is Stalled ==> lowered_cont(m2.ctrl),
{
    let n = choose|n: nat| spec_drive(fed(m, x), n) == outcome_of(r, m2);
    lemma_drive_preserves_lowered(fed(m, x), n);
}

/// The first invocation binds exactly the first input: driving a fresh
/// callable's machine fed `x` is, after the two reacquisition steps, the
/// drive of the body from its start with the parameters bound from `x` and
/// everything else untouched.
pub proof fn lemma_first_call_binds(arity: u8, t: Stmt, x: Value, fuel: nat)
    ensures
        spec_drive(fed(initial_machine(arity, t), x), 2 + fuel) == spec_drive(
            Machine {
                arity,
                env: spec_bind(Env::initial(), arity, x),
                ctrl: Cont::Run(Box::new(t), Box::new(Cont::Halt)),
                input: Slot { v: None },
                output: Slot { v: None },
                pend: PendOnce { polled: false },
            },
            fuel,
        ),
{
    reveal_with_fuel(spec_drive, 3);
    let m = fed(initial_machine(arity, t), x);
    let m1 = spec_step(m).0;
    assert(spec_step(m).1 is Progress);
    assert(spec_step(m1).1 is Progress);
}

/// Lockstep correspondence, publishing half. A machine about to run one
/// lowered suspend expression — output buffer free, suspension primitive
/// fresh — suspends after exactly one publish: the drive decides on the
/// suspend expression's value in the store as it stood at the suspend point,
/// the parameter bindings are invalidated, and the machine rests at the tick
/// with the reacquisition still ahead of it.
pub proof fn lemma_suspend_protocol(m: Machine, e: Expr, n: u8, k: Cont)
    requires
        m.ctrl == Cont::Run(Box::new(spec_lower_suspend(e, n)), Box::new(k)),
        m.output.is_empty(),
        !m.pend.polled,
    ensures
        spec_drive(m, 6) == DriveOutcome::Out(
            spec_eval(m.env, e),
            Machine {
                env: spec_invalidate(m.env, n),
                ctrl: Cont::Run(
                    Box::new(Stmt::Tick),
                    Box::new(Cont::Run(Box::new(Stmt::Reacquire(n)), Box::new(k))),
                ),
                output: Slot { v: None },
                pend: PendOnce { polled: true },
                ..m
            },
        ),
{
    reveal_with_fuel(spec_drive, 7);
    let m1 = spec_step(m).0;
    let m2 = spec_step(m1).0;
    let m3 = spec_step(m2).0;
    let m4 = spec_step(m3).0;
    let m5 = spec_step(m4).0;
    assert(spec_step(m).1 is Progress);
    assert(spec_step(m1).1 is Progress);
    assert(spec_step(m2).1 is Progress);
    assert(spec_step(m3).1 is Progress);
    assert(spec_step(m4).1 is Progress);
    assert(spec_step(m5).1 is Suspend);
}

/// Lockstep correspondence, reacquiring half. A machine resting at a polled
/// tick with a fresh input waiting resumes in two steps: the tick completes,
/// the parameter bindings are rebuilt from exactly that input, and the drive
/// continues as the remaining control alone determines.
pub proof fn lemma_resume_rebinds(m: Machine, n: u8, k: Cont, x: Value, fuel: nat)
    requires
        m.ctrl == Cont::Run(
            Box::new(Stmt::Tick),
            Box::new(Cont::Run(Box::new(Stmt::Reacquire(n)), Box::new(k))),
        ),
        m.pend.polled,
        m.input.v == Some(x),
    ensures
        spec_drive(m, 2 + fuel) == spec_drive(
            Machine {
                env: spec_bind(m.env, n, x),
                ctrl: k,
                input: Slot { v: None },
                pend: PendOnce { polled: false },
                ..m
            },
            fuel,
        ),
{
    reveal_with_fuel(spec_drive, 3);
    let m1 = spec_step(m).0;
    assert(spec_step(m).1 is Progress);
    assert(spec_step(m1).1 is Progress);
}

} // verus!
