//! The suspension-point transformer.
//!
//! `transform` rewrites every `Suspend` in a surface body into the four-step
//! rendezvous protocol: publish the suspend value to the output buffer,
//! invalidate the parameter bindings, perform exactly one suspension tick,
//! and reacquire fresh parameters from the input buffer. It recurses into
//! every nested construct, and rejects as a build error the three constructs
//! that would break the protocol: early termination (`Ret`), a foreign
//! suspension context (`ForeignAwait`), and error-shortcut propagation
//! (`TryShortcut`). A protocol form already present in the input is likewise
//! rejected: it would double or skip a suspension.

use vstd::prelude::*;

use crate::ast::{Expr, Stmt};

verus! {

/// Why a body was rejected at build time. These are shape errors: they are
/// reported before a procedure instance ever runs.
#[derive(Debug, Clone, Copy, PartialEq, Eq, Structural)]
pub enum BuildError {
    /// The body can terminate; every control path must suspend again.
    EarlyTermination,
    /// The body uses a suspension facility other than this protocol.
    ForeignSuspension,
    /// The body propagates errors past suspend points.
    ErrorShortcut,
    /// The body already contains a lowered protocol form.
    ProtocolForm,
}

/// The four-step expansion of one suspend expression carrying `e`, for a
/// procedure of `arity` parameters.
pub open spec fn spec_lower_suspend(e: Expr, arity: u8) -> Stmt {
    Stmt::Then(
        Box::new(Stmt::Publish(e)),
        Box::new(Stmt::Then(
            Box::new(Stmt::Invalidate(arity)),
            Box::new(Stmt::Then(
                Box::new(Stmt::Tick),
                Box::new(Stmt::Reacquire(arity)),
            )),
        )),
    )
}

/// The transformer as a function: the whole-tree fold that `transform`
/// implements, including which error it reports first (leftmost, innermost
/// first within a sequence).
pub open spec fn spec_transform(s: Stmt, arity: u8) -> Result<Stmt, BuildError>
    decreases s,
{
    match s {
        Stmt::Skip => Ok(Stmt::Skip),
        Stmt::Assign(i, e) => Ok(Stmt::Assign(i, e)),
        Stmt::Then(a, b) => match spec_transform(*a, arity) {
            Ok(ta) => match spec_transform(*b, arity) {
                Ok(tb) => Ok(Stmt::Then(Box::new(ta), Box::new(tb))),
                Err(err) => Err(err),
            },
            Err(err) => Err(err),
        },
        Stmt::IfElse(c, t, e) => match spec_transform(*t, arity) {
            Ok(tt) => match spec_transform(*e, arity) {
                Ok(te) => Ok(Stmt::IfElse(c, Box::new(tt), Box::new(te))),
                Err(err) => Err(err),
            },
            Err(err) => Err(err),
        },
        Stmt::While(c, b) => match spec_transform(*b, arity) {
            Ok(tb) => Ok(Stmt::While(c, Box::new(tb))),
            Err(err) => Err(err),
        },
        Stmt::Loop(b) => match spec_transform(*b, arity) {
            Ok(tb) => Ok(Stmt::Loop(Box::new(tb))),
            Err(err) => Err(err),
        },
        Stmt::Suspend(e) => Ok(spec_lower_suspend(e, arity)),
        Stmt::Ret => Err(BuildError::EarlyTermination),
        Stmt::ForeignAwait => Err(BuildError::ForeignSuspension),
        Stmt::TryShortcut => Err(BuildError::ErrorShortcut),
        Stmt::Publish(_) => Err(BuildError::ProtocolForm),
        Stmt::Invalidate(_) => Err(BuildError::ProtocolForm),
        Stmt::Tick => Err(BuildError::ProtocolForm),
        Stmt::Reacquire(_) => Err(BuildError::ProtocolForm),
    }
}

/// A surface body the transformer accepts: built from the surface forms
/// alone, with no rejected construct anywhere in the tree.
pub open spec fn spec_surface(s: Stmt) -> bool
    decreases s,
{
    match s {
        Stmt::Skip => true,
        Stmt::Assign(_, _) => true,
        Stmt::Then(a, b) => spec_surface(*a) && spec_surface(*b),
        Stmt::IfElse(_, t, e) => spec_surface(*t) && spec_surface(*e),
        Stmt::While(_, b) => spec_surface(*b),
        Stmt::Loop(b) => spec_surface(*b),
        Stmt::Suspend(_) => true,
        _ => false,
    }
}

/// A lowered body: one the driver can execute, with every suspension already
/// expressed through the protocol forms and no rejected construct left.
pub open spec fn spec_lowered(s: Stmt) -> bool
    decreases s,
{
    match s {
        Stmt::Skip => true,
        Stmt::Assign(_, _) => true,
        Stmt::Then(a, b) => spec_lowered(*a) && spec_lowered(*b),
        Stmt::IfElse(_, t, e) => spec_lowered(*t) && spec_lowered(*e),
        Stmt::While(_, b) => spec_lowered(*b),
        Stmt::Loop(b) => spec_lowered(*b),
        Stmt::Publish(_) => true,
        Stmt::Invalidate(_) => true,
        Stmt::Tick => true,
        Stmt::Reacquire(_) => true,
        _ => false,
    }
}

/// Rewrite a surface body into its lowered form, or report the first
/// rejected construct.
pub fn transform(s: Stmt, arity: u8) -> (r: Result<Stmt, BuildError>)
    ensures
        r == spec_transform(s, arity),
    decreases s,
{
    match s {
        Stmt::Skip => Ok(Stmt::Skip),
        Stmt::Assign(i, e) => Ok(Stmt::Assign(i, e)),
        Stmt::Then(a, b) => match transform(*a, arity) {
            Ok(ta) => match transform(*b, arity) {
                Ok(tb) => Ok(Stmt::Then(Box::new(ta), Box::new(tb))),
                Err(err) => Err(err),
            },
            Err(err) => Err(err),
        },
        Stmt::IfElse(c, t, e) => match transform(*t, arity) {
            Ok(tt) => match transform(*e, arity) {
                Ok(te) => Ok(Stmt::IfElse(c, Box::new(tt), Box::new(te))),
                Err(err) => Err(err),
            },
            Err(err) => Err(err),
        },
        Stmt::While(c, b) => match transform(*b, arity) {
            Ok(tb) => Ok(Stmt::While(c, Box::new(tb))),
            Err(err) => Err(err),
        },
        Stmt::Loop(b) => match transform(*b, arity) {
            Ok(tb) => Ok(Stmt::Loop(Box::new(tb))),
            Err(err) => Err(err),
        },
        Stmt::Suspend(e) => Ok(Stmt::Then(
            Box::new(Stmt::Publish(e)),
            Box::new(Stmt::Then(
                Box::new(Stmt::Invalidate(arity)),
                Box::new(Stmt::Then(
                    Box::new(Stmt::Tick),
                    Box::new(Stmt::Reacquire(arity)),
                )),
            )),
        )),
        Stmt::Ret => Err(BuildError::EarlyTermination),
        Stmt::ForeignAwait => Err(BuildError::ForeignSuspension),
        Stmt::TryShortcut => Err(BuildError::ErrorShortcut),
        Stmt::Publish(_) => Err(BuildError::ProtocolForm),
        Stmt::Invalidate(_) => Err(BuildError::ProtocolForm),
        Stmt::Tick => Err(BuildError::ProtocolForm),
        Stmt::Reacquire(_) => Err(BuildError::ProtocolForm),
    }
}

/// The transformer accepts exactly the surface bodies: it succeeds if and
/// only if no rejected construct occurs anywhere in the tree.
pub proof fn lemma_transform_accepts(s: Stmt, arity: u8)
    ensures
        spec_transform(s, arity) is Ok <==> spec_surface(s),
    decreases s,
{
    match s {
        Stmt::Then(a, b) => {
            lemma_transform_accepts(*a, arity);
            lemma_transform_accepts(*b, arity);
        },
        Stmt::IfElse(_, t, e) => {
            lemma_transform_accepts(*t, arity);
            lemma_transform_accepts(*e, arity);
        },
        Stmt::While(_, b) => {
            lemma_transform_accepts(*b, arity);
        },
        Stmt::Loop(b) => {
            lemma_transform_accepts(*b, arity);
        },
        _ => {},
    }
}

/// What the transformer hands back is fully lowered: every suspension stands
/// as the four-step protocol, and nothing the driver cannot execute remains.
pub proof fn lemma_transform_lowered(s: Stmt, arity: u8, t: Stmt)
    requires
        spec_transform(s, arity) == Ok::<Stmt, BuildError>(t),
    ensures
        spec_lowered(t),
    decreases s,
{
    match s {
        Stmt::Then(a, b) => {
            lemma_transform_lowered(*a, arity, spec_transform(*a, arity)->Ok_0);
            lemma_transform_lowered(*b, arity, spec_transform(*b, arity)->Ok_0);
        },
        Stmt::IfElse(_, tb, e) => {
            lemma_transform_lowered(*tb, arity, spec_transform(*tb, arity)->Ok_0);
            lemma_transform_lowered(*e, arity, spec_transform(*e, arity)->Ok_0);
        },
        Stmt::While(_, b) => {
            lemma_transform_lowered(*b, arity, spec_transform(*b, arity)->Ok_0);
        },
        Stmt::Loop(b) => {
            lemma_transform_lowered(*b, arity, spec_transform(*b, arity)->Ok_0);
        },
        Stmt::Suspend(e) => {
            reveal_with_fuel(spec_lowered, 4);
            assert(spec_lowered(spec_lower_suspend(e, arity)));
        },
        _ => {},
    }
}

} // verus!
