//! Stateful, resumable procedures exposed as plain callables.
//!
//! A procedure body is written in a small statement language with explicit
//! suspend points. A transformer lowers every suspend point into a four-step
//! rendezvous protocol, and a driver advances the lowered body by exactly one
//! suspension per invocation, exchanging one input and one output each time.

pub mod ast;
pub mod driver;
pub mod machine;
pub mod transform;
pub mod value;

pub use driver::{co, co0, co2, co3};
pub use machine::pend_once;
