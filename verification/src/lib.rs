//! Run deep recursion on an explicit heap stack.
//!
//! A recursive algorithm is written as a chain of suspendable computations:
//! units of work that are resumed repeatedly and either finish with a value
//! or suspend after issuing exactly one nested call. The driver keeps those
//! units on its own heap-allocated stack and resumes the innermost one in a
//! tight loop, so recursion depth is bounded only by available memory, never
//! by the size of the native call stack.
//!
//! A frame issues a nested call by registering the child computation in the
//! handoff slot ([`recursion::recurse`]); the drive loop
//! ([`recursion::start_recursion`]) drains the slot, pushes the child on top
//! of the explicit stack, and delivers the child's eventual value back to the
//! suspended parent through a single-use result cell ([`cell::Output`]).

pub mod cell;
pub mod notifier;
pub mod recursion;
pub mod slot;
pub mod computations;
