//! The kernel of a coverage-guided, in-process fuzzing loop.
//!
//! Two parts make up the kernel. The feedback algebra ([`feedbacks`]) reduces
//! what the observers saw of one run to a single verdict, through combinators
//! whose evaluation order and short-circuiting are part of their contract.
//! The tuneable mutational stage ([`stages::tuneable`]) mutates the scheduled
//! testcase a bounded number of times, or for a bounded time, and hands every
//! mutated input to the fuzzer for evaluation ([`fuzzer`]).
//!
//! The harness, the mutators, the clock and the generator of random numbers
//! do what no contract can foretell. Every operation that reaches them
//! therefore has a specification predicate that says which outcomes the
//! operation may have, and the kernel's own contracts are stated, and proved,
//! over these predicates: they hold of every outcome, for every
//! implementation of the traits.

pub mod corpus;
pub mod error;
pub mod executors;
pub mod feedbacks;
pub mod fuzzer;
pub mod inputs;
pub mod metadata;
pub mod monitors;
pub mod mutators;
pub mod named;
pub mod observers;
pub mod rands;
pub mod schedulers;
pub mod stages;
pub mod state;
pub mod time;
