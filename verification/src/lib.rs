//! The decision core of a stress-testing tool for competitive-programming
//! solutions: text resources, run outcomes, output checkers, counterexample
//! scoring, and the search loop that looks for an input on which a candidate
//! disagrees with a reference solution.
//!
//! Nothing here starts a process or touches a file. The caller runs what a
//! [`commands::multitest::Command`] names and hands the outcome back.

pub mod checkers;
pub mod commands;
pub mod diagnose;
pub mod error;
pub mod fitness;
pub mod paint;
pub mod runner;
pub mod strres;
pub mod testing;
pub mod ui;
pub mod util;
