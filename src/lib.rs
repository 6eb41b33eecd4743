//! A hierarchical test runner: suites of nested contexts and examples, with
//! setup and teardown hooks, serial or parallel execution and nested reports.

pub mod header;
mod clock;
pub mod report;
pub mod block;
mod parallel;
pub mod runner;
pub mod laws;
pub mod render;
pub mod replay;
