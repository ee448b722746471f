//! Building blocks for project-automation ("xtask") workflows: filesystem
//! operations, workspace discovery, and higher-level build/test/coverage
//! tasks, each assembled as an ordered sequence of external-process
//! invocations with fail-fast semantics.

pub mod command;
pub mod ops;
pub mod tasks;
pub mod textfmt;
