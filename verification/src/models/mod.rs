//! The data model: rows of the workspace and worker databases, and the enums
//! stored in them by name.
pub mod artifact;
pub mod project;
pub mod run;
pub mod session;
pub mod worker;
pub mod event;
pub mod checkpoint;
pub mod initiative;
pub mod search;
pub mod task;
pub mod config;
pub mod steering;
