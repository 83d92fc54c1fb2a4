//! Typed domain model for a task-management synchronization protocol.
//!
//! Each entity (task, project, section, label, filter) is an immutable,
//! validated record. Records are created and edited through staging
//! builders: a builder accumulates optional field values, and its `build`
//! operation either yields a record satisfying the documented
//! field-consistency rules or a descriptive error. Every rule is stated as
//! a contract and proved.

pub mod colors;
pub mod dates;
pub mod filters;
pub mod items;
pub mod labels;
pub mod priority;
pub mod projects;
pub mod sections;
pub mod text;
