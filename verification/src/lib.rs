//! Entities of the system model: what they hold, how they are looked up, and how a
//! change to one of them spreads to the others.
//!
//! What needs the database or another service is a task: it says what it wants done, is
//! handed the answer, and says what it wants next. The tasks hold all the decisions, and
//! none of the input and output.

pub mod code_generation;
pub mod edge;
pub mod editing;
pub mod entity;
pub mod error;
pub mod inference;
pub mod json;
pub mod lodash;
pub mod op;
pub mod qualification;
pub mod query;
pub mod spread;
pub mod storable;
pub mod successors;
pub mod text;

pub use entity::Entity;
pub use error::{EntityError, EntityResult};
