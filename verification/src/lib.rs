//! Routes for a workspace of independent service binaries.
//!
//! Each binary declares with an annotation on its entry point which HTTP
//! method and path it serves. This library reads such annotations, finds the
//! buildable programs of a directory tree, decides which of them can be
//! deployed and assembles the table of their routes.
//!
//! - [`method`]: the vocabulary of HTTP methods, parsed without regard to case.
//! - [`annotation`]: from the arguments of an annotation to a route or a
//!   diagnostic.
//! - [`discovery`]: from a directory tree to its buildable programs.
//! - [`eligibility`]: which programs have an executable target and the runtime
//!   dependencies.
//! - [`table`]: the route table, with no route owned twice.
//! - [`text`]: comparing texts.

pub mod annotation;
pub mod discovery;
pub mod eligibility;
pub mod method;
pub mod table;
pub mod text;

pub use crate::annotation::route;
pub use crate::discovery::RustCrate;
