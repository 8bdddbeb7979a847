//! The build pipeline of a single project.
//!
//! A project build runs seven stages in a fixed order: schema construction,
//! typed IR construction, program construction, semantic validation, the
//! transform fan-out, artifact generation and artifact writing. The stages
//! themselves are collaborators that live outside this crate. What lives here
//! is everything the pipeline decides: which stage runs next, when the build
//! stops, how a batch of validation errors is tied back to the source text,
//! which label a timing span carries, and what the closing summary says.
//!
//! The caller runs the stages and reports what each one returned; see
//! [`driver::Driver`]. The values that pass from stage to stage stay with the
//! caller, but for the artifacts: those the driver takes from the generator
//! and hands to the writer, so that nothing reaches the writer unless the
//! generation of the whole project has succeeded.
//!
//! - [`stage`]: the stages, their order and the labels of their timing spans.
//! - [`source`]: the source text set, and the line, column and text that a
//!   location stands for.
//! - [`errors`]: the errors of a build, and validation errors with their
//!   sources attached.
//! - [`summary`]: the line that reports a successful build.
//! - [`driver`]: the driver and the function it computes.
//! - [`trace`]: what holds of every build, proved over that function.

pub mod driver;
pub mod errors;
pub mod source;
pub mod stage;
pub mod summary;
pub mod trace;
