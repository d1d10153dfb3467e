//! A desktop command bridge: it assembles the invocation of an external
//! data-processing step, classifies the captured outcome of that run, and
//! decodes a structured payload from the success path, surfacing every
//! failure as one descriptive error value.
//!
//! The bridge itself performs no input or output: an embedding program
//! spawns the process and hands the captured outcome back to [`facade`],
//! which settles it into either a decoded [`payload::StructuredValue`] or a
//! single [`error::CommandError`].

pub mod dialog;
pub mod error;
pub mod facade;
pub mod invocation;
pub mod payload;
