//! Transforms a configuration document by running a script against it in an
//! embedded script engine.
//!
//! A run encodes the document as interchange text, wraps the caller's script
//! and that text into a module, has the engine run the module, and decodes
//! the text that the script hands back. The engine is no part of this
//! library: [`pipeline`] says what the engine is to do next and takes the
//! outcome, so that the order of a run and the error for every failure are
//! decided here.
//!
//! - [`document`]: what is read of a document before it is encoded.
//! - [`marshal`]: documents to interchange text and back.
//! - [`literal`]: text inside a string literal of a script.
//! - [`synth`]: the two module bodies of a run.
//! - [`pipeline`]: the stages of a run and its steps.
//! - [`error`]: the error of a failed run.

pub mod document;
pub mod error;
pub mod literal;
pub mod marshal;
pub mod pipeline;
pub mod synth;
