//! Event emitters for traits of callbacks.
//!
//! An emitter keeps listeners, each under a handle of its own, and calls all
//! of them, first registered first, whenever an event is dispatched. The
//! module `emitter` holds the emitter, `model` its mathematical state and
//! `laws` what is proved of that state. The module `generator` says what the
//! emitter of a given trait declaration looks like; `declaration` holds such
//! declarations, and `text` and `sequences` what the others need.

pub mod declaration;
pub mod emitter;
pub mod generator;
pub mod laws;
pub mod model;
pub mod sequences;
pub mod text;
