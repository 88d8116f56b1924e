//! Launch-payload resolution and content ingestion for a desktop companion
//! that is started with a description of files or images to act on and
//! forwards what it derives from them to a local text-generation service.
//!
//! The library holds the rules; its caller holds the outside world. Nothing
//! here reads a file, asks the clock or talks to a service: what is needed
//! from outside is asked for in plain values and taken back in plain values.
//!
//! * [`parse`] resolves the raw arguments of a launch into a payload, step
//!   by step.
//! * [`paths`], [`extract`] and [`buffer`] turn what was read for the listed
//!   paths into text, under byte ceilings.
//! * [`ingest`] builds the preview of a payload; [`analysis`] prepares the
//!   source of an analysis and its prompt.
//! * [`guard`] lets one analysis through at a time; [`session`] runs one
//!   from the busy flag to the answer.
//! * [`handoff`] keeps a resolved payload until the interface is ready, and
//!   a bounded log.
//! * [`service`] reads the answers of the text-generation service;
//!   [`prompt`] writes the prompt of a named action; [`window`] holds small
//!   rules of the window chrome.
//! * [`text`] holds the text primitives that the rest is written in.

pub mod analysis;
pub mod buffer;
pub mod extract;
pub mod guard;
pub mod handoff;
pub mod ingest;
pub mod parse;
pub mod paths;
pub mod payload;
pub mod prompt;
pub mod service;
pub mod session;
pub mod text;
pub mod window;
