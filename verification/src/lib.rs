//! A library for a webhook-driven page automation service: the
//! content-block model of a hosted document store, plain-text
//! extraction over it, generation request building, generation result
//! decoding with a fixed degrade-not-fail policy, and the decisions of
//! the diary, study-log and weekly-report pipelines.
//!
//! Both wire formats travel through one JSON tree type. Building and
//! reading that tree, and printing it as text, is verified code; only
//! parsing text into a tree, and reading the clock, is trusted.

pub mod codec;
pub mod date;
pub mod gemini;
pub mod json;
pub mod notion;
pub mod pipeline;
pub mod text;
