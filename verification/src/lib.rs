//! Batch resolution of network-address lookups: credential handling,
//! per-address request orchestration with partial-failure isolation, and a
//! recursive renderer that turns a nested structured value into indented,
//! annotated lines of text.

pub mod parse;
pub mod render;
pub mod resolve;
pub mod store;
pub mod style;
pub mod serialize;
pub mod text;
pub mod value;
