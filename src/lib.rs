//! The boundary between a JavaScript host and the oxc engine: resolving a
//! loosely given minifier configuration into fully determined engine options,
//! and turning the parser's output into plain, position-annotated records.

pub mod options;
pub mod parse;
