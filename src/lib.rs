//! Planning and sequencing of a sandboxed documentation build: reading the
//! compiler's version report, composing the documentation generator's flags
//! and the build arguments, and the stage-by-stage driver of one build.

pub mod error;
pub mod flags;
pub mod pipeline;
pub mod text;
pub mod version;
