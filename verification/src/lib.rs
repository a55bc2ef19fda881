//! Core of a shader build cache: resolution of nested source inclusions,
//! and the decisions of a two-tier cache of compiled binaries.
//!
//! The crate performs no input or output itself. Every operation that needs
//! the file system or the shader translator is expressed as a step that
//! names the work to be done; the caller performs it and hands the outcome
//! back. All decisions are taken, and proved, here.

pub mod builder;
pub mod compiler;
pub mod error;
pub mod job;
pub mod options;
pub mod paths;
pub mod resolver;
pub mod runs;
pub mod text;
pub mod words;

pub use crate::builder::CompilerBuilder;
pub use crate::compiler::{Compiler, Turn};
pub use crate::error::{CompilationError, CompilerError};
pub use crate::job::{FileTimes, Job, Reply, Step, TranslateRequest, Translation};
pub use crate::options::{
    Configuration, GlslProfile, Limit, OptimizationLevel, ResourceKind, Setting, ShaderKind,
    SourceLanguage, SpirvVersion, TargetEnv,
};
pub use crate::resolver::{IncludeType, Lookup, Resolution, ResolveError, ResolvedInclude};
