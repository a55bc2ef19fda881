//! A compile request as a sequence of steps.
//!
//! Compiling a file needs work that lies outside this crate: reading
//! modification times, loading a stored binary, reading the source, running
//! the translator, storing the result. A [`Step`] names the next piece of
//! such work; a [`Reply`] carries its outcome back. This module defines the
//! steps, the replies and, as specification, which step follows which.

use vstd::prelude::*;
use crate::error::{CompilationErrorView, CompilerError, CompilerErrorView};
use crate::options::ShaderKind;
use crate::paths::artifact_of;
use crate::text::decimal;
use crate::words::{decoded, encoded, whole_words};

verus! {

/// Entry point that every translation is asked for.
pub const ENTRY_POINT: &'static str = "main";

/// Name under which source handed over as text is known to the translator.
pub const MEMORY_NAME: &'static str = "memory";

/// Modification times of a source file and of its stored binary, each in
/// nanoseconds relative to the epoch of the clock that both were read from,
/// and absent where it could not be read.
#[derive(Clone, Copy, Debug, PartialEq, Eq)]
pub struct FileTimes {
    pub source_modified: Option<i128>,
    pub artifact_modified: Option<i128>,
}

/// Whether the stored binary may stand in for a fresh translation: both
/// times are known and the source was modified strictly before the binary.
pub open spec fn artifact_is_current(times: FileTimes) -> bool {
    &&& times.source_modified matches Some(source)
    &&& times.artifact_modified matches Some(artifact)
    &&& source < artifact
}

/// What is handed to the translator.
#[derive(Clone, Debug, PartialEq, Eq)]
pub struct TranslateRequest {
    /// Text of the source.
    pub source: String,
    pub kind: ShaderKind,
    /// Name that diagnostics attribute the source to, and that inclusions
    /// relative to the source start from.
    pub name: String,
    pub entry_point: String,
}

/// Mathematical content of a [`TranslateRequest`].
pub struct TranslateRequestView {
    pub source: Seq<char>,
    pub kind: ShaderKind,
    pub name: Seq<char>,
    pub entry_point: Seq<char>,
}

impl View for TranslateRequest {
    type V = TranslateRequestView;

    open spec fn view(&self) -> TranslateRequestView {
        TranslateRequestView {
            source: self.source@,
            kind: self.kind,
            name: self.name@,
            entry_point: self.entry_point@,
        }
    }
}

/// What a successful translation gives back.
#[derive(Clone, Debug, PartialEq, Eq)]
pub struct Translation {
    /// The compiled binary.
    pub words: Vec<u32>,
    pub num_warnings: u32,
    pub warning_messages: String,
}

/// Mathematical content of a [`Translation`].
pub struct TranslationView {
    pub words: Seq<u32>,
    pub num_warnings: u32,
    pub warning_messages: Seq<char>,
}

impl View for Translation {
    type V = TranslationView;

    open spec fn view(&self) -> TranslationView {
        TranslationView {
            words: self.words@,
            num_warnings: self.num_warnings,
            warning_messages: self.warning_messages@,
        }
    }
}

/// A request to compile the file at `path`.
#[derive(Clone, Debug, PartialEq, Eq)]
pub struct Job {
    /// Path of the source file, as the request spelled it. The file is
    /// read under this path, the translator knows the source by it, and
    /// the stored binary is named after it.
    pub path: String,
    /// Canonical path of the source file: the key of its entry in memory.
    /// All spellings of one file have one canonical path, and so one
    /// entry.
    pub key: String,
    pub kind: ShaderKind,
    /// Whether cached results may be used and the result is to be stored.
    pub use_cache: bool,
}

/// Mathematical content of a [`Job`].
pub struct JobView {
    pub path: Seq<char>,
    pub key: Seq<char>,
    pub kind: ShaderKind,
    pub use_cache: bool,
}

impl View for Job {
    type V = JobView;

    open spec fn view(&self) -> JobView {
        JobView { path: self.path@, key: self.key@, kind: self.kind, use_cache: self.use_cache }
    }
}

/// How a compile request ended.
pub type Outcome = Result<Vec<u32>, CompilerError>;

/// Mathematical content of an [`Outcome`].
pub type OutcomeView = Result<Seq<u32>, CompilerErrorView>;

/// The content of `outcome`.
pub open spec fn outcome_view(outcome: Outcome) -> OutcomeView {
    match outcome {
        Ok(words) => Ok(words@),
        Err(error) => Err(error@),
    }
}

/// The next piece of outside work of a compile request, or its end.
#[derive(Debug, PartialEq, Eq)]
pub enum Step {
    /// Read the modification times of the source `job.path` and of the
    /// stored binary `artifact`. Answered by [`Reply::Times`].
    Stat { job: Job, artifact: String },
    /// Read the stored binary `artifact` whole. Answered by
    /// [`Reply::Artifact`].
    Load { job: Job, artifact: String },
    /// Read the source file `job.path` as text. Answered by
    /// [`Reply::Source`].
    Read { job: Job },
    /// Run the translator on `request`. Answered by [`Reply::Translated`].
    Translate { job: Job, request: TranslateRequest },
    /// Store `bytes`, the byte image of `words`, as the file `artifact`,
    /// replacing what is there. Answered by [`Reply::Written`].
    Write { job: Job, artifact: String, words: Vec<u32>, bytes: Vec<u8> },
    /// The request has ended; nothing is left to do.
    Done(Outcome),
}

/// Mathematical content of a [`Step`].
pub enum StepView {
    Stat { job: JobView, artifact: Seq<char> },
    Load { job: JobView, artifact: Seq<char> },
    Read { job: JobView },
    Translate { job: JobView, request: TranslateRequestView },
    Write { job: JobView, artifact: Seq<char>, words: Seq<u32>, bytes: Seq<u8> },
    Done(OutcomeView),
}

impl View for Step {
    type V = StepView;

    open spec fn view(&self) -> StepView {
        match self {
            Step::Stat { job, artifact } => StepView::Stat { job: job@, artifact: artifact@ },
            Step::Load { job, artifact } => StepView::Load { job: job@, artifact: artifact@ },
            Step::Read { job } => StepView::Read { job: job@ },
            Step::Translate { job, request } => StepView::Translate {
                job: job@,
                request: request@,
            },
            Step::Write { job, artifact, words, bytes } => StepView::Write {
                job: job@,
                artifact: artifact@,
                words: words@,
                bytes: bytes@,
            },
            Step::Done(outcome) => StepView::Done(outcome_view(*outcome)),
        }
    }
}

/// The outcome of a piece of outside work.
#[derive(Debug, PartialEq, Eq)]
pub enum Reply {
    /// The modification times that could be read.
    Times(FileTimes),
    /// The bytes of the stored binary, or nothing if it could not be
    /// opened or read.
    Artifact(Option<Vec<u8>>),
    /// The text of the source, or the description of the failure to open
    /// or read it.
    Source(Result<String, String>),
    /// What the translator gave back, or its diagnostic if it rejected the
    /// source.
    Translated(Result<Translation, String>),
    /// Success, or the description of the failure to create or write the
    /// file.
    Written(Result<(), String>),
}

/// Mathematical content of a [`Reply`].
pub enum ReplyView {
    Times(FileTimes),
    Artifact(Option<Seq<u8>>),
    Source(Result<Seq<char>, Seq<char>>),
    Translated(Result<TranslationView, Seq<char>>),
    Written(Result<(), Seq<char>>),
}

impl View for Reply {
    type V = ReplyView;

    open spec fn view(&self) -> ReplyView {
        match self {
            Reply::Times(times) => ReplyView::Times(*times),
            Reply::Artifact(bytes) => ReplyView::Artifact(
                match bytes {
                    Some(bytes) => Some(bytes@),
                    None => None,
                },
            ),
            Reply::Source(source) => ReplyView::Source(
                match source {
                    Ok(text) => Ok(text@),
                    Err(reason) => Err(reason@),
                },
            ),
            Reply::Translated(translated) => ReplyView::Translated(
                match translated {
                    Ok(translation) => Ok(translation@),
                    Err(diagnostic) => Err(diagnostic@),
                },
            ),
            Reply::Written(written) => ReplyView::Written(
                match written {
                    Ok(_) => Ok(()),
                    Err(reason) => Err(reason@),
                },
            ),
        }
    }
}

/// The in-memory cache: compiled binaries by canonical source path.
pub type CacheView = Map<Seq<char>, Seq<u32>>;

/// A step together with the cache as it stands when the step is reached,
/// and the notice, if any, that reaching it gives rise to.
pub struct TurnView {
    pub step: StepView,
    pub cache: CacheView,
    /// Non-fatal notice for the user; it does not affect the result.
    pub notice: Option<Seq<char>>,
}

/// The notice about warnings that a translation of `path` produced.
pub open spec fn warning_notice(path: Seq<char>, translation: TranslationView) -> Seq<char> {
    "File "@ + path + " produced "@ + decimal(translation.num_warnings as nat) + " warnings: "@
        + translation.warning_messages
}

/// What the translator is asked for when the file of `job` has been read
/// as `source`.
pub open spec fn file_request(job: JobView, source: Seq<char>) -> TranslateRequestView {
    TranslateRequestView { source, kind: job.kind, name: job.path, entry_point: ENTRY_POINT@ }
}

/// First step of `job`, with `cache` in memory and `has_macros` telling
/// whether any macro has been defined.
///
/// Memory is looked up under the canonical path of the source. An entry
/// there is returned as it is, with no look at the source file. Otherwise the stored binary is considered only if no macro is
/// defined, since its name says nothing of macros.
pub open spec fn first_step(cache: CacheView, has_macros: bool, job: JobView) -> StepView {
    if job.use_cache && cache.contains_key(job.key) {
        StepView::Done(Ok(cache[job.key]))
    } else if job.use_cache && !has_macros {
        StepView::Stat { job, artifact: artifact_of(job.path) }
    } else {
        StepView::Read { job }
    }
}

/// The step that follows `step` once `reply` has come in, with the cache
/// before it as `cache`.
///
/// - After the times: the stored binary is loaded if it is current,
///   otherwise the source is read.
/// - After loading: bytes that make up whole words end the request with
///   those words and are kept in memory, under the canonical path of the
///   source, as every result that is kept; if nothing could be loaded, or
///   the bytes do not make up whole words, the source is read.
/// - After reading: the text goes to the translator; a failure ends the
///   request with a load error.
/// - After translating: a rejection ends the request with the diagnostic
///   and the path. Otherwise warnings, if any, give a notice; a cached
///   request goes on to store the byte image of the words, any other ends
///   with the words and keeps them in memory.
/// - After storing: success ends the request with the words and keeps
///   them in memory; a failure ends it with a write error and keeps
///   nothing.
///
/// A reply that does not answer `step` changes nothing.
pub open spec fn next_turn(cache: CacheView, step: StepView, reply: ReplyView) -> TurnView {
    match (step, reply) {
        (StepView::Stat { job, artifact }, ReplyView::Times(times)) => TurnView {
            step: if artifact_is_current(times) {
                StepView::Load { job, artifact }
            } else {
                StepView::Read { job }
            },
            cache,
            notice: None,
        },
        (StepView::Load { job, artifact }, ReplyView::Artifact(loaded)) => match loaded {
            Some(bytes) if whole_words(bytes) => TurnView {
                step: StepView::Done(Ok(decoded(bytes))),
                cache: cache.insert(job.key, decoded(bytes)),
                notice: None,
            },
            _ => TurnView { step: StepView::Read { job }, cache, notice: None },
        },
        (StepView::Read { job }, ReplyView::Source(source)) => TurnView {
            step: match source {
                Ok(text) => StepView::Translate { job, request: file_request(job, text) },
                Err(reason) => StepView::Done(Err(CompilerErrorView::LoadError(reason))),
            },
            cache,
            notice: None,
        },
        (StepView::Translate { job, request }, ReplyView::Translated(translated)) => {
            match translated {
                Err(diagnostic) => TurnView {
                    step: StepView::Done(
                        Err(
                            CompilerErrorView::Log(
                                CompilationErrorView {
                                    file: Some(job.path),
                                    description: diagnostic,
                                },
                            ),
                        ),
                    ),
                    cache,
                    notice: None,
                },
                Ok(translation) => TurnView {
                    step: if job.use_cache {
                        StepView::Write {
                            job,
                            artifact: artifact_of(job.path),
                            words: translation.words,
                            bytes: encoded(translation.words),
                        }
                    } else {
                        StepView::Done(Ok(translation.words))
                    },
                    cache: if job.use_cache {
                        cache
                    } else {
                        cache.insert(job.key, translation.words)
                    },
                    notice: if translation.num_warnings > 0 {
                        Some(warning_notice(job.path, translation))
                    } else {
                        None
                    },
                },
            }
        },
        (StepView::Write { job, artifact, words, bytes }, ReplyView::Written(written)) => {
            match written {
                Ok(_) => TurnView {
                    step: StepView::Done(Ok(words)),
                    cache: cache.insert(job.key, words),
                    notice: None,
                },
                Err(reason) => TurnView {
                    step: StepView::Done(Err(CompilerErrorView::WriteError(reason))),
                    cache,
                    notice: None,
                },
            }
        },
        _ => TurnView { step, cache, notice: None },
    }
}

/// What the translator is asked for when `source` is handed over as
/// text: the source is known by a fixed name, not by a path.
pub open spec fn text_request(source: Seq<char>, kind: ShaderKind) -> TranslateRequestView {
    TranslateRequestView { source, kind, name: MEMORY_NAME@, entry_point: ENTRY_POINT@ }
}

/// How compiling source handed over as text ends, given what the
/// translator made of it. A rejection names no file.
pub open spec fn text_outcome(translated: Result<TranslationView, Seq<char>>) -> OutcomeView {
    match translated {
        Ok(translation) => Ok(translation.words),
        Err(diagnostic) => Err(
            CompilerErrorView::Log(CompilationErrorView { file: None, description: diagnostic }),
        ),
    }
}

} // verus!
