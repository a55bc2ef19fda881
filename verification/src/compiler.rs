//! The compiler's state and the decisions of a compile request.

use vstd::prelude::*;
use vstd::hash_map::StringHashMap;
use vstd::string::*;
use crate::error::{CompilationError, CompilerError};
use crate::job::{
    artifact_is_current, first_step, next_turn, outcome_view, text_outcome, text_request,
    warning_notice, CacheView, FileTimes, Job, JobView, Outcome, Reply, Step, TranslateRequest,
    Translation, TurnView, ENTRY_POINT, MEMORY_NAME,
};
use crate::options::{defines_macro, Configuration, Setting, SettingView, ShaderKind};
use crate::paths::artifact_path;
use crate::text::decimal_text;
use crate::words::{decode_words, encode_words};

verus! {

/// Settings, search path and in-memory cache of one compiler.
///
/// Cache entries are never evicted. Their key is the canonical path of
/// the source alone: changing the settings does not invalidate them.
pub struct Compiler {
    config: Configuration,
    compile_cache: StringHashMap<Vec<u32>>,
}

/// Mathematical content of a [`Compiler`].
pub struct CompilerView {
    /// The settings, in the order in which they were made.
    pub settings: Seq<SettingView>,
    /// Compiled binaries by canonical source path.
    pub cache: CacheView,
    /// Directories searched for inclusions, in the order in which they
    /// were added.
    pub include_dirs: Seq<Seq<char>>,
}

impl CompilerView {
    /// Whether any macro has been defined.
    pub open spec fn has_macros(self) -> bool {
        defines_macro(self.settings)
    }
}

/// A step together with the notice, if any, that reaching it gives rise to.
#[derive(Debug)]
pub struct Turn {
    pub step: Step,
    /// Non-fatal notice for the user; it does not affect the result.
    pub notice: Option<String>,
}

/// The content of `notice`.
pub open spec fn notice_view(notice: Option<String>) -> Option<Seq<char>> {
    match notice {
        Some(text) => Some(text@),
        None => None,
    }
}

impl View for Compiler {
    type V = CompilerView;

    closed spec fn view(&self) -> CompilerView {
        CompilerView {
            settings: self.config@.settings,
            cache: self.compile_cache@.map_values(|words: Vec<u32>| words@),
            include_dirs: self.config@.include_dirs,
        }
    }
}

/// A copy of `words`.
fn copy_words(words: &Vec<u32>) -> (copy: Vec<u32>)
    ensures
        copy@ == words@,
{
    let mut copy: Vec<u32> = Vec::new();
    let mut i: usize = 0;
    while i < words.len()
        invariant
            i <= words.len(),
            copy@ == words@.take(i as int),
        decreases words.len() - i,
    {
        copy.push(words[i]);
        assert(copy@ =~= words@.take(i + 1));
        i = i + 1;
    }
    assert(words@.take(i as int) =~= words@);
    copy
}

impl Compiler {
    /// A compiler with no settings, no search path and an empty cache.
    pub fn new() -> (compiler: Compiler)
        ensures
            compiler@.settings == Seq::<SettingView>::empty(),
            compiler@.cache == Map::<Seq<char>, Seq<u32>>::empty(),
            compiler@.include_dirs == Seq::<Seq<char>>::empty(),
    {
        let compiler = Compiler { config: Configuration::new(), compile_cache: StringHashMap::new() };
        assert(compiler@.cache =~= Map::<Seq<char>, Seq<u32>>::empty());
        compiler
    }

    /// A compiler with the settings and search path of `config` and an
    /// empty cache.
    pub fn with_configuration(config: Configuration) -> (compiler: Compiler)
        ensures
            compiler@.settings == config@.settings,
            compiler@.include_dirs == config@.include_dirs,
            compiler@.cache == Map::<Seq<char>, Seq<u32>>::empty(),
    {
        let compiler = Compiler { config, compile_cache: StringHashMap::new() };
        assert(compiler@.cache =~= Map::<Seq<char>, Seq<u32>>::empty());
        compiler
    }

    /// Defines the macro `name` for all later translations, with `value`
    /// as its text if there is one.
    ///
    /// The cache is left as it is: an entry made before the definition is
    /// still returned after it.
    pub fn add_macro_definition(&mut self, name: &str, value: Option<&str>)
        ensures
            final(self)@.settings == old(self)@.settings.push(
                SettingView::Macro {
                    name: name@,
                    value: match value {
                        Some(text) => Some(text@),
                        None => None,
                    },
                },
            ),
            final(self)@.has_macros(),
            final(self)@.include_dirs == old(self)@.include_dirs,
            final(self)@.cache == old(self)@.cache,
    {
        let setting = Setting::Macro {
            name: String::from_str(name),
            value: match value {
                Some(text) => Some(String::from_str(text)),
                None => None,
            },
        };
        let mut config = Configuration::new();
        core::mem::swap(&mut self.config, &mut config);
        let mut config = config.with_setting(setting);
        core::mem::swap(&mut self.config, &mut config);
        proof {
            let settings = final(self)@.settings;
            assert(settings[settings.len() - 1] is Macro);
        }
    }

    /// The settings and the search path.
    pub fn configuration(&self) -> (config: &Configuration)
        ensures
            config@.settings == self@.settings,
            config@.include_dirs == self@.include_dirs,
    {
        &self.config
    }

    /// Begins compiling `source`, handed over as text: says what the
    /// translator is to be asked. Nothing is looked up in the cache and
    /// nothing will be stored.
    pub fn compile_from_string(&self, source: &str, kind: ShaderKind) -> (request:
        TranslateRequest)
        ensures
            request@ == text_request(source@, kind),
    {
        TranslateRequest {
            source: String::from_str(source),
            kind,
            name: String::from_str(MEMORY_NAME),
            entry_point: String::from_str(ENTRY_POINT),
        }
    }

    /// Ends compiling source handed over as text, with what the translator
    /// made of it: its words, or its diagnostic as an error that names no
    /// file. Warnings are not reported.
    pub fn string_outcome(translated: Result<Translation, String>) -> (outcome: Outcome)
        ensures
            outcome_view(outcome) == text_outcome(
                match translated {
                    Ok(translation) => Ok(translation@),
                    Err(diagnostic) => Err(diagnostic@),
                },
            ),
    {
        match translated {
            Ok(translation) => Ok(translation.words),
            Err(diagnostic) => Err(
                CompilerError::Log(CompilationError { file: None, description: diagnostic }),
            ),
        }
    }

    /// The binary that is cached in memory for the source whose canonical
    /// path is `canonical`, if there is one.
    pub fn cached(&self, canonical: &str) -> (words: Option<Vec<u32>>)
        ensures
            words is Some <==> self@.cache.contains_key(canonical@),
            words matches Some(w) ==> w@ == self@.cache[canonical@],
    {
        match self.compile_cache.get(canonical) {
            Some(words) => Some(copy_words(words)),
            None => None,
        }
    }

    /// Begins compiling the file at `path`, whose canonical path is
    /// `canonical`: decides whether the in-memory cache answers the
    /// request, whether the stored binary is worth a look, or whether the
    /// source has to be read.
    ///
    /// Memory is keyed by `canonical`, so a file compiled under one
    /// spelling of its path is found again under any other. Everything
    /// else goes by `path`.
    pub fn compile_from_file(
        &self,
        path: &str,
        canonical: &str,
        kind: ShaderKind,
        cache: bool,
    ) -> (step: Step)
        ensures
            step@ == first_step(
                self@.cache,
                self@.has_macros(),
                JobView { path: path@, key: canonical@, kind, use_cache: cache },
            ),
    {
        let job = Job {
            path: String::from_str(path),
            key: String::from_str(canonical),
            kind,
            use_cache: cache,
        };
        if cache {
            match self.compile_cache.get(canonical) {
                Some(words) => {
                    return Step::Done(Ok(copy_words(words)));
                },
                None => {},
            }
            if !self.config.has_macros() {
                let artifact = artifact_path(path);
                return Step::Stat { job, artifact };
            }
        }
        Step::Read { job }
    }

    /// Records `words` as the binary of the source whose canonical path
    /// is `key`, replacing an earlier entry.
    fn remember(&mut self, key: &str, words: &Vec<u32>)
        ensures
            final(self)@.cache == old(self)@.cache.insert(key@, words@),
            final(self)@.settings == old(self)@.settings,
            final(self)@.include_dirs == old(self)@.include_dirs,
    {
        self.compile_cache.insert(String::from_str(key), copy_words(words));
        assert(final(self)@.cache =~= old(self)@.cache.insert(key@, words@));
    }

    /// Takes the outcome of the outside work that `step` asked for and
    /// decides what follows.
    ///
    /// A reply that does not answer `step` is ignored: the step stays as it
    /// is. Settings and search path are never touched; the cache gains an
    /// entry, under the canonical path of the source, exactly where a
    /// binary was loaded, or was translated and, if asked for, stored.
    pub fn resume(&mut self, step: Step, reply: Reply) -> (turn: Turn)
        ensures
            (TurnView {
                step: turn.step@,
                cache: final(self)@.cache,
                notice: notice_view(turn.notice),
            }) == next_turn(old(self)@.cache, step@, reply@),
            final(self)@.settings == old(self)@.settings,
            final(self)@.include_dirs == old(self)@.include_dirs,
    {
        match step {
            Step::Stat { job, artifact } => match reply {
                Reply::Times(times) => {
                    if is_current(times) {
                        Turn { step: Step::Load { job, artifact }, notice: None }
                    } else {
                        Turn { step: Step::Read { job }, notice: None }
                    }
                },
                _ => Turn { step: Step::Stat { job, artifact }, notice: None },
            },
            Step::Load { job, artifact } => match reply {
                Reply::Artifact(loaded) => {
                    let words = match loaded {
                        Some(bytes) => decode_words(&bytes),
                        None => None,
                    };
                    match words {
                        Some(words) => {
                            self.remember(job.key.as_str(), &words);
                            Turn { step: Step::Done(Ok(words)), notice: None }
                        },
                        None => Turn { step: Step::Read { job }, notice: None },
                    }
                },
                _ => Turn { step: Step::Load { job, artifact }, notice: None },
            },
            Step::Read { job } => match reply {
                Reply::Source(source) => match source {
                    Ok(text) => {
                        let request = TranslateRequest {
                            source: text,
                            kind: job.kind,
                            name: job.path.clone(),
                            entry_point: String::from_str(ENTRY_POINT),
                        };
                        Turn { step: Step::Translate { job, request }, notice: None }
                    },
                    Err(reason) => Turn {
                        step: Step::Done(Err(CompilerError::LoadError(reason))),
                        notice: None,
                    },
                },
                _ => Turn { step: Step::Read { job }, notice: None },
            },
            Step::Translate { job, request } => match reply {
                Reply::Translated(translated) => match translated {
                    Err(diagnostic) => {
                        let error = CompilationError {
                            file: Some(job.path),
                            description: diagnostic,
                        };
                        Turn { step: Step::Done(Err(CompilerError::Log(error))), notice: None }
                    },
                    Ok(translation) => {
                        let notice = if translation.num_warnings > 0 {
                            Some(notice_text(job.path.as_str(), &translation))
                        } else {
                            None
                        };
                        let words = translation.words;
                        if job.use_cache {
                            let artifact = artifact_path(job.path.as_str());
                            let bytes = encode_words(&words);
                            Turn { step: Step::Write { job, artifact, words, bytes }, notice }
                        } else {
                            self.remember(job.key.as_str(), &words);
                            Turn { step: Step::Done(Ok(words)), notice }
                        }
                    },
                },
                _ => Turn { step: Step::Translate { job, request }, notice: None },
            },
            Step::Write { job, artifact, words, bytes } => match reply {
                Reply::Written(written) => match written {
                    Ok(_) => {
                        self.remember(job.key.as_str(), &words);
                        Turn { step: Step::Done(Ok(words)), notice: None }
                    },
                    Err(reason) => Turn {
                        step: Step::Done(Err(CompilerError::WriteError(reason))),
                        notice: None,
                    },
                },
                _ => Turn { step: Step::Write { job, artifact, words, bytes }, notice: None },
            },
            Step::Done(outcome) => Turn { step: Step::Done(outcome), notice: None },
        }
    }
}

/// Whether the stored binary may stand in for a fresh translation.
pub fn is_current(times: FileTimes) -> (current: bool)
    ensures
        current == artifact_is_current(times),
{
    match (times.source_modified, times.artifact_modified) {
        (Some(source), Some(artifact)) => source < artifact,
        _ => false,
    }
}

/// The notice about the warnings that translating `path` produced.
pub fn notice_text(path: &str, translation: &Translation) -> (text: String)
    ensures
        text@ == warning_notice(path@, translation@),
{
    let mut text = String::from_str("File ");
    text.append(path);
    text.append(" produced ");
    let count = decimal_text(translation.num_warnings as u64);
    text.append(count.as_str());
    text.append(" warnings: ");
    text.append(translation.warning_messages.as_str());
    text
}

} // verus!
