//! Whole compile requests, followed from their first step to their end.
//!
//! The steps of a request are decided one at a time. This module puts them
//! together: given what the world outside would answer to each piece of
//! work, it says which steps a request goes through, and proves what holds
//! of requests as a whole.

use vstd::prelude::*;
use crate::error::CompilerErrorView;
use crate::job::{
    artifact_is_current, file_request, first_step, next_turn, CacheView, FileTimes, JobView,
    OutcomeView, ReplyView, StepView, TranslateRequestView, TranslationView, TurnView,
};
use crate::paths::artifact_of;
use crate::words::{encoded, lemma_decode_encode};

verus! {

/// What the world outside answers to the work of one compile request.
pub struct World {
    /// The modification times that can be read.
    pub times: FileTimes,
    /// The bytes of the stored binary, if it can be opened and read.
    pub artifact: Option<Seq<u8>>,
    /// The text of the source, or why it cannot be read.
    pub source: Result<Seq<char>, Seq<char>>,
    /// What the translator makes of the source.
    pub translated: Result<TranslationView, Seq<char>>,
    /// Whether the binary can be stored, or why not.
    pub written: Result<(), Seq<char>>,
}

impl World {
    /// The reply to the work that `step` asks for.
    pub open spec fn answer(self, step: StepView) -> ReplyView {
        match step {
            StepView::Stat { .. } => ReplyView::Times(self.times),
            StepView::Load { .. } => ReplyView::Artifact(self.artifact),
            StepView::Read { .. } => ReplyView::Source(self.source),
            StepView::Translate { .. } => ReplyView::Translated(self.translated),
            StepView::Write { .. } => ReplyView::Written(self.written),
            StepView::Done(_) => ReplyView::Times(self.times),
        }
    }
}

/// The turn that follows `turn` when `world` answers its step.
pub open spec fn follow(turn: TurnView, world: World) -> TurnView {
    next_turn(turn.cache, turn.step, world.answer(turn.step))
}

/// Number of turns that a request is followed for. No request takes more.
pub open spec fn run_length() -> nat {
    6
}

/// The turns of the request `job`, begun with `cache` in memory and
/// answered by `world`: the first step and what follows it, reply by
/// reply. Once the request has ended the turns repeat its end.
pub open spec fn run(cache: CacheView, has_macros: bool, job: JobView, world: World) -> Seq<
    TurnView,
> {
    let t0 = TurnView { step: first_step(cache, has_macros, job), cache, notice: None };
    let t1 = follow(t0, world);
    let t2 = follow(t1, world);
    let t3 = follow(t2, world);
    let t4 = follow(t3, world);
    let t5 = follow(t4, world);
    seq![t0, t1, t2, t3, t4, t5]
}

/// Whether the request asks the translator to translate `request`.
pub open spec fn translates(turns: Seq<TurnView>, request: TranslateRequestView) -> bool {
    exists|i: int|
        0 <= i < turns.len() && match (#[trigger] turns[i]).step {
            StepView::Translate { request: asked, .. } => asked == request,
            _ => false,
        }
}

/// Whether the request runs the translator at all.
pub open spec fn invokes_translator(turns: Seq<TurnView>) -> bool {
    exists|i: int| 0 <= i < turns.len() && (#[trigger] turns[i]).step is Translate
}

/// Whether the request looks at the stored binary: at its modification
/// time or at its bytes.
pub open spec fn consults_artifact(turns: Seq<TurnView>) -> bool {
    exists|i: int|
        0 <= i < turns.len() && ((#[trigger] turns[i]).step is Stat || turns[i].step is Load)
}

/// Whether the request stores `bytes` as the file `artifact`.
pub open spec fn stores(turns: Seq<TurnView>, artifact: Seq<char>, bytes: Seq<u8>) -> bool {
    exists|i: int|
        0 <= i < turns.len() && match (#[trigger] turns[i]).step {
            StepView::Write { artifact: file, bytes: image, .. } => file == artifact && image
                == bytes,
            _ => false,
        }
}

/// Whether the request asks for any outside work.
pub open spec fn asks_for_work(turns: Seq<TurnView>) -> bool {
    exists|i: int| 0 <= i < turns.len() && !((#[trigger] turns[i]).step is Done)
}

/// How the request ended.
pub open spec fn result_of(turns: Seq<TurnView>) -> OutcomeView {
    turns.last().step->Done_0
}

/// The in-memory cache that the request leaves behind.
pub open spec fn cache_after(turns: Seq<TurnView>) -> CacheView {
    turns.last().cache
}

/// Every request ends within the turns it is followed for.
pub proof fn run_ends(cache: CacheView, has_macros: bool, job: JobView, world: World)
    ensures
        run(cache, has_macros, job, world).len() == run_length(),
        run(cache, has_macros, job, world).last().step is Done,
{
}

/// A request that succeeds leaves its result in memory under the
/// canonical path of its source, and touches no other entry.
pub proof fn success_is_remembered(
    cache: CacheView,
    has_macros: bool,
    job: JobView,
    world: World,
)
    ensures
        result_of(run(cache, has_macros, job, world)) matches Ok(words) ==> cache_after(
            run(cache, has_macros, job, world),
        ) == cache.insert(job.key, words),
        result_of(run(cache, has_macros, job, world)) is Err ==> cache_after(
            run(cache, has_macros, job, world),
        ) == cache,
{
    let turns = run(cache, has_macros, job, world);
    if job.use_cache && cache.contains_key(job.key) {
        assert(cache.insert(job.key, cache[job.key]) =~= cache);
    }
}

/// No request removes an entry from memory, and none changes the entry of
/// a file other than its own.
pub proof fn entries_are_never_evicted(
    cache: CacheView,
    has_macros: bool,
    job: JobView,
    world: World,
    key: Seq<char>,
)
    requires
        cache.contains_key(key),
    ensures
        cache_after(run(cache, has_macros, job, world)).contains_key(key),
        key != job.key ==> cache_after(run(cache, has_macros, job, world))[key] == cache[key],
{
    success_is_remembered(cache, has_macros, job, world);
}

/// A cached request for a file that is in memory is answered from memory,
/// under whatever spelling of its path the request is made:
/// it ends at once with the words in memory, asks for no outside work and
/// leaves the cache as it was. Whether the source file has changed since
/// is not looked at.
pub proof fn memory_hit_is_immediate(
    cache: CacheView,
    has_macros: bool,
    job: JobView,
    world: World,
)
    requires
        job.use_cache,
        cache.contains_key(job.key),
    ensures
        result_of(run(cache, has_macros, job, world)) == Ok::<Seq<u32>, CompilerErrorView>(
            cache[job.key],
        ),
        !asks_for_work(run(cache, has_macros, job, world)),
        !invokes_translator(run(cache, has_macros, job, world)),
        cache_after(run(cache, has_macros, job, world)) == cache,
{
}

/// Compiling a file and then compiling it again with caching and the same
/// compiler gives the same words the second time, without the translator
/// being run again and with memory left as it was: whatever the world
/// looks like by then, whatever settings were made in between, and
/// whichever spelling of the path either request used. The two requests
/// are for one file exactly if their canonical paths are equal.
pub proof fn repeated_compile_is_served_from_memory(
    cache: CacheView,
    has_macros: bool,
    job: JobView,
    world: World,
    later_has_macros: bool,
    later_job: JobView,
    later_world: World,
)
    requires
        result_of(run(cache, has_macros, job, world)) is Ok,
        later_job.key == job.key,
        later_job.use_cache,
    ensures
        result_of(
            run(
                cache_after(run(cache, has_macros, job, world)),
                later_has_macros,
                later_job,
                later_world,
            ),
        ) == result_of(run(cache, has_macros, job, world)),
        !invokes_translator(
            run(
                cache_after(run(cache, has_macros, job, world)),
                later_has_macros,
                later_job,
                later_world,
            ),
        ),
        !asks_for_work(
            run(
                cache_after(run(cache, has_macros, job, world)),
                later_has_macros,
                later_job,
                later_world,
            ),
        ),
        cache_after(
            run(
                cache_after(run(cache, has_macros, job, world)),
                later_has_macros,
                later_job,
                later_world,
            ),
        ) == cache_after(run(cache, has_macros, job, world)),
{
    success_is_remembered(cache, has_macros, job, world);
    let after = cache_after(run(cache, has_macros, job, world));
    memory_hit_is_immediate(after, later_has_macros, later_job, later_world);
}

/// What a request stores is the byte image of its result, under the path
/// of the source with the suffix appended.
pub proof fn stored_bytes_are_the_result(
    cache: CacheView,
    has_macros: bool,
    job: JobView,
    world: World,
    artifact: Seq<char>,
    bytes: Seq<u8>,
)
    requires
        stores(run(cache, has_macros, job, world), artifact, bytes),
    ensures
        job.use_cache,
        artifact == artifact_of(job.path),
        world.translated matches Ok(translation) && bytes == encoded(translation.words),
        bytes.len() == 4 * world.translated->Ok_0.words.len(),
        result_of(run(cache, has_macros, job, world)) matches Ok(words) ==> bytes == encoded(
            words,
        ),
{
    let turns = run(cache, has_macros, job, world);
    let i = choose|i: int|
        0 <= i < turns.len() && match (#[trigger] turns[i]).step {
            StepView::Write { artifact: file, bytes: image, .. } => file == artifact && image
                == bytes,
            _ => false,
        };
    assert(turns[i].step is Write);
}

/// A binary that an earlier request stored serves a later request of a
/// compiler that has no entry in memory and no macro defined, provided the
/// source is older than the stored binary: the later request ends in the
/// words that were stored, and the translator is not run.
pub proof fn stored_binary_round_trip(
    words: Seq<u32>,
    cache: CacheView,
    job: JobView,
    world: World,
)
    requires
        job.use_cache,
        !cache.contains_key(job.key),
        artifact_is_current(world.times),
        world.artifact == Some(encoded(words)),
    ensures
        result_of(run(cache, false, job, world)) == Ok::<Seq<u32>, CompilerErrorView>(words),
        !invokes_translator(run(cache, false, job, world)),
        cache_after(run(cache, false, job, world)) == cache.insert(job.key, words),
{
    lemma_decode_encode(words);
}

/// A cached request whose source is not older than the stored binary, or
/// whose times cannot be read, does not use the stored binary. If the
/// source can be read, the translator is run on it; if it accepts the
/// source, the stored binary is replaced by the new result.
///
/// A file that is in memory is left out: such a request is answered from
/// memory without a look at the source.
pub proof fn stale_binary_is_replaced(
    cache: CacheView,
    has_macros: bool,
    job: JobView,
    world: World,
)
    requires
        job.use_cache,
        !cache.contains_key(job.key),
        !artifact_is_current(world.times),
    ensures
        !(exists|i: int|
            0 <= i < run_length() && (#[trigger] run(cache, has_macros, job, world)[i]).step
                is Load),
        world.source matches Ok(text) ==> translates(
            run(cache, has_macros, job, world),
            file_request(job, text),
        ),
        world.source is Ok ==> (world.translated matches Ok(translation) ==> stores(
            run(cache, has_macros, job, world),
            artifact_of(job.path),
            encoded(translation.words),
        )),
        world.source is Ok ==> (world.translated matches Ok(translation) ==> (world.written
            is Ok ==> result_of(run(cache, has_macros, job, world)) == Ok::<
            Seq<u32>,
            CompilerErrorView,
        >(translation.words))),
{
    let turns = run(cache, has_macros, job, world);
    let k: int = if has_macros {
        0
    } else {
        1
    };
    assert(turns[k].step is Read);
    if world.source is Ok {
        assert(turns[k + 1].step is Translate);
        if world.translated is Ok {
            assert(turns[k + 2].step is Write);
        }
    }
}

/// A request of a compiler for which a macro is defined never looks at the
/// stored binary, whatever lies on disk. Unless memory answers it, it
/// reads the source, and runs the translator if the source can be read.
pub proof fn macros_bypass_stored_binary(cache: CacheView, job: JobView, world: World)
    ensures
        !consults_artifact(run(cache, true, job, world)),
        !(job.use_cache && cache.contains_key(job.key)) ==> (world.source matches Ok(text)
            ==> translates(run(cache, true, job, world), file_request(job, text))),
        !(job.use_cache && cache.contains_key(job.key)) ==> (world.source matches Err(reason)
            ==> result_of(run(cache, true, job, world)) == Err::<Seq<u32>, CompilerErrorView>(
            CompilerErrorView::LoadError(reason),
        )),
{
    let turns = run(cache, true, job, world);
    if !(job.use_cache && cache.contains_key(job.key)) {
        assert(turns[0].step is Read);
        if world.source is Ok {
            assert(turns[1].step is Translate);
        }
    }
}

/// A request made without caching looks neither into memory nor at the
/// stored binary, and stores nothing; its result is still kept in memory.
pub proof fn uncached_request_always_translates(
    cache: CacheView,
    has_macros: bool,
    job: JobView,
    world: World,
)
    requires
        !job.use_cache,
    ensures
        !consults_artifact(run(cache, has_macros, job, world)),
        forall|artifact: Seq<char>, bytes: Seq<u8>|
            !stores(run(cache, has_macros, job, world), artifact, bytes),
        world.source matches Ok(text) ==> translates(
            run(cache, has_macros, job, world),
            file_request(job, text),
        ),
        world.source is Ok ==> (world.translated matches Ok(translation) ==> result_of(
            run(cache, has_macros, job, world),
        ) == Ok::<Seq<u32>, CompilerErrorView>(translation.words)),
{
    let turns = run(cache, has_macros, job, world);
    assert(turns[0].step is Read);
    if world.source is Ok {
        assert(turns[1].step is Translate);
    }
}

} // verus!
