//! Resolution of inclusion directives.
//!
//! A directive names a file. Where it is looked for depends on the style of
//! the directive, on the file that holds it and on the configured search
//! path. Whether a candidate exists and can be read is for the caller to
//! find out: a [`Lookup`] names the candidate to try, and is advanced with
//! what the attempt gave.

use vstd::prelude::*;
use vstd::string::*;
use crate::compiler::Compiler;
use crate::options::dirs_view;
use crate::paths::{join_path, joined_path, parent_of, parent_path};
use crate::text::{decimal, decimal_text};

verus! {

/// Nesting depth from which on no inclusion is resolved. The bound ends
/// cyclic inclusions; it also refuses chains that are merely deep.
pub const MAX_INCLUDE_DEPTH: usize = 32;

/// Style of an inclusion directive.
#[derive(Clone, Copy, Debug, PartialEq, Eq, Structural)]
pub enum IncludeType {
    /// Quoted form: looked for beside the including file first.
    Relative,
    /// Angle-bracket form: looked for on the search path only.
    Standard,
}

/// A resolved inclusion.
#[derive(Clone, Debug, PartialEq, Eq)]
pub struct ResolvedInclude {
    /// Path at which the file was found.
    pub resolved_name: String,
    /// Text of the file.
    pub content: String,
}

/// Mathematical content of a [`ResolvedInclude`].
pub struct ResolvedIncludeView {
    pub resolved_name: Seq<char>,
    pub content: Seq<char>,
}

impl View for ResolvedInclude {
    type V = ResolvedIncludeView;

    open spec fn view(&self) -> ResolvedIncludeView {
        ResolvedIncludeView { resolved_name: self.resolved_name@, content: self.content@ }
    }
}

/// Why an inclusion was not resolved.
#[derive(Clone, Debug, PartialEq, Eq)]
pub enum ResolveError {
    /// The directive is nested too deeply; holds the depth.
    DepthExceeded { depth: usize },
    /// No candidate exists and can be read; holds the name as the
    /// directive gave it.
    NotFound { requested: String },
}

/// Mathematical content of a [`ResolveError`].
pub enum ResolveErrorView {
    DepthExceeded { depth: usize },
    NotFound { requested: Seq<char> },
}

impl View for ResolveError {
    type V = ResolveErrorView;

    open spec fn view(&self) -> ResolveErrorView {
        match self {
            ResolveError::DepthExceeded { depth } => ResolveErrorView::DepthExceeded {
                depth: *depth,
            },
            ResolveError::NotFound { requested } => ResolveErrorView::NotFound {
                requested: requested@,
            },
        }
    }
}

impl ResolveErrorView {
    /// The message that is handed to the translator.
    pub open spec fn text(self) -> Seq<char> {
        match self {
            ResolveErrorView::DepthExceeded { depth } => "Include depth "@ + decimal(depth as nat)
                + " too high!"@,
            ResolveErrorView::NotFound { requested } => "Could not find file: "@ + requested,
        }
    }
}

impl ResolveError {
    /// The message that is handed to the translator.
    pub fn to_string(&self) -> (text: String)
        ensures
            text@ == self@.text(),
    {
        match self {
            ResolveError::DepthExceeded { depth } => {
                let mut text = String::from_str("Include depth ");
                let number = decimal_text(*depth as u64);
                text.append(number.as_str());
                text.append(" too high!");
                text
            },
            ResolveError::NotFound { requested } => {
                let mut text = String::from_str("Could not find file: ");
                text.append(requested.as_str());
                text
            },
        }
    }
}

/// How a resolution ended.
pub type Resolved = Result<ResolvedInclude, ResolveError>;

/// Mathematical content of a [`Resolved`].
pub type ResolvedView = Result<ResolvedIncludeView, ResolveErrorView>;

/// The content of `resolved`.
pub open spec fn resolved_view(resolved: Resolved) -> ResolvedView {
    match resolved {
        Ok(found) => Ok(found@),
        Err(error) => Err(error@),
    }
}

/// A resolution under way: the candidates that are still to be tried.
#[derive(Debug)]
pub struct Lookup {
    requested: String,
    candidates: Vec<String>,
    cursor: usize,
}

/// Mathematical content of a [`Lookup`].
pub struct LookupView {
    /// The name as the directive gave it.
    pub requested: Seq<char>,
    /// The candidates still to be tried, the next one first.
    pub remaining: Seq<Seq<char>>,
}

impl View for Lookup {
    type V = LookupView;

    closed spec fn view(&self) -> LookupView {
        LookupView {
            requested: self.requested@,
            remaining: dirs_view(self.candidates@).skip(self.cursor as int),
        }
    }
}

/// State of a resolution: a candidate to try, or the end.
#[derive(Debug)]
pub enum Resolution {
    /// The file at `path()` of the lookup is to be opened and read as
    /// text; the lookup is then advanced with the text, or with nothing if
    /// the file does not exist, cannot be opened or cannot be read.
    Probe(Lookup),
    /// The resolution has ended.
    Done(Resolved),
}

/// Mathematical content of a [`Resolution`].
pub enum ResolutionView {
    Probe(LookupView),
    Done(ResolvedView),
}

impl View for Resolution {
    type V = ResolutionView;

    open spec fn view(&self) -> ResolutionView {
        match self {
            Resolution::Probe(lookup) => ResolutionView::Probe(lookup@),
            Resolution::Done(resolved) => ResolutionView::Done(resolved_view(*resolved)),
        }
    }
}

/// The file `requested` placed in each of `dirs`, in their order.
pub open spec fn search_path_candidates(dirs: Seq<Seq<char>>, requested: Seq<char>) -> Seq<
    Seq<char>,
> {
    Seq::new(dirs.len(), |i: int| joined_path(dirs[i], requested))
}

/// The paths at which `requested` is looked for, in the order in which
/// they are tried: for a relative directive first the directory of the
/// including file `requesting`, if it has one; then, for either style, the
/// search path `dirs` in its order.
pub open spec fn candidates(
    dirs: Seq<Seq<char>>,
    requested: Seq<char>,
    style: IncludeType,
    requesting: Seq<char>,
) -> Seq<Seq<char>> {
    match (style, parent_path(requesting)) {
        (IncludeType::Relative, Some(dir)) => seq![joined_path(dir, requested)]
            + search_path_candidates(dirs, requested),
        _ => search_path_candidates(dirs, requested),
    }
}

/// The state in which `remaining` is still to be tried for `requested`.
pub open spec fn pending(requested: Seq<char>, remaining: Seq<Seq<char>>) -> ResolutionView {
    if remaining.len() == 0 {
        ResolutionView::Done(Err(ResolveErrorView::NotFound { requested }))
    } else {
        ResolutionView::Probe(LookupView { requested, remaining })
    }
}

/// The state in which a resolution starts.
pub open spec fn start(
    dirs: Seq<Seq<char>>,
    requested: Seq<char>,
    style: IncludeType,
    requesting: Seq<char>,
    depth: usize,
) -> ResolutionView {
    if depth >= MAX_INCLUDE_DEPTH {
        ResolutionView::Done(Err(ResolveErrorView::DepthExceeded { depth }))
    } else {
        pending(requested, candidates(dirs, requested, style, requesting))
    }
}

/// The state that follows when the first remaining candidate of `lookup`
/// has been tried and gave `content`.
pub open spec fn after_probe(lookup: LookupView, content: Option<Seq<char>>) -> ResolutionView {
    match content {
        Some(text) => ResolutionView::Done(
            Ok(ResolvedIncludeView { resolved_name: lookup.remaining[0], content: text }),
        ),
        None => pending(lookup.requested, lookup.remaining.drop_first()),
    }
}

/// The files that exist and can be opened and read as text: their text,
/// by path.
pub type Files = Map<Seq<char>, Seq<char>>;

/// What trying `path` gives when the file system holds `files`.
pub open spec fn probe(files: Files, path: Seq<char>) -> Option<Seq<char>> {
    if files.contains_key(path) {
        Some(files[path])
    } else {
        None
    }
}

/// The first of `remaining` that is in `files`, with its text; not found
/// if none is.
pub open spec fn first_readable(
    files: Files,
    requested: Seq<char>,
    remaining: Seq<Seq<char>>,
) -> ResolvedView
    decreases remaining.len(),
{
    if remaining.len() == 0 {
        Err(ResolveErrorView::NotFound { requested })
    } else if files.contains_key(remaining[0]) {
        Ok(ResolvedIncludeView { resolved_name: remaining[0], content: files[remaining[0]] })
    } else {
        first_readable(files, requested, remaining.drop_first())
    }
}

/// What a directive resolves to when the file system holds `files`.
pub open spec fn resolve(
    files: Files,
    dirs: Seq<Seq<char>>,
    requested: Seq<char>,
    style: IncludeType,
    requesting: Seq<char>,
    depth: usize,
) -> ResolvedView {
    if depth >= MAX_INCLUDE_DEPTH {
        Err(ResolveErrorView::DepthExceeded { depth })
    } else {
        first_readable(files, requested, candidates(dirs, requested, style, requesting))
    }
}

/// Number of probes that `state` may still ask for, plus one if it asks
/// for any.
pub open spec fn probes_left(state: ResolutionView) -> nat {
    match state {
        ResolutionView::Probe(lookup) => lookup.remaining.len() + 1,
        ResolutionView::Done(_) => 0,
    }
}

/// The end that `state` comes to when every probe is answered from
/// `files`.
pub open spec fn settle(files: Files, state: ResolutionView) -> ResolvedView
    decreases probes_left(state),
{
    match state {
        ResolutionView::Done(resolved) => resolved,
        ResolutionView::Probe(lookup) => {
            if lookup.remaining.len() == 0 {
                Err(ResolveErrorView::NotFound { requested: lookup.requested })
            } else {
                settle(files, after_probe(lookup, probe(files, lookup.remaining[0])))
            }
        },
    }
}

/// Answering the probes one by one from `files` ends in the first
/// readable candidate.
pub proof fn settle_pending(files: Files, requested: Seq<char>, remaining: Seq<Seq<char>>)
    ensures
        settle(files, pending(requested, remaining)) == first_readable(files, requested, remaining),
    decreases remaining.len(),
{
    if remaining.len() > 0 {
        let lookup = LookupView { requested, remaining };
        let next = after_probe(lookup, probe(files, remaining[0]));
        assert(settle(files, pending(requested, remaining)) == settle(files, next));
        if files.contains_key(remaining[0]) {
            assert(settle(files, next) == first_readable(files, requested, remaining));
        } else {
            settle_pending(files, requested, remaining.drop_first());
        }
    }
}

/// Stepping through a resolution, with every probe answered from `files`,
/// ends in what the directive resolves to in `files`.
pub proof fn settle_from_start(
    files: Files,
    dirs: Seq<Seq<char>>,
    requested: Seq<char>,
    style: IncludeType,
    requesting: Seq<char>,
    depth: usize,
)
    ensures
        settle(files, start(dirs, requested, style, requesting, depth)) == resolve(
            files,
            dirs,
            requested,
            style,
            requesting,
            depth,
        ),
{
    if depth < MAX_INCLUDE_DEPTH {
        settle_pending(files, requested, candidates(dirs, requested, style, requesting));
    }
}

/// The candidate at `index` is found if it is readable and none before it
/// is.
pub proof fn first_readable_at(
    files: Files,
    requested: Seq<char>,
    remaining: Seq<Seq<char>>,
    index: int,
)
    requires
        0 <= index < remaining.len(),
        files.contains_key(remaining[index]),
        forall|j: int| 0 <= j < index ==> !files.contains_key(#[trigger] remaining[j]),
    ensures
        first_readable(files, requested, remaining) == Ok::<
            ResolvedIncludeView,
            ResolveErrorView,
        >(
            ResolvedIncludeView {
                resolved_name: remaining[index],
                content: files[remaining[index]],
            },
        ),
    decreases index,
{
    if index > 0 {
        let rest = remaining.drop_first();
        assert(!files.contains_key(remaining[0]));
        assert forall|j: int| 0 <= j < index - 1 implies !files.contains_key(
            #[trigger] rest[j],
        ) by {
            assert(rest[j] == remaining[j + 1]);
        }
        first_readable_at(files, requested, rest, index - 1);
    }
}

/// The file is not found exactly if no candidate is readable; the error
/// then carries the name as the directive gave it.
pub proof fn first_readable_none(files: Files, requested: Seq<char>, remaining: Seq<Seq<char>>)
    ensures
        first_readable(files, requested, remaining) is Err <==> forall|j: int|
            0 <= j < remaining.len() ==> !files.contains_key(#[trigger] remaining[j]),
        first_readable(files, requested, remaining) is Err ==> first_readable(
            files,
            requested,
            remaining,
        ) == Err::<ResolvedIncludeView, ResolveErrorView>(
            ResolveErrorView::NotFound { requested },
        ),
    decreases remaining.len(),
{
    if remaining.len() > 0 && !files.contains_key(remaining[0]) {
        let rest = remaining.drop_first();
        first_readable_none(files, requested, rest);
        if first_readable(files, requested, rest) is Err {
            assert forall|j: int| 0 <= j < remaining.len() implies !files.contains_key(
                #[trigger] remaining[j],
            ) by {
                if j > 0 {
                    assert(rest[j - 1] == remaining[j]);
                }
            }
        } else {
            let j = choose|j: int| 0 <= j < rest.len() && files.contains_key(#[trigger] rest[j]);
            assert(remaining[j + 1] == rest[j]);
        }
    }
}

/// A relative directive resolves to the file beside the including file
/// whenever that file is readable, whatever the search path holds.
pub proof fn relative_prefers_colocated(
    files: Files,
    dirs: Seq<Seq<char>>,
    requested: Seq<char>,
    requesting: Seq<char>,
    depth: usize,
)
    requires
        depth < MAX_INCLUDE_DEPTH,
        parent_path(requesting) is Some,
        files.contains_key(joined_path(parent_path(requesting)->0, requested)),
    ensures
        resolve(files, dirs, requested, IncludeType::Relative, requesting, depth) == Ok::<
            ResolvedIncludeView,
            ResolveErrorView,
        >(
            ResolvedIncludeView {
                resolved_name: joined_path(parent_path(requesting)->0, requested),
                content: files[joined_path(parent_path(requesting)->0, requested)],
            },
        ),
{
}

/// A standard directive resolves to the file in the first directory of
/// the search path, in configured order, that holds a readable file of
/// the requested name: earlier directories shadow later ones.
pub proof fn standard_first_directory_wins(
    files: Files,
    dirs: Seq<Seq<char>>,
    requested: Seq<char>,
    requesting: Seq<char>,
    depth: usize,
    index: int,
)
    requires
        depth < MAX_INCLUDE_DEPTH,
        0 <= index < dirs.len(),
        files.contains_key(joined_path(dirs[index], requested)),
        forall|j: int|
            0 <= j < index ==> !files.contains_key(joined_path(#[trigger] dirs[j], requested)),
    ensures
        resolve(files, dirs, requested, IncludeType::Standard, requesting, depth) == Ok::<
            ResolvedIncludeView,
            ResolveErrorView,
        >(
            ResolvedIncludeView {
                resolved_name: joined_path(dirs[index], requested),
                content: files[joined_path(dirs[index], requested)],
            },
        ),
{
    let found = search_path_candidates(dirs, requested);
    assert forall|j: int| 0 <= j < index implies !files.contains_key(#[trigger] found[j]) by {
        assert(found[j] == joined_path(dirs[j], requested));
    }
    first_readable_at(files, requested, found, index);
}

/// A relative directive whose file is not readable beside the including
/// file resolves as a standard directive does.
pub proof fn relative_falls_back_to_search_path(
    files: Files,
    dirs: Seq<Seq<char>>,
    requested: Seq<char>,
    requesting: Seq<char>,
    depth: usize,
)
    requires
        parent_path(requesting) matches Some(dir) ==> !files.contains_key(
            joined_path(dir, requested),
        ),
    ensures
        resolve(files, dirs, requested, IncludeType::Relative, requesting, depth) == resolve(
            files,
            dirs,
            requested,
            IncludeType::Standard,
            requesting,
            depth,
        ),
{
    if depth < MAX_INCLUDE_DEPTH {
        match parent_path(requesting) {
            Some(dir) => {
                let all = candidates(dirs, requested, IncludeType::Relative, requesting);
                assert(all[0] == joined_path(dir, requested));
                assert(all.drop_first() =~= search_path_candidates(dirs, requested));
            },
            None => {},
        }
    }
}

/// Whatever is resolved is resolved below the depth bound.
pub proof fn resolved_only_below_bound(
    files: Files,
    dirs: Seq<Seq<char>>,
    requested: Seq<char>,
    style: IncludeType,
    requesting: Seq<char>,
    depth: usize,
)
    requires
        resolve(files, dirs, requested, style, requesting, depth) is Ok,
    ensures
        depth < MAX_INCLUDE_DEPTH,
{
}

/// From the depth bound on nothing is resolved: whatever the style, the
/// search path and the files, the resolution fails at once and reports
/// the depth.
pub proof fn depth_bound_refuses(
    files: Files,
    dirs: Seq<Seq<char>>,
    requested: Seq<char>,
    style: IncludeType,
    requesting: Seq<char>,
    depth: usize,
)
    requires
        depth >= MAX_INCLUDE_DEPTH,
    ensures
        start(dirs, requested, style, requesting, depth) == ResolutionView::Done(
            Err(ResolveErrorView::DepthExceeded { depth }),
        ),
        resolve(files, dirs, requested, style, requesting, depth) == Err::<
            ResolvedIncludeView,
            ResolveErrorView,
        >(ResolveErrorView::DepthExceeded { depth }),
{
}

impl Lookup {
    /// There is a candidate to try.
    #[verifier::type_invariant]
    spec fn cursor_in_range(self) -> bool {
        self.cursor < self.candidates@.len()
    }

    /// The state in which the candidates from `cursor` on are still to be
    /// tried.
    fn at(requested: String, candidates: Vec<String>, cursor: usize) -> (state: Resolution)
        requires
            cursor <= candidates@.len(),
        ensures
            state@ == pending(requested@, dirs_view(candidates@).skip(cursor as int)),
    {
        if cursor < candidates.len() {
            Resolution::Probe(Lookup { requested, candidates, cursor })
        } else {
            Resolution::Done(Err(ResolveError::NotFound { requested }))
        }
    }

    /// The candidate to try now.
    pub fn path(&self) -> (path: &str)
        ensures
            self@.remaining.len() > 0,
            path@ == self@.remaining[0],
    {
        proof {
            use_type_invariant(self);
        }
        self.candidates[self.cursor].as_str()
    }

    /// Takes what trying the candidate gave: its text, or nothing if it
    /// does not exist, cannot be opened or cannot be read. The first
    /// candidate that gives a text ends the resolution; when the
    /// candidates are used up, the file counts as not found.
    pub fn advance(self, content: Option<String>) -> (state: Resolution)
        ensures
            self@.remaining.len() > 0,
            state@ == after_probe(
                self@,
                match content {
                    Some(text) => Some(text@),
                    None => None,
                },
            ),
    {
        proof {
            use_type_invariant(&self);
        }
        let ghost remaining = self@.remaining;
        let Lookup { requested, candidates, cursor } = self;
        assert(cursor < candidates.len());
        match content {
            Some(text) => {
                let resolved_name = candidates[cursor].clone();
                Resolution::Done(Ok(ResolvedInclude { resolved_name, content: text }))
            },
            None => {
                assert(dirs_view(candidates@).skip(cursor + 1) =~= remaining.drop_first());
                Lookup::at(requested, candidates, cursor + 1)
            },
        }
    }
}

impl Resolution {
    /// The state in which `requested` is looked for at the given paths:
    /// first at `beside`, the path beside the including file, if there is
    /// one; then at each path of `on_search_path`, in its order. With no
    /// path at all the file counts as not found at once.
    pub fn over(requested: String, beside: Option<String>, on_search_path: Vec<String>) -> (state:
        Resolution)
        ensures
            state@ == pending(
                requested@,
                match beside {
                    Some(path) => seq![path@] + dirs_view(on_search_path@),
                    None => dirs_view(on_search_path@),
                },
            ),
    {
        let mut on_search_path = on_search_path;
        let ghost rest = dirs_view(on_search_path@);
        let candidates = match beside {
            Some(path) => {
                let mut all: Vec<String> = Vec::new();
                all.push(path);
                all.append(&mut on_search_path);
                assert(dirs_view(all@) =~= seq![path@] + rest);
                all
            },
            None => on_search_path,
        };
        assert(dirs_view(candidates@).skip(0) =~= dirs_view(candidates@));
        Lookup::at(requested, candidates, 0)
    }
}

impl Compiler {
    /// Starts resolving the directive that asks for `requested_source`
    /// from within `requesting_source`, at nesting depth `include_depth`,
    /// with `include_dirs` as the search path.
    ///
    /// From the depth bound on the resolution fails at once. Below it, a
    /// relative directive is looked for beside the including file first,
    /// if that file has a directory; either style is then looked for in
    /// each directory of the search path, in its order.
    pub fn include_callback(
        include_dirs: &[String],
        requested_source: &str,
        include_type: IncludeType,
        requesting_source: &str,
        include_depth: usize,
    ) -> (state: Resolution)
        ensures
            state@ == start(
                dirs_view(include_dirs@),
                requested_source@,
                include_type,
                requesting_source@,
                include_depth,
            ),
    {
        if include_depth >= MAX_INCLUDE_DEPTH {
            return Resolution::Done(Err(ResolveError::DepthExceeded { depth: include_depth }));
        }
        let beside = match include_type {
            IncludeType::Relative => match parent_of(requesting_source) {
                Some(dir) => Some(join_path(dir.as_str(), requested_source)),
                None => None,
            },
            IncludeType::Standard => None,
        };
        let ghost dirs = dirs_view(include_dirs@);
        let mut on_search_path: Vec<String> = Vec::new();
        let mut i: usize = 0;
        while i < include_dirs.len()
            invariant
                i <= include_dirs.len(),
                dirs == dirs_view(include_dirs@),
                dirs_view(on_search_path@) == search_path_candidates(
                    dirs.take(i as int),
                    requested_source@,
                ),
            decreases include_dirs.len() - i,
        {
            let ghost before = dirs_view(on_search_path@);
            on_search_path.push(join_path(include_dirs[i].as_str(), requested_source));
            proof {
                assert(dirs_view(on_search_path@) =~= before.push(
                    joined_path(dirs[i as int], requested_source@),
                ));
                assert(search_path_candidates(dirs.take(i + 1), requested_source@)
                    =~= search_path_candidates(dirs.take(i as int), requested_source@).push(
                    joined_path(dirs[i as int], requested_source@),
                ));
            }
            i = i + 1;
        }
        proof {
            assert(dirs.take(i as int) =~= dirs);
        }
        Resolution::over(String::from_str(requested_source), beside, on_search_path)
    }
}

} // verus!
