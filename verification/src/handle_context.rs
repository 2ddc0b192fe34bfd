//! Channel paths, the creation of a channel's pipe, and the registry of
//! auxiliary tools.

use crate::error::{ErrorKind, IoError, IoErrorView, Outcome, OutcomeView};
use vstd::hash_map::StringHashMap;
use vstd::prelude::*;

verus! {

/// Permissions of a channel's pipe: its owner may read and write it,
/// nobody else may do anything.
pub const FIFO_MODE: u32 = 0o600;

/// Path of the named pipe that carries the channel `key`: a fixed prefix
/// in the temporary directory, followed by the key.
pub open spec fn fifo_path(key: Seq<char>) -> Seq<char> {
    "/tmp/kak-tool-"@ + key
}

/// The operation that the creation of a channel's pipe waits for.
#[derive(Debug, PartialEq, Eq)]
pub enum FifoRequest {
    /// Remove whatever stands at `path`.
    Remove { path: String },
    /// Create a named pipe at `path` with the permissions `mode`.
    Make { path: String, mode: u32 },
}

pub enum FifoRequestView {
    Remove { path: Seq<char> },
    Make { path: Seq<char>, mode: u32 },
}

impl View for FifoRequest {
    type V = FifoRequestView;

    open spec fn view(&self) -> FifoRequestView {
        match self {
            FifoRequest::Remove { path } => FifoRequestView::Remove { path: path@ },
            FifoRequest::Make { path, mode } => FifoRequestView::Make { path: path@, mode: *mode },
        }
    }
}

/// Where the creation of a channel's pipe stands once an operation has
/// ended.
#[derive(Debug, PartialEq, Eq)]
pub enum FifoProgress {
    /// Another operation is to be performed.
    Pending(FifoRequest),
    /// The pipe at `path` is new.
    Ready { path: String },
    /// No pipe was created, and nothing more is tried.
    Failed { error: IoError },
}

pub enum FifoProgressView {
    Pending(FifoRequestView),
    Ready { path: Seq<char> },
    Failed { error: IoErrorView },
}

impl View for FifoProgress {
    type V = FifoProgressView;

    open spec fn view(&self) -> FifoProgressView {
        match self {
            FifoProgress::Pending(request) => FifoProgressView::Pending(request@),
            FifoProgress::Ready { path } => FifoProgressView::Ready { path: path@ },
            FifoProgress::Failed { error } => FifoProgressView::Failed { error: error@ },
        }
    }
}

/// Whether a removal that ended with `outcome` has left the path free:
/// it succeeded, or there was nothing to remove.
pub open spec fn path_is_clear(outcome: OutcomeView) -> bool {
    match outcome {
        OutcomeView::Done => true,
        OutcomeView::Failed(error) => error.kind == ErrorKind::NotFound,
    }
}

impl FifoRequestView {
    /// The first operation of the creation of the pipe of `key`.
    pub open spec fn begin(key: Seq<char>) -> FifoRequestView {
        FifoRequestView::Remove { path: fifo_path(key) }
    }

    /// The creation after the operation has ended with `outcome`.  Once the
    /// path is free the pipe is made, readable and writable by its owner
    /// alone; once the pipe is made the creation is over.  A failure ends
    /// the creation, except that of a removal that found nothing to remove.
    pub open spec fn advance(self, outcome: OutcomeView) -> FifoProgressView {
        match self {
            FifoRequestView::Remove { path } => if path_is_clear(outcome) {
                FifoProgressView::Pending(FifoRequestView::Make { path, mode: FIFO_MODE })
            } else {
                FifoProgressView::Failed { error: outcome->Failed_0 }
            },
            FifoRequestView::Make { path, mode } => match outcome {
                OutcomeView::Done => FifoProgressView::Ready { path },
                OutcomeView::Failed(error) => FifoProgressView::Failed { error },
            },
        }
    }
}

impl FifoRequest {
    /// Takes the outcome of the operation and says what comes next.
    pub fn advance(self, outcome: Outcome) -> (progress: FifoProgress)
        ensures
            progress@ == self@.advance(outcome@),
    {
        match self {
            FifoRequest::Remove { path } => match outcome {
                Outcome::Done => FifoProgress::Pending(FifoRequest::Make { path, mode: FIFO_MODE }),
                Outcome::Failed(error) => if error.is_not_found() {
                    FifoProgress::Pending(FifoRequest::Make { path, mode: FIFO_MODE })
                } else {
                    FifoProgress::Failed { error }
                },
            },
            FifoRequest::Make { path, mode } => match outcome {
                Outcome::Done => FifoProgress::Ready { path },
                Outcome::Failed(error) => FifoProgress::Failed { error },
            },
        }
    }
}

/// How the creation of the pipe of `key` ends when the removal ends with
/// `removal` and the making of the pipe, if it comes to that, with `making`.
pub open spec fn creation_result(key: Seq<char>, removal: OutcomeView, making: OutcomeView) -> Result<
    Seq<char>,
    IoErrorView,
> {
    if !path_is_clear(removal) {
        Err(removal->Failed_0)
    } else {
        match making {
            OutcomeView::Done => Ok(fifo_path(key)),
            OutcomeView::Failed(error) => Err(error),
        }
    }
}

/// What was found at one place where a tool may be: the path of that
/// place, whether a regular file stands there, and the permission bits of
/// what stands there, where they could be read.
#[derive(Debug, PartialEq, Eq)]
pub struct Candidate {
    pub path: String,
    pub is_file: bool,
    pub mode: Option<u32>,
}

pub struct CandidateView {
    pub path: Seq<char>,
    pub is_file: bool,
    pub mode: Option<u32>,
}

impl DeepView for Candidate {
    type V = CandidateView;

    open spec fn deep_view(&self) -> CandidateView {
        CandidateView { path: self.path@, is_file: self.is_file, mode: self.mode }
    }
}

/// Whether `mode` lets anybody execute the file: its owner, its group or
/// the others.  Permissions that could not be read let nobody.
pub open spec fn mode_is_executable(mode: Option<u32>) -> bool {
    match mode {
        Some(bits) => bits & 0o111 != 0,
        None => false,
    }
}

impl CandidateView {
    /// Whether the candidate is a tool that can be run.
    pub open spec fn is_usable(self) -> bool {
        self.is_file && mode_is_executable(self.mode)
    }
}

/// Path of the first of `candidates` that can be run, if there is one.
pub open spec fn first_usable(candidates: Seq<CandidateView>) -> Option<Seq<char>>
    decreases candidates.len(),
{
    if candidates.len() == 0 {
        None
    } else if candidates[0].is_usable() {
        Some(candidates[0].path)
    } else {
        first_usable(candidates.drop_first())
    }
}

/// Whether the permission bits `mode`, where they could be read, let
/// anybody execute the file.
pub fn is_executable(mode: Option<u32>) -> (executable: bool)
    ensures
        executable == mode_is_executable(mode),
{
    match mode {
        Some(bits) => bits & 0o111 != 0,
        None => false,
    }
}

/// Picks among the places where a tool was looked for, given in the order
/// of the search path, the first where a file stands that can be run.
pub fn find_binary(candidates: &Vec<Candidate>) -> (found: Option<String>)
    ensures
        found.deep_view() == first_usable(candidates.deep_view()),
{
    let mut i: usize = 0;
    assert(candidates.deep_view().skip(0) =~= candidates.deep_view());
    while i < candidates.len()
        invariant
            i <= candidates.len(),
            first_usable(candidates.deep_view()) == first_usable(
                candidates.deep_view().skip(i as int),
            ),
        decreases candidates.len() - i,
    {
        let ghost rest = candidates.deep_view().skip(i as int);
        assert(rest[0] == candidates[i as int].deep_view());
        assert(rest.drop_first() == candidates.deep_view().skip(i + 1));
        if candidates[i].is_file && is_executable(candidates[i].mode) {
            return Some(candidates[i].path.clone());
        }
        i += 1;
    }
    None
}

/// One tool that a job needs, and what the search for it has found.
#[derive(Debug, PartialEq, Eq)]
pub struct ToolSearch {
    pub name: String,
    pub candidates: Vec<Candidate>,
}

pub struct ToolSearchView {
    pub name: Seq<char>,
    pub candidates: Seq<CandidateView>,
}

impl DeepView for ToolSearch {
    type V = ToolSearchView;

    open spec fn deep_view(&self) -> ToolSearchView {
        ToolSearchView { name: self.name@, candidates: self.candidates.deep_view() }
    }
}

/// The registry that `searches` give: each tool that was searched for has
/// an entry, a path where the search has found it and `None` where it has
/// not.  Of two searches for one name the later one counts.
pub open spec fn registry(searches: Seq<ToolSearchView>) -> Map<Seq<char>, Option<Seq<char>>>
    decreases searches.len(),
{
    if searches.len() == 0 {
        Map::empty()
    } else {
        registry(searches.drop_last()).insert(
            searches.last().name,
            first_usable(searches.last().candidates),
        )
    }
}

/// The tools of a worker, each with the path of its executable, or with
/// `None` where there is no such executable.
pub struct Context {
    pub(crate) tools: StringHashMap<Option<String>>,
}

impl View for Context {
    type V = Map<Seq<char>, Option<Seq<char>>>;

    closed spec fn view(&self) -> Map<Seq<char>, Option<Seq<char>>> {
        self.tools@.map_values(|path: Option<String>| path.deep_view())
    }
}

impl Context {
    /// The path of the tool `key`; `None` both where the tool was searched
    /// for and not found and where it was never searched for.
    pub fn get_tool(&self, key: &str) -> (path: Option<String>)
        ensures
            path.deep_view() == (if self@.contains_key(key@) {
                self@[key@]
            } else {
                None
            }),
    {
        match self.tools.get(key) {
            Some(Some(path)) => Some(path.clone()),
            _ => None,
        }
    }

    /// Computes the path of the channel `key`.  Nothing is read or created.
    pub fn get_fifo_path(key: &str) -> (path: String)
        ensures
            path@ == fifo_path(key@),
    {
        String::from_str("/tmp/kak-tool-").concat(key)
    }

    /// Begins the creation of a fresh pipe for the channel `key`: whatever
    /// stands at the channel's path is to be removed first, so that no
    /// reader ever finds what an earlier run has left there.
    pub fn get_or_create_fifo_path(key: &str) -> (request: FifoRequest)
        ensures
            request@ == FifoRequestView::begin(key@),
    {
        FifoRequest::Remove { path: Context::get_fifo_path(key) }
    }

    /// Builds the registry from the searches for the tools that a job
    /// needs.  A tool that was not found is no failure: it is entered as
    /// absent, and whoever needs it decides what that means.
    pub fn new(required_tools: &Vec<ToolSearch>) -> (context: Result<Self, String>)
        ensures
            context matches Ok(built) && built@ == registry(required_tools.deep_view()),
    {
        let mut tools: StringHashMap<Option<String>> = StringHashMap::new();
        let ghost view_of = |path: Option<String>| path.deep_view();
        let mut i: usize = 0;
        assert(required_tools.deep_view().take(0) =~= Seq::empty());
        assert(tools@.map_values(view_of) =~= Map::empty());
        while i < required_tools.len()
            invariant
                i <= required_tools.len(),
                view_of == |path: Option<String>| path.deep_view(),
                tools@.map_values(view_of) == registry(required_tools.deep_view().take(i as int)),
            decreases required_tools.len() - i,
        {
            let search = &required_tools[i];
            let found = find_binary(&search.candidates);
            let ghost before = tools@;
            tools.insert(search.name.clone(), found);
            proof {
                let done = required_tools.deep_view().take(i + 1);
                assert(done.drop_last() =~= required_tools.deep_view().take(i as int));
                assert(done.last() == search.deep_view());
                assert(tools@.map_values(view_of) =~= before.map_values(view_of).insert(
                    search.name@,
                    found.deep_view(),
                ));
            }
            i += 1;
        }
        assert(required_tools.deep_view().take(i as int) =~= required_tools.deep_view());
        Ok(Self { tools })
    }
}

/// Two keys name the same path exactly when they are the same key.
pub proof fn lemma_fifo_path_injective(a: Seq<char>, b: Seq<char>)
    ensures
        fifo_path(a) == fifo_path(b) <==> a == b,
{
    if fifo_path(a) == fifo_path(b) {
        let prefix = "/tmp/kak-tool-"@;
        assert(a.len() == b.len()) by {
            assert(fifo_path(a).len() == prefix.len() + a.len());
            assert(fifo_path(b).len() == prefix.len() + b.len());
        }
        assert forall|i: int| 0 <= i < a.len() implies a[i] == b[i] by {
            assert(fifo_path(a)[prefix.len() + i] == a[i]);
            assert(fifo_path(b)[prefix.len() + i] == b[i]);
        }
        assert(a =~= b);
    }
}

/// `first_usable` is the path of the earliest candidate that can be run,
/// and `None` exactly when none can.
pub proof fn lemma_first_usable(candidates: Seq<CandidateView>)
    ensures
        match first_usable(candidates) {
            Some(path) => exists|i: int|
                {
                    &&& 0 <= i < candidates.len()
                    &&& (#[trigger] candidates[i]).is_usable()
                    &&& candidates[i].path == path
                    &&& forall|j: int| 0 <= j < i ==> !(#[trigger] candidates[j]).is_usable()
                },
            None => forall|i: int|
                0 <= i < candidates.len() ==> !(#[trigger] candidates[i]).is_usable(),
        },
    decreases candidates.len(),
{
    if candidates.len() > 0 && !candidates[0].is_usable() {
        let rest = candidates.drop_first();
        lemma_first_usable(rest);
        match first_usable(rest) {
            Some(path) => {
                let i = choose|i: int|
                    {
                        &&& 0 <= i < rest.len()
                        &&& (#[trigger] rest[i]).is_usable()
                        &&& rest[i].path == path
                        &&& forall|j: int| 0 <= j < i ==> !(#[trigger] rest[j]).is_usable()
                    };
                assert(candidates[i + 1] == rest[i]);
                assert forall|j: int| 0 <= j < i + 1 implies !(
                #[trigger] candidates[j]).is_usable() by {
                    if j > 0 {
                        assert(candidates[j] == rest[j - 1]);
                    }
                }
            },
            None => {
                assert forall|i: int| 0 <= i < candidates.len() implies !(
                #[trigger] candidates[i]).is_usable() by {
                    if i > 0 {
                        assert(candidates[i] == rest[i - 1]);
                    }
                }
            },
        }
    } else if candidates.len() > 0 {
        assert(candidates[0].is_usable());
    }
}

/// The registry has an entry for a name exactly when a search was made for
/// it.
pub proof fn lemma_registry_names(searches: Seq<ToolSearchView>, name: Seq<char>)
    ensures
        registry(searches).contains_key(name) <==> exists|i: int|
            0 <= i < searches.len() && (#[trigger] searches[i]).name == name,
    decreases searches.len(),
{
    if searches.len() > 0 {
        let earlier = searches.drop_last();
        lemma_registry_names(earlier, name);
        if registry(searches).contains_key(name) {
            if searches.last().name == name {
                assert(searches[searches.len() - 1].name == name);
            } else {
                let i = choose|i: int| 0 <= i < earlier.len() && (#[trigger] earlier[i]).name == name;
                assert(searches[i] == earlier[i]);
            }
        }
        if exists|i: int| 0 <= i < searches.len() && (#[trigger] searches[i]).name == name {
            let i = choose|i: int| 0 <= i < searches.len() && (#[trigger] searches[i]).name == name;
            if i < earlier.len() {
                assert(earlier[i] == searches[i]);
            }
        }
    }
}

/// The entry of a name is what the last search for it has found.
pub proof fn lemma_registry_entry(searches: Seq<ToolSearchView>, i: int)
    requires
        0 <= i < searches.len(),
        forall|j: int| i < j < searches.len() ==> (#[trigger] searches[j]).name != searches[i].name,
    ensures
        registry(searches).contains_key(searches[i].name),
        registry(searches)[searches[i].name] == first_usable(searches[i].candidates),
    decreases searches.len(),
{
    if i < searches.len() - 1 {
        let earlier = searches.drop_last();
        assert(earlier[i] == searches[i]);
        assert forall|j: int| i < j < earlier.len() implies (#[trigger] earlier[j]).name
            != earlier[i].name by {
            assert(earlier[j] == searches[j]);
        }
        lemma_registry_entry(earlier, i);
        assert(searches.last() == searches[searches.len() - 1]);
    }
}

/// A creation takes the two operations and no more, and ends as
/// `creation_result` says: with a new pipe at the channel's path exactly
/// when the removal left the path free and the pipe could be made.  What
/// stood at the path before is no cause of failure, and after a removal
/// that failed the pipe is not made.
pub proof fn lemma_creation_result(key: Seq<char>, removal: OutcomeView, making: OutcomeView)
    ensures
        path_is_clear(removal) ==> creation_result(key, removal, making) == creation_result(
            key,
            OutcomeView::Done,
            making,
        ),
        match FifoRequestView::begin(key).advance(removal) {
            FifoProgressView::Pending(request) => {
                &&& path_is_clear(removal)
                &&& request == (FifoRequestView::Make { path: fifo_path(key), mode: FIFO_MODE })
                &&& match request.advance(making) {
                    FifoProgressView::Pending(_) => false,
                    FifoProgressView::Ready { path } => creation_result(key, removal, making) == Ok::<
                        Seq<char>,
                        IoErrorView,
                    >(path),
                    FifoProgressView::Failed { error } => creation_result(key, removal, making)
                        == Err::<Seq<char>, IoErrorView>(error),
                }
            },
            FifoProgressView::Ready { path } => false,
            FifoProgressView::Failed { error } => {
                &&& !path_is_clear(removal)
                &&& creation_result(key, removal, making) == Err::<Seq<char>, IoErrorView>(error)
            },
        },
{
}

} // verus!
