//! The detached worker: the steps by which it streams a job's output into
//! the editor, and what it does when one of them fails.
//!
//! The worker is a state machine.  Its state names the operation that is to
//! be performed next; the caller performs it and hands the outcome back.

use crate::error::{result_view, IoError, IoErrorView, Outcome, OutcomeView};
use crate::handle_context::{
    fifo_path, path_is_clear, Context, FifoProgress, FifoProgressView, FifoRequest,
    FifoRequestView, ToolSearch, FIFO_MODE,
};
use crate::kakoune::{
    client_envelope, echo_markup, echo_markup_command, edit_fifo, edit_fifo_command,
    session_command, KakClient, KakSession, Kakoune, KakouneView, SessionCommand,
    SessionCommandView,
};
use crate::process::{Program, ProgramView, Spawn, SpawnView, Stdio};
use vstd::prelude::*;
use vstd::string::StringSliceAdditionalSpecFns;

verus! {

/// The argument by which the helper tells its detached self that it is the
/// worker.  It is not for users to pass.
pub open spec fn worker_marker() -> Seq<char> {
    "--worker"@
}

/// Whether an argument is anything but the marker.
pub open spec fn is_plain() -> spec_fn(Seq<char>) -> bool {
    |arg: Seq<char>| arg != worker_marker()
}

/// The arguments that the foreground call hands to the worker: all but the
/// program's own name, and then the marker.
pub open spec fn background_args(args: Seq<Seq<char>>) -> Seq<Seq<char>> {
    args.skip(if args.len() == 0 { 0 } else { 1 }).push(worker_marker())
}

/// The arguments that a worker was given by the foreground call: its own
/// arguments without the marker, wherever it stands, and without the
/// program's name.
pub open spec fn forwarded(args: Seq<Seq<char>>) -> Seq<Seq<char>> {
    let plain = args.filter(is_plain());
    plain.skip(if plain.len() == 0 { 0 } else { 1 })
}

/// Whether the process is the detached worker: the marker is among its
/// arguments.
pub fn is_worker(args: &Vec<String>) -> (marked: bool)
    ensures
        marked == args.deep_view().contains(worker_marker()),
{
    let marker = String::from_str("--worker");
    let mut i: usize = 0;
    while i < args.len()
        invariant
            i <= args.len(),
            marker@ == worker_marker(),
            forall|j: int| 0 <= j < i ==> args.deep_view()[j] != worker_marker(),
        decreases args.len() - i,
    {
        if args[i] == marker {
            assert(args.deep_view()[i as int] == worker_marker());
            return true;
        }
        i += 1;
    }
    false
}

/// Describes the detached worker of a foreground call with the arguments
/// `args`: the same executable, the arguments that the call was given and
/// the marker, and none of the call's standard streams.  The foreground
/// call starts it and leaves, whether or not the start has succeeded.
pub fn spawn_background(args: &Vec<String>) -> (spawn: Spawn)
    ensures
        spawn@ == (SpawnView {
            program: ProgramView::Current,
            args: background_args(args.deep_view()),
            stdin: Stdio::Null,
            stdout: Stdio::Null,
            stderr: Stdio::Null,
        }),
{
    let mut given: Vec<String> = Vec::new();
    let first: usize = if args.len() == 0 { 0 } else { 1 };
    let mut i: usize = first;
    while i < args.len()
        invariant
            first <= i <= args.len(),
            given.deep_view() == args.deep_view().subrange(first as int, i as int),
        decreases args.len() - i,
    {
        let ghost before = given.deep_view();
        given.push(args[i].clone());
        assert(given.deep_view() =~= before.push(args.deep_view()[i as int]));
        i += 1;
    }
    given.push(String::from_str("--worker"));
    assert(given.deep_view() =~= background_args(args.deep_view()));
    Spawn {
        program: Program::Current,
        args: given,
        stdin: Stdio::Null,
        stdout: Stdio::Null,
        stderr: Stdio::Null,
    }
}

/// What a worker was started for: the client to talk to, the registry of
/// the tools that the work may need, and the description of the work.
pub struct Invocation {
    pub kakoune: Kakoune,
    pub context: Context,
    pub payload: Vec<String>,
}

pub struct InvocationView {
    pub kakoune: KakouneView,
    pub context: Map<Seq<char>, Option<Seq<char>>>,
    pub payload: Seq<Seq<char>>,
}

impl View for Invocation {
    type V = InvocationView;

    open spec fn view(&self) -> InvocationView {
        InvocationView {
            kakoune: self.kakoune@,
            context: self.context@,
            payload: self.payload.deep_view(),
        }
    }
}

/// The invocation that the arguments `args` of a worker's process make:
/// of what was forwarded, the first is the session, the second the client,
/// the rest describes the work, and there must be some of it.  The
/// registry is empty: no tool is searched for before the work asks for one.
pub open spec fn invocation(args: Seq<Seq<char>>) -> Option<InvocationView> {
    let given = forwarded(args);
    if given.len() < 3 {
        None
    } else {
        Some(
            InvocationView {
                kakoune: KakouneView { session: given[0], client: given[1] },
                context: Map::empty(),
                payload: given.skip(2),
            },
        )
    }
}

/// Reads the arguments of a worker's process.  With fewer than three
/// forwarded arguments there is no invocation: such a worker leaves at once,
/// having touched neither the filesystem nor the editor.
pub fn start_worker(args: &Vec<String>) -> (started: Option<Invocation>)
    ensures
        started is None <==> forwarded(args.deep_view()).len() < 3,
        match started {
            Some(made) => invocation(args.deep_view()) == Some(made@),
            None => invocation(args.deep_view()) is None,
        },
{
    let marker = String::from_str("--worker");
    let mut plain: Vec<String> = Vec::new();
    let mut i: usize = 0;
    assert(args.deep_view().take(0).filter(is_plain()) =~= Seq::empty()) by {
        reveal(Seq::filter);
    }
    while i < args.len()
        invariant
            i <= args.len(),
            marker@ == worker_marker(),
            plain.deep_view() == args.deep_view().take(i as int).filter(is_plain()),
        decreases args.len() - i,
    {
        let ghost before = plain.deep_view();
        if !(args[i] == marker) {
            plain.push(args[i].clone());
            assert(plain.deep_view() =~= before.push(args.deep_view()[i as int]));
        }
        proof {
            let done = args.deep_view().take(i as int);
            done.lemma_filter_push(args.deep_view()[i as int], is_plain());
            assert(done.push(args.deep_view()[i as int]) =~= args.deep_view().take(i + 1));
        }
        i += 1;
    }
    assert(args.deep_view().take(i as int) =~= args.deep_view());
    if plain.len() < 4 {
        return None;
    }
    let kakoune = Kakoune::new(KakSession(plain[1].as_str()), KakClient(plain[2].as_str()));
    let mut payload: Vec<String> = Vec::new();
    let mut k: usize = 3;
    while k < plain.len()
        invariant
            3 <= k <= plain.len(),
            payload.deep_view() == plain.deep_view().subrange(3, k as int),
        decreases plain.len() - k,
    {
        let ghost before = payload.deep_view();
        payload.push(plain[k].clone());
        assert(payload.deep_view() =~= before.push(plain.deep_view()[k as int]));
        k += 1;
    }
    let no_tools: Vec<ToolSearch> = Vec::new();
    assert(no_tools.deep_view() =~= Seq::empty());
    let context = Context::new(&no_tools).unwrap();
    proof {
        let given = forwarded(args.deep_view());
        assert(given =~= plain.deep_view().skip(1));
        assert(given.skip(2) =~= payload.deep_view());
    }
    Some(Invocation { kakoune, context, payload })
}

/// What a worker streams, and what it says when it is through.
#[derive(Debug, PartialEq, Eq)]
pub struct Job {
    /// Key of the channel; the buffer that shows the channel is named after
    /// it.
    pub key: String,
    /// The bytes that the work has produced, or `None` where the work has
    /// failed.
    pub output: Option<Vec<u8>>,
    /// Markup for the client's status line once the channel is closed.
    pub status: String,
}

pub struct JobView {
    pub key: Seq<char>,
    pub output: Option<Seq<u8>>,
    pub status: Seq<char>,
}

impl View for Job {
    type V = JobView;

    open spec fn view(&self) -> JobView {
        JobView {
            key: self.key@,
            output: match self.output {
                Some(bytes) => Some(bytes@),
                None => None,
            },
            status: self.status@,
        }
    }
}

impl Job {
    /// The job that greets: it streams a fixed line into the channel
    /// `example` and then shows a fixed message in the status line.
    pub fn example() -> (job: Job)
        ensures
            job@ == (JobView {
                key: "example"@,
                output: Some("Hello world".spec_bytes()),
                status: "{Error}PONG PONG"@,
            }),
    {
        Job {
            key: String::from_str("example"),
            output: Some("Hello world".as_bytes_vec()),
            status: String::from_str("{Error}PONG PONG"),
        }
    }
}

/// Name of the buffer that shows the channel `key`.
pub open spec fn channel_buffer(key: Seq<char>) -> Seq<char> {
    "*"@ + key + "*"@
}

impl JobView {
    /// The bytes to stream: the work's output, nothing where it has failed.
    pub open spec fn bytes(self) -> Seq<u8> {
        match self.output {
            Some(bytes) => bytes,
            None => Seq::empty(),
        }
    }
}

/// An operation that the worker asks its caller to perform.
#[derive(Debug, PartialEq, Eq)]
pub enum Action {
    /// Remove whatever stands at `path`.
    RemoveFile { path: String },
    /// Create a named pipe at `path` with the permissions `mode`.
    MakeFifo { path: String, mode: u32 },
    /// Tell the client to open the pipe as a displayed buffer.
    Announce { command: SessionCommand },
    /// Open the pipe at `path` for writing.  This waits until the editor
    /// has opened the pipe for reading.
    OpenFifo { path: String },
    /// Write `bytes` to the open pipe.
    Write { bytes: Vec<u8> },
    /// Close the pipe, so that the reader sees the end of the stream.
    Close,
    /// Tell the client how the job went.
    Report { command: SessionCommand },
    /// Leave, with `result`.  Nothing is to be done after this.
    Exit { result: Result<(), IoError> },
}

pub enum ActionView {
    RemoveFile { path: Seq<char> },
    MakeFifo { path: Seq<char>, mode: u32 },
    Announce { command: SessionCommandView },
    OpenFifo { path: Seq<char> },
    Write { bytes: Seq<u8> },
    Close,
    Report { command: SessionCommandView },
    Exit { result: Result<(), IoErrorView> },
}

impl View for Action {
    type V = ActionView;

    open spec fn view(&self) -> ActionView {
        match self {
            Action::RemoveFile { path } => ActionView::RemoveFile { path: path@ },
            Action::MakeFifo { path, mode } => ActionView::MakeFifo { path: path@, mode: *mode },
            Action::Announce { command } => ActionView::Announce { command: command@ },
            Action::OpenFifo { path } => ActionView::OpenFifo { path: path@ },
            Action::Write { bytes } => ActionView::Write { bytes: bytes@ },
            Action::Close => ActionView::Close,
            Action::Report { command } => ActionView::Report { command: command@ },
            Action::Exit { result } => ActionView::Exit { result: result_view(*result) },
        }
    }
}

impl ActionView {
    /// Place of the action in a run that nothing cuts short.
    pub open spec fn rank(self) -> nat {
        match self {
            ActionView::RemoveFile { .. } => 0,
            ActionView::MakeFifo { .. } => 1,
            ActionView::Announce { .. } => 2,
            ActionView::OpenFifo { .. } => 3,
            ActionView::Write { .. } => 4,
            ActionView::Close => 5,
            ActionView::Report { .. } => 6,
            ActionView::Exit { .. } => 7,
        }
    }
}

/// The step that the worker is about to take.
#[derive(Debug, PartialEq, Eq)]
pub enum Phase {
    /// The channel's pipe is being created.
    OpenChannel { request: FifoRequest },
    /// The pipe at `path` is new, and the editor is to be told of it.
    Announce { path: String },
    /// The editor was told; the pipe is to be opened for writing.
    Open { path: String },
    /// The pipe is open; the job's output is to be written.
    Produce,
    /// The pipe is to be closed.  `failure` is what went wrong with the
    /// writing, if anything did.
    Close { failure: Option<IoError> },
    /// The pipe is closed; the client is to be told how the job went.
    Report,
    /// The worker is through.
    Terminate { result: Result<(), IoError> },
}

pub enum PhaseView {
    OpenChannel { request: FifoRequestView },
    Announce { path: Seq<char> },
    Open { path: Seq<char> },
    Produce,
    Close { failure: Option<IoErrorView> },
    Report,
    Terminate { result: Result<(), IoErrorView> },
}

impl View for Phase {
    type V = PhaseView;

    open spec fn view(&self) -> PhaseView {
        match self {
            Phase::OpenChannel { request } => PhaseView::OpenChannel { request: request@ },
            Phase::Announce { path } => PhaseView::Announce { path: path@ },
            Phase::Open { path } => PhaseView::Open { path: path@ },
            Phase::Produce => PhaseView::Produce,
            Phase::Close { failure } => PhaseView::Close {
                failure: match failure {
                    Some(error) => Some(error@),
                    None => None,
                },
            },
            Phase::Report => PhaseView::Report,
            Phase::Terminate { result } => PhaseView::Terminate { result: result_view(*result) },
        }
    }
}

/// A worker in the middle of its run.
#[derive(Debug, PartialEq, Eq)]
pub struct Worker {
    kakoune: Kakoune,
    job: Job,
    phase: Phase,
}

pub struct WorkerView {
    pub kakoune: KakouneView,
    pub job: JobView,
    pub phase: PhaseView,
}

impl View for Worker {
    type V = WorkerView;

    closed spec fn view(&self) -> WorkerView {
        WorkerView { kakoune: self.kakoune@, job: self.job@, phase: self.phase@ }
    }
}

/// What ends a phase whose operation has failed with `outcome`, and `None`
/// where it has not failed.
pub open spec fn failure_of(outcome: OutcomeView) -> Option<IoErrorView> {
    match outcome {
        OutcomeView::Done => None,
        OutcomeView::Failed(error) => Some(error),
    }
}

impl WorkerView {
    /// The worker of `job` for the client `kakoune`, before its first step.
    pub open spec fn begin(kakoune: KakouneView, job: JobView) -> WorkerView {
        WorkerView {
            kakoune,
            job,
            phase: PhaseView::OpenChannel { request: FifoRequestView::begin(job.key) },
        }
    }

    /// The command, addressed to the worker's client, that opens the pipe
    /// at `path` as the channel's buffer.
    pub open spec fn announcement(self, path: Seq<char>) -> SessionCommandView {
        session_command(
            self.kakoune.session,
            client_envelope(
                self.kakoune.client,
                edit_fifo_command(path, channel_buffer(self.job.key)),
            ),
        )
    }

    /// The command, addressed to the worker's client, that shows the job's
    /// status.
    pub open spec fn report(self) -> SessionCommandView {
        session_command(
            self.kakoune.session,
            client_envelope(self.kakoune.client, echo_markup_command(self.job.status)),
        )
    }

    /// The operation that the worker waits for.
    pub open spec fn action(self) -> ActionView {
        match self.phase {
            PhaseView::OpenChannel { request } => match request {
                FifoRequestView::Remove { path } => ActionView::RemoveFile { path },
                FifoRequestView::Make { path, mode } => ActionView::MakeFifo { path, mode },
            },
            PhaseView::Announce { path } => ActionView::Announce {
                command: self.announcement(path),
            },
            PhaseView::Open { path } => ActionView::OpenFifo { path },
            PhaseView::Produce => ActionView::Write { bytes: self.job.bytes() },
            PhaseView::Close { failure } => ActionView::Close,
            PhaseView::Report => ActionView::Report { command: self.report() },
            PhaseView::Terminate { result } => ActionView::Exit { result },
        }
    }

    /// The phase that follows once the operation has ended with `outcome`.
    ///
    /// A failure ends the run with that failure, with two exceptions: the
    /// creation of the pipe decides for itself which failures it passes
    /// over, and a pipe that is open is closed before the worker leaves.
    /// Where the work has produced nothing the writing is left out.  The
    /// client gets the report only if the stream went through.
    pub open spec fn next_phase(self, outcome: OutcomeView) -> PhaseView {
        match self.phase {
            PhaseView::OpenChannel { request } => match request.advance(outcome) {
                FifoProgressView::Pending(request) => PhaseView::OpenChannel { request },
                FifoProgressView::Ready { path } => PhaseView::Announce { path },
                FifoProgressView::Failed { error } => PhaseView::Terminate { result: Err(error) },
            },
            PhaseView::Announce { path } => match outcome {
                OutcomeView::Done => PhaseView::Open { path },
                OutcomeView::Failed(error) => PhaseView::Terminate { result: Err(error) },
            },
            PhaseView::Open { path } => match outcome {
                OutcomeView::Done => if self.job.output is Some {
                    PhaseView::Produce
                } else {
                    PhaseView::Close { failure: None }
                },
                OutcomeView::Failed(error) => PhaseView::Terminate { result: Err(error) },
            },
            PhaseView::Produce => PhaseView::Close { failure: failure_of(outcome) },
            PhaseView::Close { failure } => match failure {
                None => PhaseView::Report,
                Some(error) => PhaseView::Terminate { result: Err(error) },
            },
            PhaseView::Report => match outcome {
                OutcomeView::Done => PhaseView::Terminate { result: Ok(()) },
                OutcomeView::Failed(error) => PhaseView::Terminate { result: Err(error) },
            },
            PhaseView::Terminate { result } => self.phase,
        }
    }

    /// The worker once the operation has ended with `outcome`.
    pub open spec fn advance(self, outcome: OutcomeView) -> WorkerView {
        WorkerView { phase: self.next_phase(outcome), ..self }
    }

    /// Whether the worker is through.
    pub open spec fn is_finished(self) -> bool {
        self.phase is Terminate
    }

    /// The operations that the worker asks for, in order, when they end as
    /// `outcomes` says, one after the other.  The last one is the first
    /// whose outcome `outcomes` does not give, or the request to leave.
    pub open spec fn trace(self, outcomes: Seq<OutcomeView>) -> Seq<ActionView>
        decreases outcomes.len(),
    {
        if self.is_finished() || outcomes.len() == 0 {
            seq![self.action()]
        } else {
            seq![self.action()] + self.advance(outcomes[0]).trace(outcomes.drop_first())
        }
    }
}

/// Begins the handling of `job` for the client `kakoune`.
pub fn handle_command(kakoune: Kakoune, job: Job) -> (worker: Worker)
    ensures
        worker@ == WorkerView::begin(kakoune@, job@),
{
    let request = Context::get_or_create_fifo_path(job.key.as_str());
    Worker { kakoune, job, phase: Phase::OpenChannel { request } }
}

impl Worker {
    /// The operation that the worker waits for.  It does not change until
    /// the worker is advanced.
    pub fn action(&self) -> (action: Action)
        ensures
            action@ == self@.action(),
    {
        match &self.phase {
            Phase::OpenChannel { request } => match request {
                FifoRequest::Remove { path } => Action::RemoveFile { path: path.clone() },
                FifoRequest::Make { path, mode } => Action::MakeFifo {
                    path: path.clone(),
                    mode: *mode,
                },
            },
            Phase::Announce { path } => {
                let buffer = String::from_str("*").concat(self.job.key.as_str()).concat("*");
                let command = edit_fifo(path.as_str(), buffer.as_str());
                Action::Announce { command: self.kakoune.run_command_in_client(command.as_str()) }
            },
            Phase::Open { path } => Action::OpenFifo { path: path.clone() },
            Phase::Produce => {
                let bytes = match &self.job.output {
                    Some(bytes) => {
                        let copy = bytes.clone();
                        assert(copy@ =~= bytes@);
                        copy
                    },
                    None => Vec::new(),
                };
                Action::Write { bytes }
            },
            Phase::Close { failure } => Action::Close,
            Phase::Report => {
                let command = echo_markup(self.job.status.as_str());
                Action::Report { command: self.kakoune.run_command_in_client(command.as_str()) }
            },
            Phase::Terminate { result } => Action::Exit {
                result: match result {
                    Ok(()) => Ok(()),
                    Err(error) => Err(error.clone()),
                },
            },
        }
    }

    /// Takes the outcome of the operation that the worker waited for.
    pub fn advance(self, outcome: Outcome) -> (next: Worker)
        ensures
            next@ == self@.advance(outcome@),
    {
        let Worker { kakoune, job, phase } = self;
        let phase = match phase {
            Phase::OpenChannel { request } => match request.advance(outcome) {
                FifoProgress::Pending(request) => Phase::OpenChannel { request },
                FifoProgress::Ready { path } => Phase::Announce { path },
                FifoProgress::Failed { error } => Phase::Terminate { result: Err(error) },
            },
            Phase::Announce { path } => match outcome {
                Outcome::Done => Phase::Open { path },
                Outcome::Failed(error) => Phase::Terminate { result: Err(error) },
            },
            Phase::Open { path } => match outcome {
                Outcome::Done => if job.output.is_some() {
                    Phase::Produce
                } else {
                    Phase::Close { failure: None }
                },
                Outcome::Failed(error) => Phase::Terminate { result: Err(error) },
            },
            Phase::Produce => match outcome {
                Outcome::Done => Phase::Close { failure: None },
                Outcome::Failed(error) => Phase::Close { failure: Some(error) },
            },
            Phase::Close { failure } => match failure {
                None => Phase::Report,
                Some(error) => Phase::Terminate { result: Err(error) },
            },
            Phase::Report => match outcome {
                Outcome::Done => Phase::Terminate { result: Ok(()) },
                Outcome::Failed(error) => Phase::Terminate { result: Err(error) },
            },
            Phase::Terminate { result } => Phase::Terminate { result },
        };
        Worker { kakoune, job, phase }
    }

    /// Whether the worker is through: all it asks for is to leave.
    pub fn is_finished(&self) -> (finished: bool)
        ensures
            finished == self@.is_finished(),
    {
        match &self.phase {
            Phase::Terminate { .. } => true,
            _ => false,
        }
    }
}

/// Whether none of `args` is the marker.
pub open spec fn all_plain(args: Seq<Seq<char>>) -> bool {
    forall|i: int| 0 <= i < args.len() ==> #[trigger] args[i] != worker_marker()
}

proof fn lemma_plain_arguments_stay(args: Seq<Seq<char>>)
    requires
        all_plain(args),
    ensures
        args.filter(is_plain()) == args,
    decreases args.len(),
{
    reveal(Seq::filter);
    if args.len() > 0 {
        let earlier = args.drop_last();
        assert forall|i: int| 0 <= i < earlier.len() implies #[trigger] earlier[i]
            != worker_marker() by {
            assert(earlier[i] == args[i]);
        }
        lemma_plain_arguments_stay(earlier);
        assert(is_plain()(args.last()));
        assert(earlier.push(args.last()) =~= args);
    }
}

/// What a foreground call was given reaches its worker unchanged.  Let
/// `args` be the arguments of a foreground call, its program's name first
/// and none of them the marker, and let the worker that it describes run
/// under the name `program`: that process counts as a worker, and what was
/// forwarded to it is `args` without the name of the foreground call's
/// program.
pub proof fn lemma_worker_gets_what_was_given(program: Seq<char>, args: Seq<Seq<char>>)
    requires
        program != worker_marker(),
        all_plain(args),
        args.len() > 0,
    ensures
        (seq![program] + background_args(args)).contains(worker_marker()),
        forwarded(seq![program] + background_args(args)) == args.skip(1),
{
    let given = args.skip(1);
    let kept = seq![program] + given;
    let started = seq![program] + background_args(args);
    assert(started =~= kept.push(worker_marker()));
    assert(started.contains(worker_marker())) by {
        assert(started[started.len() - 1] == worker_marker());
    }
    assert(all_plain(kept)) by {
        assert forall|i: int| 0 <= i < kept.len() implies #[trigger] kept[i]
            != worker_marker() by {
            if i > 0 {
                assert(kept[i] == args[i]);
            }
        }
    }
    assert(started.filter(is_plain()) == kept) by {
        lemma_plain_arguments_stay(kept);
        kept.lemma_filter_push(worker_marker(), is_plain());
        assert(!is_plain()(worker_marker()));
    }
    assert(kept.skip(1) =~= given);
}

/// Every step takes the worker on: the operation that it asks for next
/// stands later in the order of a run than the one that has just ended.
pub proof fn lemma_advance_moves_on(worker: WorkerView, outcome: OutcomeView)
    requires
        !worker.is_finished(),
    ensures
        worker.action().rank() < worker.advance(outcome).action().rank(),
{
}

proof fn lemma_trace_starts_here(worker: WorkerView, outcomes: Seq<OutcomeView>, k: int)
    requires
        0 <= k < worker.trace(outcomes).len(),
    ensures
        worker.action().rank() <= worker.trace(outcomes)[k].rank(),
    decreases outcomes.len(),
{
    if !worker.is_finished() && outcomes.len() > 0 && k > 0 {
        lemma_advance_moves_on(worker, outcomes[0]);
        lemma_trace_starts_here(worker.advance(outcomes[0]), outcomes.drop_first(), k - 1);
    }
}

/// Whatever the outcomes, the operations of a run come in one order: of
/// any two, the earlier one has the lower rank.  So the announcement comes
/// before the pipe is opened, the opening before the closing, the closing
/// before the report; none is asked for twice; and nothing follows the
/// request to leave.
pub proof fn lemma_trace_in_order(worker: WorkerView, outcomes: Seq<OutcomeView>, i: int, j: int)
    requires
        0 <= i < j < worker.trace(outcomes).len(),
    ensures
        worker.trace(outcomes)[i].rank() < worker.trace(outcomes)[j].rank(),
    decreases outcomes.len(),
{
    if !worker.is_finished() && outcomes.len() > 0 {
        let next = worker.advance(outcomes[0]);
        let rest = outcomes.drop_first();
        if i == 0 {
            lemma_advance_moves_on(worker, outcomes[0]);
            lemma_trace_starts_here(next, rest, j - 1);
        } else {
            lemma_trace_in_order(next, rest, i - 1, j - 1);
        }
    }
}

/// Whether no operation of a run has failed, but for a removal that found
/// nothing to remove.
pub open spec fn all_succeed(outcomes: Seq<OutcomeView>) -> bool {
    forall|i: int|
        0 <= i < outcomes.len() ==> (#[trigger] outcomes[i]) is Done || (i == 0 && path_is_clear(
            outcomes[i],
        ))
}

/// The operations of a run of `job` for the client `kakoune` in which
/// nothing fails.
pub open spec fn clean_run(kakoune: KakouneView, job: JobView) -> Seq<ActionView> {
    let worker = WorkerView::begin(kakoune, job);
    let path = fifo_path(job.key);
    seq![
        ActionView::RemoveFile { path },
        ActionView::MakeFifo { path, mode: FIFO_MODE },
        ActionView::Announce { command: worker.announcement(path) },
        ActionView::OpenFifo { path },
    ] + (if job.output is Some {
        seq![ActionView::Write { bytes: job.bytes() }]
    } else {
        Seq::empty()
    }) + seq![
        ActionView::Close,
        ActionView::Report { command: worker.report() },
        ActionView::Exit { result: Ok(()) },
    ]
}

/// A run in which nothing fails is `clean_run`: the pipe is created afresh
/// with the owner's permissions, the client is told to show it, the pipe is
/// opened, written (unless the work has produced nothing) and closed, the
/// client is told the job's status, and the worker leaves without failure.
pub proof fn lemma_clean_run(kakoune: KakouneView, job: JobView, outcomes: Seq<OutcomeView>)
    requires
        all_succeed(outcomes),
        outcomes.len() + 1 >= clean_run(kakoune, job).len(),
    ensures
        WorkerView::begin(kakoune, job).trace(outcomes) == clean_run(kakoune, job),
{
    let path = fifo_path(job.key);
    let run = clean_run(kakoune, job);
    let w0 = WorkerView::begin(kakoune, job);
    let o0 = outcomes;
    let w1 = w0.advance(o0[0]);
    let o1 = o0.drop_first();
    let w2 = w1.advance(o1[0]);
    let o2 = o1.drop_first();
    let w3 = w2.advance(o2[0]);
    let o3 = o2.drop_first();
    let w4 = w3.advance(o3[0]);
    let o4 = o3.drop_first();
    let w5 = w4.advance(o4[0]);
    let o5 = o4.drop_first();
    let w6 = w5.advance(o5[0]);
    let o6 = o5.drop_first();
    assert(path_is_clear(o0[0]));
    assert(o1[0] == o0[1] && o1[0] is Done);
    assert(o2[0] == o0[2] && o2[0] is Done);
    assert(o3[0] == o0[3] && o3[0] is Done);
    assert(o4[0] == o0[4] && o4[0] is Done);
    assert(o5[0] == o0[5] && o5[0] is Done);
    assert(w0.trace(o0) == seq![w0.action()] + w1.trace(o1));
    assert(w1.trace(o1) == seq![w1.action()] + w2.trace(o2));
    assert(w2.trace(o2) == seq![w2.action()] + w3.trace(o3));
    assert(w3.trace(o3) == seq![w3.action()] + w4.trace(o4));
    assert(w4.trace(o4) == seq![w4.action()] + w5.trace(o5));
    assert(w5.trace(o5) == seq![w5.action()] + w6.trace(o6));
    if job.output is Some {
        let w7 = w6.advance(o6[0]);
        let o7 = o6.drop_first();
        assert(o6[0] == o0[6] && o6[0] is Done);
        assert(w6.trace(o6) == seq![w6.action()] + w7.trace(o7));
        assert(w7.trace(o7) == seq![w7.action()]);
        assert(w0.trace(o0) =~= run);
    } else {
        assert(w6.trace(o6) == seq![w6.action()]);
        assert(w0.trace(o0) =~= run);
    }
}

} // verus!
