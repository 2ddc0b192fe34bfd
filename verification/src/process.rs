//! Description of a process that the caller is asked to start.

use vstd::prelude::*;

verus! {

/// What one of the three standard streams of a new process is tied to.
#[derive(Clone, Copy, Debug, PartialEq, Eq, Structural)]
pub enum Stdio {
    /// Nothing: the stream is cut off from the starting process.
    Null,
    /// A pipe whose other end the starting process holds.
    Piped,
}

/// The executable that a new process runs.
#[derive(Debug, PartialEq, Eq)]
pub enum Program {
    /// The executable of the running process itself.
    Current,
    /// An executable that is looked up by its name.
    Named(String),
}

pub enum ProgramView {
    Current,
    Named(Seq<char>),
}

impl View for Program {
    type V = ProgramView;

    open spec fn view(&self) -> ProgramView {
        match self {
            Program::Current => ProgramView::Current,
            Program::Named(name) => ProgramView::Named(name@),
        }
    }
}

/// A process to start: what it runs, its arguments (the program's own name
/// not among them), and its standard streams.  Whoever starts it does not
/// wait for it to end.
#[derive(Debug, PartialEq, Eq)]
pub struct Spawn {
    pub program: Program,
    pub args: Vec<String>,
    pub stdin: Stdio,
    pub stdout: Stdio,
    pub stderr: Stdio,
}

pub struct SpawnView {
    pub program: ProgramView,
    pub args: Seq<Seq<char>>,
    pub stdin: Stdio,
    pub stdout: Stdio,
    pub stderr: Stdio,
}

impl View for Spawn {
    type V = SpawnView;

    open spec fn view(&self) -> SpawnView {
        SpawnView {
            program: self.program@,
            args: self.args.deep_view(),
            stdin: self.stdin,
            stdout: self.stdout,
            stderr: self.stderr,
        }
    }
}

} // verus!
