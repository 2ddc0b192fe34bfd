//! Handle on one client of a running editor session, and the commands that
//! are sent to it.

use crate::process::{Program, ProgramView, Spawn, SpawnView, Stdio};
use vstd::prelude::*;

verus! {

/// Name of a client (a window) of an editor session.
pub struct KakClient<'a>(pub &'a str);

/// Name of a running editor session.
pub struct KakSession<'a>(pub &'a str);

/// One client of one editor session.  Neither name is checked against what
/// is running: a command for a session that does not exist fails when it is
/// sent.
#[derive(Debug, PartialEq, Eq)]
pub struct Kakoune {
    session: String,
    client: String,
}

pub struct KakouneView {
    pub session: Seq<char>,
    pub client: Seq<char>,
}

impl View for Kakoune {
    type V = KakouneView;

    closed spec fn view(&self) -> KakouneView {
        KakouneView { session: self.session@, client: self.client@ }
    }
}

/// A script for an editor session: the process that takes it, and the text
/// to write to that process's standard input.  The script counts as sent
/// once the text is written; nobody waits for the editor to act on it.
#[derive(Debug, PartialEq, Eq)]
pub struct SessionCommand {
    pub spawn: Spawn,
    pub script: String,
}

pub struct SessionCommandView {
    pub spawn: SpawnView,
    pub script: Seq<char>,
}

impl View for SessionCommand {
    type V = SessionCommandView;

    open spec fn view(&self) -> SessionCommandView {
        SessionCommandView { spawn: self.spawn@, script: self.script@ }
    }
}

/// The script `command` addressed to `session`: the editor's own executable
/// is started as a remote control of that session, reads the script from a
/// pipe, and has its output discarded.
pub open spec fn session_command(session: Seq<char>, command: Seq<char>) -> SessionCommandView {
    SessionCommandView {
        spawn: SpawnView {
            program: ProgramView::Named("kak"@),
            args: seq!["-p"@, session],
            stdin: Stdio::Piped,
            stdout: Stdio::Null,
            stderr: Stdio::Null,
        },
        script: command,
    }
}

/// The script that evaluates `command` in the context of `client`.
pub open spec fn client_envelope(client: Seq<char>, command: Seq<char>) -> Seq<char> {
    "evaluate-commands -client "@ + client + " %{ "@ + command + " }"@
}

/// The command that opens the pipe at `path` as the displayed buffer
/// `buffer`, which then fills as the pipe is written.
pub open spec fn edit_fifo_command(path: Seq<char>, buffer: Seq<char>) -> Seq<char> {
    "edit -fifo "@ + path + " "@ + buffer
}

/// The command that shows `markup` in the status line.
pub open spec fn echo_markup_command(markup: Seq<char>) -> Seq<char> {
    "echo -markup "@ + markup
}

/// Writes the command that opens the pipe at `path` as the buffer
/// `buffer`.
pub fn edit_fifo(path: &str, buffer: &str) -> (command: String)
    ensures
        command@ == edit_fifo_command(path@, buffer@),
{
    String::from_str("edit -fifo ").concat(path).concat(" ").concat(buffer)
}

/// Writes the command that shows `markup` in the status line.
pub fn echo_markup(markup: &str) -> (command: String)
    ensures
        command@ == echo_markup_command(markup@),
{
    String::from_str("echo -markup ").concat(markup)
}

impl Kakoune {
    /// The client `client` of the session `session`.
    pub fn new(session: KakSession, client: KakClient) -> (kakoune: Self)
        ensures
            kakoune@ == (KakouneView { session: session.0@, client: client.0@ }),
    {
        Self { session: String::from_str(session.0), client: String::from_str(client.0) }
    }

    /// The session's name.
    pub fn session(&self) -> (name: &str)
        ensures
            name@ == self@.session,
    {
        self.session.as_str()
    }

    /// The client's name.
    pub fn client(&self) -> (name: &str)
        ensures
            name@ == self@.client,
    {
        self.client.as_str()
    }

    /// Addresses `command` to the session as a whole.
    ///
    /// For a command that runs in the client's context see
    /// [`Self::run_command_in_client`].
    pub fn run_command(&self, command: &str) -> (request: SessionCommand)
        ensures
            request@ == session_command(self@.session, command@),
    {
        let mut args: Vec<String> = Vec::new();
        args.push(String::from_str("-p"));
        args.push(self.session.clone());
        assert(args.deep_view() =~= seq!["-p"@, self@.session]);
        SessionCommand {
            spawn: Spawn {
                program: Program::Named(String::from_str("kak")),
                args,
                stdin: Stdio::Piped,
                stdout: Stdio::Null,
                stderr: Stdio::Null,
            },
            script: String::from_str(command),
        }
    }

    /// Addresses `command` to the client: the command is wrapped so that
    /// the session evaluates it in that client's context, i.e.
    /// `evaluate-commands -client CLIENT %{ ... }`.
    pub fn run_command_in_client(&self, command: &str) -> (request: SessionCommand)
        ensures
            request@ == session_command(self@.session, client_envelope(self@.client, command@)),
    {
        let script = String::from_str("evaluate-commands -client ").concat(
            self.client.as_str(),
        ).concat(" %{ ").concat(command).concat(" }");
        self.run_command(script.as_str())
    }
}

impl Clone for Kakoune {
    fn clone(&self) -> (copy: Self)
        ensures
            copy@ == self@,
    {
        Kakoune { session: self.session.clone(), client: self.client.clone() }
    }
}

} // verus!
