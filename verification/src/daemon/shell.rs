//! One session and the engine that serves its attached client.

use crate::daemon::exit_notify::ExitNotifier;
use crate::protocol::{
    Chunk, ChunkKind, ResizeReply, ResizeRequest, SessionMessageDetachReply, SessionMessageReply,
    SessionMessageRequestPayload, TtySize,
};
use vstd::prelude::*;

verus! {

/// The two ends of a pseudo-terminal fork, as the process that holds the
/// handle sees them.
#[derive(Clone, Copy, Debug, PartialEq, Eq, Structural)]
pub enum Fork {
    /// The daemon's end: the child's process id and the master descriptor.
    Parent { child_pid: i32, master: i32 },
    /// The end inside the forked child.
    Child,
}

impl Fork {
    /// The master descriptor, which only the parent's end has.
    pub open spec fn spec_is_parent(self) -> Option<i32> {
        match self {
            Fork::Parent { master, .. } => Some(master),
            Fork::Child => None,
        }
    }

    /// The master descriptor, which only the parent's end has.
    pub fn is_parent(&self) -> (master: Option<i32>)
        ensures
            master == self.spec_is_parent(),
    {
        match self {
            Fork::Parent { master, .. } => Some(*master),
            Fork::Child => None,
        }
    }

    /// The child's process id, which only the parent's end knows.
    pub open spec fn spec_child_pid(self) -> Option<i32> {
        match self {
            Fork::Parent { child_pid, .. } => Some(child_pid),
            Fork::Child => None,
        }
    }

    /// The child's process id, which only the parent's end knows.
    pub fn child_pid(&self) -> (pid: Option<i32>)
        ensures
            pid == self.spec_child_pid(),
    {
        match self {
            Fork::Parent { child_pid, .. } => Some(*child_pid),
            Fork::Child => None,
        }
    }
}

/// The task that copies the shell's output into the session's spool.
#[derive(Clone, Copy, Debug, PartialEq, Eq, Structural)]
pub enum ReaderTask {
    /// Still reading.
    Running,
    /// Ended without an error.
    Finished,
    /// Ended with an error.
    Failed,
}

/// Why a step of a session's engine could not be taken.
#[derive(Clone, Copy, Debug, PartialEq, Eq, Structural)]
pub enum ShellError {
    /// No client stream is installed in the session.
    NoClientStream,
    /// The handle is the child's end of the fork, which has no master.
    NotParent,
}

/// The part of a session that the engine serving its client changes.
#[derive(Clone, Debug)]
pub struct SessionInner {
    /// The session's name.
    pub name: String,
    /// The daemon's end of the pseudo-terminal.
    pub pty_master: Fork,
    /// The connection of the client that is wired to the terminal, if any.
    pub client_stream: Option<usize>,
    /// The geometry last given to the terminal.
    pub tty_size: TtySize,
    /// The task that spools the shell's output.
    pub reader: ReaderTask,
}

/// What a `SessionInner` is, with its name as a sequence of characters.
pub struct SessionInnerView {
    pub name: Seq<char>,
    pub pty_master: Fork,
    pub client_stream: Option<usize>,
    pub tty_size: TtySize,
    pub reader: ReaderTask,
}

impl View for SessionInner {
    type V = SessionInnerView;

    open spec fn view(&self) -> SessionInnerView {
        SessionInnerView {
            name: self.name@,
            pty_master: self.pty_master,
            client_stream: self.client_stream,
            tty_size: self.tty_size,
            reader: self.reader,
        }
    }
}

/// One entry of the session table.
#[derive(Clone, Debug)]
pub struct Session {
    /// When the subshell was started, in milliseconds since the Unix epoch.
    pub started_at: i64,
    /// The process id of the subshell.
    pub child_pid: i32,
    /// Fires when the subshell exits.
    pub child_exit_notifier: ExitNotifier,
    /// The connection whose engine holds the session's inner state, if one is
    /// running. While it is held no other client can take the session over.
    pub holder: Option<usize>,
    /// The state that the engine works on.
    pub inner: SessionInner,
}

/// What a `Session` is, over plain values.
pub struct SessionView {
    pub started_at: i64,
    pub child_pid: i32,
    pub exit_status: Option<i32>,
    pub holder: Option<usize>,
    pub inner: SessionInnerView,
}

impl View for Session {
    type V = SessionView;

    open spec fn view(&self) -> SessionView {
        SessionView {
            started_at: self.started_at,
            child_pid: self.child_pid,
            exit_status: self.child_exit_notifier.status(),
            holder: self.holder,
            inner: self.inner@,
        }
    }
}

impl SessionView {
    /// The name under which the session stands in the table.
    pub open spec fn name(self) -> Seq<char> {
        self.inner.name
    }

    /// A session is well formed when it holds the daemon's end of the fork
    /// of its own child, and a wired client is also the one whose engine holds
    /// the session.
    pub open spec fn wf(self) -> bool {
        &&& self.inner.pty_master.spec_child_pid() == Some(self.child_pid)
        &&& self.inner.client_stream is Some ==> self.holder == self.inner.client_stream
    }
}

impl SessionInner {
    /// Gives the terminal the geometry `size`. Fails, and changes nothing, on
    /// the child's end of the fork.
    pub fn set_pty_size(&mut self, size: &TtySize) -> (res: Result<(), ShellError>)
        ensures
            old(self).pty_master is Parent ==> res is Ok && final(self)@ == (SessionInnerView {
                tty_size: *size,
                ..old(self)@
            }),
            old(self).pty_master is Child ==> res == Err::<(), ShellError>(ShellError::NotParent)
                && final(self)@ == old(self)@,
    {
        match self.pty_master.is_parent() {
            None => Err(ShellError::NotParent),
            Some(_) => {
                self.tty_size = *size;
                Ok(())
            },
        }
    }

    /// Serves one resize request: sets the geometry and confirms it.
    pub fn handle_resize_rpc(&mut self, req: ResizeRequest) -> (res: Result<
        ResizeReply,
        ShellError,
    >)
        ensures
            old(self).pty_master is Parent ==> res == Ok::<ResizeReply, ShellError>(
                ResizeReply::Done,
            ) && final(self)@ == (SessionInnerView { tty_size: req.tty_size, ..old(self)@ }),
            old(self).pty_master is Child ==> res == Err::<ResizeReply, ShellError>(
                ShellError::NotParent,
            ) && final(self)@ == old(self)@,
    {
        match self.set_pty_size(&req.tty_size) {
            Err(e) => Err(e),
            Ok(()) => Ok(ResizeReply::Done),
        }
    }
}

/// The five tasks that serve one attached client, in the order in which they
/// are joined.
#[derive(Clone, Copy, Debug, PartialEq, Eq, Structural)]
pub enum Task {
    /// Copies what the client types to the shell.
    ClientToShell,
    /// Copies what the shell prints to the client, in frames.
    ShellToClient,
    /// Sends the client a sign of life at a steady pace.
    Heartbeat,
    /// Watches for the shell's exit.
    Supervisor,
    /// Serves the messages sent to the session.
    Rpc,
}

/// The step at which a task failed.
#[derive(Clone, Copy, Debug, PartialEq, Eq, Structural)]
pub enum TaskError {
    /// Reading from the client.
    ReadClient,
    /// Writing to the terminal.
    WritePty,
    /// Flushing the terminal.
    FlushPty,
    /// Waiting for the terminal to become readable.
    SelectPty,
    /// Reading from the terminal.
    ReadPty,
    /// Writing a frame of output to the client.
    WriteChunk,
    /// Flushing the client's stream.
    FlushClient,
    /// Writing a heartbeat to the client.
    WriteHeartbeat,
    /// Receiving a message for the session.
    RecvRpc,
    /// Applying a geometry to the terminal.
    Resize,
    /// Sending the reply to a message.
    SendReply,
}

/// How far a task has come.
#[derive(Clone, Copy, Debug, PartialEq, Eq, Structural)]
pub enum TaskState {
    /// It has not returned yet.
    Running,
    /// It returned without an error.
    Done,
    /// It returned with an error.
    Failed(TaskError),
}

impl TaskState {
    /// The state of a task that returned `result`.
    pub open spec fn of(result: Result<(), TaskError>) -> TaskState {
        match result {
            Ok(()) => TaskState::Done,
            Err(e) => TaskState::Failed(e),
        }
    }
}

/// One run of the engine that serves an attached client: the flag that asks
/// its tasks to stop, the flag that tells of the shell's exit, and how far
/// each task has come.
#[derive(Clone, Copy, Debug, PartialEq, Eq, Structural)]
pub struct BidiStream {
    /// The connection that is served.
    pub conn: usize,
    /// The master descriptor of the terminal.
    pub master: i32,
    /// Set once the tasks are asked to stop.
    pub stop: bool,
    /// Set once the shell was seen to exit.
    pub child_done: bool,
    pub client_to_shell: TaskState,
    pub shell_to_client: TaskState,
    pub heartbeat: TaskState,
    pub supervisor: TaskState,
    pub rpc: TaskState,
}

impl BidiStream {
    /// How far the task `task` has come.
    pub open spec fn spec_task(self, task: Task) -> TaskState {
        match task {
            Task::ClientToShell => self.client_to_shell,
            Task::ShellToClient => self.shell_to_client,
            Task::Heartbeat => self.heartbeat,
            Task::Supervisor => self.supervisor,
            Task::Rpc => self.rpc,
        }
    }

    /// The run with the task `task` in the state `state`.
    pub open spec fn with_task(self, task: Task, state: TaskState) -> BidiStream {
        match task {
            Task::ClientToShell => BidiStream { client_to_shell: state, ..self },
            Task::ShellToClient => BidiStream { shell_to_client: state, ..self },
            Task::Heartbeat => BidiStream { heartbeat: state, ..self },
            Task::Supervisor => BidiStream { supervisor: state, ..self },
            Task::Rpc => BidiStream { rpc: state, ..self },
        }
    }

    /// Whether one of the five tasks has returned.
    pub open spec fn any_finished(self) -> bool {
        exists|task: Task| !(#[trigger] self.spec_task(task) is Running)
    }

    /// Whether all five tasks have returned.
    pub open spec fn all_finished(self) -> bool {
        forall|task: Task| !(#[trigger] self.spec_task(task) is Running)
    }

    /// The error of the first task, in the order of joining, that failed.
    pub open spec fn first_error(self) -> Option<TaskError> {
        if self.client_to_shell is Failed {
            Some(self.client_to_shell->0)
        } else if self.shell_to_client is Failed {
            Some(self.shell_to_client->0)
        } else if self.heartbeat is Failed {
            Some(self.heartbeat->0)
        } else if self.supervisor is Failed {
            Some(self.supervisor->0)
        } else if self.rpc is Failed {
            Some(self.rpc->0)
        } else {
            None
        }
    }

    /// How the run ends once it is joined: with the first error, or else with
    /// the word whether the shell has exited. While a task is still running,
    /// or the tasks were not yet asked to stop, there is no end.
    pub open spec fn outcome(self) -> Option<Result<bool, TaskError>> {
        if !self.stop || !self.all_finished() {
            None
        } else {
            match self.first_error() {
                Some(e) => Some(Err(e)),
                None => Some(Ok(self.child_done)),
            }
        }
    }

    /// How far the task `task` has come.
    pub fn task(&self, task: Task) -> (state: TaskState)
        ensures
            state == self.spec_task(task),
    {
        match task {
            Task::ClientToShell => self.client_to_shell,
            Task::ShellToClient => self.shell_to_client,
            Task::Heartbeat => self.heartbeat,
            Task::Supervisor => self.supervisor,
            Task::Rpc => self.rpc,
        }
    }

    /// Takes note that the task `task` has returned `result`. What a task
    /// returned first stays.
    pub fn finish(&mut self, task: Task, result: Result<(), TaskError>)
        ensures
            old(self).spec_task(task) is Running ==> *final(self) == old(self).with_task(
                task,
                TaskState::of(result),
            ),
            !(old(self).spec_task(task) is Running) ==> *final(self) == *old(self),
    {
        let state = match result {
            Ok(()) => TaskState::Done,
            Err(e) => TaskState::Failed(e),
        };
        match self.task(task) {
            TaskState::Running => {
                match task {
                    Task::ClientToShell => {
                        self.client_to_shell = state;
                    },
                    Task::ShellToClient => {
                        self.shell_to_client = state;
                    },
                    Task::Heartbeat => {
                        self.heartbeat = state;
                    },
                    Task::Supervisor => {
                        self.supervisor = state;
                    },
                    Task::Rpc => {
                        self.rpc = state;
                    },
                }
            },
            _ => {},
        }
    }

    /// Takes note that the shell has exited.
    pub fn child_exited(&mut self)
        ensures
            *final(self) == (BidiStream { child_done: true, ..*old(self) }),
    {
        self.child_done = true;
    }

    /// One look of the joiner: as soon as a task has returned or the shell has
    /// exited, the tasks are asked to stop. The flag, once set, stays set.
    /// Returns whether the tasks are asked to stop.
    pub fn poll(&mut self) -> (stop: bool)
        ensures
            stop == (old(self).stop || old(self).any_finished() || old(self).child_done),
            *final(self) == (BidiStream { stop, ..*old(self) }),
    {
        let finished = !matches!(self.client_to_shell, TaskState::Running) || !matches!(
            self.shell_to_client,
            TaskState::Running
        ) || !matches!(self.heartbeat, TaskState::Running) || !matches!(
            self.supervisor,
            TaskState::Running
        ) || !matches!(self.rpc, TaskState::Running);
        proof {
            if finished {
                if !(self.client_to_shell is Running) {
                    assert(!(self.spec_task(Task::ClientToShell) is Running));
                } else if !(self.shell_to_client is Running) {
                    assert(!(self.spec_task(Task::ShellToClient) is Running));
                } else if !(self.heartbeat is Running) {
                    assert(!(self.spec_task(Task::Heartbeat) is Running));
                } else if !(self.supervisor is Running) {
                    assert(!(self.spec_task(Task::Supervisor) is Running));
                } else {
                    assert(!(self.spec_task(Task::Rpc) is Running));
                }
            }
        }
        if finished || self.child_done {
            self.stop = true;
        }
        self.stop
    }

    /// Joins the five tasks in their fixed order. There is a result only
    /// once the tasks were asked to stop and every one of them has returned:
    /// the error of the first that failed, or else whether the shell has
    /// exited, in which case the client's connection is to be shut down in
    /// both directions.
    pub fn join(&self) -> (end: Option<Result<bool, TaskError>>)
        ensures
            end == self.outcome(),
    {
        let all = !matches!(self.client_to_shell, TaskState::Running) && !matches!(
            self.shell_to_client,
            TaskState::Running
        ) && !matches!(self.heartbeat, TaskState::Running) && !matches!(
            self.supervisor,
            TaskState::Running
        ) && !matches!(self.rpc, TaskState::Running);
        proof {
            if !all {
                if self.client_to_shell is Running {
                    assert(self.spec_task(Task::ClientToShell) is Running);
                } else if self.shell_to_client is Running {
                    assert(self.spec_task(Task::ShellToClient) is Running);
                } else if self.heartbeat is Running {
                    assert(self.spec_task(Task::Heartbeat) is Running);
                } else if self.supervisor is Running {
                    assert(self.spec_task(Task::Supervisor) is Running);
                } else {
                    assert(self.spec_task(Task::Rpc) is Running);
                }
            }
        }
        if !self.stop || !all {
            return None;
        }
        if let TaskState::Failed(e) = self.client_to_shell {
            return Some(Err(e));
        }
        if let TaskState::Failed(e) = self.shell_to_client {
            return Some(Err(e));
        }
        if let TaskState::Failed(e) = self.heartbeat {
            return Some(Err(e));
        }
        if let TaskState::Failed(e) = self.supervisor {
            return Some(Err(e));
        }
        if let TaskState::Failed(e) = self.rpc {
            return Some(Err(e));
        }
        Some(Ok(self.child_done))
    }
}

impl SessionInner {
    /// Starts the engine for the client that is wired to the session: five
    /// tasks, none of which has returned, and neither flag set. Without a
    /// client stream there is nothing to serve, and on the child's end of the
    /// fork there is no terminal to serve it from.
    pub fn bidi_stream(&self) -> (res: Result<BidiStream, ShellError>)
        ensures
            self.client_stream is None ==> res == Err::<BidiStream, ShellError>(
                ShellError::NoClientStream,
            ),
            self.client_stream is Some && self.pty_master is Child ==> res == Err::<
                BidiStream,
                ShellError,
            >(ShellError::NotParent),
            self.client_stream is Some && self.pty_master is Parent ==> res == Ok::<
                BidiStream,
                ShellError,
            >(
                BidiStream {
                    conn: self.client_stream->0,
                    master: self.pty_master->master,
                    stop: false,
                    child_done: false,
                    client_to_shell: TaskState::Running,
                    shell_to_client: TaskState::Running,
                    heartbeat: TaskState::Running,
                    supervisor: TaskState::Running,
                    rpc: TaskState::Running,
                },
            ),
    {
        let conn = match self.client_stream {
            None => {
                return Err(ShellError::NoClientStream);
            },
            Some(conn) => conn,
        };
        let master = match self.pty_master.is_parent() {
            None => {
                return Err(ShellError::NotParent);
            },
            Some(master) => master,
        };
        Ok(
            BidiStream {
                conn,
                master,
                stop: false,
                child_done: false,
                client_to_shell: TaskState::Running,
                shell_to_client: TaskState::Running,
                heartbeat: TaskState::Running,
                supervisor: TaskState::Running,
                rpc: TaskState::Running,
            },
        )
    }
}

/// A run is joined only after every task has returned: while any task is
/// still running there is no end to hand to the caller, so no task outlives
/// the call that started it.
pub proof fn lemma_join_waits_for_all(run: BidiStream, task: Task)
    requires
        run.spec_task(task) is Running,
    ensures
        run.outcome() is None,
{
}

/// A run that is joined ends with the error of the first task that failed,
/// in the order client to shell, shell to client, heartbeat, supervisor,
/// message server; a run in which no task failed tells whether the shell has
/// exited.
pub proof fn lemma_join_order(run: BidiStream)
    requires
        run.stop,
        run.all_finished(),
    ensures
        run.client_to_shell is Failed ==> run.outcome() == Some(
            Err::<bool, TaskError>(run.client_to_shell->0),
        ),
        !(run.client_to_shell is Failed) && run.shell_to_client is Failed ==> run.outcome()
            == Some(Err::<bool, TaskError>(run.shell_to_client->0)),
        run.first_error() is None ==> run.outcome() == Some(Ok::<bool, TaskError>(run.child_done)),
        run.first_error() is None <==> forall|task: Task| (#[trigger] run.spec_task(task)) is Done,
{
    assert(!(run.spec_task(Task::ClientToShell) is Running));
    assert(!(run.spec_task(Task::ShellToClient) is Running));
    assert(!(run.spec_task(Task::Heartbeat) is Running));
    assert(!(run.spec_task(Task::Supervisor) is Running));
    assert(!(run.spec_task(Task::Rpc) is Running));
    if forall|task: Task| (#[trigger] run.spec_task(task)) is Done {
        assert(run.spec_task(Task::ClientToShell) is Done);
        assert(run.spec_task(Task::ShellToClient) is Done);
        assert(run.spec_task(Task::Heartbeat) is Done);
        assert(run.spec_task(Task::Supervisor) is Done);
        assert(run.spec_task(Task::Rpc) is Done);
    }
}

/// The kinds of failed reads and writes that the engine's tasks tell apart.
#[derive(Clone, Copy, Debug, PartialEq, Eq, Structural)]
pub enum IoFailure {
    /// Nothing could be moved right now.
    WouldBlock,
    /// The other end has hung up.
    BrokenPipe,
    /// Any other failure.
    Other,
}

/// The kinds of failed waits for the terminal that the engine tells apart.
#[derive(Clone, Copy, Debug, PartialEq, Eq, Structural)]
pub enum SelectFailure {
    /// The descriptor is no longer valid: the shell has gone.
    BadDescriptor,
    /// Any other failure.
    Other,
}

/// What the task that feeds the shell has just seen.
#[derive(Clone, Debug)]
pub enum ClientEvent {
    /// The task has started.
    Started,
    /// A pause has passed.
    Woke,
    /// The client's stream gave these bytes.
    Read(Vec<u8>),
    /// Reading from the client failed.
    ReadFailed(IoFailure),
    /// The terminal took this many of the pending bytes.
    Wrote(usize),
    /// Writing to the terminal failed.
    WriteFailed(IoFailure),
    /// The terminal was flushed.
    Flushed,
    /// Flushing the terminal failed.
    FlushFailed,
}

/// What the task that feeds the shell does next.
#[derive(Clone, Copy, Debug, PartialEq, Eq, Structural)]
pub enum ClientAction {
    /// Read from the client's stream, without blocking.
    Read,
    /// Write the pending bytes to the terminal.
    Write,
    /// Flush the terminal.
    Flush,
    /// Pause for the poll interval and report `Woke`.
    Sleep,
    /// Return without an error.
    Exit,
    /// Return with this error.
    Fail(TaskError),
}

/// What the task does when it comes back to the head of its loop: it stops
/// when asked to, and else goes on writing what is pending or reads anew.
pub open spec fn client_resume(pending: Seq<u8>, stop: bool) -> ClientAction {
    if stop {
        ClientAction::Exit
    } else if pending.len() > 0 {
        ClientAction::Write
    } else {
        ClientAction::Read
    }
}

/// The pending bytes after `event`: a chunk that was read becomes pending,
/// and what the terminal took is pending no more.
pub open spec fn client_pending(pending: Seq<u8>, event: ClientEvent) -> Seq<u8> {
    match event {
        ClientEvent::Read(data) => if data@.len() == 0 {
            pending
        } else {
            data@
        },
        ClientEvent::Wrote(n) => pending.skip(n as int),
        _ => pending,
    }
}

/// What the task does after `event`, with `stop` as the flag stands at its
/// next check. A read that would block, and a write that would block, are
/// tried again after a pause; a read of no bytes is no end of input and is
/// tried again at once; a chunk is flushed as soon as all of it is written;
/// every other failure ends the task.
pub open spec fn client_action(pending: Seq<u8>, stop: bool, event: ClientEvent) -> ClientAction {
    match event {
        ClientEvent::Started | ClientEvent::Woke | ClientEvent::Flushed => client_resume(
            pending,
            stop,
        ),
        ClientEvent::Read(data) => client_resume(client_pending(pending, event), stop),
        ClientEvent::ReadFailed(IoFailure::WouldBlock) => ClientAction::Sleep,
        ClientEvent::ReadFailed(_) => ClientAction::Fail(TaskError::ReadClient),
        ClientEvent::Wrote(n) => if pending.skip(n as int).len() == 0 {
            ClientAction::Flush
        } else {
            client_resume(pending.skip(n as int), stop)
        },
        ClientEvent::WriteFailed(IoFailure::WouldBlock) => ClientAction::Sleep,
        ClientEvent::WriteFailed(_) => ClientAction::Fail(TaskError::WritePty),
        ClientEvent::FlushFailed => ClientAction::Fail(TaskError::FlushPty),
    }
}

/// The task that copies the client's input to the shell: it holds the bytes
/// that were read from the client and not yet written to the terminal.
#[derive(Clone, Debug)]
pub struct ClientToShell {
    pub pending: Vec<u8>,
}

impl ClientToShell {
    /// The task before its first step, with nothing pending.
    pub fn new() -> (task: ClientToShell)
        ensures
            task.pending@ == Seq::<u8>::empty(),
    {
        ClientToShell { pending: Vec::new() }
    }

    /// Takes one step. The terminal never takes more bytes than it was
    /// offered.
    pub fn step(&mut self, stop: bool, event: ClientEvent) -> (action: ClientAction)
        requires
            event matches ClientEvent::Wrote(n) ==> n <= old(self).pending@.len(),
        ensures
            final(self).pending@ == client_pending(old(self).pending@, event),
            action == client_action(old(self).pending@, stop, event),
    {
        match event {
            ClientEvent::Started | ClientEvent::Woke | ClientEvent::Flushed => self.resume(stop),
            ClientEvent::Read(data) => {
                if data.len() > 0 {
                    self.pending = data;
                }
                self.resume(stop)
            },
            ClientEvent::ReadFailed(IoFailure::WouldBlock) => ClientAction::Sleep,
            ClientEvent::ReadFailed(_) => ClientAction::Fail(TaskError::ReadClient),
            ClientEvent::Wrote(n) => {
                let rest = self.pending.split_off(n);
                assert(rest@ =~= old(self).pending@.skip(n as int));
                self.pending = rest;
                if self.pending.len() == 0 {
                    ClientAction::Flush
                } else {
                    self.resume(stop)
                }
            },
            ClientEvent::WriteFailed(IoFailure::WouldBlock) => ClientAction::Sleep,
            ClientEvent::WriteFailed(_) => ClientAction::Fail(TaskError::WritePty),
            ClientEvent::FlushFailed => ClientAction::Fail(TaskError::FlushPty),
        }
    }

    /// What the task does at the head of its loop.
    fn resume(&self, stop: bool) -> (action: ClientAction)
        ensures
            action == client_resume(self.pending@, stop),
    {
        if stop {
            ClientAction::Exit
        } else if self.pending.len() > 0 {
            ClientAction::Write
        } else {
            ClientAction::Read
        }
    }
}

/// The client's input reaches the shell verbatim: whatever part of a chunk
/// the terminal takes, that part and what stays pending are together the
/// chunk as it was read, and the chunk is flushed exactly when nothing of it
/// is pending any more.
pub proof fn lemma_input_verbatim(chunk: Seq<u8>, taken: usize, stop: bool)
    requires
        taken <= chunk.len(),
    ensures
        chunk == chunk.take(taken as int) + client_pending(chunk, ClientEvent::Wrote(taken)),
        client_action(chunk, stop, ClientEvent::Wrote(taken)) == ClientAction::Flush <==> taken
            == chunk.len(),
{
    assert(chunk =~= chunk.take(taken as int) + chunk.skip(taken as int));
}

/// What the task that feeds the client has just seen.
#[derive(Clone, Debug)]
pub enum ShellEvent {
    /// The task has started.
    Started,
    /// A pause has passed.
    Woke,
    /// The wait ended: `nready` descriptors are readable, and the terminal
    /// is or is not among them.
    Selected { nready: usize, master_ready: bool },
    /// The wait for the terminal failed.
    SelectFailed(SelectFailure),
    /// The terminal gave these bytes.
    Read(Vec<u8>),
    /// Reading from the terminal failed.
    ReadFailed(IoFailure),
    /// The frame was written to the client.
    Sent,
    /// Writing the frame to the client failed.
    SendFailed,
    /// The client's stream was flushed.
    Flushed,
    /// Flushing the client's stream failed.
    FlushFailed,
}

/// What the task that feeds the client does next.
#[derive(Clone, Debug)]
pub enum ShellAction {
    /// Wait, for the poll interval at most, until the terminal is readable.
    Select,
    /// Read from the terminal.
    ReadPty,
    /// Write this frame to the client, under the lock on its stream.
    Send(Chunk),
    /// Flush the client's stream.
    Flush,
    /// Pause for the poll interval and report `Woke`.
    Sleep,
    /// Return without an error.
    Exit,
    /// Return with this error.
    Fail(TaskError),
}

/// A `ShellAction` with its frame as a kind and a sequence of bytes.
pub enum ShellActionView {
    Select,
    ReadPty,
    Send(ChunkKind, Seq<u8>),
    Flush,
    Sleep,
    Exit,
    Fail(TaskError),
}

impl View for ShellAction {
    type V = ShellActionView;

    open spec fn view(&self) -> ShellActionView {
        match self {
            ShellAction::Select => ShellActionView::Select,
            ShellAction::ReadPty => ShellActionView::ReadPty,
            ShellAction::Send(chunk) => ShellActionView::Send(chunk.kind, chunk.buf@),
            ShellAction::Flush => ShellActionView::Flush,
            ShellAction::Sleep => ShellActionView::Sleep,
            ShellAction::Exit => ShellActionView::Exit,
            ShellAction::Fail(e) => ShellActionView::Fail(*e),
        }
    }
}

/// What the task does at the head of its loop: it stops when asked to, and
/// else waits for the terminal.
pub open spec fn shell_resume(stop: bool) -> ShellActionView {
    if stop {
        ShellActionView::Exit
    } else {
        ShellActionView::Select
    }
}

/// What the task does after `event`, with `stop` as the flag stands at its
/// next check. A terminal whose descriptor is no longer valid ends the task
/// without an error, for the shell has gone. What the terminal gives is
/// sent to the client as one data frame and flushed at once. A read of no
/// bytes, and a read that would block, are tried again after a pause. Every
/// other failure ends the task.
pub open spec fn shell_action(stop: bool, event: ShellEvent) -> ShellActionView {
    match event {
        ShellEvent::Started | ShellEvent::Woke | ShellEvent::Flushed => shell_resume(stop),
        ShellEvent::Selected { nready, master_ready } => if nready == 0 {
            shell_resume(stop)
        } else if master_ready {
            ShellActionView::ReadPty
        } else {
            ShellActionView::Flush
        },
        ShellEvent::SelectFailed(SelectFailure::BadDescriptor) => ShellActionView::Exit,
        ShellEvent::SelectFailed(SelectFailure::Other) => ShellActionView::Fail(
            TaskError::SelectPty,
        ),
        ShellEvent::Read(data) => if data@.len() == 0 {
            ShellActionView::Sleep
        } else {
            ShellActionView::Send(ChunkKind::Data, data@)
        },
        ShellEvent::ReadFailed(IoFailure::WouldBlock) => ShellActionView::Sleep,
        ShellEvent::ReadFailed(_) => ShellActionView::Fail(TaskError::ReadPty),
        ShellEvent::Sent => ShellActionView::Flush,
        ShellEvent::SendFailed => ShellActionView::Fail(TaskError::WriteChunk),
        ShellEvent::FlushFailed => ShellActionView::Fail(TaskError::FlushClient),
    }
}

/// Takes one step of the task that copies the shell's output to the client.
pub fn shell_to_client(stop: bool, event: ShellEvent) -> (action: ShellAction)
    ensures
        action@ == shell_action(stop, event),
{
    match event {
        ShellEvent::Started | ShellEvent::Woke | ShellEvent::Flushed => if stop {
            ShellAction::Exit
        } else {
            ShellAction::Select
        },
        ShellEvent::Selected { nready, master_ready } => if nready == 0 {
            if stop {
                ShellAction::Exit
            } else {
                ShellAction::Select
            }
        } else if master_ready {
            ShellAction::ReadPty
        } else {
            ShellAction::Flush
        },
        ShellEvent::SelectFailed(SelectFailure::BadDescriptor) => ShellAction::Exit,
        ShellEvent::SelectFailed(SelectFailure::Other) => ShellAction::Fail(TaskError::SelectPty),
        ShellEvent::Read(data) => if data.len() == 0 {
            ShellAction::Sleep
        } else {
            ShellAction::Send(Chunk::data(data))
        },
        ShellEvent::ReadFailed(IoFailure::WouldBlock) => ShellAction::Sleep,
        ShellEvent::ReadFailed(_) => ShellAction::Fail(TaskError::ReadPty),
        ShellEvent::Sent => ShellAction::Flush,
        ShellEvent::SendFailed => ShellAction::Fail(TaskError::WriteChunk),
        ShellEvent::FlushFailed => ShellAction::Fail(TaskError::FlushClient),
    }
}

/// What the heartbeat task has just seen.
#[derive(Clone, Copy, Debug, PartialEq, Eq, Structural)]
pub enum BeatEvent {
    /// The task has started.
    Started,
    /// The heartbeat interval has passed.
    Woke,
    /// The heartbeat was written to the client.
    Sent,
    /// Writing the heartbeat failed.
    SendFailed(IoFailure),
}

/// What the heartbeat task does next.
#[derive(Clone, Debug)]
pub enum BeatAction {
    /// Pause for the heartbeat interval and report `Woke`.
    Sleep,
    /// Write this frame to the client, under the lock on its stream.
    Send(Chunk),
    /// Return without an error.
    Exit,
    /// Return with this error.
    Fail(TaskError),
}

/// A `BeatAction` with its frame as a kind and a sequence of bytes.
pub enum BeatActionView {
    Sleep,
    Send(ChunkKind, Seq<u8>),
    Exit,
    Fail(TaskError),
}

impl View for BeatAction {
    type V = BeatActionView;

    open spec fn view(&self) -> BeatActionView {
        match self {
            BeatAction::Sleep => BeatActionView::Sleep,
            BeatAction::Send(chunk) => BeatActionView::Send(chunk.kind, chunk.buf@),
            BeatAction::Exit => BeatActionView::Exit,
            BeatAction::Fail(e) => BeatActionView::Fail(*e),
        }
    }
}

/// What the heartbeat task does after `event`: after every interval it sends
/// one heartbeat frame with no payload. A client that has hung up ends the
/// task without an error, every other failed write with one.
pub open spec fn beat_action(stop: bool, event: BeatEvent) -> BeatActionView {
    match event {
        BeatEvent::Started | BeatEvent::Sent => if stop {
            BeatActionView::Exit
        } else {
            BeatActionView::Sleep
        },
        BeatEvent::Woke => BeatActionView::Send(ChunkKind::Heartbeat, Seq::empty()),
        BeatEvent::SendFailed(IoFailure::BrokenPipe) => BeatActionView::Exit,
        BeatEvent::SendFailed(_) => BeatActionView::Fail(TaskError::WriteHeartbeat),
    }
}

/// Takes one step of the heartbeat task.
pub fn heartbeat(stop: bool, event: BeatEvent) -> (action: BeatAction)
    ensures
        action@ == beat_action(stop, event),
{
    match event {
        BeatEvent::Started | BeatEvent::Sent => if stop {
            BeatAction::Exit
        } else {
            BeatAction::Sleep
        },
        BeatEvent::Woke => BeatAction::Send(Chunk::heartbeat()),
        BeatEvent::SendFailed(IoFailure::BrokenPipe) => BeatAction::Exit,
        BeatEvent::SendFailed(_) => BeatAction::Fail(TaskError::WriteHeartbeat),
    }
}

/// What the supervisor has just seen on the channel that tells of the
/// shell's exit.
#[derive(Clone, Copy, Debug, PartialEq, Eq, Structural)]
pub enum ExitWatch {
    /// The task has started.
    Started,
    /// Something was sent on the channel, which nothing ever should be.
    Received,
    /// The poll interval passed with nothing to see.
    Timeout,
    /// The channel was closed: the shell has exited.
    Disconnected,
}

/// Where the supervisor goes next.
#[derive(Clone, Copy, Debug, PartialEq, Eq, Structural)]
pub enum SupervisorNext {
    /// Wait on the channel for the poll interval.
    Wait,
    /// Set the flag that tells of the shell's exit, and return.
    ChildExited,
    /// Return.
    Exit,
}

/// What the supervisor does next.
#[derive(Clone, Copy, Debug, PartialEq, Eq, Structural)]
pub struct SupervisorStep {
    /// Whether to put on record that the channel carried something.
    pub bug: bool,
    /// Where to go from here.
    pub next: SupervisorNext,
}

/// What the supervisor does after `event`. It never fails: something sent on
/// the channel is put on record as a bug and not passed on.
pub open spec fn supervisor_step(stop: bool, event: ExitWatch) -> SupervisorStep {
    match event {
        ExitWatch::Disconnected => SupervisorStep { bug: false, next: SupervisorNext::ChildExited },
        _ => SupervisorStep {
            bug: event is Received,
            next: if stop {
                SupervisorNext::Exit
            } else {
                SupervisorNext::Wait
            },
        },
    }
}

/// Takes one step of the supervisor.
pub fn supervisor(stop: bool, event: ExitWatch) -> (step: SupervisorStep)
    ensures
        step == supervisor_step(stop, event),
{
    let next = if stop {
        SupervisorNext::Exit
    } else {
        SupervisorNext::Wait
    };
    match event {
        ExitWatch::Disconnected => SupervisorStep { bug: false, next: SupervisorNext::ChildExited },
        ExitWatch::Received => SupervisorStep { bug: true, next },
        _ => SupervisorStep { bug: false, next },
    }
}

/// What the task that serves a session's messages has just seen.
#[derive(Clone, Copy, Debug, PartialEq, Eq, Structural)]
pub enum RpcEvent {
    /// The task has started.
    Started,
    /// A request has come in.
    Received(SessionMessageRequestPayload),
    /// The poll interval passed without a request.
    Timeout,
    /// The queue of requests was closed.
    Disconnected,
    /// The request was carried out.
    Served(SessionMessageRequestPayload),
    /// The request could not be carried out.
    ServeFailed,
    /// The reply was taken.
    Replied,
    /// Nobody took the reply within the poll interval.
    ReplyFailed,
}

/// What the task that serves a session's messages does next.
#[derive(Clone, Copy, Debug, PartialEq, Eq, Structural)]
pub enum RpcAction {
    /// Wait for a request for the poll interval.
    Wait,
    /// Carry out this request.
    Serve(SessionMessageRequestPayload),
    /// Send this reply over the channel paired with the requests.
    Reply(SessionMessageReply),
    /// Return without an error.
    Exit,
    /// Return with this error.
    Fail(TaskError),
}

/// The reply that confirms `payload`.
pub open spec fn reply_to(payload: SessionMessageRequestPayload) -> SessionMessageReply {
    match payload {
        SessionMessageRequestPayload::Resize(_) => SessionMessageReply::Resize(ResizeReply::Done),
        SessionMessageRequestPayload::Detach => SessionMessageReply::Detach(
            SessionMessageDetachReply::Done,
        ),
    }
}

/// What the task does after `event`: each request is carried out and then
/// answered with exactly one reply, and a reply that nobody takes ends the
/// task with an error.
pub open spec fn rpc_action(stop: bool, event: RpcEvent) -> RpcAction {
    match event {
        RpcEvent::Started | RpcEvent::Timeout | RpcEvent::Replied => if stop {
            RpcAction::Exit
        } else {
            RpcAction::Wait
        },
        RpcEvent::Received(payload) => RpcAction::Serve(payload),
        RpcEvent::Disconnected => RpcAction::Fail(TaskError::RecvRpc),
        RpcEvent::Served(payload) => RpcAction::Reply(reply_to(payload)),
        RpcEvent::ServeFailed => RpcAction::Fail(TaskError::Resize),
        RpcEvent::ReplyFailed => RpcAction::Fail(TaskError::SendReply),
    }
}

/// Takes one step of the task that serves a session's messages.
pub fn rpc(stop: bool, event: RpcEvent) -> (action: RpcAction)
    ensures
        action == rpc_action(stop, event),
{
    match event {
        RpcEvent::Started | RpcEvent::Timeout | RpcEvent::Replied => if stop {
            RpcAction::Exit
        } else {
            RpcAction::Wait
        },
        RpcEvent::Received(payload) => RpcAction::Serve(payload),
        RpcEvent::Disconnected => RpcAction::Fail(TaskError::RecvRpc),
        RpcEvent::Served(payload) => RpcAction::Reply(
            match payload {
                SessionMessageRequestPayload::Resize(_) => SessionMessageReply::Resize(
                    ResizeReply::Done,
                ),
                SessionMessageRequestPayload::Detach => SessionMessageReply::Detach(
                    SessionMessageDetachReply::Done,
                ),
            },
        ),
        RpcEvent::ServeFailed => RpcAction::Fail(TaskError::Resize),
        RpcEvent::ReplyFailed => RpcAction::Fail(TaskError::SendReply),
    }
}

} // verus!
