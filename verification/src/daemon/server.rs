//! The session table and the decisions that the daemon takes for each
//! connection.

use crate::config::{is_set, spool_lines, Config, SessionRestoreMode, UserInfo};
use crate::daemon::exit_notify::ExitNotifier;
use crate::daemon::spawn::{
    chosen_shell, path_file_name, shell_args, shell_env, spawn_subshell, SpawnError, SpawnPlan,
};
use crate::daemon::shell::{Fork, ReaderTask, Session, SessionInner, SessionInnerView, SessionView};
use crate::daemon::ttl_reaper::{
    due_entries, entry_names, waiting_entries, ReapEntryView, TtlReaper,
};
use crate::protocol::{
    AttachHeader, AttachStatus, ConnectHeader, DetachReply, DetachRequest, KillReply, KillRequest,
    ListReply, ResizeReply,
    SessionMessageDetachReply, SessionMessageReply, SessionMessageRequest,
    SessionMessageRequestPayload, TtySize,
};
use crate::seqs::lemma_filter_take_next;
use vstd::pervasive::unreached;
use vstd::prelude::*;

verus! {

/// Whether `table` holds a session called `name`.
pub open spec fn has_session(table: Seq<SessionView>, name: Seq<char>) -> bool {
    exists|i: int| 0 <= i < table.len() && (#[trigger] table[i]).name() == name
}

/// Where in `table` the session called `name` stands, if it holds one.
pub open spec fn index_of(table: Seq<SessionView>, name: Seq<char>) -> int {
    choose|i: int| 0 <= i < table.len() && (#[trigger] table[i]).name() == name
}

/// No two sessions of `table` share a name.
pub open spec fn names_unique(table: Seq<SessionView>) -> bool {
    forall|i: int, j: int|
        0 <= i < j < table.len() ==> (#[trigger] table[i]).name() != (#[trigger] table[j]).name()
}

/// A table is well formed when its names are unique and each session is well
/// formed.
pub open spec fn table_wf(table: Seq<SessionView>) -> bool {
    &&& names_unique(table)
    &&& forall|i: int| 0 <= i < table.len() ==> (#[trigger] table[i]).wf()
}

/// In a table with unique names, a session found under a name is the one
/// that `index_of` gives.
pub proof fn lemma_index_of(table: Seq<SessionView>, i: int)
    requires
        names_unique(table),
        0 <= i < table.len(),
    ensures
        has_session(table, table[i].name()),
        index_of(table, table[i].name()) == i,
{
    let j = index_of(table, table[i].name());
    assert(0 <= j < table.len() && table[j].name() == table[i].name());
    if j < i {
        assert(table[j].name() != table[i].name());
    } else if i < j {
        assert(table[i].name() != table[j].name());
    }
}

/// What the daemon got from starting a subshell.
#[derive(Clone, Copy, Debug, PartialEq, Eq, Structural)]
pub struct Spawned {
    /// The process id of the new shell.
    pub child_pid: i32,
    /// The master descriptor of its pseudo-terminal.
    pub master: i32,
    /// When it was started, in milliseconds since the Unix epoch.
    pub started_at: i64,
}

/// What an attach request will lead to, judged from the table alone.
#[derive(Clone, Copy, Debug, PartialEq, Eq, Structural)]
pub enum AttachDecision {
    /// A subshell has to be started: the name is free, or its shell is gone.
    Create,
    /// The client can take over the running session.
    Reattach,
    /// Another client holds the session.
    Busy,
    /// The session's reader ended with an error, which is passed on.
    ReaderFailed,
}

/// Why an attach request got no reply.
#[derive(Clone, Copy, Debug, PartialEq, Eq, Structural)]
pub enum AttachError {
    /// A subshell was needed and none could be started.
    NoSubshell,
    /// The reader of the session that was to be replaced had failed.
    ReaderFailed,
}

/// How an attach request ended, without the warnings that ride along.
#[derive(Clone, Copy, Debug, PartialEq, Eq, Structural)]
pub enum AttachOutcome {
    Busy,
    Attached,
    Created,
    Failed(AttachError),
}

/// What an attach request for `name` will lead to in `table`.
pub open spec fn attach_decision(table: Seq<SessionView>, name: Seq<char>) -> AttachDecision {
    if !has_session(table, name) {
        AttachDecision::Create
    } else {
        let session = table[index_of(table, name)];
        if session.holder is Some {
            AttachDecision::Busy
        } else if session.inner.reader is Failed {
            AttachDecision::ReaderFailed
        } else if session.exit_status is Some || session.inner.reader is Finished {
            AttachDecision::Create
        } else {
            AttachDecision::Reattach
        }
    }
}

/// How an attach request for `name` ends: a needed subshell is there in
/// `spawned`, or the request fails.
pub open spec fn attach_outcome(
    table: Seq<SessionView>,
    name: Seq<char>,
    spawned: Option<Spawned>,
) -> AttachOutcome {
    match attach_decision(table, name) {
        AttachDecision::Busy => AttachOutcome::Busy,
        AttachDecision::Reattach => AttachOutcome::Attached,
        AttachDecision::ReaderFailed => AttachOutcome::Failed(AttachError::ReaderFailed),
        AttachDecision::Create => if spawned is Some {
            AttachOutcome::Created
        } else {
            AttachOutcome::Failed(AttachError::NoSubshell)
        },
    }
}

/// The session that stands in the table once `conn` has created it.
pub open spec fn fresh_session(
    conn: usize,
    name: Seq<char>,
    tty_size: TtySize,
    spawned: Spawned,
) -> SessionView {
    SessionView {
        started_at: spawned.started_at,
        child_pid: spawned.child_pid,
        exit_status: None,
        holder: Some(conn),
        inner: SessionInnerView {
            name,
            pty_master: Fork::Parent { child_pid: spawned.child_pid, master: spawned.master },
            client_stream: Some(conn),
            tty_size,
            reader: ReaderTask::Running,
        },
    }
}

/// The session `session` once `conn` has taken it over.
pub open spec fn taken_over(session: SessionView, conn: usize) -> SessionView {
    SessionView {
        holder: Some(conn),
        inner: SessionInnerView { client_stream: Some(conn), ..session.inner },
        ..session
    }
}

/// The table after an attach request of `conn` for `name`.
pub open spec fn table_after_attach(
    table: Seq<SessionView>,
    conn: usize,
    name: Seq<char>,
    tty_size: TtySize,
    spawned: Option<Spawned>,
) -> Seq<SessionView> {
    match attach_outcome(table, name, spawned) {
        AttachOutcome::Attached => {
            let i = index_of(table, name);
            table.update(i, taken_over(table[i], conn))
        },
        AttachOutcome::Created => {
            let session = fresh_session(conn, name, tty_size, spawned->0);
            if has_session(table, name) {
                table.update(index_of(table, name), session)
            } else {
                table.push(session)
            }
        },
        _ => table,
    }
}

/// The deadlines after an attach request: a session that was created with a
/// time to live is registered, and nothing else changes.
pub open spec fn pending_after_attach(
    pending: Seq<ReapEntryView>,
    outcome: AttachOutcome,
    name: Seq<char>,
    ttl_secs: Option<u64>,
    now: u64,
) -> Seq<ReapEntryView> {
    if outcome == AttachOutcome::Created && ttl_secs is Some {
        pending.push(ReapEntryView { name, deadline: now + ttl_secs->0 })
    } else {
        pending
    }
}

/// Whether `res` is the reply that `outcome` calls for, with `warnings`
/// handed on where the client gets a session.
pub open spec fn reply_matches(
    res: Result<AttachStatus, AttachError>,
    outcome: AttachOutcome,
    warnings: Vec<String>,
) -> bool {
    match outcome {
        AttachOutcome::Busy => res matches Ok(AttachStatus::Busy),
        AttachOutcome::Attached => res matches Ok(AttachStatus::Attached { warnings: w })
            && w == warnings,
        AttachOutcome::Created => res matches Ok(AttachStatus::Created { warnings: w })
            && w == warnings,
        AttachOutcome::Failed(e) => res == Err::<AttachStatus, AttachError>(e),
    }
}

/// The session `session` once the engine that served its client has ended.
pub open spec fn released(session: SessionView) -> SessionView {
    SessionView {
        holder: None,
        inner: SessionInnerView { client_stream: None, ..session.inner },
        ..session
    }
}

/// The table once the engine of connection `conn` has ended on the session
/// `name`. Where the shell has exited, the entry under that name leaves the
/// table. Where it lives on, the session is released if `conn` still holds it.
pub open spec fn table_after_finish(
    table: Seq<SessionView>,
    name: Seq<char>,
    conn: usize,
    child_done: bool,
) -> Seq<SessionView> {
    if !has_session(table, name) {
        table
    } else {
        let i = index_of(table, name);
        if child_done {
            table.remove(i)
        } else if table[i].holder == Some(conn) {
            table.update(i, released(table[i]))
        } else {
            table
        }
    }
}

/// Whether ending the engine on the session `name` has to pass on a failure
/// of that session's reader: it has, where the shell has exited and the
/// reader of the entry that leaves the table had failed.
pub open spec fn finish_fails(table: Seq<SessionView>, name: Seq<char>, child_done: bool) -> bool {
    child_done && has_session(table, name) && table[index_of(table, name)].inner.reader is Failed
}

/// The session `session` once its child was seen to exit with `status`: the
/// first status seen stays.
pub open spec fn exited(session: SessionView, status: i32) -> SessionView {
    SessionView {
        exit_status: if session.exit_status is Some {
            session.exit_status
        } else {
            Some(status)
        },
        ..session
    }
}

/// The table once the child `child_pid` of the session `name` was seen to
/// exit. A session of that name with another child is left alone.
pub open spec fn table_after_exit(
    table: Seq<SessionView>,
    name: Seq<char>,
    child_pid: i32,
    status: i32,
) -> Seq<SessionView> {
    if has_session(table, name) && table[index_of(table, name)].child_pid == child_pid {
        let i = index_of(table, name);
        table.update(i, exited(table[i], status))
    } else {
        table
    }
}

/// The session `session` once its reader has ended, with or without an
/// error. A reader that had ended before stays as it was.
pub open spec fn reader_ended(session: SessionView, failed: bool) -> SessionView {
    SessionView {
        inner: SessionInnerView {
            reader: if session.inner.reader is Running {
                if failed {
                    ReaderTask::Failed
                } else {
                    ReaderTask::Finished
                }
            } else {
                session.inner.reader
            },
            ..session.inner
        },
        ..session
    }
}

/// The table once the reader of the child `child_pid` of the session `name`
/// has ended.
pub open spec fn table_after_reader(
    table: Seq<SessionView>,
    name: Seq<char>,
    child_pid: i32,
    failed: bool,
) -> Seq<SessionView> {
    if has_session(table, name) && table[index_of(table, name)].child_pid == child_pid {
        let i = index_of(table, name);
        table.update(i, reader_ended(table[i], failed))
    } else {
        table
    }
}

/// The lines of a listing of `table`: each session's name and start, in the
/// table's order.
pub open spec fn listing(table: Seq<SessionView>) -> Seq<(Seq<char>, i64)> {
    table.map_values(|s: SessionView| (s.name(), s.started_at))
}

/// The lines of a list reply as pairs of name and start.
pub open spec fn lines_view(lines: Seq<crate::protocol::Session>) -> Seq<(Seq<char>, i64)> {
    lines.map_values(|s: crate::protocol::Session| (s.name@, s.started_at_unix_ms))
}

/// The session `session` once its client was told to leave: no client is
/// wired any more, while the engine that served it still holds the session
/// until it has ended.
pub open spec fn unwired(session: SessionView) -> SessionView {
    SessionView { inner: SessionInnerView { client_stream: None, ..session.inner }, ..session }
}

/// What a detach request has come to after some of its names.
pub struct DetachOutcome {
    /// The table as it stands.
    pub table: Seq<SessionView>,
    /// The names that were not in the table.
    pub not_found: Seq<Seq<char>>,
    /// The names of sessions that had no client.
    pub not_attached: Seq<Seq<char>>,
    /// The connections that were told to leave.
    pub disconnected: Seq<usize>,
}

/// Detaching the session `name` after `before`.
pub open spec fn detach_one(before: DetachOutcome, name: Seq<char>) -> DetachOutcome {
    if !has_session(before.table, name) {
        DetachOutcome { not_found: before.not_found.push(name), ..before }
    } else {
        let i = index_of(before.table, name);
        match before.table[i].inner.client_stream {
            None => DetachOutcome { not_attached: before.not_attached.push(name), ..before },
            Some(conn) => DetachOutcome {
                table: before.table.update(i, unwired(before.table[i])),
                disconnected: before.disconnected.push(conn),
                ..before
            },
        }
    }
}

/// Detaching the sessions `names` from `table`, one after the other.
pub open spec fn detach_all(table: Seq<SessionView>, names: Seq<Seq<char>>) -> DetachOutcome
    decreases names.len(),
{
    if names.len() == 0 {
        DetachOutcome {
            table,
            not_found: Seq::empty(),
            not_attached: Seq::empty(),
            disconnected: Seq::empty(),
        }
    } else {
        detach_one(detach_all(table, names.drop_last()), names.last())
    }
}

/// What the caller of a session message has to do to the session's engine.
#[derive(Clone, Copy, Debug, PartialEq, Eq, Structural)]
pub enum SessionAction {
    /// Nothing.
    Nothing,
    /// Give the terminal behind the descriptor `master` the geometry `tty_size`.
    Resize { master: i32, tty_size: TtySize },
    /// Tell the client on connection `conn` to leave.
    Disconnect { conn: usize },
}

/// The session `session` with the geometry `tty_size`.
pub open spec fn resized(session: SessionView, tty_size: TtySize) -> SessionView {
    SessionView { inner: SessionInnerView { tty_size, ..session.inner }, ..session }
}

/// The table after a message for the session `name`.
pub open spec fn table_after_message(
    table: Seq<SessionView>,
    name: Seq<char>,
    payload: SessionMessageRequestPayload,
) -> Seq<SessionView> {
    if !has_session(table, name) {
        table
    } else {
        let i = index_of(table, name);
        match payload {
            SessionMessageRequestPayload::Resize(req) => table.update(
                i,
                resized(table[i], req.tty_size),
            ),
            SessionMessageRequestPayload::Detach => table.update(i, unwired(table[i])),
        }
    }
}

/// The reply to a message for the session `name`.
pub open spec fn message_reply(
    table: Seq<SessionView>,
    name: Seq<char>,
    payload: SessionMessageRequestPayload,
) -> SessionMessageReply {
    if !has_session(table, name) {
        SessionMessageReply::NotFound
    } else {
        match payload {
            SessionMessageRequestPayload::Resize(_) => SessionMessageReply::Resize(
                ResizeReply::Done,
            ),
            SessionMessageRequestPayload::Detach => SessionMessageReply::Detach(
                SessionMessageDetachReply::Done,
            ),
        }
    }
}

/// What a message for the session `name` asks of that session's engine.
pub open spec fn message_action(
    table: Seq<SessionView>,
    name: Seq<char>,
    payload: SessionMessageRequestPayload,
) -> SessionAction {
    if !has_session(table, name) {
        SessionAction::Nothing
    } else {
        let session = table[index_of(table, name)];
        match payload {
            SessionMessageRequestPayload::Resize(req) => SessionAction::Resize {
                master: session.inner.pty_master->master,
                tty_size: req.tty_size,
            },
            SessionMessageRequestPayload::Detach => match session.inner.client_stream {
                Some(conn) => SessionAction::Disconnect { conn },
                None => SessionAction::Nothing,
            },
        }
    }
}

/// The test whether a session bears one of `names`.
pub open spec fn named(names: Seq<Seq<char>>) -> spec_fn(SessionView) -> bool {
    |s: SessionView| names.contains(s.name())
}

/// The test whether a session bears none of `names`.
pub open spec fn not_named(names: Seq<Seq<char>>) -> spec_fn(SessionView) -> bool {
    |s: SessionView| !names.contains(s.name())
}

/// The test whether `table` lacks a session of a given name.
pub open spec fn absent_from(table: Seq<SessionView>) -> spec_fn(Seq<char>) -> bool {
    |name: Seq<char>| !has_session(table, name)
}

/// The test whether `table` holds a session of a given name.
pub open spec fn present_in(table: Seq<SessionView>) -> spec_fn(Seq<char>) -> bool {
    |name: Seq<char>| has_session(table, name)
}

/// The process ids of the subshells of `sessions`, in their order.
pub open spec fn child_pids(sessions: Seq<SessionView>) -> Seq<i32> {
    sessions.map_values(|s: SessionView| s.child_pid)
}

/// The process ids that a kill request for `names` has to terminate: for
/// each name that is in the table, in the order of the request, the id of its
/// subshell.
pub open spec fn kill_targets(table: Seq<SessionView>, names: Seq<Seq<char>>) -> Seq<i32> {
    names.filter(present_in(table)).map_values(
        |name: Seq<char>| table[index_of(table, name)].child_pid,
    )
}

/// Why a peer is not served.
#[derive(Clone, Copy, Debug, PartialEq, Eq, Structural)]
pub enum PeerError {
    /// The socket did not tell who is at its other end.
    NoCredentials,
    /// The peer runs as another user than the daemon.
    UidMismatch,
    /// The program of the peer could not be found out.
    NoPeerExe,
    /// The program of the daemon itself could not be found out.
    NoSelfExe,
}

/// The warning for a client that is another program than the daemon.
pub open spec fn binary_differs_warning() -> Seq<char> {
    "attach binary differs from daemon binary"@
}

/// What the check of a peer comes to. Only a peer of the daemon's own user
/// is served; one that is another program than the daemon is served with a
/// warning.
pub open spec fn peer_verdict(
    peer_uid: Option<u32>,
    self_uid: u32,
    peer_exe: Option<Seq<char>>,
    self_exe: Option<Seq<char>>,
) -> Result<Seq<Seq<char>>, PeerError> {
    if peer_uid is None {
        Err(PeerError::NoCredentials)
    } else if peer_uid != Some(self_uid) {
        Err(PeerError::UidMismatch)
    } else if peer_exe is None {
        Err(PeerError::NoPeerExe)
    } else if self_exe is None {
        Err(PeerError::NoSelfExe)
    } else if peer_exe != self_exe {
        Ok(seq![binary_differs_warning()])
    } else {
        Ok(Seq::empty())
    }
}

/// Checks who dialled in: `peer_uid` is the user at the other end of the
/// socket, where the socket told, and the two paths are the programs of the
/// peer and of the daemon, where they could be found out.
pub fn check_peer(
    peer_uid: Option<u32>,
    self_uid: u32,
    peer_exe: Option<&str>,
    self_exe: Option<&str>,
) -> (res: Result<Vec<String>, PeerError>)
    ensures
        match res {
            Ok(warnings) => peer_verdict(
                peer_uid,
                self_uid,
                peer_exe.deep_view(),
                self_exe.deep_view(),
            ) == Ok::<Seq<Seq<char>>, PeerError>(warnings.deep_view()),
            Err(e) => peer_verdict(peer_uid, self_uid, peer_exe.deep_view(), self_exe.deep_view())
                == Err::<Seq<Seq<char>>, PeerError>(e),
        },
{
    let uid = match peer_uid {
        None => {
            return Err(PeerError::NoCredentials);
        },
        Some(uid) => uid,
    };
    if uid != self_uid {
        return Err(PeerError::UidMismatch);
    }
    let peer = match peer_exe {
        None => {
            return Err(PeerError::NoPeerExe);
        },
        Some(p) => p,
    };
    let own = match self_exe {
        None => {
            return Err(PeerError::NoSelfExe);
        },
        Some(p) => p,
    };
    let mut warnings: Vec<String> = Vec::new();
    let a = peer.to_owned();
    let b = own.to_owned();
    if a != b {
        warnings.push("attach binary differs from daemon binary".to_owned());
        assert(warnings.deep_view() =~= seq![binary_differs_warning()]);
    } else {
        assert(warnings.deep_view() =~= Seq::<Seq<char>>::empty());
    }
    Ok(warnings)
}

impl PeerError {
    /// The reason given to a peer that is refused.
    pub open spec fn spec_message(self) -> Seq<char> {
        match self {
            PeerError::NoCredentials => "could not get peer creds from socket"@,
            PeerError::UidMismatch => "shpool prohibits connections across users"@,
            PeerError::NoPeerExe => "could not resolve exe from the pid"@,
            PeerError::NoSelfExe => "could not resolve our own exe"@,
        }
    }

    /// The reason given to a peer that is refused.
    pub fn message(&self) -> (text: String)
        ensures
            text@ == self.spec_message(),
    {
        match self {
            PeerError::NoCredentials => "could not get peer creds from socket".to_owned(),
            PeerError::UidMismatch => "shpool prohibits connections across users".to_owned(),
            PeerError::NoPeerExe => "could not resolve exe from the pid".to_owned(),
            PeerError::NoSelfExe => "could not resolve our own exe".to_owned(),
        }
    }
}

/// What is done with a connection once its header is read and its peer
/// checked.
#[derive(Clone, Debug)]
pub enum ConnAction {
    /// Answer the attach request with `Forbidden` and this reason, close
    /// the connection and give up on it with `error`.
    Forbid { reason: String, error: PeerError },
    /// Close the connection without an answer and give up on it.
    Close(PeerError),
    /// Serve the attach request, handing the warnings on.
    Attach { header: AttachHeader, warnings: Vec<String> },
    /// Serve the detach request.
    Detach(DetachRequest),
    /// Serve the kill request.
    Kill(KillRequest),
    /// Serve the list request.
    List,
    /// Serve the message for one session.
    SessionMessage(SessionMessageRequest),
}

/// Whether `action` is what is done with a connection that sent `header`
/// and whose peer was judged `peer`. A peer that is refused gets an answer
/// only to an attach request; every other connection of such a peer is
/// closed without one. A peer that is let in has its request served.
pub open spec fn routed(
    action: ConnAction,
    header: ConnectHeader,
    peer: Result<Vec<String>, PeerError>,
) -> bool {
    match peer {
        Err(e) => if header is Attach {
            action matches ConnAction::Forbid { reason, error } && reason@ == e.spec_message()
                && error == e
        } else {
            action matches ConnAction::Close(error) && error == e
        },
        Ok(warnings) => match header {
            ConnectHeader::Attach(h) => action matches ConnAction::Attach {
                header: h2,
                warnings: w2,
            } && h2 == h && w2 == warnings,
            ConnectHeader::Detach(r) => action matches ConnAction::Detach(r2) && r2 == r,
            ConnectHeader::Kill(r) => action matches ConnAction::Kill(r2) && r2 == r,
            ConnectHeader::List => action is List,
            ConnectHeader::SessionMessage(m) => action matches ConnAction::SessionMessage(m2)
                && m2 == m,
        },
    }
}

/// Decides what is done with a connection, from the header it sent and the
/// verdict on its peer.
pub fn handle_conn(header: ConnectHeader, peer: Result<Vec<String>, PeerError>) -> (action:
    ConnAction)
    ensures
        routed(action, header, peer),
{
    match peer {
        Err(e) => match header {
            ConnectHeader::Attach(_) => ConnAction::Forbid { reason: e.message(), error: e },
            _ => ConnAction::Close(e),
        },
        Ok(warnings) => match header {
            ConnectHeader::Attach(h) => ConnAction::Attach { header: h, warnings },
            ConnectHeader::Detach(r) => ConnAction::Detach(r),
            ConnectHeader::Kill(r) => ConnAction::Kill(r),
            ConnectHeader::List => ConnAction::List,
            ConnectHeader::SessionMessage(m) => ConnAction::SessionMessage(m),
        },
    }
}

/// The daemon's state: the table of sessions, the pending deadlines, and the
/// number of connections accepted so far.
pub struct Server {
    config: Config,
    runtime_dir: String,
    shells: Vec<Session>,
    reaper: TtlReaper,
    conn_counter: usize,
}

/// What a `Server` is, over plain values.
pub struct ServerView {
    /// The sessions, in the order in which their names entered the table.
    pub sessions: Seq<SessionView>,
    /// The deadlines that are waited for.
    pub pending: Seq<ReapEntryView>,
    /// The number of the connection accepted last.
    pub conn_counter: usize,
}

impl View for Server {
    type V = ServerView;

    closed spec fn view(&self) -> ServerView {
        ServerView {
            sessions: self.shells@.map_values(|s: Session| s@),
            pending: self.reaper@,
            conn_counter: self.conn_counter,
        }
    }
}

impl Server {
    /// The table of a server is well formed. Every function of the server
    /// keeps it so.
    pub open spec fn wf(&self) -> bool {
        table_wf(self@.sessions)
    }

    /// The settings that the server was made with, and its runtime
    /// directory. No function of the server changes them.
    pub closed spec fn settings(&self) -> (Config, String) {
        (self.config, self.runtime_dir)
    }

    /// A daemon with no session, no deadline and no connection yet.
    pub fn new(config: Config, runtime_dir: String) -> (server: Server)
        ensures
            server.wf(),
            server.settings() == (config, runtime_dir),
            server@.sessions == Seq::<SessionView>::empty(),
            server@.pending == Seq::<ReapEntryView>::empty(),
            server@.conn_counter == 0,
    {
        let server = Server {
            config,
            runtime_dir,
            shells: Vec::new(),
            reaper: TtlReaper::new(),
            conn_counter: 0,
        };
        assert(server@.sessions =~= Seq::<SessionView>::empty());
        server
    }

    /// The settings that the server was made with.
    pub fn config(&self) -> (config: &Config)
        ensures
            *config == self.settings().0,
    {
        &self.config
    }

    /// The directory below which the daemon keeps its files.
    pub fn runtime_dir(&self) -> (dir: &String)
        ensures
            *dir == self.settings().1,
    {
        &self.runtime_dir
    }

    /// The session called `name`, if the table holds one.
    pub fn session(&self, name: &str) -> (found: Option<&Session>)
        requires
            self.wf(),
        ensures
            found is Some <==> has_session(self@.sessions, name@),
            found matches Some(session) ==> session@ == self@.sessions[index_of(
                self@.sessions,
                name@,
            )],
    {
        match self.position(name) {
            None => None,
            Some(i) => {
                assert(self@.sessions[i as int] == self.shells[i as int]@);
                Some(&self.shells[i])
            },
        }
    }

    /// How many sessions the table holds.
    pub fn len(&self) -> (n: usize)
        ensures
            n == self@.sessions.len(),
    {
        self.shells.len()
    }

    /// Plans the subshell of the session that `header` asks for, with the
    /// server's settings.
    pub fn spawn_subshell(
        &self,
        header: &AttachHeader,
        user: &UserInfo,
        xdg_runtime_dir: Option<&str>,
        etc_environment: Option<&Vec<(String, String)>>,
    ) -> (res: Result<SpawnPlan, SpawnError>)
        ensures
            res is Err <==> path_file_name(chosen_shell(self.settings().0, *user)) is None,
            res matches Ok(plan) ==> {
                &&& plan.shell@ == chosen_shell(self.settings().0, *user)
                &&& plan.arg0@ == "-"@ + path_file_name(
                    chosen_shell(self.settings().0, *user),
                )->0
                &&& plan.args.deep_view() == shell_args(
                    self.settings().0.norc,
                    chosen_shell(self.settings().0, *user),
                )
                &&& plan.dir@ == user.home_dir@
                &&& plan.env.deep_view() == shell_env(
                    self.settings().0,
                    self.settings().1@,
                    *header,
                    *user,
                    xdg_runtime_dir.deep_view(),
                    etc_environment.deep_view(),
                )
                &&& plan.noecho == is_set(self.settings().0.noecho)
                &&& plan.spool_lines == spool_lines(
                    self.settings().0.output_spool_lines,
                    self.settings().0.session_restore_mode,
                )
                &&& plan.restore_mode == match self.settings().0.session_restore_mode {
                    Some(m) => m,
                    None => SessionRestoreMode::Screen,
                }
                &&& plan.tty_size == header.local_tty_size
                &&& plan.ttl_secs == header.ttl_secs
            },
    {
        spawn_subshell(
            &self.config,
            self.runtime_dir.as_str(),
            header,
            user,
            xdg_runtime_dir,
            etc_environment,
        )
    }

    /// Where the session called `name` stands in the table.
    fn position(&self, name: &str) -> (pos: Option<usize>)
        requires
            self.wf(),
        ensures
            pos is Some <==> has_session(self@.sessions, name@),
            pos is Some ==> pos->0 == index_of(self@.sessions, name@) && pos->0
                < self.shells.len(),
    {
        let wanted = name.to_owned();
        let mut i: usize = 0;
        while i < self.shells.len()
            invariant
                i <= self.shells.len(),
                wanted@ == name@,
                self@.sessions.len() == self.shells.len(),
                names_unique(self@.sessions),
                forall|j: int| 0 <= j < i ==> (#[trigger] self@.sessions[j]).name() != name@,
            decreases self.shells.len() - i,
        {
            if self.shells[i].inner.name == wanted {
                proof {
                    assert(self@.sessions[i as int].name() == name@);
                    lemma_index_of(self@.sessions, i as int);
                }
                return Some(i);
            }
            i += 1;
        }
        None
    }

    /// What an attach request for `name` would lead to now. A caller starts a
    /// subshell only where the answer is `Create`.
    pub fn attach_decision(&self, name: &str) -> (decision: AttachDecision)
        requires
            self.wf(),
        ensures
            decision == attach_decision(self@.sessions, name@),
    {
        match self.position(name) {
            None => AttachDecision::Create,
            Some(i) => {
                let session = &self.shells[i];
                assert(self@.sessions[i as int] == session@);
                if session.holder.is_some() {
                    AttachDecision::Busy
                } else {
                    match session.inner.reader {
                        ReaderTask::Failed => AttachDecision::ReaderFailed,
                        ReaderTask::Finished => AttachDecision::Create,
                        ReaderTask::Running => if session.child_exit_notifier.wait().is_some() {
                            AttachDecision::Create
                        } else {
                            AttachDecision::Reattach
                        },
                    }
                }
            },
        }
    }

    /// Serves an attach request of connection `conn_id`, in one step over the
    /// table. A session that another client holds answers `Busy` and stays
    /// as it is. A running session that nobody holds is taken over and keeps
    /// its shell. A free name, and a name whose shell has exited or whose
    /// reader has ended, gets the subshell in `spawned`, registered with the
    /// time to live that the header asks for; with no subshell at hand the
    /// request fails and nothing changes.
    pub fn handle_attach(
        &mut self,
        conn_id: usize,
        header: &AttachHeader,
        warnings: Vec<String>,
        spawned: Option<Spawned>,
        now: u64,
    ) -> (res: Result<AttachStatus, AttachError>)
        requires
            old(self).wf(),
        ensures
            final(self).wf(),
            reply_matches(
                res,
                attach_outcome(old(self)@.sessions, header.name@, spawned),
                warnings,
            ),
            final(self)@.sessions == table_after_attach(
                old(self)@.sessions,
                conn_id,
                header.name@,
                header.local_tty_size,
                spawned,
            ),
            final(self)@.pending == pending_after_attach(
                old(self)@.pending,
                attach_outcome(old(self)@.sessions, header.name@, spawned),
                header.name@,
                header.ttl_secs,
                now,
            ),
            final(self)@.conn_counter == old(self)@.conn_counter,
            final(self).settings() == old(self).settings(),
    {
        let ghost table = self@.sessions;
        let decision = self.attach_decision(header.name.as_str());
        match decision {
            AttachDecision::Busy => Ok(AttachStatus::Busy),
            AttachDecision::ReaderFailed => Err(AttachError::ReaderFailed),
            AttachDecision::Reattach => {
                let pos = self.position(header.name.as_str());
                let i = pos.unwrap();
                let mut session = self.shells.remove(i);
                assert(session@ == table[i as int]);
                session.holder = Some(conn_id);
                session.inner.client_stream = Some(conn_id);
                proof {
                    let rest = self@.sessions;
                    assert(rest =~= table.remove(i as int));
                    assert(table_wf(rest));
                }
                self.shells.insert(i, session);
                proof {
                    let after = self@.sessions;
                    assert(after =~= table.update(i as int, taken_over(table[i as int], conn_id)));
                }
                Ok(AttachStatus::Attached { warnings })
            },
            AttachDecision::Create => match spawned {
                None => Err(AttachError::NoSubshell),
                Some(sp) => {
                    let session = Session {
                        started_at: sp.started_at,
                        child_pid: sp.child_pid,
                        child_exit_notifier: ExitNotifier::new(),
                        holder: Some(conn_id),
                        inner: SessionInner {
                            name: header.name.clone(),
                            pty_master: Fork::Parent { child_pid: sp.child_pid, master: sp.master },
                            client_stream: Some(conn_id),
                            tty_size: header.local_tty_size,
                            reader: ReaderTask::Running,
                        },
                    };
                    assert(session@ == fresh_session(
                        conn_id,
                        header.name@,
                        header.local_tty_size,
                        sp,
                    ));
                    match self.position(header.name.as_str()) {
                        Some(i) => {
                            let _old = self.shells.remove(i);
                            proof {
                                assert(self@.sessions =~= table.remove(i as int));
                            }
                            self.shells.insert(i, session);
                            proof {
                                assert(self@.sessions =~= table.update(i as int, session@));
                            }
                        },
                        None => {
                            self.shells.push(session);
                            proof {
                                assert(self@.sessions =~= table.push(session@));
                            }
                        },
                    }
                    match header.ttl_secs {
                        Some(ttl_secs) => {
                            self.reaper.register(header.name.clone(), now, ttl_secs);
                        },
                        None => {},
                    }
                    Ok(AttachStatus::Created { warnings })
                },
            },
        }
    }

    /// Takes note of one turn of the accept loop. An accepted connection gets
    /// the next number, counted from 1; a failed accept gets none and changes
    /// nothing. No number is given out twice: when the numbers have run out,
    /// none is given.
    pub fn serve(&mut self, accepted: bool) -> (conn_id: Option<usize>)
        requires
            old(self).wf(),
        ensures
            final(self).wf(),
            final(self).settings() == old(self).settings(),
            final(self)@.sessions == old(self)@.sessions,
            final(self)@.pending == old(self)@.pending,
            accepted && old(self)@.conn_counter < usize::MAX ==> conn_id == Some(
                (old(self)@.conn_counter + 1) as usize,
            ) && final(self)@.conn_counter == old(self)@.conn_counter + 1,
            !(accepted && old(self)@.conn_counter < usize::MAX) ==> conn_id is None
                && final(self)@.conn_counter == old(self)@.conn_counter,
    {
        if accepted && self.conn_counter < usize::MAX {
            self.conn_counter = self.conn_counter + 1;
            Some(self.conn_counter)
        } else {
            None
        }
    }

    /// Takes note that the engine of connection `conn_id` has ended on the
    /// session `name`, and whether it found the shell exited. An exited shell's
    /// entry leaves the table, and a failure of its reader is passed on. A
    /// shell that lives on is released, so that the next client can take it
    /// over.
    pub fn finish_attach(&mut self, name: &str, conn_id: usize, child_done: bool) -> (res: Result<
        (),
        AttachError,
    >)
        requires
            old(self).wf(),
        ensures
            final(self).wf(),
            final(self)@.sessions == table_after_finish(
                old(self)@.sessions,
                name@,
                conn_id,
                child_done,
            ),
            final(self)@.pending == old(self)@.pending,
            final(self)@.conn_counter == old(self)@.conn_counter,
            final(self).settings() == old(self).settings(),
            finish_fails(old(self)@.sessions, name@, child_done) ==> res == Err::<
                (),
                AttachError,
            >(AttachError::ReaderFailed),
            !finish_fails(old(self)@.sessions, name@, child_done) ==> res is Ok,
    {
        let ghost table = self@.sessions;
        match self.position(name) {
            None => Ok(()),
            Some(i) => {
                assert(self@.sessions[i as int] == self.shells[i as int]@);
                if child_done {
                    let gone = self.shells.remove(i);
                    proof {
                        assert(self@.sessions =~= table.remove(i as int));
                    }
                    match gone.inner.reader {
                        ReaderTask::Failed => Err(AttachError::ReaderFailed),
                        _ => Ok(()),
                    }
                } else {
                    let held = match self.shells[i].holder {
                        Some(c) => c == conn_id,
                        None => false,
                    };
                    if held {
                        let mut session = self.shells.remove(i);
                        session.holder = None;
                        session.inner.client_stream = None;
                        proof {
                            assert(self@.sessions =~= table.remove(i as int));
                        }
                        self.shells.insert(i, session);
                        proof {
                            assert(self@.sessions =~= table.update(
                                i as int,
                                released(table[i as int]),
                            ));
                        }
                    }
                    Ok(())
                }
            },
        }
    }

    /// Takes note that the child `child_pid` of the session `name` has exited
    /// with `status`. The first status seen of a child stays.
    pub fn notify_exit(&mut self, name: &str, child_pid: i32, status: i32)
        requires
            old(self).wf(),
        ensures
            final(self).wf(),
            final(self)@.sessions == table_after_exit(
                old(self)@.sessions,
                name@,
                child_pid,
                status,
            ),
            final(self)@.pending == old(self)@.pending,
            final(self)@.conn_counter == old(self)@.conn_counter,
            final(self).settings() == old(self).settings(),
    {
        let ghost table = self@.sessions;
        match self.position(name) {
            None => {},
            Some(i) => {
                assert(self@.sessions[i as int] == self.shells[i as int]@);
                if self.shells[i].child_pid == child_pid {
                    let mut session = self.shells.remove(i);
                    session.child_exit_notifier.notify_exit(status);
                    proof {
                        assert(self@.sessions =~= table.remove(i as int));
                    }
                    self.shells.insert(i, session);
                    proof {
                        assert(self@.sessions =~= table.update(
                            i as int,
                            exited(table[i as int], status),
                        ));
                    }
                }
            },
        }
    }

    /// Takes note that the reader of the child `child_pid` of the session
    /// `name` has ended, and whether with an error.
    pub fn reader_done(&mut self, name: &str, child_pid: i32, failed: bool)
        requires
            old(self).wf(),
        ensures
            final(self).wf(),
            final(self)@.sessions == table_after_reader(
                old(self)@.sessions,
                name@,
                child_pid,
                failed,
            ),
            final(self)@.pending == old(self)@.pending,
            final(self)@.conn_counter == old(self)@.conn_counter,
            final(self).settings() == old(self).settings(),
    {
        let ghost table = self@.sessions;
        match self.position(name) {
            None => {},
            Some(i) => {
                assert(self@.sessions[i as int] == self.shells[i as int]@);
                if self.shells[i].child_pid == child_pid {
                    let mut session = self.shells.remove(i);
                    match session.inner.reader {
                        ReaderTask::Running => {
                            session.inner.reader = if failed {
                                ReaderTask::Failed
                            } else {
                                ReaderTask::Finished
                            };
                        },
                        _ => {},
                    }
                    proof {
                        assert(self@.sessions =~= table.remove(i as int));
                    }
                    self.shells.insert(i, session);
                    proof {
                        assert(self@.sessions =~= table.update(
                            i as int,
                            reader_ended(table[i as int], failed),
                        ));
                    }
                }
            },
        }
    }

    /// Lists the sessions of the table, each with its name and the time at
    /// which it was started.
    pub fn handle_list(&self) -> (reply: ListReply)
        requires
            self.wf(),
        ensures
            lines_view(reply.sessions@) == listing(self@.sessions),
    {
        let mut sessions: Vec<crate::protocol::Session> = Vec::new();
        let mut i: usize = 0;
        while i < self.shells.len()
            invariant
                i <= self.shells.len(),
                self@.sessions.len() == self.shells.len(),
                lines_view(sessions@) == listing(self@.sessions).take(i as int),
            decreases self.shells.len() - i,
        {
            let session = &self.shells[i];
            assert(self@.sessions[i as int] == session@);
            let ghost before = sessions@;
            let line = crate::protocol::Session {
                name: session.inner.name.clone(),
                started_at_unix_ms: session.started_at,
            };
            sessions.push(line);
            proof {
                let want = listing(self@.sessions);
                assert(lines_view(sessions@) =~= lines_view(before).push(want[i as int]));
                assert(want.take(i as int + 1) =~= want.take(i as int).push(want[i as int]));
            }
            i += 1;
        }
        assert(listing(self@.sessions).take(i as int) =~= listing(self@.sessions));
        ListReply { sessions }
    }

    /// Tells the client of one session to leave, if it has one.
    fn unwire(&mut self, i: usize) -> (conn: Option<usize>)
        requires
            old(self).wf(),
            i < old(self)@.sessions.len(),
        ensures
            final(self).wf(),
            conn == old(self)@.sessions[i as int].inner.client_stream,
            final(self)@.sessions == old(self)@.sessions.update(
                i as int,
                unwired(old(self)@.sessions[i as int]),
            ),
            final(self)@.pending == old(self)@.pending,
            final(self)@.conn_counter == old(self)@.conn_counter,
            final(self).settings() == old(self).settings(),
    {
        let ghost table = self@.sessions;
        let mut session = self.shells.remove(i);
        assert(session@ == table[i as int]);
        let conn = session.inner.client_stream;
        session.inner.client_stream = None;
        proof {
            assert(self@.sessions =~= table.remove(i as int));
        }
        self.shells.insert(i, session);
        proof {
            assert(self@.sessions =~= table.update(i as int, unwired(table[i as int])));
        }
        conn
    }

    /// Serves a detach request: goes through the names in their order and
    /// tells the client of each session found to leave. The reply names the
    /// sessions that are not in the table and those that had no client. The
    /// second result holds the connections to close, in the order of the
    /// request.
    pub fn handle_detach(&mut self, request: &DetachRequest) -> (res: (DetachReply, Vec<usize>))
        requires
            old(self).wf(),
        ensures
            final(self).wf(),
            ({
                let outcome = detach_all(old(self)@.sessions, request.sessions.deep_view());
                &&& final(self)@.sessions == outcome.table
                &&& res.0.not_found_sessions.deep_view() == outcome.not_found
                &&& res.0.not_attached_sessions.deep_view() == outcome.not_attached
                &&& res.1@ == outcome.disconnected
            }),
            final(self)@.pending == old(self)@.pending,
            final(self)@.conn_counter == old(self)@.conn_counter,
            final(self).settings() == old(self).settings(),
    {
        let ghost table = self@.sessions;
        let ghost names = request.sessions.deep_view();
        let mut not_found: Vec<String> = Vec::new();
        let mut not_attached: Vec<String> = Vec::new();
        let mut disconnected: Vec<usize> = Vec::new();
        let mut k: usize = 0;
        assert(names.take(0) =~= Seq::<Seq<char>>::empty());
        assert(not_found.deep_view() =~= Seq::<Seq<char>>::empty());
        assert(not_attached.deep_view() =~= Seq::<Seq<char>>::empty());
        while k < request.sessions.len()
            invariant
                k <= request.sessions.len(),
                names == request.sessions.deep_view(),
                self.wf(),
                self@.pending == old(self)@.pending,
                self@.conn_counter == old(self)@.conn_counter,
                self.settings() == old(self).settings(),
                ({
                    let outcome = detach_all(table, names.take(k as int));
                    &&& self@.sessions == outcome.table
                    &&& not_found.deep_view() == outcome.not_found
                    &&& not_attached.deep_view() == outcome.not_attached
                    &&& disconnected@ == outcome.disconnected
                }),
            decreases request.sessions.len() - k,
        {
            let name = &request.sessions[k];
            proof {
                assert(names.take(k as int + 1).drop_last() =~= names.take(k as int));
                assert(names.take(k as int + 1).last() == name@);
            }
            let ghost nf = not_found;
            let ghost na = not_attached;
            match self.position(name.as_str()) {
                None => {
                    not_found.push(name.clone());
                    assert(not_found.deep_view() =~= nf.deep_view().push(name@));
                },
                Some(i) => {
                    match self.unwire(i) {
                        None => {
                            proof {
                                let before = detach_all(table, names.take(k as int)).table;
                                assert(self@.sessions =~= before);
                            }
                            not_attached.push(name.clone());
                            assert(not_attached.deep_view() =~= na.deep_view().push(name@));
                        },
                        Some(conn) => {
                            disconnected.push(conn);
                        },
                    }
                },
            }
            k += 1;
        }
        assert(names.take(k as int) =~= names);
        (
            DetachReply { not_found_sessions: not_found, not_attached_sessions: not_attached },
            disconnected,
        )
    }

    /// Serves a message for one session. A session that is not in the table
    /// answers `NotFound` and nothing changes. A resize sets the session's
    /// geometry and asks the caller to apply it to the terminal, once. A
    /// detach tells the session's client to leave.
    pub fn handle_session_message(&mut self, request: &SessionMessageRequest) -> (res: (
        SessionMessageReply,
        SessionAction,
    ))
        requires
            old(self).wf(),
        ensures
            final(self).wf(),
            res.0 == message_reply(old(self)@.sessions, request.session_name@, request.payload),
            res.1 == message_action(old(self)@.sessions, request.session_name@, request.payload),
            final(self)@.sessions == table_after_message(
                old(self)@.sessions,
                request.session_name@,
                request.payload,
            ),
            final(self)@.pending == old(self)@.pending,
            final(self)@.conn_counter == old(self)@.conn_counter,
            final(self).settings() == old(self).settings(),
    {
        let ghost table = self@.sessions;
        match self.position(request.session_name.as_str()) {
            None => (SessionMessageReply::NotFound, SessionAction::Nothing),
            Some(i) => match request.payload {
                SessionMessageRequestPayload::Resize(req) => {
                    let mut session = self.shells.remove(i);
                    assert(session@ == table[i as int]);
                    proof {
                        assert(self@.sessions =~= table.remove(i as int));
                    }
                    let applied = session.inner.handle_resize_rpc(req);
                    let fd = session.inner.pty_master.is_parent();
                    self.shells.insert(i, session);
                    proof {
                        assert(self@.sessions =~= table.update(
                            i as int,
                            resized(table[i as int], req.tty_size),
                        ));
                    }
                    match (applied, fd) {
                        (Ok(reply), Some(master)) => (
                            SessionMessageReply::Resize(reply),
                            SessionAction::Resize { master, tty_size: req.tty_size },
                        ),
                        _ => unreached(),
                    }
                },
                SessionMessageRequestPayload::Detach => {
                    let action = match self.unwire(i) {
                        Some(conn) => SessionAction::Disconnect { conn },
                        None => SessionAction::Nothing,
                    };
                    (SessionMessageReply::Detach(SessionMessageDetachReply::Done), action)
                },
            },
        }
    }

    /// The process ids that the kill request has to terminate before the
    /// sessions leave the table. A name that the request holds twice gives its
    /// id twice.
    pub fn kill_targets(&self, request: &KillRequest) -> (pids: Vec<i32>)
        requires
            self.wf(),
        ensures
            pids@ == kill_targets(self@.sessions, request.sessions.deep_view()),
    {
        let ghost table = self@.sessions;
        let ghost names = request.sessions.deep_view();
        let ghost pid_of = |name: Seq<char>| table[index_of(table, name)].child_pid;
        let mut pids: Vec<i32> = Vec::new();
        let mut k: usize = 0;
        assert(names.take(0) =~= Seq::<Seq<char>>::empty());
        while k < request.sessions.len()
            invariant
                k <= request.sessions.len(),
                self.wf(),
                table == self@.sessions,
                names == request.sessions.deep_view(),
                pid_of == |name: Seq<char>| table[index_of(table, name)].child_pid,
                pids@ == names.take(k as int).filter(present_in(table)).map_values(pid_of),
            decreases request.sessions.len() - k,
        {
            let name = &request.sessions[k];
            proof {
                lemma_filter_take_next(names, present_in(table), k as int);
                assert(names[k as int] == name@);
            }
            match self.position(name.as_str()) {
                None => {},
                Some(i) => {
                    assert(self@.sessions[i as int] == self.shells[i as int]@);
                    pids.push(self.shells[i].child_pid);
                    proof {
                        let found = names.take(k as int).filter(present_in(table));
                        assert(found.push(name@).map_values(pid_of) =~= found.map_values(
                            pid_of,
                        ).push(pid_of(name@)));
                    }
                },
            }
            k += 1;
        }
        assert(names.take(k as int) =~= names);
        pids
    }

    /// Takes the sessions that bear one of `names` out of the table and
    /// returns the process ids of their subshells, in the table's order.
    fn remove_named(&mut self, names: &Vec<String>) -> (pids: Vec<i32>)
        requires
            old(self).wf(),
        ensures
            final(self).wf(),
            final(self)@.sessions == old(self)@.sessions.filter(not_named(names.deep_view())),
            pids@ == child_pids(old(self)@.sessions.filter(named(names.deep_view()))),
            final(self)@.pending == old(self)@.pending,
            final(self)@.conn_counter == old(self)@.conn_counter,
            final(self).settings() == old(self).settings(),
    {
        let ghost table = self@.sessions;
        let ghost wanted = names.deep_view();
        let mut kept: Vec<Session> = Vec::new();
        let mut pids: Vec<i32> = Vec::new();
        let ghost mut j: int = 0;
        assert(table.take(0) =~= Seq::<SessionView>::empty());
        assert(table.skip(0) =~= table);
        assert(kept@.map_values(|s: Session| s@) =~= Seq::<SessionView>::empty());
        assert(Seq::<SessionView>::empty() + table =~= table);
        while self.shells.len() > 0
            invariant
                0 <= j <= table.len(),
                wanted == names.deep_view(),
                self@.sessions == table.skip(j),
                self@.pending == old(self)@.pending,
                self@.conn_counter == old(self)@.conn_counter,
                self.settings() == old(self).settings(),
                kept@.map_values(|s: Session| s@) == table.take(j).filter(not_named(wanted)),
                pids@ == child_pids(table.take(j).filter(named(wanted))),
                table_wf(kept@.map_values(|s: Session| s@) + table.skip(j)),
            decreases self.shells.len(),
        {
            let ghost rest = self@.sessions;
            let ghost kept_view = kept@.map_values(|s: Session| s@);
            let ghost shells_before = self.shells@;
            assert(rest.len() == shells_before.len());
            assert(rest[0] == shells_before[0]@);
            let session = self.shells.remove(0);
            proof {
                assert(session@ == table[j]);
                assert(self@.sessions =~= rest.remove(0));
                assert(self@.sessions =~= table.skip(j + 1));
                lemma_filter_take_next(table, not_named(wanted), j);
                lemma_filter_take_next(table, named(wanted), j);
            }
            if Self::names_contain(names, &session.inner.name) {
                pids.push(session.child_pid);
                proof {
                    let gone = table.take(j).filter(named(wanted));
                    assert(child_pids(gone.push(table[j])) =~= child_pids(gone).push(
                        table[j].child_pid,
                    ));
                    assert(kept_view + table.skip(j + 1) =~= (kept_view + table.skip(j)).remove(
                        kept_view.len() as int,
                    ));
                }
            } else {
                kept.push(session);
                proof {
                    assert(kept@.map_values(|s: Session| s@) =~= kept_view.push(table[j]));
                    assert(kept_view.push(table[j]) + table.skip(j + 1) =~= kept_view + table.skip(
                        j,
                    ));
                }
            }
            proof {
                j = j + 1;
            }
        }
        proof {
            assert(self@.sessions.len() == 0);
            assert(table.take(j) =~= table);
            assert(kept@.map_values(|s: Session| s@) + table.skip(j) =~= kept@.map_values(
                |s: Session| s@,
            ));
        }
        self.shells = kept;
        pids
    }

    /// Whether `names` holds the name `name`.
    fn names_contain(names: &Vec<String>, name: &String) -> (found: bool)
        ensures
            found == names.deep_view().contains(name@),
    {
        let mut k: usize = 0;
        while k < names.len()
            invariant
                k <= names.len(),
                forall|j: int| 0 <= j < k ==> (#[trigger] names.deep_view()[j]) != name@,
            decreases names.len() - k,
        {
            if names[k] == *name {
                assert(names.deep_view()[k as int] == name@);
                return true;
            }
            k += 1;
        }
        false
    }

    /// Serves a kill request: every session named in it leaves the table at
    /// once, whether a client is attached to it or not. The reply holds the
    /// names that were not in the table, in the order of the request.
    pub fn handle_kill(&mut self, request: &KillRequest) -> (reply: KillReply)
        requires
            old(self).wf(),
        ensures
            final(self).wf(),
            reply.not_found_sessions.deep_view() == request.sessions.deep_view().filter(
                absent_from(old(self)@.sessions),
            ),
            final(self)@.sessions == old(self)@.sessions.filter(
                not_named(request.sessions.deep_view()),
            ),
            final(self)@.pending == old(self)@.pending,
            final(self)@.conn_counter == old(self)@.conn_counter,
            final(self).settings() == old(self).settings(),
    {
        let ghost table = self@.sessions;
        let ghost names = request.sessions.deep_view();
        let mut not_found: Vec<String> = Vec::new();
        let mut k: usize = 0;
        assert(names.take(0) =~= Seq::<Seq<char>>::empty());
        assert(not_found.deep_view() =~= Seq::<Seq<char>>::empty());
        while k < request.sessions.len()
            invariant
                k <= request.sessions.len(),
                self.wf(),
                table == self@.sessions,
                names == request.sessions.deep_view(),
                not_found.deep_view() == names.take(k as int).filter(absent_from(table)),
            decreases request.sessions.len() - k,
        {
            let name = &request.sessions[k];
            proof {
                lemma_filter_take_next(names, absent_from(table), k as int);
                assert(names[k as int] == name@);
            }
            match self.position(name.as_str()) {
                None => {
                    let ghost before = not_found;
                    not_found.push(name.clone());
                    assert(not_found.deep_view() =~= before.deep_view().push(name@));
                },
                Some(_) => {},
            }
            k += 1;
        }
        assert(names.take(k as int) =~= names);
        let _pids = self.remove_named(&request.sessions);
        KillReply { not_found_sessions: not_found }
    }

    /// Ends what is due at `now`: every session whose deadline
    /// has been reached at `now` leaves the table, and its deadline is
    /// forgotten. A deadline whose session is no longer in the table is
    /// forgotten without any other effect. The result holds the process ids of
    /// the subshells to terminate, in the table's order.
    pub fn reap(&mut self, now: u64) -> (pids: Vec<i32>)
        requires
            old(self).wf(),
        ensures
            final(self).wf(),
            ({
                let due = entry_names(due_entries(old(self)@.pending, now));
                &&& final(self)@.sessions == old(self)@.sessions.filter(not_named(due))
                &&& pids@ == child_pids(old(self)@.sessions.filter(named(due)))
            }),
            final(self)@.pending == waiting_entries(old(self)@.pending, now),
            final(self)@.conn_counter == old(self)@.conn_counter,
            final(self).settings() == old(self).settings(),
    {
        let due = self.reaper.take_due(now);
        self.remove_named(&due)
    }
}

} // verus!
