//! The client's side of an attach: which names it accepts, what it sends,
//! how it reads the daemon's answer, and how often it tries again.

use crate::protocol::{
    AttachHeader, AttachStatus, ConnectHeader, DetachRequest, ResizeReply, ResizeRequest,
    SessionMessageReply, SessionMessageRequest, SessionMessageRequestPayload, TtySize,
};
use crate::seqs::lemma_filter_take_next;
use std::path::PathBuf;
use vstd::prelude::*;

verus! {

/// How often a forced attach tries again before it gives up.
pub const MAX_FORCE_RETRIES: usize = 20;

/// Whether `char::is_whitespace` holds of `c`.
pub uninterp spec fn is_whitespace(c: char) -> bool;

/// Calls `char::is_whitespace` on `c`. The contract gives the result its
/// name and claims nothing else of it.
#[verifier::external_body]
fn char_is_whitespace(c: char) -> (white: bool)
    ensures
        white == is_whitespace(c),
{
    c.is_whitespace()
}

/// Why a session name is not accepted.
#[derive(Clone, Copy, Debug, PartialEq, Eq, Structural)]
pub enum NameError {
    /// The name is empty.
    Blank,
    /// The name holds whitespace.
    Whitespace,
}

/// A session name is valid when it is not empty and holds no whitespace.
pub open spec fn valid_session_name(name: Seq<char>) -> bool {
    &&& name.len() > 0
    &&& forall|i: int| 0 <= i < name.len() ==> !is_whitespace(#[trigger] name[i])
}

/// What the check of a session name comes to.
pub open spec fn name_verdict(name: Seq<char>) -> Result<(), NameError> {
    if name.len() == 0 {
        Err(NameError::Blank)
    } else if valid_session_name(name) {
        Ok(())
    } else {
        Err(NameError::Whitespace)
    }
}

/// Checks a session name.
pub fn check_name(name: &str) -> (res: Result<(), NameError>)
    ensures
        res == name_verdict(name@),
        res is Ok <==> valid_session_name(name@),
{
    let len = name.unicode_len();
    if len == 0 {
        return Err(NameError::Blank);
    }
    let mut i: usize = 0;
    while i < len
        invariant
            i <= len,
            len == name@.len(),
            forall|j: int| 0 <= j < i ==> !is_whitespace(#[trigger] name@[j]),
        decreases len - i,
    {
        if char_is_whitespace(name.get_char(i)) {
            return Err(NameError::Whitespace);
        }
        i += 1;
    }
    Ok(())
}

/// How one attempt to attach ended.
#[derive(Clone, Copy, Debug, PartialEq, Eq, Structural)]
pub enum Attempt {
    /// The client was attached and its session has ended.
    Finished,
    /// The daemon answered that another client is attached.
    Busy,
    /// The attempt failed in any other way.
    Failed,
}

/// What the client does after an attempt.
#[derive(Clone, Copy, Debug, PartialEq, Eq, Structural)]
pub enum Next {
    /// Return without an error.
    Done,
    /// Tell the user that the session already has a terminal attached, and
    /// return without an error.
    ReportBusy,
    /// Ask the daemon to detach the session if `detach` says so, pause, and
    /// try again.
    Retry { detach: bool },
    /// Ask the daemon to detach the session if `detach` says so, pause, tell
    /// the user that the session stays attached, and return with an error.
    GiveUp { detach: bool },
    /// Return with the error of the attempt.
    Fail,
}

/// Where a client stands between its attempts to attach.
#[derive(Clone, Copy, Debug, PartialEq, Eq, Structural)]
pub struct AttachLoop {
    /// Whether the other client is to be pushed out.
    pub force: bool,
    /// Whether the daemon was already asked to detach the session.
    pub detached: bool,
    /// How often the client has tried again.
    pub tries: usize,
}

impl AttachLoop {
    /// What the client does after an attempt that ended as `attempt`. A busy
    /// session ends an attach that is not forced. A forced attach asks once
    /// for the other client to be detached, and tries again until it has
    /// tried again more than `MAX_FORCE_RETRIES` times.
    pub open spec fn spec_next(self, attempt: Attempt) -> (AttachLoop, Next) {
        match attempt {
            Attempt::Finished => (self, Next::Done),
            Attempt::Failed => (self, Next::Fail),
            Attempt::Busy => if !self.force {
                (self, Next::ReportBusy)
            } else if self.tries > MAX_FORCE_RETRIES {
                (AttachLoop { detached: true, ..self }, Next::GiveUp { detach: !self.detached })
            } else {
                (
                    AttachLoop { detached: true, tries: (self.tries + 1) as usize, ..self },
                    Next::Retry { detach: !self.detached },
                )
            },
        }
    }

    /// Takes note of an attempt and says what to do next.
    pub fn next(&mut self, attempt: Attempt) -> (next: Next)
        ensures
            (*final(self), next) == old(self).spec_next(attempt),
    {
        match attempt {
            Attempt::Finished => Next::Done,
            Attempt::Failed => Next::Fail,
            Attempt::Busy => {
                if !self.force {
                    return Next::ReportBusy;
                }
                let detach = !self.detached;
                self.detached = true;
                if self.tries > MAX_FORCE_RETRIES {
                    Next::GiveUp { detach }
                } else {
                    self.tries = self.tries + 1;
                    Next::Retry { detach }
                }
            },
        }
    }
}

/// How a run of the client begins.
#[derive(Clone, Copy, Debug, PartialEq, Eq, Structural)]
pub enum Start {
    /// The name is not accepted: tell the user why and return without an
    /// error.
    Refused(NameError),
    /// The time to live could not be read: return with an error.
    BadTtl,
    /// Attach, starting from this state, and ask for this time to live.
    Attach { state: AttachLoop, ttl_secs: Option<u64> },
}

/// How a run for the session `name` begins. `ttl` is `None` where no time to
/// live was asked for, and holds `None` where one was asked for that could
/// not be read as a number of seconds.
pub open spec fn spec_run(name: Seq<char>, force: bool, ttl: Option<Option<u64>>) -> Start {
    match name_verdict(name) {
        Err(e) => Start::Refused(e),
        Ok(()) => match ttl {
            Some(None) => Start::BadTtl,
            Some(Some(secs)) => Start::Attach {
                state: AttachLoop { force, detached: false, tries: 0 },
                ttl_secs: Some(secs),
            },
            None => Start::Attach {
                state: AttachLoop { force, detached: false, tries: 0 },
                ttl_secs: None,
            },
        },
    }
}

/// Begins a run of the client: the name is checked first, then the time to
/// live, and only then does the client attach.
pub fn run(name: &str, force: bool, ttl: Option<Option<u64>>) -> (start: Start)
    ensures
        start == spec_run(name@, force, ttl),
{
    match check_name(name) {
        Err(e) => Start::Refused(e),
        Ok(()) => match ttl {
            Some(None) => Start::BadTtl,
            Some(Some(secs)) => Start::Attach {
                state: AttachLoop { force, detached: false, tries: 0 },
                ttl_secs: Some(secs),
            },
            None => Start::Attach {
                state: AttachLoop { force, detached: false, tries: 0 },
                ttl_secs: None,
            },
        },
    }
}

/// Where a forced attach stands after it has found the session busy `n`
/// times in a row.
pub open spec fn after_busy(n: nat) -> AttachLoop
    decreases n,
{
    if n == 0 {
        AttachLoop { force: true, detached: false, tries: 0 }
    } else {
        after_busy((n - 1) as nat).spec_next(Attempt::Busy).0
    }
}

/// A forced attach is bounded. It asks for a detach the first time it finds
/// the session busy and never again; it tries again after each of the first
/// `MAX_FORCE_RETRIES + 1` busy answers, and gives up at the next.
pub proof fn lemma_forced_attach_is_bounded(n: nat)
    requires
        n <= MAX_FORCE_RETRIES + 1,
    ensures
        after_busy(n) == (AttachLoop { force: true, detached: n > 0, tries: n as usize }),
        after_busy(n).spec_next(Attempt::Busy).1 == if n <= MAX_FORCE_RETRIES {
            Next::Retry { detach: n == 0 }
        } else {
            Next::GiveUp { detach: false }
        },
    decreases n,
{
    if n > 0 {
        lemma_forced_attach_is_bounded((n - 1) as nat);
    }
}

/// The variables of its environment that a client always hands over.
pub open spec fn fixed_env_keys() -> Seq<Seq<char>> {
    seq!["TERM"@, "DISPLAY"@, "LANG"@, "SSH_AUTH_SOCK"@]
}

/// The variables that a client hands over: the fixed ones, then those that
/// the settings ask for.
pub open spec fn env_keys(forward_env: Option<Seq<Seq<char>>>) -> Seq<Seq<char>> {
    match forward_env {
        Some(more) => fixed_env_keys() + more,
        None => fixed_env_keys(),
    }
}

/// The names of the variables that a client hands over.
pub fn local_env_keys(forward_env: Option<&Vec<String>>) -> (keys: Vec<String>)
    ensures
        keys.deep_view() == env_keys(forward_env.deep_view()),
{
    let mut keys: Vec<String> = Vec::new();
    keys.push("TERM".to_owned());
    keys.push("DISPLAY".to_owned());
    keys.push("LANG".to_owned());
    keys.push("SSH_AUTH_SOCK".to_owned());
    assert(keys.deep_view() =~= fixed_env_keys());
    match forward_env {
        None => {},
        Some(more) => {
            let mut i: usize = 0;
            assert(keys.deep_view() =~= fixed_env_keys() + more.deep_view().take(0));
            while i < more.len()
                invariant
                    i <= more.len(),
                    keys.deep_view() == fixed_env_keys() + more.deep_view().take(i as int),
                decreases more.len() - i,
            {
                let ghost before = keys;
                keys.push(more[i].clone());
                assert(keys.deep_view() =~= before.deep_view().push(more[i as int]@));
                assert(keys.deep_view() =~= fixed_env_keys() + more.deep_view().take(
                    i as int + 1,
                ));
                i += 1;
            }
            assert(more.deep_view().take(i as int) =~= more.deep_view());
        },
    }
    keys
}

/// The test whether a variable was found set.
pub open spec fn is_resolved() -> spec_fn((Seq<char>, Option<Seq<char>>)) -> bool {
    |p: (Seq<char>, Option<Seq<char>>)| p.1 is Some
}

/// The variables that were found set, each with its value, in their order.
pub open spec fn resolved_env(looked_up: Seq<(Seq<char>, Option<Seq<char>>)>) -> Seq<
    (Seq<char>, Seq<char>),
> {
    looked_up.filter(is_resolved()).map_values(
        |p: (Seq<char>, Option<Seq<char>>)| (p.0, p.1->0),
    )
}

/// The header of an attach request for the session `name`. `tty_size` is the
/// geometry of the client's terminal where it has one, and the default
/// geometry takes its place where it has none. `looked_up` holds each
/// variable that the client hands over, with its value where it is set; the
/// variables that are not set are left out.
pub fn attach_header(
    name: &str,
    tty_size: Option<TtySize>,
    looked_up: &Vec<(String, Option<String>)>,
    ttl_secs: Option<u64>,
    cmd: Option<String>,
) -> (header: AttachHeader)
    ensures
        header.name@ == name@,
        header.local_tty_size == match tty_size {
            Some(size) => size,
            None => crate::protocol::default_tty_size(),
        },
        header.local_env.deep_view() == resolved_env(looked_up.deep_view()),
        header.ttl_secs == ttl_secs,
        header.cmd == cmd,
{
    let ghost all = looked_up.deep_view();
    let ghost pair_of = |p: (Seq<char>, Option<Seq<char>>)| (p.0, p.1->0);
    let mut local_env: Vec<(String, String)> = Vec::new();
    let mut i: usize = 0;
    assert(all.take(0) =~= Seq::<(Seq<char>, Option<Seq<char>>)>::empty());
    assert(local_env.deep_view() =~= all.take(0).filter(is_resolved()).map_values(pair_of));
    while i < looked_up.len()
        invariant
            i <= looked_up.len(),
            all == looked_up.deep_view(),
            pair_of == |p: (Seq<char>, Option<Seq<char>>)| (p.0, p.1->0),
            local_env.deep_view() == all.take(i as int).filter(is_resolved()).map_values(pair_of),
        decreases looked_up.len() - i,
    {
        let entry = &looked_up[i];
        proof {
            lemma_filter_take_next(all, is_resolved(), i as int);
            assert(all[i as int] == (entry.0@, entry.1.deep_view()));
        }
        match &entry.1 {
            None => {},
            Some(value) => {
                let ghost before = local_env;
                local_env.push((entry.0.clone(), value.clone()));
                proof {
                    let found = all.take(i as int).filter(is_resolved());
                    assert(local_env.deep_view() =~= before.deep_view().push((entry.0@, value@)));
                    assert(found.push(all[i as int]).map_values(pair_of) =~= found.map_values(
                        pair_of,
                    ).push((entry.0@, value@)));
                }
            },
        }
        i += 1;
    }
    assert(all.take(i as int) =~= all);
    AttachHeader {
        name: name.to_owned(),
        local_tty_size: match tty_size {
            Some(size) => size,
            None => TtySize::fallback(),
        },
        local_env,
        ttl_secs,
        cmd,
    }
}

/// What the daemon's answer to an attach request means for the client.
#[derive(Clone, Debug)]
pub enum Attached {
    /// The client is connected, to a session that was running or to a new
    /// one. The warnings are shown to the user, each as a line that starts
    /// `shpool: warn: `, before the streaming begins.
    Streaming { created: bool, warnings: Vec<String> },
    /// Another client is attached: the attempt counts as busy.
    Busy,
    /// The daemon refused, for this reason. The user is told `forbidden: `
    /// and the reason, and the attempt fails.
    Forbidden(String),
    /// The daemon ran into an error, which it describes. The attempt fails.
    Unexpected(String),
}

/// Whether `verdict` is what `status` means for the client.
pub open spec fn reply_read(verdict: Attached, status: AttachStatus) -> bool {
    match status {
        AttachStatus::Busy => verdict is Busy,
        AttachStatus::Forbidden(reason) => verdict matches Attached::Forbidden(r) && r == reason,
        AttachStatus::Attached { warnings } => verdict matches Attached::Streaming {
            created,
            warnings: w,
        } && !created && w == warnings,
        AttachStatus::Created { warnings } => verdict matches Attached::Streaming {
            created,
            warnings: w,
        } && created && w == warnings,
        AttachStatus::UnexpectedError(err) => verdict matches Attached::Unexpected(e) && e == err,
    }
}

/// Reads the daemon's answer to an attach request.
pub fn read_reply(status: AttachStatus) -> (verdict: Attached)
    ensures
        reply_read(verdict, status),
{
    match status {
        AttachStatus::Busy => Attached::Busy,
        AttachStatus::Forbidden(reason) => Attached::Forbidden(reason),
        AttachStatus::Attached { warnings } => Attached::Streaming { created: false, warnings },
        AttachStatus::Created { warnings } => Attached::Streaming { created: true, warnings },
        AttachStatus::UnexpectedError(err) => Attached::Unexpected(err),
    }
}

/// The request that asks the daemon to detach the session `name`.
pub fn detach_request(name: &str) -> (header: ConnectHeader)
    ensures
        header matches ConnectHeader::Detach(request) && request.sessions.deep_view() == seq![
            name@,
        ],
{
    let mut sessions: Vec<String> = Vec::new();
    sessions.push(name.to_owned());
    assert(sessions.deep_view() =~= seq![name@]);
    ConnectHeader::Detach(DetachRequest { sessions })
}

/// How dialling the daemon ended.
#[derive(Clone, Copy, Debug, PartialEq, Eq, Structural)]
pub enum Dialed {
    /// The daemon answered and speaks the client's version of the protocol.
    JustClient,
    /// The daemon answered and speaks another version.
    VersionMismatch,
    /// There is no socket to dial.
    NotFound,
    /// Dialling failed in another way.
    Failed,
}

/// What the client does once it has dialled.
#[derive(Clone, Copy, Debug, PartialEq, Eq, Structural)]
pub enum DialNext {
    /// Go on with the connection.
    Proceed,
    /// Warn the user of the mismatch and go on only once they have
    /// confirmed.
    Confirm,
    /// Give up; where `hint` is set, tell the user first that the daemon
    /// could not be reached.
    Fail { hint: bool },
}

/// What the client does once it has dialled.
pub open spec fn spec_dial_client(dialed: Dialed) -> DialNext {
    match dialed {
        Dialed::JustClient => DialNext::Proceed,
        Dialed::VersionMismatch => DialNext::Confirm,
        Dialed::NotFound => DialNext::Fail { hint: true },
        Dialed::Failed => DialNext::Fail { hint: false },
    }
}

/// Decides what the client does once it has dialled.
pub fn dial_client(dialed: Dialed) -> (next: DialNext)
    ensures
        next == spec_dial_client(dialed),
{
    match dialed {
        Dialed::JustClient => DialNext::Proceed,
        Dialed::VersionMismatch => DialNext::Confirm,
        Dialed::NotFound => DialNext::Fail { hint: true },
        Dialed::Failed => DialNext::Fail { hint: false },
    }
}

/// `std::path::PathBuf`, which this crate carries and never looks into.
#[verifier::external_type_specification]
#[verifier::external_body]
pub struct ExPathBuf(PathBuf);

/// What became of a resize that the client asked for.
#[derive(Clone, Copy, Debug, PartialEq, Eq, Structural)]
pub enum Resized {
    /// The session's terminal has the new geometry.
    Done,
    /// The daemon knows no session of that name.
    NotFound,
    /// The daemon answered something that is no answer to a resize.
    Unexpected,
}

/// What `reply` says of a resize.
pub open spec fn resize_outcome(reply: SessionMessageReply) -> Resized {
    match reply {
        SessionMessageReply::NotFound => Resized::NotFound,
        SessionMessageReply::Resize(ResizeReply::Done) => Resized::Done,
        _ => Resized::Unexpected,
    }
}

/// Tells the daemon of changes of the client's terminal size.
pub struct SignalHandler {
    /// The session that the client is attached to.
    pub session_name: String,
    /// The daemon's socket.
    pub socket: PathBuf,
}

impl SignalHandler {
    /// A handler for the session `session_name` of the daemon at `socket`.
    pub fn new(session_name: String, socket: PathBuf) -> (handler: SignalHandler)
        ensures
            handler.session_name == session_name,
            handler.socket == socket,
    {
        SignalHandler { session_name, socket }
    }

    /// The request to send, on a connection of its own, when the terminal
    /// has changed its size to `tty_size`.
    pub fn handle_sigwinch(&self, tty_size: TtySize) -> (header: ConnectHeader)
        ensures
            header matches ConnectHeader::SessionMessage(request) && request.session_name@
                == self.session_name@ && request.payload == SessionMessageRequestPayload::Resize(
                ResizeRequest { tty_size },
            ),
    {
        ConnectHeader::SessionMessage(
            SessionMessageRequest {
                session_name: self.session_name.clone(),
                payload: SessionMessageRequestPayload::Resize(ResizeRequest { tty_size }),
            },
        )
    }

    /// Reads the daemon's answer to a resize.
    pub fn resized(reply: SessionMessageReply) -> (outcome: Resized)
        ensures
            outcome == resize_outcome(reply),
    {
        match reply {
            SessionMessageReply::NotFound => Resized::NotFound,
            SessionMessageReply::Resize(ResizeReply::Done) => Resized::Done,
            _ => Resized::Unexpected,
        }
    }
}

} // verus!
