//! The messages exchanged between an attaching client and the daemon, and the
//! framing of the byte stream that follows a successful attach.

use vstd::bytes::{
    lemma_auto_spec_u32_to_from_le_bytes, spec_u32_from_le_bytes, spec_u32_to_le_bytes,
    u32_from_le_bytes, u32_to_le_bytes,
};
use vstd::prelude::*;
use vstd::slice::slice_subrange;

verus! {

/// The geometry of a terminal.
#[derive(Clone, Copy, Debug, PartialEq, Eq, Structural)]
pub struct TtySize {
    pub rows: u16,
    pub cols: u16,
    pub xpixel: u16,
    pub ypixel: u16,
}

/// The geometry assumed when the client's standard input is not a terminal.
pub open spec fn default_tty_size() -> TtySize {
    TtySize { rows: 24, cols: 80, xpixel: 0, ypixel: 0 }
}

impl TtySize {
    /// The geometry used when the real one cannot be read: 24 rows of 80 columns.
    pub fn fallback() -> (size: TtySize)
        ensures
            size == default_tty_size(),
    {
        TtySize { rows: 24, cols: 80, xpixel: 0, ypixel: 0 }
    }
}

/// An environment as an ordered list of `(variable, value)` pairs.
pub type EnvView = Seq<(Seq<char>, Seq<char>)>;

/// The value of the first pair of `env` whose variable is `var`.
pub open spec fn env_lookup(env: EnvView, var: Seq<char>) -> Option<Seq<char>>
    decreases env.len(),
{
    if env.len() == 0 {
        None
    } else if env[0].0 == var {
        Some(env[0].1)
    } else {
        env_lookup(env.drop_first(), var)
    }
}

/// `env_lookup` finds nothing in the first `n` pairs exactly when none of them
/// carries the variable, and then the search continues behind them.
pub proof fn lemma_env_lookup_skip(env: EnvView, var: Seq<char>, n: int)
    requires
        0 <= n <= env.len(),
        forall|i: int| 0 <= i < n ==> (#[trigger] env[i]).0 != var,
    ensures
        env_lookup(env, var) == env_lookup(env.skip(n), var),
    decreases n,
{
    if n == 0 {
        assert(env.skip(0) =~= env);
    } else {
        assert(env[0].0 != var);
        lemma_env_lookup_skip(env.drop_first(), var, n - 1);
        assert(env.drop_first().skip(n - 1) =~= env.skip(n));
    }
}

/// What a client sends to create or join a named session.
#[derive(Clone, Debug)]
pub struct AttachHeader {
    /// The session to create or attach to.
    pub name: String,
    /// The geometry of the client's terminal.
    pub local_tty_size: TtySize,
    /// The part of the client's environment that is handed to a new shell.
    pub local_env: Vec<(String, String)>,
    /// How long a newly created session may live, in seconds.
    pub ttl_secs: Option<u64>,
    /// A command to run in place of the user's shell.
    pub cmd: Option<String>,
}

/// The value of the first pair of `env` whose variable is `var`.
pub fn env_get<'a>(env: &'a Vec<(String, String)>, var: &str) -> (val: Option<&'a str>)
    ensures
        val.deep_view() == env_lookup(env.deep_view(), var@),
{
    let wanted = var.to_owned();
    let mut i: usize = 0;
    while i < env.len()
        invariant
            i <= env.len(),
            wanted@ == var@,
            forall|j: int| 0 <= j < i ==> (#[trigger] env.deep_view()[j]).0 != var@,
        decreases env.len() - i,
    {
        if env[i].0 == wanted {
            proof {
                let all = env.deep_view();
                lemma_env_lookup_skip(all, var@, i as int);
                assert(all.skip(i as int)[0] == all[i as int]);
            }
            return Some(env[i].1.as_str());
        }
        i += 1;
    }
    proof {
        let all = env.deep_view();
        lemma_env_lookup_skip(all, var@, all.len() as int);
    }
    None
}

impl AttachHeader {
    /// The value that the client sent for `var`, if it sent one. Where a
    /// variable was sent twice the first value counts.
    pub fn local_env_get(&self, var: &str) -> (val: Option<&str>)
        ensures
            val.deep_view() == env_lookup(self.local_env.deep_view(), var@),
    {
        env_get(&self.local_env, var)
    }
}

/// A request to detach the clients of the named sessions.
#[derive(Clone, Debug)]
pub struct DetachRequest {
    pub sessions: Vec<String>,
}

/// The answer to a `DetachRequest`.
#[derive(Clone, Debug)]
pub struct DetachReply {
    /// Requested names that are not in the session table.
    pub not_found_sessions: Vec<String>,
    /// Requested names that are in the table but had no client attached.
    pub not_attached_sessions: Vec<String>,
}

/// A request to kill the named sessions.
#[derive(Clone, Debug)]
pub struct KillRequest {
    pub sessions: Vec<String>,
}

/// The answer to a `KillRequest`.
#[derive(Clone, Debug)]
pub struct KillReply {
    /// Requested names that are not in the session table.
    pub not_found_sessions: Vec<String>,
}

/// One line of a session listing.
#[derive(Clone, Debug)]
pub struct Session {
    pub name: String,
    pub started_at_unix_ms: i64,
}

/// The answer to a list request.
#[derive(Clone, Debug)]
pub struct ListReply {
    pub sessions: Vec<Session>,
}

/// A request to change the geometry of a session's terminal.
#[derive(Clone, Copy, Debug, PartialEq, Eq, Structural)]
pub struct ResizeRequest {
    pub tty_size: TtySize,
}

/// What can be asked of one running session.
#[derive(Clone, Copy, Debug, PartialEq, Eq, Structural)]
pub enum SessionMessageRequestPayload {
    Resize(ResizeRequest),
    Detach,
}

/// A message routed to the session called `session_name`.
#[derive(Clone, Debug)]
pub struct SessionMessageRequest {
    pub session_name: String,
    pub payload: SessionMessageRequestPayload,
}

/// The answer to a resize message.
#[derive(Clone, Copy, Debug, PartialEq, Eq, Structural)]
pub enum ResizeReply {
    /// The new geometry was applied.
    Done,
}

/// The answer to a detach message.
#[derive(Clone, Copy, Debug, PartialEq, Eq, Structural)]
pub enum SessionMessageDetachReply {
    /// The session was told to drop its client.
    Done,
}

/// The answer to a `SessionMessageRequest`.
#[derive(Clone, Copy, Debug, PartialEq, Eq, Structural)]
pub enum SessionMessageReply {
    /// No session of that name is in the table.
    NotFound,
    Resize(ResizeReply),
    Detach(SessionMessageDetachReply),
}

/// The first message of every connection.
#[derive(Clone, Debug)]
pub enum ConnectHeader {
    Attach(AttachHeader),
    Detach(DetachRequest),
    Kill(KillRequest),
    List,
    SessionMessage(SessionMessageRequest),
}

/// How an attach attempt ended.
#[derive(Clone, Debug)]
pub enum AttachStatus {
    /// Another client is connected to the session; nothing was changed.
    Busy,
    /// The daemon refused the connection for the reason given.
    Forbidden(String),
    /// The client joined a running session.
    Attached { warnings: Vec<String> },
    /// A new shell was started for the client.
    Created { warnings: Vec<String> },
    /// Something went wrong that none of the other cases covers.
    UnexpectedError(String),
}

/// What the daemon answers to an `AttachHeader`, before the byte stream starts.
#[derive(Clone, Debug)]
pub struct AttachReplyHeader {
    pub status: AttachStatus,
}

/// What a frame of the post-attach stream carries.
#[derive(Clone, Copy, Debug, PartialEq, Eq, Structural)]
pub enum ChunkKind {
    /// Output of the shell.
    Data,
    /// A sign of life with no payload.
    Heartbeat,
}

impl ChunkKind {
    /// The byte that announces a frame of this kind.
    pub open spec fn spec_tag(self) -> u8 {
        match self {
            ChunkKind::Data => 0u8,
            ChunkKind::Heartbeat => 1u8,
        }
    }

    /// The byte that announces a frame of this kind.
    pub fn tag(self) -> (t: u8)
        ensures
            t == self.spec_tag(),
    {
        match self {
            ChunkKind::Data => 0,
            ChunkKind::Heartbeat => 1,
        }
    }

    /// The kind that the byte `tag` announces, if it announces one.
    pub open spec fn spec_from_tag(tag: u8) -> Option<ChunkKind> {
        if tag == 0 {
            Some(ChunkKind::Data)
        } else if tag == 1 {
            Some(ChunkKind::Heartbeat)
        } else {
            None
        }
    }

    /// The kind that the byte `tag` announces, if it announces one.
    pub fn from_tag(tag: u8) -> (kind: Option<ChunkKind>)
        ensures
            kind == Self::spec_from_tag(tag),
    {
        if tag == 0 {
            Some(ChunkKind::Data)
        } else if tag == 1 {
            Some(ChunkKind::Heartbeat)
        } else {
            None
        }
    }
}

/// One frame of the stream that flows from the daemon to an attached client.
#[derive(Clone, Debug)]
pub struct Chunk {
    pub kind: ChunkKind,
    pub buf: Vec<u8>,
}

/// The number of bytes in front of a frame's payload: the tag and the length.
pub const CHUNK_HEADER_LEN: usize = 5;

/// The bytes of a frame: the tag, the payload's length as four little-endian
/// bytes, then the payload.
pub open spec fn frame_bytes(kind: ChunkKind, payload: Seq<u8>) -> Seq<u8>
    recommends
        payload.len() <= u32::MAX,
{
    seq![kind.spec_tag()] + spec_u32_to_le_bytes(payload.len() as u32) + payload
}

/// Why a frame could not be written or read.
#[derive(Clone, Copy, Debug, PartialEq, Eq, Structural)]
pub enum FrameError {
    /// The payload is too long for the length field.
    TooLong,
    /// The bytes end before the frame does.
    Incomplete,
    /// The first byte announces no known kind of frame.
    UnknownKind(u8),
}

/// What `bytes` holds at its front: a whole frame, or the reason why not.
pub open spec fn parse_frame(bytes: Seq<u8>) -> Result<(ChunkKind, Seq<u8>), FrameError> {
    if bytes.len() < CHUNK_HEADER_LEN {
        Err(FrameError::Incomplete)
    } else {
        let len = spec_u32_from_le_bytes(bytes.subrange(1, 5)) as int;
        if bytes.len() < CHUNK_HEADER_LEN + len {
            Err(FrameError::Incomplete)
        } else {
            match ChunkKind::spec_from_tag(bytes[0]) {
                None => Err(FrameError::UnknownKind(bytes[0])),
                Some(kind) => Ok((kind, bytes.subrange(5, 5 + len))),
            }
        }
    }
}

impl Chunk {
    /// A frame that carries `buf` as output of the shell.
    pub fn data(buf: Vec<u8>) -> (chunk: Chunk)
        ensures
            chunk.kind == ChunkKind::Data,
            chunk.buf@ == buf@,
    {
        Chunk { kind: ChunkKind::Data, buf }
    }

    /// The frame that shows the client that the daemon is alive.
    pub fn heartbeat() -> (chunk: Chunk)
        ensures
            chunk.kind == ChunkKind::Heartbeat,
            chunk.buf@ == Seq::<u8>::empty(),
    {
        Chunk { kind: ChunkKind::Heartbeat, buf: Vec::new() }
    }

    /// Appends the frame to `out`. Nothing is appended when the payload is too
    /// long for the length field.
    pub fn write_to(&self, out: &mut Vec<u8>) -> (res: Result<(), FrameError>)
        ensures
            res is Ok <==> self.buf@.len() <= u32::MAX,
            res is Ok ==> final(out)@ == old(out)@ + frame_bytes(self.kind, self.buf@),
            res is Err ==> res == Err::<(), FrameError>(FrameError::TooLong)
                && final(out)@ == old(out)@,
    {
        if self.buf.len() > 0xffff_ffff {
            return Err(FrameError::TooLong);
        }
        let len: u32 = self.buf.len() as u32;
        let len_bytes = u32_to_le_bytes(len);
        out.push(self.kind.tag());
        out.extend_from_slice(len_bytes.as_slice());
        out.extend_from_slice(self.buf.as_slice());
        assert(out@ =~= old(out)@ + frame_bytes(self.kind, self.buf@));
        Ok(())
    }

    /// Reads one frame from the front of `bytes` and says how many bytes it took.
    pub fn read_from(bytes: &[u8]) -> (res: Result<(Chunk, usize), FrameError>)
        ensures
            match res {
                Ok((chunk, used)) => parse_frame(bytes@) == Ok::<
                    (ChunkKind, Seq<u8>),
                    FrameError,
                >((chunk.kind, chunk.buf@)) && used == CHUNK_HEADER_LEN + chunk.buf@.len(),
                Err(e) => parse_frame(bytes@) == Err::<(ChunkKind, Seq<u8>), FrameError>(e),
            },
    {
        if bytes.len() < CHUNK_HEADER_LEN {
            return Err(FrameError::Incomplete);
        }
        let len_field = slice_subrange(bytes, 1, 5);
        let len: u32 = u32_from_le_bytes(len_field);
        if bytes.len() - CHUNK_HEADER_LEN < len as usize {
            return Err(FrameError::Incomplete);
        }
        let end: usize = CHUNK_HEADER_LEN + len as usize;
        match ChunkKind::from_tag(bytes[0]) {
            None => Err(FrameError::UnknownKind(bytes[0])),
            Some(kind) => {
                let payload = slice_subrange(bytes, CHUNK_HEADER_LEN, end);
                let mut buf: Vec<u8> = Vec::new();
                buf.extend_from_slice(payload);
                assert(buf@ =~= bytes@.subrange(5, 5 + len as int));
                Ok((Chunk { kind, buf }, end))
            },
        }
    }
}

/// A frame that was written is read back unchanged, whatever follows it, and
/// reading takes exactly the bytes that writing produced.
pub proof fn lemma_frame_round_trip(kind: ChunkKind, payload: Seq<u8>, rest: Seq<u8>)
    requires
        payload.len() <= u32::MAX,
    ensures
        frame_bytes(kind, payload).len() == CHUNK_HEADER_LEN + payload.len(),
        parse_frame(frame_bytes(kind, payload) + rest) == Ok::<(ChunkKind, Seq<u8>), FrameError>(
            (kind, payload),
        ),
{
    lemma_auto_spec_u32_to_from_le_bytes();
    let len = payload.len() as u32;
    let framed = frame_bytes(kind, payload);
    let bytes = framed + rest;
    assert(spec_u32_to_le_bytes(len).len() == 4);
    assert(bytes.subrange(1, 5) =~= spec_u32_to_le_bytes(len));
    assert(bytes[0] == kind.spec_tag());
    assert(bytes.subrange(5, 5 + len as int) =~= payload);
}

} // verus!
