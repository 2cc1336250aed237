//! The message stream: a framed, backpressured reader and writer on top of a
//! transport, which performs the version handshake and validates every
//! header it reads.
use crate::castable::Castable;
use crate::protocol::{
    lemma_length_limits, length_limits, spec_length_limits, spec_length_ok, Header, WindowSize,
    XConf, XConfVersion, PROTOCOL_VERSION, PROTOCOL_VERSION_MAJOR, PROTOCOL_VERSION_MINOR,
};
use crate::transport::{Error, Status, Transport};
use std::collections::VecDeque;
use vstd::prelude::*;
use vstd::slice::{slice_subrange, slice_to_vec};

verus! {

/// Size of a message header on the wire.
pub const HEADER_SIZE: usize = 12;

/// Size of the version and configuration block that the daemon sends.
pub const XCONF_VERSION_SIZE: usize = 20;

/// Protocol state
#[derive(Debug, Clone, Copy, PartialEq, Eq, Structural)]
pub enum ReadState {
    /// Currently connecting
    Connecting,
    /// Negotiating protocol version
    Negotiating,
    /// Reading a message header
    ReadingHeader,
    /// Reading a message body
    ReadingBody { header: Header },
    /// Discarding the given number of bytes of a message of unknown type
    Discard(usize),
    /// Something went wrong.  Terminal state.
    Error,
}

/// The kind of a state machine
#[derive(Debug, Clone, Copy, PartialEq, Eq, Structural)]
pub enum Kind {
    /// An agent instance
    Agent,
    /// A daemon instance
    Daemon,
}

/// Error of a message stream.  Once one is returned, the stream is in the
/// error state for good.
#[derive(Debug, Clone, Copy, PartialEq, Eq, Structural)]
pub enum StreamError {
    /// The transport failed
    Transport(Error),
    /// The peer disconnected
    Disconnected,
    /// A header announced a length outside the limits of its type
    BadLength { ty: u32, len: u32 },
    /// The peer's protocol version is not supported
    BadVersion { version: u32 },
    /// The stream had already failed
    Failed,
}

/// A message that was read: its header and its body.
#[derive(Debug)]
pub struct Buffer {
    hdr: Header,
    body: Vec<u8>,
}

impl Buffer {
    /// The header.
    pub closed spec fn spec_hdr(&self) -> Header {
        self.hdr
    }

    /// The body.
    pub closed spec fn spec_body(&self) -> Seq<u8> {
        self.body@
    }

    /// Gets the header
    pub fn hdr(&self) -> (r: Header)
        ensures
            r == self.spec_hdr(),
    {
        self.hdr
    }

    /// Gets a reference to the body
    pub fn body(&self) -> (r: &[u8])
        ensures
            r@ == self.spec_body(),
    {
        self.body.as_slice()
    }

    /// Takes ownership of the body
    pub fn take(self) -> (r: Vec<u8>)
        ensures
            r@ == self.spec_body(),
    {
        self.body
    }
}

/// Whether `s` is one of the states in which messages are framed.
pub open spec fn is_framing(s: ReadState) -> bool {
    match s {
        ReadState::Connecting | ReadState::Negotiating => false,
        _ => true,
    }
}

/// Reading the rest of the body of a message with header `h`, of which
/// `body` has arrived, from `input`: (state, body, bytes consumed, message).
pub open spec fn body_run(h: Header, body: Seq<u8>, input: Seq<u8>) -> (
    ReadState,
    Seq<u8>,
    nat,
    Option<Header>,
) {
    let need = h.untrusted_len - body.len();
    if input.len() >= need {
        (ReadState::ReadingHeader, body + input.take(need), need as nat, Some(h))
    } else {
        (ReadState::ReadingBody { header: h }, body + input, input.len(), None)
    }
}

/// The framing state machine: starting in state `s` with partial body
/// `body`, reading from the bytes `input` that are available, up to the
/// first complete message.  Gives the new state, the body buffer, the number
/// of bytes consumed and the header of the message read, if any.
pub open spec fn frame_run(s: ReadState, body: Seq<u8>, input: Seq<u8>) -> (
    ReadState,
    Seq<u8>,
    nat,
    Option<Header>,
)
    decreases input.len(), (if s is Discard {
        1nat
    } else {
        0nat
    }),
{
    match s {
        ReadState::ReadingHeader => {
            if input.len() < HEADER_SIZE {
                (s, body, 0, None)
            } else {
                let h = Header::spec_parse(input.take(HEADER_SIZE as int));
                let rest = input.skip(HEADER_SIZE as int);
                match spec_length_limits(h.ty) {
                    None => {
                        let r = if h.untrusted_len == 0 {
                            frame_run(ReadState::ReadingHeader, Seq::empty(), rest)
                        } else {
                            frame_run(
                                ReadState::Discard(h.untrusted_len as usize),
                                Seq::empty(),
                                rest,
                            )
                        };
                        (r.0, r.1, (r.2 + HEADER_SIZE) as nat, r.3)
                    },
                    Some((lo, hi)) => {
                        if lo <= h.untrusted_len <= hi {
                            let r = body_run(h, Seq::empty(), rest);
                            (r.0, r.1, (r.2 + HEADER_SIZE) as nat, r.3)
                        } else {
                            (ReadState::Error, Seq::empty(), HEADER_SIZE as nat, None)
                        }
                    },
                }
            }
        },
        ReadState::ReadingBody { header } => body_run(header, body, input),
        ReadState::Discard(n) => {
            if n <= input.len() {
                let r = frame_run(ReadState::ReadingHeader, body, input.skip(n as int));
                (r.0, r.1, (r.2 + n) as nat, r.3)
            } else {
                (ReadState::Discard((n - input.len()) as usize), body, input.len(), None)
            }
        },
        _ => (s, body, 0, None),
    }
}

/// The major half of a protocol version.
pub open spec fn version_major(v: u32) -> u32 {
    v / 0x10000
}

/// The minor half of a protocol version.
pub open spec fn version_minor(v: u32) -> u32 {
    v % 0x10000
}

/// Whether an agent accepts the version that the daemon chose.
pub open spec fn agent_accepts(v: u32) -> bool {
    version_major(v) == PROTOCOL_VERSION_MAJOR && 4 <= version_minor(v) <= PROTOCOL_VERSION_MINOR
}

/// The version that a daemon agrees on with an agent that sent `v`: the same
/// major version, and the smaller of the two minor versions.
pub open spec fn agreed_version(v: u32) -> u32 {
    (PROTOCOL_VERSION_MAJOR * 0x10000 + if version_minor(v) < PROTOCOL_VERSION_MINOR {
        version_minor(v)
    } else {
        PROTOCOL_VERSION_MINOR
    }) as u32
}

/// What a daemon sends after agreeing on version `v`: the full block from
/// minor version 4 on, the configuration alone before.
pub open spec fn daemon_reply(v: u32, xconf: XConf) -> Seq<u8> {
    if version_minor(v) >= 4 {
        XConfVersion { version: v, xconf }.spec_bytes()
    } else {
        xconf.spec_bytes()
    }
}

/// The connection step of the handshake, in state `Connecting`: the next
/// state and the bytes sent.
pub open spec fn connect_step(kind: Kind, status: Status, space: nat) -> (ReadState, Seq<u8>) {
    match status {
        Status::Waiting => (ReadState::Connecting, Seq::empty()),
        Status::Disconnected => (ReadState::Error, Seq::empty()),
        Status::Connected => match kind {
            Kind::Daemon => (ReadState::Negotiating, Seq::empty()),
            Kind::Agent => if space >= 4 {
                (ReadState::Negotiating, PROTOCOL_VERSION.spec_bytes())
            } else {
                (ReadState::Connecting, Seq::empty())
            },
        },
    }
}

/// The negotiation step of the handshake, in state `Negotiating`: the next
/// state, the bytes consumed, the bytes sent, the configuration, and
/// whether a connection was completed.
pub open spec fn negotiate_step(kind: Kind, incoming: Seq<u8>, space: nat, xconf: XConfVersion) -> (
    ReadState,
    nat,
    Seq<u8>,
    XConfVersion,
    bool,
) {
    match kind {
        Kind::Agent => if incoming.len() >= XCONF_VERSION_SIZE {
            let x = XConfVersion::spec_parse(incoming.take(XCONF_VERSION_SIZE as int));
            if agent_accepts(x.version) {
                (ReadState::ReadingHeader, XCONF_VERSION_SIZE as nat, Seq::empty(), x, true)
            } else {
                (ReadState::Error, XCONF_VERSION_SIZE as nat, Seq::empty(), xconf, false)
            }
        } else {
            (ReadState::Negotiating, 0, Seq::empty(), xconf, false)
        },
        Kind::Daemon => if incoming.len() >= 4 && space >= XCONF_VERSION_SIZE {
            let v = u32::spec_parse(incoming.take(4));
            if version_major(v) == PROTOCOL_VERSION_MAJOR {
                let a = agreed_version(v);
                (
                    ReadState::ReadingHeader,
                    4,
                    daemon_reply(a, xconf.xconf),
                    XConfVersion { version: a, xconf: xconf.xconf },
                    false,
                )
            } else {
                (ReadState::Error, 4, Seq::empty(), xconf, false)
            }
        } else {
            (ReadState::Negotiating, 0, Seq::empty(), xconf, false)
        },
    }
}

/// The handshake from `state`: the next state, the bytes consumed, the
/// bytes sent, the configuration, and whether a connection was completed.
pub open spec fn handshake(
    kind: Kind,
    state: ReadState,
    status: Status,
    incoming: Seq<u8>,
    space: nat,
    xconf: XConfVersion,
) -> (ReadState, nat, Seq<u8>, XConfVersion, bool) {
    match state {
        ReadState::Connecting => {
            let c = connect_step(kind, status, space);
            if c.0 is Negotiating {
                let n = negotiate_step(kind, incoming, (space - c.1.len()) as nat, xconf);
                (n.0, n.1, c.1 + n.2, n.3, n.4)
            } else {
                (c.0, 0, c.1, xconf, false)
            }
        },
        ReadState::Negotiating => negotiate_step(kind, incoming, space, xconf),
        _ => (state, 0, Seq::empty(), xconf, false),
    }
}

/// The error the framing state machine fails with, from state `s` with
/// partial body `body` on the bytes `input`, where it fails: a header whose
/// announced length is illegal for its type, or a stream that had already
/// failed.
pub open spec fn frame_error(s: ReadState, body: Seq<u8>, input: Seq<u8>) -> StreamError
    decreases input.len(), (if s is Discard {
        1nat
    } else {
        0nat
    }),
{
    match s {
        ReadState::ReadingHeader => {
            if input.len() < HEADER_SIZE {
                StreamError::Failed
            } else {
                let h = Header::spec_parse(input.take(HEADER_SIZE as int));
                let rest = input.skip(HEADER_SIZE as int);
                match spec_length_limits(h.ty) {
                    None => if h.untrusted_len == 0 {
                        frame_error(ReadState::ReadingHeader, Seq::empty(), rest)
                    } else {
                        frame_error(
                            ReadState::Discard(h.untrusted_len as usize),
                            Seq::empty(),
                            rest,
                        )
                    },
                    Some(_) => StreamError::BadLength { ty: h.ty, len: h.untrusted_len },
                }
            }
        },
        ReadState::Discard(n) => {
            if n <= input.len() {
                frame_error(ReadState::ReadingHeader, body, input.skip(n as int))
            } else {
                StreamError::Failed
            }
        },
        _ => StreamError::Failed,
    }
}

/// The error the handshake fails with, where it fails: a peer that
/// disconnected before connecting, or a version that is not accepted.
pub open spec fn handshake_error(
    kind: Kind,
    state: ReadState,
    status: Status,
    incoming: Seq<u8>,
) -> StreamError {
    let bad_version = match kind {
        Kind::Agent => StreamError::BadVersion {
            version: XConfVersion::spec_parse(incoming.take(XCONF_VERSION_SIZE as int)).version,
        },
        Kind::Daemon => StreamError::BadVersion { version: u32::spec_parse(incoming.take(4)) },
    };
    if state is Connecting && status == Status::Disconnected {
        StreamError::Disconnected
    } else {
        bad_version
    }
}

/// The bytes of a message of type `ty` for window `window` with body
/// `body`: its header, then the body.
pub open spec fn frame(ty: u32, window: u32, body: Seq<u8>) -> Seq<u8> {
    Header { ty, window, untrusted_len: body.len() as u32 }.spec_bytes() + body
}

/// Once this side's handshake is done, queued bytes go out, oldest first,
/// as fast as the transport takes them: a flush with room for the whole
/// queue empties it.
pub proof fn lemma_flush_drains<T: Transport>(s: RawMessageStream<T>)
    requires
        s.may_send(),
        s.vchan.space() >= s.queue@.len(),
    ensures
        s.flush_count() == s.queue@.len(),
        s.queue@.take(s.flush_count() as int) == s.queue@,
        s.queue@.skip(s.flush_count() as int).len() == 0,
{
    assert(s.queue@.take(s.queue@.len() as int) =~= s.queue@);
}

/// A complete message with a legal length, written and then read from the
/// start of a header, is read back as written: the same header and body,
/// and nothing after it is consumed.
pub proof fn lemma_frame_round_trip(
    ty: u32,
    window: u32,
    body: Seq<u8>,
    rest: Seq<u8>,
    partial: Seq<u8>,
)
    requires
        spec_length_ok(ty, body.len()),
    ensures
        frame_run(ReadState::ReadingHeader, partial, frame(ty, window, body) + rest) == (
            ReadState::ReadingHeader,
            body,
            (HEADER_SIZE + body.len()) as nat,
            Some(Header { ty, window, untrusted_len: body.len() as u32 }),
        ),
{
    lemma_length_limits(ty);
    let h = Header { ty, window, untrusted_len: body.len() as u32 };
    h.lemma_round_trip();
    let input = frame(ty, window, body) + rest;
    assert(input.take(HEADER_SIZE as int) =~= h.spec_bytes());
    assert(input.skip(HEADER_SIZE as int) =~= body + rest);
    assert((body + rest).take(body.len() as int) =~= body);
    assert(Seq::<u8>::empty() + body =~= body);
}

/// A message of a type that is not known, announcing `n > 0` bytes of
/// body, is skipped: exactly its `n` bytes are discarded and the message
/// after it is read.
pub proof fn lemma_unknown_skipped(
    ty: u32,
    window: u32,
    junk: Seq<u8>,
    next_ty: u32,
    next_window: u32,
    next_body: Seq<u8>,
    partial: Seq<u8>,
)
    requires
        spec_length_limits(ty) is None,
        0 < junk.len() <= u32::MAX,
        spec_length_ok(next_ty, next_body.len()),
    ensures
        ({
            let input = frame(ty, window, junk) + frame(next_ty, next_window, next_body);
            frame_run(ReadState::ReadingHeader, partial, input) == (
                ReadState::ReadingHeader,
                next_body,
                input.len(),
                Some(
                    Header {
                        ty: next_ty,
                        window: next_window,
                        untrusted_len: next_body.len() as u32,
                    },
                ),
            )
        }),
{
    let h = Header { ty, window, untrusted_len: junk.len() as u32 };
    h.lemma_round_trip();
    let next = frame(next_ty, next_window, next_body);
    let input = frame(ty, window, junk) + next;
    assert(input.take(HEADER_SIZE as int) =~= h.spec_bytes());
    let rest = input.skip(HEADER_SIZE as int);
    assert(rest =~= junk + next);
    assert(next + Seq::<u8>::empty() =~= next);
    assert(rest.skip(junk.len() as int) =~= next);
    lemma_frame_round_trip(next_ty, next_window, next_body, Seq::empty(), Seq::empty());
    let r3 = frame_run(ReadState::ReadingHeader, Seq::empty(), next);
    assert(Header::spec_parse(input.take(HEADER_SIZE as int)) == h);
    assert(h.untrusted_len as usize == junk.len() as usize);
    let d = ReadState::Discard(h.untrusted_len as usize);
    assert(frame_run(d, Seq::empty(), rest) == (r3.0, r3.1, (r3.2 + junk.len()) as nat, r3.3));
    assert(frame_run(ReadState::ReadingHeader, partial, input) == (
        r3.0,
        r3.1,
        (r3.2 + junk.len() + HEADER_SIZE) as nat,
        r3.3,
    ));
    let next_header = Header {
        ty: next_ty,
        window: next_window,
        untrusted_len: next_body.len() as u32,
    };
    next_header.lemma_round_trip();
    assert(input.len() == HEADER_SIZE + junk.len() + next.len());
}

/// A message of a known type whose announced length is outside the limits
/// of its type puts the stream in the error state, after which nothing is
/// read.
pub proof fn lemma_bad_length_fails(
    ty: u32,
    window: u32,
    len: u32,
    rest: Seq<u8>,
    partial: Seq<u8>,
    later: Seq<u8>,
)
    requires
        spec_length_limits(ty) is Some,
        !spec_length_ok(ty, len as nat),
    ensures
        frame_run(
            ReadState::ReadingHeader,
            partial,
            Header { ty, window, untrusted_len: len }.spec_bytes() + rest,
        ) == (ReadState::Error, Seq::<u8>::empty(), HEADER_SIZE as nat, None::<Header>),
        frame_run(ReadState::Error, partial, later) == (
            ReadState::Error,
            partial,
            0nat,
            None::<Header>,
        ),
{
    let h = Header { ty, window, untrusted_len: len };
    h.lemma_round_trip();
    let input = h.spec_bytes() + rest;
    assert(input.take(HEADER_SIZE as int) =~= h.spec_bytes());
}

/// What reading `a` and then, where that read stopped, the unread rest of
/// `a` followed by `b` gives, when the first read stopped for want of bytes;
/// the first read itself when it completed a message or failed.
pub open spec fn read_in_two(
    r1: (ReadState, Seq<u8>, nat, Option<Header>),
    r2: (ReadState, Seq<u8>, nat, Option<Header>),
) -> (ReadState, Seq<u8>, nat, Option<Header>) {
    if r1.3 is Some || r1.0 is Error {
        r1
    } else {
        (r2.0, r2.1, r1.2 + r2.2, r2.3)
    }
}

/// Reading never consumes more bytes than are available.
pub proof fn lemma_frame_run_consumes(s: ReadState, body: Seq<u8>, input: Seq<u8>)
    requires
        s matches ReadState::ReadingBody { header } ==> body.len() <= header.untrusted_len,
    ensures
        frame_run(s, body, input).2 <= input.len(),
    decreases input.len(), (if s is Discard {
        1nat
    } else {
        0nat
    }),
{
    match s {
        ReadState::ReadingHeader => {
            if input.len() >= HEADER_SIZE {
                let h = Header::spec_parse(input.take(HEADER_SIZE as int));
                let rest = input.skip(HEADER_SIZE as int);
                assert(rest.len() + HEADER_SIZE == input.len());
                if spec_length_limits(h.ty) is Some {
                    let r = body_run(h, Seq::empty(), rest);
                    assert(r.2 <= rest.len());
                } else {
                    let s2 = if h.untrusted_len == 0 {
                        ReadState::ReadingHeader
                    } else {
                        ReadState::Discard(h.untrusted_len as usize)
                    };
                    lemma_frame_run_consumes(s2, Seq::empty(), rest);
                }
            }
        },
        ReadState::Discard(n) => {
            if n <= input.len() {
                lemma_frame_run_consumes(ReadState::ReadingHeader, body, input.skip(n as int));
            }
        },
        _ => {},
    }
}

/// A message that is read has a legal length for its type, and its body
/// has the announced length.
pub proof fn lemma_frame_run_message(s: ReadState, body: Seq<u8>, input: Seq<u8>)
    requires
        s matches ReadState::ReadingBody { header } ==> body.len() <= header.untrusted_len
            && spec_length_ok(header.ty, header.untrusted_len as nat),
    ensures
        frame_run(s, body, input).3 matches Some(h) ==> spec_length_ok(h.ty, h.untrusted_len as nat)
            && frame_run(s, body, input).1.len() == h.untrusted_len,
    decreases input.len(), (if s is Discard {
        1nat
    } else {
        0nat
    }),
{
    match s {
        ReadState::ReadingHeader => {
            if input.len() >= HEADER_SIZE {
                let h = Header::spec_parse(input.take(HEADER_SIZE as int));
                let rest = input.skip(HEADER_SIZE as int);
                if spec_length_limits(h.ty) is None {
                    let s2 = if h.untrusted_len == 0 {
                        ReadState::ReadingHeader
                    } else {
                        ReadState::Discard(h.untrusted_len as usize)
                    };
                    lemma_frame_run_message(s2, Seq::empty(), rest);
                }
            }
        },
        ReadState::Discard(n) => {
            if n <= input.len() {
                lemma_frame_run_message(ReadState::ReadingHeader, body, input.skip(n as int));
            }
        },
        _ => {},
    }
}

/// Reading the rest of a body does not depend on how its bytes arrive.
proof fn lemma_body_run_chunks(h: Header, body: Seq<u8>, a: Seq<u8>, b: Seq<u8>)
    requires
        body.len() <= h.untrusted_len,
    ensures
        ({
            let r1 = body_run(h, body, a);
            body_run(h, body, a + b) == read_in_two(
                r1,
                frame_run(r1.0, r1.1, a.skip(r1.2 as int) + b),
            )
        }),
{
    let need = h.untrusted_len - body.len();
    if a.len() >= need {
        assert((a + b).take(need) =~= a.take(need));
    } else {
        assert(a.skip(a.len() as int) + b =~= b);
        let need2 = h.untrusted_len - (body + a).len();
        if b.len() >= need2 {
            assert(body + a + b.take(need2) =~= body + (a + b).take(need));
        } else {
            assert(body + a + b =~= body + (a + b));
        }
    }
}

/// Reading is independent of how the bytes arrive: reading `a + b` at once
/// gives what reading `a` and then, from where that read stopped, the
/// unread rest of `a` followed by `b` gives.
#[verifier::spinoff_prover]
#[verifier::rlimit(40)]
pub proof fn lemma_frame_run_chunks(s: ReadState, body: Seq<u8>, a: Seq<u8>, b: Seq<u8>)
    requires
        s matches ReadState::ReadingBody { header } ==> body.len() <= header.untrusted_len,
    ensures
        ({
            let r1 = frame_run(s, body, a);
            frame_run(s, body, a + b) == read_in_two(
                r1,
                frame_run(r1.0, r1.1, a.skip(r1.2 as int) + b),
            )
        }),
    decreases a.len(), (if s is Discard {
        1nat
    } else {
        0nat
    }),
{
    let ab = a + b;
    match s {
        ReadState::ReadingHeader => {
            if a.len() < HEADER_SIZE {
                assert(a.skip(0) + b =~= ab);
            } else {
                assert(ab.take(HEADER_SIZE as int) =~= a.take(HEADER_SIZE as int));
                let h = Header::spec_parse(a.take(HEADER_SIZE as int));
                let rest = a.skip(HEADER_SIZE as int);
                assert(ab.skip(HEADER_SIZE as int) =~= rest + b);
                match spec_length_limits(h.ty) {
                    None => {
                        let s2 = if h.untrusted_len == 0 {
                            ReadState::ReadingHeader
                        } else {
                            ReadState::Discard(h.untrusted_len as usize)
                        };
                        lemma_frame_run_chunks(s2, Seq::empty(), rest, b);
                        lemma_frame_run_consumes(s2, Seq::empty(), rest);
                        let r = frame_run(s2, Seq::empty(), rest);
                        assert(a.skip(r.2 + HEADER_SIZE) =~= rest.skip(r.2 as int));
                    },
                    Some((lo, hi)) => {
                        if lo <= h.untrusted_len <= hi {
                            lemma_body_run_chunks(h, Seq::empty(), rest, b);
                            let r = body_run(h, Seq::empty(), rest);
                            assert(a.skip(r.2 + HEADER_SIZE) =~= rest.skip(r.2 as int));
                        }
                    },
                }
            }
        },
        ReadState::ReadingBody { header } => {
            lemma_body_run_chunks(header, body, a, b);
        },
        ReadState::Discard(n) => {
            if n <= a.len() {
                let rest = a.skip(n as int);
                assert(ab.skip(n as int) =~= rest + b);
                lemma_frame_run_chunks(ReadState::ReadingHeader, body, rest, b);
                lemma_frame_run_consumes(ReadState::ReadingHeader, body, rest);
                let r = frame_run(ReadState::ReadingHeader, body, rest);
                assert(a.skip(r.2 + n) =~= rest.skip(r.2 as int));
            } else {
                assert(a.skip(a.len() as int) + b =~= b);
                let m = (n - a.len()) as usize;
                if n <= ab.len() {
                    assert(ab.skip(n as int) =~= b.skip(m as int));
                }
            }
        },
        _ => {
            assert(a.skip(0) + b =~= ab);
        },
    }
}

/// Whether a partial body is shorter than the length its header announces.
pub open spec fn partial_ok(s: ReadState, body: Seq<u8>) -> bool {
    s matches ReadState::ReadingBody { header } ==> body.len() < header.untrusted_len
}

/// A read that completes a message consumes bytes, never more than are
/// available, and leaves a partial body shorter than announced.
pub proof fn lemma_frame_run_progress(s: ReadState, body: Seq<u8>, input: Seq<u8>)
    requires
        partial_ok(s, body),
    ensures
        ({
            let r = frame_run(s, body, input);
            &&& r.3 is Some ==> r.2 > 0
            &&& r.2 <= input.len()
            &&& partial_ok(r.0, r.1)
        }),
    decreases input.len(), (if s is Discard {
        1nat
    } else {
        0nat
    }),
{
    lemma_frame_run_consumes(s, body, input);
    match s {
        ReadState::ReadingHeader => {
            if input.len() >= HEADER_SIZE {
                let h = Header::spec_parse(input.take(HEADER_SIZE as int));
                let rest = input.skip(HEADER_SIZE as int);
                if spec_length_limits(h.ty) is None {
                    let s2 = if h.untrusted_len == 0 {
                        ReadState::ReadingHeader
                    } else {
                        ReadState::Discard(h.untrusted_len as usize)
                    };
                    lemma_frame_run_progress(s2, Seq::empty(), rest);
                } else {
                    assert(Seq::<u8>::empty() + rest =~= rest);
                }
            }
        },
        ReadState::Discard(n) => {
            if n <= input.len() {
                lemma_frame_run_progress(ReadState::ReadingHeader, body, input.skip(n as int));
            }
        },
        _ => {},
    }
}

/// Reading over and over from state `s` with partial body `body` on the
/// bytes `input`, as long as each read completes a message: the messages
/// read, in order, and the state, partial body and number of bytes consumed
/// where reading stops.
pub open spec fn frames(s: ReadState, body: Seq<u8>, input: Seq<u8>) -> (
    Seq<(Header, Seq<u8>)>,
    ReadState,
    Seq<u8>,
    nat,
)
    decreases input.len(),
{
    let r = frame_run(s, body, input);
    if r.3 is Some && 0 < r.2 <= input.len() {
        let rest = frames(r.0, r.1, input.skip(r.2 as int));
        (seq![(r.3->Some_0, r.1)] + rest.0, rest.1, rest.2, r.2 + rest.3)
    } else {
        (Seq::empty(), r.0, r.1, r.2)
    }
}

/// Reading over and over never consumes more bytes than are available, and
/// leaves a partial body shorter than announced.
pub proof fn lemma_frames_bounds(s: ReadState, body: Seq<u8>, input: Seq<u8>)
    requires
        partial_ok(s, body),
    ensures
        frames(s, body, input).3 <= input.len(),
        partial_ok(frames(s, body, input).1, frames(s, body, input).2),
    decreases input.len(),
{
    lemma_frame_run_progress(s, body, input);
    let r = frame_run(s, body, input);
    if r.3 is Some && 0 < r.2 <= input.len() {
        lemma_frames_bounds(r.0, r.1, input.skip(r.2 as int));
    }
}

/// Each call of `read_message` that returns a message takes the next one of
/// `frames`: the first message, after which reading goes on from where that
/// read left the stream.
pub proof fn lemma_frames_first(s: ReadState, body: Seq<u8>, input: Seq<u8>)
    requires
        partial_ok(s, body),
    ensures
        ({
            let r = frame_run(s, body, input);
            let f = frames(s, body, input);
            if r.3 is Some {
                let rest = frames(r.0, r.1, input.skip(r.2 as int));
                f == (seq![(r.3->Some_0, r.1)] + rest.0, rest.1, rest.2, r.2 + rest.3)
            } else {
                f == (Seq::<(Header, Seq<u8>)>::empty(), r.0, r.1, r.2)
            }
        }),
{
    lemma_frame_run_progress(s, body, input);
}

/// Reading is independent of how the bytes arrive, over any number of
/// reads: the messages read from `a + c` are those read from `a`, then those
/// read from the unread rest of `a` followed by `c`.
#[verifier::rlimit(40)]
pub proof fn lemma_frames_chunks(s: ReadState, body: Seq<u8>, a: Seq<u8>, c: Seq<u8>)
    requires
        partial_ok(s, body),
    ensures
        ({
            let f1 = frames(s, body, a);
            let f2 = frames(f1.1, f1.2, a.skip(f1.3 as int) + c);
            frames(s, body, a + c) == (f1.0 + f2.0, f2.1, f2.2, f1.3 + f2.3)
        }),
    decreases a.len(),
{
    let r1 = frame_run(s, body, a);
    lemma_frame_run_progress(s, body, a);
    lemma_frame_run_progress(s, body, a + c);
    lemma_frame_run_chunks(s, body, a, c);
    let x = a.skip(r1.2 as int) + c;
    let r2 = frame_run(r1.0, r1.1, x);
    if r1.3 is Some {
        let a2 = a.skip(r1.2 as int);
        assert((a + c).skip(r1.2 as int) =~= a2 + c);
        lemma_frames_chunks(r1.0, r1.1, a2, c);
        lemma_frames_bounds(r1.0, r1.1, a2);
        let g1 = frames(r1.0, r1.1, a2);
        assert(a.skip((r1.2 + g1.3) as int) =~= a2.skip(g1.3 as int));
        let m = seq![(r1.3->Some_0, r1.1)];
        let g2 = frames(g1.1, g1.2, a2.skip(g1.3 as int) + c);
        assert(m + (g1.0 + g2.0) =~= (m + g1.0) + g2.0);
    } else if r1.0 is Error {
        assert(x.skip(0) =~= x);
    } else {
        lemma_frame_run_progress(r1.0, r1.1, x);
        if r2.3 is Some {
            assert((a + c).skip((r1.2 + r2.2) as int) =~= x.skip(r2.2 as int));
        }
        let f2 = frames(r1.0, r1.1, x);
        assert(Seq::<(Header, Seq<u8>)>::empty() + f2.0 =~= f2.0);
    }
}

/// A legal message at the front of the input is the first one read over
/// and over, as written, and reading goes on right after it.
pub proof fn lemma_frames_message(
    ty: u32,
    window: u32,
    body: Seq<u8>,
    rest: Seq<u8>,
    partial: Seq<u8>,
)
    requires
        spec_length_ok(ty, body.len()),
    ensures
        ({
            let h = Header { ty, window, untrusted_len: body.len() as u32 };
            let f = frames(ReadState::ReadingHeader, body, rest);
            frames(ReadState::ReadingHeader, partial, frame(ty, window, body) + rest) == (
                seq![(h, body)] + f.0,
                f.1,
                f.2,
                (HEADER_SIZE + body.len() + f.3) as nat,
            )
        }),
{
    let h = Header { ty, window, untrusted_len: body.len() as u32 };
    h.lemma_round_trip();
    lemma_frame_round_trip(ty, window, body, rest, partial);
    lemma_frames_first(ReadState::ReadingHeader, partial, frame(ty, window, body) + rest);
    assert((frame(ty, window, body) + rest).skip(HEADER_SIZE + body.len()) =~= rest);
}

/// An agent that is negotiating and receives a version it accepts, with
/// the daemon's configuration, stores the configuration, starts reading
/// headers, and raises the flag that a connection was completed.
pub proof fn lemma_agent_handshake(
    x: XConfVersion,
    rest: Seq<u8>,
    status: Status,
    space: nat,
    before: XConfVersion,
)
    requires
        agent_accepts(x.version),
    ensures
        handshake(Kind::Agent, ReadState::Negotiating, status, x.spec_bytes() + rest, space, before)
            == (ReadState::ReadingHeader, XCONF_VERSION_SIZE as nat, Seq::<u8>::empty(), x, true),
{
    x.lemma_round_trip();
    assert((x.spec_bytes() + rest).take(XCONF_VERSION_SIZE as int) =~= x.spec_bytes());
}

/// Appends `buf` to `v`.
pub fn append_slice(v: &mut Vec<u8>, buf: &[u8])
    ensures
        final(v)@ == old(v)@ + buf@,
{
    let mut tail = slice_to_vec(buf);
    v.append(&mut tail);
}

/// Appends `buf` to the back of `q`.
fn enqueue(q: &mut VecDeque<u8>, buf: &[u8])
    ensures
        final(q)@ == old(q)@ + buf@,
{
    let mut i: usize = 0;
    while i < buf.len()
        invariant
            i <= buf@.len(),
            q@ == old(q)@ + buf@.take(i as int),
        decreases buf@.len() - i,
    {
        q.push_back(buf[i]);
        assert(buf@.take(i + 1) =~= buf@.take(i as int).push(buf@[i as int]));
        i = i + 1;
    }
    assert(buf@.take(buf@.len() as int) =~= buf@);
}

/// Whether `r` is a success, or an error of the stream's own rather than a
/// failure of the transport.
pub open spec fn not_transport<A>(r: Result<A, StreamError>) -> bool {
    match r {
        Ok(_) => true,
        Err(e) => !(e is Transport),
    }
}

/// The header and body of the message read, if any.
pub open spec fn message_view(r: Result<Option<Buffer>, StreamError>) -> Result<
    Option<(Header, Seq<u8>)>,
    StreamError,
> {
    match r {
        Ok(Some(b)) => Ok(Some((b.spec_hdr(), b.spec_body()))),
        Ok(None) => Ok(None),
        Err(e) => Err(e),
    }
}

/// A message stream over transport `T`.
#[derive(Debug)]
pub struct RawMessageStream<T: Transport> {
    /// Transport
    pub vchan: T,
    /// Bytes written by the application and not yet handed to the transport
    pub queue: VecDeque<u8>,
    /// State of the read state machine
    pub state: ReadState,
    /// Body of the message being read
    pub buffer: Vec<u8>,
    /// Was a (re)connection completed since the flag was last cleared?
    pub did_reconnect: bool,
    /// Configuration from the daemon
    pub xconf: XConfVersion,
    /// Peer domain ID
    pub domid: u16,
    /// Agent or daemon?
    pub kind: Kind,
}

impl<T: Transport> RawMessageStream<T> {
    /// Well-formedness: the transport is consistent and a partial body is
    /// shorter than its announced length.
    pub open spec fn wf(&self) -> bool {
        &&& self.vchan.inv()
        &&& match self.state {
            ReadState::ReadingBody { header } => self.buffer@.len() < header.untrusted_len
                && spec_length_ok(header.ty, header.untrusted_len as nat),
            _ => true,
        }
    }

    /// Whether the handshake is done, so that queued application bytes may
    /// go out; until then they stay queued.
    pub open spec fn may_send(&self) -> bool {
        match self.state {
            ReadState::Connecting | ReadState::Negotiating | ReadState::Error => false,
            _ => true,
        }
    }

    /// Number of queued bytes that a flush hands to the transport.
    pub open spec fn flush_count(&self) -> nat {
        if !self.may_send() {
            0
        } else if self.vchan.space() < self.queue@.len() {
            self.vchan.space()
        } else {
            self.queue@.len()
        }
    }

    /// Whether this side's part of the handshake is done.
    fn can_send(&self) -> (r: bool)
        ensures
            r == self.may_send(),
    {
        match self.state {
            ReadState::Connecting | ReadState::Negotiating | ReadState::Error => false,
            _ => true,
        }
    }

    /// Attempts to write as much of `slice` as possible to the transport.
    /// Never blocks.  Returns the number of bytes written.
    fn write_slice(vchan: &mut T, slice: &[u8]) -> (r: Result<usize, Error>)
        requires
            old(vchan).inv(),
        ensures
            final(vchan).inv(),
            final(vchan).reliable() == old(vchan).reliable(),
            old(vchan).reliable() ==> r is Ok,
            old(vchan).space() == 0 ==> r == Ok::<usize, Error>(0),
            match r {
                Ok(n) => {
                    &&& n == if old(vchan).space() < slice@.len() {
                        old(vchan).space()
                    } else {
                        slice@.len()
                    }
                    &&& final(vchan).outgoing() == old(vchan).outgoing() + slice@.take(n as int)
                    &&& final(vchan).space() == old(vchan).space() - n
                    &&& final(vchan).incoming() == old(vchan).incoming()
                    &&& final(vchan).spec_status() == old(vchan).spec_status()
                },
                Err(_) => true,
            },
    {
        let space = vchan.buffer_space();
        if space == 0 {
            assert(slice@.take(0) =~= Seq::<u8>::empty());
            assert(old(vchan).outgoing() + Seq::<u8>::empty() =~= old(vchan).outgoing());
            Ok(0)
        } else {
            let to_write = if space < slice.len() {
                space
            } else {
                slice.len()
            };
            let part = slice_subrange(slice, 0, to_write);
            match vchan.send(part) {
                Ok(()) => Ok(to_write),
                Err(e) => Err(e),
            }
        }
    }

    /// Writes as much of the queued data as possible without blocking, once
    /// this side's handshake is done.  Returns the number of bytes written.
    pub fn flush_pending_writes(&mut self) -> (r: Result<usize, Error>)
        requires
            old(self).wf(),
        ensures
            final(self).wf(),
            final(self).state == old(self).state,
            final(self).buffer == old(self).buffer,
            final(self).kind == old(self).kind,
            final(self).domid == old(self).domid,
            final(self).did_reconnect == old(self).did_reconnect,
            final(self).xconf == old(self).xconf,
            old(self).flush_count() == 0 ==> r == Ok::<usize, Error>(0),
            final(self).vchan.reliable() == old(self).vchan.reliable(),
            old(self).vchan.reliable() ==> r is Ok,
            match r {
                Ok(n) => {
                    &&& n == old(self).flush_count()
                    &&& final(self).vchan.outgoing() == old(self).vchan.outgoing() + old(
                        self,
                    ).queue@.take(n as int)
                    &&& final(self).queue@ == old(self).queue@.skip(n as int)
                    &&& final(self).vchan.space() == old(self).vchan.space() - n
                    &&& final(self).vchan.incoming() == old(self).vchan.incoming()
                    &&& final(self).vchan.spec_status() == old(self).vchan.spec_status()
                },
                Err(_) => true,
            },
    {
        if !self.can_send() || self.queue.len() == 0 {
            assert(self.queue@.take(0) =~= Seq::<u8>::empty());
            assert(self.vchan.outgoing() + Seq::<u8>::empty() =~= self.vchan.outgoing());
            assert(self.queue@.skip(0) =~= self.queue@);
            return Ok(0);
        }
        let space = self.vchan.buffer_space();
        let n = if space < self.queue.len() {
            space
        } else {
            self.queue.len()
        };
        let mut chunk: Vec<u8> = Vec::new();
        let mut i: usize = 0;
        while i < n
            invariant
                i <= n,
                n <= self.queue@.len(),
                chunk@ == self.queue@.take(i as int),
            decreases n - i,
        {
            chunk.push(self.queue[i]);
            assert(chunk@ =~= self.queue@.take(i + 1));
            i = i + 1;
        }
        let written = Self::write_slice(&mut self.vchan, chunk.as_slice());
        match written {
            Ok(k) => {
                let ghost q0 = self.queue@;
                let ghost before = *self;
                let mut j: usize = 0;
                while j < k
                    invariant
                        j <= k,
                        k == n,
                        n <= q0.len(),
                        self.queue@ == q0.skip(j as int),
                        self.vchan == before.vchan,
                        self.state == before.state,
                        self.buffer == before.buffer,
                        self.kind == before.kind,
                        self.domid == before.domid,
                        self.did_reconnect == before.did_reconnect,
                        self.xconf == before.xconf,
                    decreases k - j,
                {
                    self.queue.pop_front();
                    assert(self.queue@ =~= q0.skip(j + 1));
                    j = j + 1;
                }
                Ok(k)
            },
            Err(e) => Err(e),
        }
    }

    /// What writing `buf` does: a stream in the error state fails and stays
    /// as it was; otherwise only a transport failure fails, and none is
    /// possible when nothing can be sent; on success `buf` is appended to
    /// what was queued, and as much of that as fits goes to the transport.
    pub open spec fn wrote(&self, new: &Self, buf: Seq<u8>, r: Result<(), StreamError>) -> bool {
        let pending = self.queue@ + buf;
        let n = if !self.may_send() {
            0
        } else if self.vchan.space() < pending.len() {
            self.vchan.space()
        } else {
            pending.len()
        };
        &&& new.buffer == self.buffer
        &&& new.kind == self.kind
        &&& new.domid == self.domid
        &&& new.did_reconnect == self.did_reconnect
        &&& new.xconf == self.xconf
        &&& new.vchan.reliable() == self.vchan.reliable()
        &&& (self.vchan.reliable() ==> not_transport(r))
        &&& (self.state is Error ==> r == Err::<(), StreamError>(StreamError::Failed) && *new
            == *self)
        &&& (r is Err ==> new.state is Error)
        &&& (r matches Err(e) ==> e is Transport || self.state is Error)
        &&& (!(self.state is Error) && (!self.may_send() || self.vchan.space() == 0) ==> r is Ok)
        &&& (r is Ok ==> {
            &&& new.state == self.state
            &&& new.vchan.outgoing() == self.vchan.outgoing() + pending.take(n as int)
            &&& new.queue@ == pending.skip(n as int)
            &&& new.vchan.outgoing() + new.queue@ == self.vchan.outgoing() + self.queue@ + buf
            &&& new.vchan.incoming() == self.vchan.incoming()
            &&& new.vchan.space() == self.vchan.space() - n
            &&& new.vchan.spec_status() == self.vchan.spec_status()
        })
    }

    /// Hands `buf` to the transport after any queued bytes, writing as much
    /// as can be written now and queuing the rest.  Bytes are never dropped
    /// or reordered.  Before this side's handshake is done, everything is
    /// queued.
    pub fn write(&mut self, buf: &[u8]) -> (r: Result<(), StreamError>)
        requires
            old(self).wf(),
        ensures
            final(self).wf(),
            old(self).wrote(final(self), buf@, r),
    {
        if let ReadState::Error = self.state {
            return Err(StreamError::Failed);
        }
        let ghost q0 = self.queue@;
        let ghost out0 = self.vchan.outgoing();
        let ghost space0 = self.vchan.space();
        let may = self.can_send();
        let flushed = match self.flush_pending_writes() {
            Ok(n) => n,
            Err(e) => {
                self.state = ReadState::Error;
                return Err(StreamError::Transport(e));
            },
        };
        if !may || self.queue.len() != 0 {
            enqueue(&mut self.queue, buf);
            proof {
                let pending = q0 + buf@;
                assert(pending.take(flushed as int) =~= q0.take(flushed as int));
                assert(self.queue@ =~= pending.skip(flushed as int));
                assert(pending.take(flushed as int) + pending.skip(flushed as int) =~= pending);
                assert(out0 + pending.take(flushed as int) + pending.skip(flushed as int) =~= out0
                    + q0 + buf@);
            }
            return Ok(());
        }
        let written = match Self::write_slice(&mut self.vchan, buf) {
            Ok(n) => n,
            Err(e) => {
                self.state = ReadState::Error;
                return Err(StreamError::Transport(e));
            },
        };
        let rest = slice_subrange(buf, written, buf.len());
        enqueue(&mut self.queue, rest);
        proof {
            let pending = q0 + buf@;
            assert(q0.skip(flushed as int) =~= Seq::<u8>::empty());
            assert(flushed == q0.len());
            assert(pending.take((flushed + written) as int) =~= q0 + buf@.take(written as int));
            assert(self.queue@ =~= pending.skip((flushed + written) as int));
            let k = (flushed + written) as int;
            assert(pending.take(k) + pending.skip(k) =~= pending);
            assert(out0 + pending.take(k) + pending.skip(k) =~= out0 + q0 + buf@);
            assert(q0.take(flushed as int) =~= q0);
            assert(out0 + q0.take(flushed as int) + buf@.take(written as int) =~= out0
                + pending.take(k));
        }
        Ok(())
    }

    /// The parts of the stream that a read leaves alone.
    pub open spec fn keeps(&self, other: &Self) -> bool {
        &&& other.queue == self.queue
        &&& other.kind == self.kind
        &&& other.domid == self.domid
        &&& other.did_reconnect == self.did_reconnect
        &&& other.xconf == self.xconf
    }

    /// `new` and `r` are what a read from `self` gives, where `f` is what the
    /// framing state machine does on the available bytes: the message read,
    /// the new state and body buffer, and the bytes consumed; an error comes
    /// from the transport, or where the state machine fails.
    pub open spec fn follows(
        &self,
        new: &Self,
        f: (ReadState, Seq<u8>, nat, Option<Header>),
        err: StreamError,
        r: Result<Option<(Header, Seq<u8>)>, StreamError>,
    ) -> bool {
        &&& (f.0 is Error ==> r is Err)
        &&& match r {
            Ok(Some((h, body))) => {
                &&& f.3 == Some(h)
                &&& body == f.1
                &&& new.state == f.0
                &&& new.buffer@ == f.1
                &&& new.vchan.incoming() == self.vchan.incoming().skip(f.2 as int)
            },
            Ok(None) => {
                &&& f.3 is None
                &&& new.state == f.0
                &&& new.buffer@ == f.1
                &&& new.vchan.incoming() == self.vchan.incoming().skip(f.2 as int)
            },
            Err(e) => {
                &&& new.state is Error
                &&& !(e is Transport) ==> f.0 is Error && e == err && new.vchan.incoming()
                    == self.vchan.incoming().skip(f.2 as int)
            },
        }
    }

    /// What `read_message` does from `self`: pending writes are flushed as
    /// far as the space allows, then the handshake or the framing state
    /// machine advances on the available bytes.  Errors come from the
    /// transport or where the state machine fails, and none is possible
    /// when nothing is flushed, read or sent.
    pub open spec fn read_outcome(
        &self,
        new: &Self,
        r: Result<Option<(Header, Seq<u8>)>, StreamError>,
    ) -> bool {
        let k = self.flush_count();
        let flushed = self.vchan.outgoing() + self.queue@.take(k as int);
        &&& new.kind == self.kind
        &&& new.domid == self.domid
        &&& new.vchan.reliable() == self.vchan.reliable()
        &&& (self.vchan.reliable() ==> not_transport(r))
        &&& (r is Err ==> new.state is Error)
        &&& (self.state is Error ==> r == Err::<Option<(Header, Seq<u8>)>, StreamError>(
            StreamError::Failed,
        ) && *new == *self)
        &&& (not_transport(r) ==> new.queue@ == self.queue@.skip(k as int))
        &&& if is_framing(self.state) {
            let f = frame_run(self.state, self.buffer@, self.vchan.incoming());
            let err = frame_error(self.state, self.buffer@, self.vchan.incoming());
            &&& self.follows(new, f, err, r)
            &&& (not_transport(r) ==> {
                &&& new.vchan.outgoing() == flushed
                &&& new.vchan.space() == self.vchan.space() - k
                &&& new.vchan.spec_status() == self.vchan.spec_status()
                &&& new.did_reconnect == self.did_reconnect
                &&& new.xconf == self.xconf
            })
            &&& (k == 0 && f.2 == 0 && !(f.0 is Error) ==> r is Ok)
        } else {
            let h = handshake(
                self.kind,
                self.state,
                self.vchan.spec_status(),
                self.vchan.incoming(),
                (self.vchan.space() - k) as nat,
                self.xconf,
            );
            &&& (h.0 is Error ==> r is Err)
            &&& (r matches Err(e) ==> e is Transport || h.0 is Error)
            &&& (r matches Err(e) ==> e is Transport || e == handshake_error(
                self.kind,
                self.state,
                self.vchan.spec_status(),
                self.vchan.incoming(),
            ))
            &&& (r is Ok ==> r == Ok::<Option<(Header, Seq<u8>)>, StreamError>(None))
            &&& (not_transport(r) ==> {
                &&& new.state == h.0
                &&& new.vchan.incoming() == self.vchan.incoming().skip(h.1 as int)
                &&& new.vchan.outgoing() == flushed + h.2
                &&& new.vchan.space() == self.vchan.space() - k - h.2.len()
                &&& new.vchan.spec_status() == self.vchan.spec_status()
                &&& new.xconf == h.3
                &&& new.did_reconnect == (self.did_reconnect || h.4)
            })
            &&& (k == 0 && h.1 == 0 && h.2.len() == 0 && !(h.0 is Error) ==> r is Ok)
        }
    }

    /// Reads what is available of the body of a message with header
    /// `header`, of which `ready` bytes are readable.
    fn read_body(&mut self, header: Header, ready: usize) -> (r: Result<
        Option<Buffer>,
        StreamError,
    >)
        requires
            old(self).wf(),
            ready == old(self).vchan.incoming().len(),
            old(self).buffer@.len() <= header.untrusted_len,
            spec_length_ok(header.ty, header.untrusted_len as nat),
        ensures
            final(self).wf(),
            old(self).keeps(final(self)),
            final(self).vchan.reliable() == old(self).vchan.reliable(),
            old(self).vchan.reliable() ==> not_transport(message_view(r)),
            not_transport(message_view(r)) ==> final(self).vchan.outgoing() == old(
                self,
            ).vchan.outgoing(),
            old(self).follows(
                final(self),
                body_run(header, old(self).buffer@, old(self).vchan.incoming()),
                StreamError::Failed,
                message_view(r),
            ),
            not_transport(message_view(r)) ==> final(self).vchan.space() == old(self).vchan.space()
                && final(self).vchan.spec_status() == old(self).vchan.spec_status(),
            body_run(header, old(self).buffer@, old(self).vchan.incoming()).2 == 0 ==> r is Ok,
    {
        let have = self.buffer.len();
        let need = header.untrusted_len as usize - have;
        let n = if ready < need {
            ready
        } else {
            need
        };
        if n > 0 {
            match self.vchan.recv_into(&mut self.buffer, n) {
                Ok(()) => {},
                Err(e) => {
                    self.state = ReadState::Error;
                    return Err(StreamError::Transport(e));
                },
            }
        } else {
            assert(old(self).vchan.incoming().take(0) =~= Seq::<u8>::empty());
            assert(self.buffer@ + Seq::<u8>::empty() =~= self.buffer@);
            assert(old(self).vchan.incoming().skip(0) =~= old(self).vchan.incoming());
        }
        if ready >= need {
            self.state = ReadState::ReadingHeader;
            let body = slice_to_vec(self.buffer.as_slice());
            Ok(Some(Buffer { hdr: header, body }))
        } else {
            assert(old(self).vchan.incoming().take(n as int) =~= old(self).vchan.incoming());
            self.state = ReadState::ReadingBody { header };
            Ok(None)
        }
    }

    /// Runs the framing state machine until a message is complete, the
    /// available bytes run out, or the stream fails.
    fn read_frames(&mut self) -> (r: Result<Option<Buffer>, StreamError>)
        requires
            old(self).wf(),
            is_framing(old(self).state),
        ensures
            final(self).wf(),
            old(self).keeps(final(self)),
            final(self).vchan.reliable() == old(self).vchan.reliable(),
            old(self).vchan.reliable() ==> not_transport(message_view(r)),
            not_transport(message_view(r)) ==> final(self).vchan.outgoing() == old(
                self,
            ).vchan.outgoing(),
            old(self).follows(
                final(self),
                frame_run(old(self).state, old(self).buffer@, old(self).vchan.incoming()),
                frame_error(old(self).state, old(self).buffer@, old(self).vchan.incoming()),
                message_view(r),
            ),
            not_transport(message_view(r)) ==> final(self).vchan.space() == old(self).vchan.space()
                && final(self).vchan.spec_status() == old(self).vchan.spec_status(),
            ({
                let f = frame_run(old(self).state, old(self).buffer@, old(self).vchan.incoming());
                f.2 == 0 && !(f.0 is Error) ==> r is Ok
            }),
    {
        let ghost f0 = frame_run(self.state, self.buffer@, self.vchan.incoming());
        let ghost e0 = frame_error(self.state, self.buffer@, self.vchan.incoming());
        let ghost in0 = self.vchan.incoming();
        let ghost mut consumed: nat = 0;
        loop
            invariant
                self.wf(),
                is_framing(self.state),
                old(self).keeps(self),
                self.vchan.outgoing() == old(self).vchan.outgoing(),
                in0 == old(self).vchan.incoming(),
                f0 == frame_run(old(self).state, old(self).buffer@, old(self).vchan.incoming()),
                e0 == frame_error(old(self).state, old(self).buffer@, old(self).vchan.incoming()),
                e0 == frame_error(self.state, self.buffer@, self.vchan.incoming()),
                self.vchan.space() == old(self).vchan.space(),
                self.vchan.spec_status() == old(self).vchan.spec_status(),
                self.vchan.reliable() == old(self).vchan.reliable(),
                consumed <= in0.len(),
                self.vchan.incoming() == in0.skip(consumed as int),
                f0 == ({
                    let f = frame_run(self.state, self.buffer@, self.vchan.incoming());
                    (f.0, f.1, (f.2 + consumed) as nat, f.3)
                }),
            decreases self.vchan.incoming().len(), (if self.state is Discard {
                1nat
            } else {
                0nat
            }),
        {
            let ready = self.vchan.data_ready();
            let ghost cur = self.vchan.incoming();
            match self.state {
                ReadState::ReadingHeader => {
                    if ready < HEADER_SIZE {
                        return Ok(None);
                    }
                    self.buffer.clear();
                    let mut raw: Vec<u8> = Vec::new();
                    match self.vchan.recv_into(&mut raw, HEADER_SIZE) {
                        Ok(()) => {},
                        Err(e) => {
                            self.state = ReadState::Error;
                            return Err(StreamError::Transport(e));
                        },
                    }
                    assert(raw@ =~= cur.take(HEADER_SIZE as int));
                    let header = Header::from_exact(raw.as_slice());
                    let len = header.untrusted_len;
                    proof {
                        assert(in0.skip(consumed as int).skip(HEADER_SIZE as int) =~= in0.skip(
                            consumed + HEADER_SIZE,
                        ));
                    }
                    proof {
                        lemma_length_limits(header.ty);
                    }
                    match length_limits(header.ty) {
                        None => {
                            if len != 0 {
                                self.state = ReadState::Discard(len as usize);
                            }
                            proof {
                                consumed = (consumed + HEADER_SIZE) as nat;
                            }
                        },
                        Some((lo, hi)) => {
                            if lo <= len as usize && len as usize <= hi {
                                let ghost mid = *self;
                                let r = self.read_body(header, ready - HEADER_SIZE);
                                proof {
                                    let start = consumed + HEADER_SIZE;
                                    let n = body_run(header, Seq::empty(), mid.vchan.incoming()).2;
                                    assert(in0.skip(start).skip(n as int) =~= in0.skip(start + n));
                                }
                                return r;
                            } else {
                                self.state = ReadState::Error;
                                return Err(StreamError::BadLength { ty: header.ty, len });
                            }
                        },
                    }
                },
                ReadState::ReadingBody { header } => {
                    let ghost mid = *self;
                    let r = self.read_body(header, ready);
                    proof {
                        assert(in0.skip(consumed as int).skip(
                            body_run(header, mid.buffer@, mid.vchan.incoming()).2 as int,
                        ) =~= in0.skip(
                            consumed + body_run(header, mid.buffer@, mid.vchan.incoming()).2 as int,
                        ));
                    }
                    return r;
                },
                ReadState::Discard(n) => {
                    if ready < n {
                        if ready == 0 {
                            assert(cur.skip(0) =~= cur);
                            return Ok(None);
                        }
                        match self.vchan.discard(ready) {
                            Ok(()) => {},
                            Err(e) => {
                                self.state = ReadState::Error;
                                return Err(StreamError::Transport(e));
                            },
                        }
                        self.state = ReadState::Discard(n - ready);
                        proof {
                            assert(in0.skip(consumed as int).skip(ready as int) =~= in0.skip(
                                consumed + ready,
                            ));
                        }
                        return Ok(None);
                    }
                    if n > 0 {
                        match self.vchan.discard(n) {
                            Ok(()) => {},
                            Err(e) => {
                                self.state = ReadState::Error;
                                return Err(StreamError::Transport(e));
                            },
                        }
                    } else {
                        assert(cur.skip(0) =~= cur);
                    }
                    self.state = ReadState::ReadingHeader;
                    proof {
                        assert(in0.skip(consumed as int).skip(n as int) =~= in0.skip(consumed + n));
                        consumed = (consumed + n) as nat;
                    }
                },
                ReadState::Error => {
                    return Err(StreamError::Failed);
                },
                _ => {
                    return Ok(None);
                },
            }
        }
    }

    /// Drives the handshake: sends this side's version or reply and reads
    /// the peer's, as far as the available bytes and space allow.
    fn negotiate(&mut self) -> (r: Result<(), StreamError>)
        requires
            old(self).wf(),
            !is_framing(old(self).state),
        ensures
            final(self).wf(),
            final(self).queue == old(self).queue,
            final(self).kind == old(self).kind,
            final(self).domid == old(self).domid,
            final(self).vchan.reliable() == old(self).vchan.reliable(),
            old(self).vchan.reliable() ==> not_transport(r),
            r is Err ==> final(self).state is Error,
            ({
                let h = handshake(
                    old(self).kind,
                    old(self).state,
                    old(self).vchan.spec_status(),
                    old(self).vchan.incoming(),
                    old(self).vchan.space(),
                    old(self).xconf,
                );
                &&& h.0 is Error ==> r is Err
                &&& r matches Err(e) ==> e is Transport || h.0 is Error
                &&& (r matches Err(e) ==> e is Transport || e == handshake_error(
                    old(self).kind,
                    old(self).state,
                    old(self).vchan.spec_status(),
                    old(self).vchan.incoming(),
                ))
                &&& not_transport(r) ==> {
                    &&& final(self).state == h.0
                    &&& final(self).vchan.space() == old(self).vchan.space() - h.2.len()
                    &&& final(self).vchan.spec_status() == old(self).vchan.spec_status()
                    &&& final(self).vchan.incoming() == old(self).vchan.incoming().skip(h.1 as int)
                    &&& final(self).vchan.outgoing() == old(self).vchan.outgoing() + h.2
                    &&& final(self).xconf == h.3
                    &&& final(self).did_reconnect == (old(self).did_reconnect || h.4)
                    &&& final(self).buffer == old(self).buffer
                }
                &&& h.1 == 0 && h.2.len() == 0 && !(h.0 is Error) ==> r is Ok
            }),
    {
        if let ReadState::Connecting = self.state {
            match self.vchan.status() {
                Status::Waiting => {
                    assert(old(self).vchan.outgoing() + Seq::<u8>::empty() =~= old(
                        self,
                    ).vchan.outgoing());
                    assert(old(self).vchan.incoming().skip(0) =~= old(self).vchan.incoming());
                    return Ok(());
                },
                Status::Disconnected => {
                    self.state = ReadState::Error;
                    return Err(StreamError::Disconnected);
                },
                Status::Connected => match self.kind {
                    Kind::Daemon => {
                        self.state = ReadState::Negotiating;
                    },
                    Kind::Agent => {
                        if self.vchan.buffer_space() < 4 {
                            assert(old(self).vchan.outgoing() + Seq::<u8>::empty() =~= old(
                                self,
                            ).vchan.outgoing());
                            assert(old(self).vchan.incoming().skip(0) =~= old(
                                self,
                            ).vchan.incoming());
                            return Ok(());
                        }
                        let version = PROTOCOL_VERSION.as_bytes();
                        proof {
                            PROTOCOL_VERSION.lemma_round_trip();
                        }
                        match self.vchan.send(version.as_slice()) {
                            Ok(()) => {
                                self.state = ReadState::Negotiating;
                            },
                            Err(e) => {
                                self.state = ReadState::Error;
                                return Err(StreamError::Transport(e));
                            },
                        }
                    },
                },
            }
        }
        let ghost sent = self.vchan.outgoing().skip(old(self).vchan.outgoing().len() as int);
        assert(self.vchan.outgoing() =~= old(self).vchan.outgoing() + sent);
        let ready = self.vchan.data_ready();
        match self.kind {
            Kind::Agent => {
                if ready < XCONF_VERSION_SIZE {
                    assert(self.vchan.outgoing() + Seq::<u8>::empty() =~= self.vchan.outgoing());
                    assert(old(self).vchan.incoming().skip(0) =~= old(self).vchan.incoming());
                    return Ok(());
                }
                let mut raw: Vec<u8> = Vec::new();
                match self.vchan.recv_into(&mut raw, XCONF_VERSION_SIZE) {
                    Ok(()) => {},
                    Err(e) => {
                        self.state = ReadState::Error;
                        return Err(StreamError::Transport(e));
                    },
                }
                assert(raw@ =~= old(self).vchan.incoming().take(XCONF_VERSION_SIZE as int));
                let new_xconf = XConfVersion::from_exact(raw.as_slice());
                let major = new_xconf.version / 0x10000;
                let minor = new_xconf.version % 0x10000;
                assert(self.vchan.outgoing() + Seq::<u8>::empty() =~= self.vchan.outgoing());
                let accepted = major == PROTOCOL_VERSION_MAJOR && 4 <= minor && minor
                    <= PROTOCOL_VERSION_MINOR;
                if accepted {
                    self.xconf = new_xconf;
                    self.state = ReadState::ReadingHeader;
                    self.did_reconnect = true;
                    Ok(())
                } else {
                    self.state = ReadState::Error;
                    Err(StreamError::BadVersion { version: new_xconf.version })
                }
            },
            Kind::Daemon => {
                if ready < 4 || self.vchan.buffer_space() < XCONF_VERSION_SIZE {
                    assert(self.vchan.outgoing() + Seq::<u8>::empty() =~= self.vchan.outgoing());
                    assert(old(self).vchan.incoming().skip(0) =~= old(self).vchan.incoming());
                    return Ok(());
                }
                let mut raw: Vec<u8> = Vec::new();
                match self.vchan.recv_into(&mut raw, 4) {
                    Ok(()) => {},
                    Err(e) => {
                        self.state = ReadState::Error;
                        return Err(StreamError::Transport(e));
                    },
                }
                assert(raw@ =~= old(self).vchan.incoming().take(4));
                let version = u32::from_exact(raw.as_slice());
                let major = version / 0x10000;
                let minor = version % 0x10000;
                if major != PROTOCOL_VERSION_MAJOR {
                    self.state = ReadState::Error;
                    return Err(StreamError::BadVersion { version });
                }
                let agreed_minor = if minor < PROTOCOL_VERSION_MINOR {
                    minor
                } else {
                    PROTOCOL_VERSION_MINOR
                };
                let agreed = PROTOCOL_VERSION_MAJOR * 0x10000 + agreed_minor;
                let reply = XConfVersion { version: agreed, xconf: self.xconf.xconf };
                let bytes = if agreed_minor >= 4 {
                    reply.as_bytes()
                } else {
                    self.xconf.xconf.as_bytes()
                };
                proof {
                    reply.lemma_round_trip();
                    self.xconf.xconf.lemma_round_trip();
                    assert(version_minor(agreed) == agreed_minor);
                }
                match self.vchan.send(bytes.as_slice()) {
                    Ok(()) => {},
                    Err(e) => {
                        self.state = ReadState::Error;
                        return Err(StreamError::Transport(e));
                    },
                }
                self.xconf = reply;
                self.state = ReadState::ReadingHeader;
                Ok(())
            },
        }
    }

    /// Flushes pending writes, then advances the state machine.  Returns a
    /// message once one is complete, `None` when more bytes must arrive
    /// first, and an error when the stream fails; after an error every
    /// call fails.  A call that completes the handshake returns `None`.
    pub fn read_message(&mut self) -> (r: Result<Option<Buffer>, StreamError>)
        requires
            old(self).wf(),
        ensures
            final(self).wf(),
            old(self).read_outcome(final(self), message_view(r)),
    {
        if let ReadState::Error = self.state {
            assert(self.vchan.incoming().skip(0) =~= self.vchan.incoming());
            assert(self.queue@.skip(0) =~= self.queue@);
            return Err(StreamError::Failed);
        }
        let ghost q = self.queue@;
        let ghost k = self.flush_count();
        match self.flush_pending_writes() {
            Ok(_) => {},
            Err(e) => {
                self.state = ReadState::Error;
                return Err(StreamError::Transport(e));
            },
        }
        match self.state {
            ReadState::Connecting | ReadState::Negotiating => {
                let r = self.negotiate();
                proof {
                    assert(q.take(k as int) + q.skip(k as int) =~= q);
                }
                match r {
                    Ok(()) => Ok(None),
                    Err(e) => Err(e),
                }
            },
            _ => self.read_frames(),
        }
    }

    /// Creates an agent stream on `vchan`, a listening transport for the
    /// peer `domain`.
    pub fn agent(vchan: T, domain: u16) -> (r: Self)
        requires
            vchan.inv(),
        ensures
            r.wf(),
            r.vchan == vchan,
            r.state == ReadState::Connecting,
            r.kind == Kind::Agent,
            r.domid == domain,
            r.queue@.len() == 0,
            r.buffer@.len() == 0,
            !r.did_reconnect,
    {
        let size = WindowSize { width: 0, height: 0 };
        RawMessageStream {
            vchan,
            queue: VecDeque::new(),
            state: ReadState::Connecting,
            buffer: Vec::new(),
            did_reconnect: false,
            xconf: XConfVersion { version: 0, xconf: XConf { size, depth: 0, mem: 0 } },
            domid: domain,
            kind: Kind::Agent,
        }
    }

    /// Creates a daemon stream on `vchan`, a transport connecting to the
    /// peer `domain`, which will offer the configuration `xconf`.
    pub fn daemon(vchan: T, domain: u16, xconf: XConf) -> (r: Self)
        requires
            vchan.inv(),
        ensures
            r.wf(),
            r.vchan == vchan,
            r.state == ReadState::Connecting,
            r.kind == Kind::Daemon,
            r.domid == domain,
            r.xconf == (XConfVersion { version: PROTOCOL_VERSION, xconf }),
            r.queue@.len() == 0,
            r.buffer@.len() == 0,
            !r.did_reconnect,
    {
        RawMessageStream {
            vchan,
            queue: VecDeque::new(),
            state: ReadState::Connecting,
            buffer: Vec::new(),
            did_reconnect: false,
            xconf: XConfVersion { version: PROTOCOL_VERSION, xconf },
            domid: domain,
            kind: Kind::Daemon,
        }
    }

    /// Replaces the transport with `vchan`, a fresh one, drops what was
    /// queued or partly read, and starts connecting again.
    pub fn reconnect(&mut self, vchan: T)
        requires
            vchan.inv(),
        ensures
            final(self).wf(),
            final(self).vchan == vchan,
            final(self).state == ReadState::Connecting,
            final(self).queue@.len() == 0,
            final(self).buffer@.len() == 0,
            final(self).kind == old(self).kind,
            final(self).domid == old(self).domid,
            final(self).xconf == old(self).xconf,
            final(self).did_reconnect == old(self).did_reconnect,
    {
        self.vchan = vchan;
        self.queue.clear();
        self.buffer.clear();
        self.state = ReadState::Connecting;
    }

    /// Acknowledge an event on the transport.
    pub fn wait(&mut self)
        requires
            old(self).wf(),
        ensures
            final(self).wf(),
            final(self).state == old(self).state,
            final(self).queue == old(self).queue,
            final(self).buffer == old(self).buffer,
            final(self).did_reconnect == old(self).did_reconnect,
            final(self).vchan.outgoing() == old(self).vchan.outgoing(),
            final(self).vchan.reliable() == old(self).vchan.reliable(),
    {
        self.vchan.wait()
    }

    /// Check for a reconnection, consuming the pending reconnection state.
    pub fn reconnected(&mut self) -> (r: bool)
        ensures
            r == old(self).did_reconnect,
            !final(self).did_reconnect,
            final(self).state == old(self).state,
            final(self).vchan == old(self).vchan,
            final(self).queue == old(self).queue,
            final(self).buffer == old(self).buffer,
            final(self).xconf == old(self).xconf,
            final(self).kind == old(self).kind,
    {
        let r = self.did_reconnect;
        self.did_reconnect = false;
        r
    }

    /// Returns true if the peer has disconnected.
    pub fn needs_reconnect(&self) -> (r: bool)
        requires
            self.wf(),
        ensures
            r == (self.vchan.spec_status() == Status::Disconnected),
    {
        match self.vchan.status() {
            Status::Disconnected => true,
            _ => false,
        }
    }
}

} // verus!
