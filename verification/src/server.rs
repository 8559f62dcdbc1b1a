//! The acceptor-side handshake: a strictly linear state machine that reads
//! the greeting, selects the authentication method, answers it, then reads
//! the request in two exact-length pieces and hands the assembled message
//! back. The driver owns the stream and performs each asked-for operation.

use vstd::prelude::*;
use crate::handshake::{Event, EventView, Action, ActionView, HandshakeError, spec_header_error};
use crate::msg::{SocksRequestResponse, valid_atyp, spec_tail_len, is_complete};
use crate::v5::{
    VERSION,
    METH_NO_AUTH,
    METH_NO_ACCEPTABLE_METHOD,
    ATYP_IPV4,
    ATYP_IPV6,
    ATYP_DOMAIN,
    MAX_MESSAGE_SIZE,
};

verus! {

/// Where the acceptor-side handshake stands. The transitions are strictly
/// linear; `Finished` and `Failed` are terminal.
#[derive(Clone, Copy, Debug, PartialEq, Eq, Structural)]
pub enum ServerState {
    /// Awaiting the 2-byte greeting: version and method count.
    ReadingGreeting,
    /// Awaiting the offered method codes.
    ReadingMethods { count: u8 },
    /// Awaiting the flush of the 2-byte method selection.
    WritingSelection { answer: u8 },
    /// Awaiting the 6-byte fixed prefix of the request.
    ReadingRequestHeader,
    /// Awaiting the rest of the request, its length now known.
    ReadingRequestTail,
    /// The request was assembled and handed out.
    Finished,
    /// The handshake failed; the instance is spent.
    Failed,
}

/// The acceptor-side handshake machine: the request assembled so far, and
/// where the handshake stands.
pub struct SocksHandshake {
    request: SocksRequestResponse,
    state: ServerState,
}

/// The mathematical shape of a [`SocksHandshake`].
#[verifier::ext_equal]
pub struct ServerView {
    pub state: ServerState,
    pub buf: Seq<u8>,
}

impl View for SocksHandshake {
    type V = ServerView;

    closed spec fn view(&self) -> ServerView {
        ServerView { state: self.state, buf: self.request@ }
    }
}

/// The machine's invariant: what the buffer holds in each state. While the
/// request tail is awaited, the buffer is the validated 6-byte prefix.
pub open spec fn server_wf(v: ServerView) -> bool {
    match v.state {
        ServerState::ReadingGreeting => v.buf.len() == 0,
        ServerState::ReadingMethods { count } => count > 0 && v.buf.len() == 0,
        ServerState::WritingSelection { answer } => (answer == METH_NO_AUTH || answer
            == METH_NO_ACCEPTABLE_METHOD) && v.buf.len() == 0,
        ServerState::ReadingRequestHeader => v.buf.len() == 0,
        ServerState::ReadingRequestTail => v.buf.len() == 6 && v.buf[0] == VERSION && v.buf[2] == 0
            && valid_atyp(v.buf[3]),
        ServerState::Finished => v.buf.len() == 0,
        ServerState::Failed => true,
    }
}

/// Whether the machine is awaiting a read.
pub open spec fn server_is_reading(v: ServerView) -> bool {
    match v.state {
        ServerState::ReadingGreeting => true,
        ServerState::ReadingMethods { .. } => true,
        ServerState::ReadingRequestHeader => true,
        ServerState::ReadingRequestTail => true,
        _ => false,
    }
}

/// How many bytes the outstanding read asks for.
pub open spec fn server_read_target(v: ServerView) -> int {
    match v.state {
        ServerState::ReadingGreeting => 2,
        ServerState::ReadingMethods { count } => count as int,
        ServerState::ReadingRequestHeader => 6,
        ServerState::ReadingRequestTail => spec_tail_len(v.buf[3], v.buf[4]),
        _ => 0,
    }
}

/// The whole acceptor-side transition relation: from a machine and the
/// outcome of its outstanding operation to the next machine and the next
/// action. `step` implements exactly this function.
pub open spec fn server_step(v: ServerView, e: EventView) -> (ServerView, ActionView) {
    let failed = ServerView { state: ServerState::Failed, buf: v.buf };
    match e {
        EventView::StreamEnded => (failed, ActionView::Fail(HandshakeError::UnexpectedEndOfStream)),
        EventView::TransportFailed => (
            failed,
            ActionView::Fail(HandshakeError::UnderlyingIoFailure),
        ),
        EventView::WriteCompleted => match v.state {
            ServerState::WritingSelection { answer } => {
                if answer == METH_NO_ACCEPTABLE_METHOD {
                    (failed, ActionView::Fail(HandshakeError::NoAcceptableAuthMethod))
                } else {
                    (
                        ServerView { state: ServerState::ReadingRequestHeader, buf: v.buf },
                        ActionView::Read(6),
                    )
                }
            },
            _ => (failed, ActionView::Fail(HandshakeError::UnderlyingIoFailure)),
        },
        EventView::ReadCompleted(b) => match v.state {
            ServerState::ReadingGreeting => {
                if b[0] != VERSION {
                    (failed, ActionView::Fail(HandshakeError::ProtocolVersionMismatch))
                } else if b[1] == 0 {
                    (failed, ActionView::Fail(HandshakeError::MalformedGreeting))
                } else {
                    (
                        ServerView { state: ServerState::ReadingMethods { count: b[1] }, buf: v.buf },
                        ActionView::Read(b[1] as int),
                    )
                }
            },
            ServerState::ReadingMethods { .. } => {
                let answer = if b.contains(METH_NO_AUTH) {
                    METH_NO_AUTH
                } else {
                    METH_NO_ACCEPTABLE_METHOD
                };
                (
                    ServerView { state: ServerState::WritingSelection { answer }, buf: v.buf },
                    ActionView::Write(seq![VERSION, answer]),
                )
            },
            ServerState::ReadingRequestHeader => match spec_header_error(b) {
                Some(err) => (failed, ActionView::Fail(err)),
                None => (
                    ServerView { state: ServerState::ReadingRequestTail, buf: b },
                    ActionView::Read(spec_tail_len(b[3], b[4])),
                ),
            },
            ServerState::ReadingRequestTail => (
                ServerView { state: ServerState::Finished, buf: Seq::<u8>::empty() },
                ActionView::Done(v.buf + b),
            ),
            _ => (failed, ActionView::Fail(HandshakeError::UnderlyingIoFailure)),
        },
    }
}

/// Starts an acceptor-side handshake. The machine first asks its driver to
/// read the 2-byte greeting.
pub fn socks_handshake() -> (r: (SocksHandshake, Action))
    ensures
        r.0@.state is ReadingGreeting,
        r.0@.buf.len() == 0,
        server_wf(r.0@),
        r.1@ == ActionView::Read(2),
{
    let m = SocksHandshake {
        request: SocksRequestResponse { bytes: Vec::with_capacity(MAX_MESSAGE_SIZE) },
        state: ServerState::ReadingGreeting,
    };
    (m, Action::Read(2))
}

impl SocksHandshake {
    /// Feeds the outcome of the outstanding operation to the machine and
    /// returns the next action: exactly the transition [`server_step`]
    /// describes. A completed read must carry exactly the bytes asked for.
    pub fn step(&mut self, e: Event) -> (r: Action)
        requires
            server_wf(old(self)@),
            !(old(self)@.state is Finished),
            !(old(self)@.state is Failed),
            e matches Event::ReadCompleted(b) ==> server_is_reading(old(self)@) && b@.len()
                == server_read_target(old(self)@),
            e is WriteCompleted ==> old(self)@.state is WritingSelection,
        ensures
            final(self)@ == server_step(old(self)@, e@).0,
            r@ == server_step(old(self)@, e@).1,
            server_wf(final(self)@),
            r@ is Done ==> final(self)@.state is Finished,
            r@ is Fail ==> final(self)@.state is Failed,
            r@ matches ActionView::Done(m) ==> is_complete(m) && m.len() <= MAX_MESSAGE_SIZE && m[0]
                == VERSION && m[2] == 0,
    {
        let ghost v0 = self@;
        match e {
            Event::StreamEnded => {
                self.state = ServerState::Failed;
                Action::Fail(HandshakeError::UnexpectedEndOfStream)
            },
            Event::TransportFailed => {
                self.state = ServerState::Failed;
                Action::Fail(HandshakeError::UnderlyingIoFailure)
            },
            Event::WriteCompleted => match self.state {
                ServerState::WritingSelection { answer } => {
                    if answer == METH_NO_ACCEPTABLE_METHOD {
                        self.state = ServerState::Failed;
                        Action::Fail(HandshakeError::NoAcceptableAuthMethod)
                    } else {
                        self.state = ServerState::ReadingRequestHeader;
                        Action::Read(6)
                    }
                },
                _ => unreached(),
            },
            Event::ReadCompleted(mut b) => match self.state {
                ServerState::ReadingGreeting => {
                    if b[0] != VERSION {
                        self.state = ServerState::Failed;
                        Action::Fail(HandshakeError::ProtocolVersionMismatch)
                    } else if b[1] == 0 {
                        self.state = ServerState::Failed;
                        Action::Fail(HandshakeError::MalformedGreeting)
                    } else {
                        let count = b[1];
                        self.state = ServerState::ReadingMethods { count };
                        Action::Read(count as usize)
                    }
                },
                ServerState::ReadingMethods { .. } => {
                    let mut found = false;
                    let mut i: usize = 0;
                    while i < b.len()
                        invariant
                            i <= b@.len(),
                            found <==> exists|j: int| 0 <= j < i && b@[j] == METH_NO_AUTH,
                        decreases b@.len() - i,
                    {
                        if b[i] == METH_NO_AUTH {
                            found = true;
                        }
                        i = i + 1;
                    }
                    proof {
                        assert(found <==> b@.contains(METH_NO_AUTH));
                    }
                    let answer = if found {
                        METH_NO_AUTH
                    } else {
                        METH_NO_ACCEPTABLE_METHOD
                    };
                    let mut w: Vec<u8> = Vec::new();
                    w.push(VERSION);
                    w.push(answer);
                    self.state = ServerState::WritingSelection { answer };
                    proof {
                        assert(w@ =~= seq![VERSION, answer]);
                    }
                    Action::Write(w)
                },
                ServerState::ReadingRequestHeader => {
                    if b[0] != VERSION {
                        self.state = ServerState::Failed;
                        Action::Fail(HandshakeError::ProtocolVersionMismatch)
                    } else if b[2] != 0 {
                        self.state = ServerState::Failed;
                        Action::Fail(HandshakeError::ReservedFieldViolation)
                    } else {
                        let atyp = b[3];
                        if atyp == ATYP_IPV4 || atyp == ATYP_IPV6 || atyp == ATYP_DOMAIN {
                            let tail: usize = if atyp == ATYP_IPV4 {
                                4
                            } else if atyp == ATYP_IPV6 {
                                16
                            } else {
                                (b[4] as usize) + 1
                            };
                            self.request.bytes = b;
                            self.state = ServerState::ReadingRequestTail;
                            Action::Read(tail)
                        } else {
                            self.state = ServerState::Failed;
                            Action::Fail(HandshakeError::UnsupportedAddressType)
                        }
                    }
                },
                ServerState::ReadingRequestTail => {
                    self.request.bytes.append(&mut b);
                    let mut out = SocksRequestResponse { bytes: Vec::new() };
                    core::mem::swap(&mut out, &mut self.request);
                    self.state = ServerState::Finished;
                    proof {
                        assert(out@ == v0.buf + e@->ReadCompleted_0);
                        assert(self@ =~= server_step(v0, e@).0);
                    }
                    Action::Done(out)
                },
                _ => unreached(),
            },
        }
    }
}

} // verus!
