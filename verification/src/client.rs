//! The originator-side handshake: writes the greeting that offers only "no
//! authentication", checks the peer's method selection, sends the
//! caller-supplied request verbatim, then reads the reply in two
//! exact-length pieces and hands the raw reply back for the caller to
//! interpret with the shared accessors.

use vstd::prelude::*;
use crate::handshake::{Event, EventView, Action, ActionView, HandshakeError, spec_header_error};
use crate::msg::{SocksRequestResponse, clone_bytes, valid_atyp, spec_tail_len, is_complete};
use crate::v5::{
    VERSION,
    METH_NO_AUTH,
    ATYP_IPV4,
    ATYP_IPV6,
    ATYP_DOMAIN,
    MAX_MESSAGE_SIZE,
};

verus! {

/// Where the originator-side handshake stands. The transitions are strictly
/// linear; `Finished` and `Failed` are terminal.
#[derive(Clone, Copy, Debug, PartialEq, Eq, Structural)]
pub enum ClientState {
    /// Awaiting the flush of the 3-byte greeting.
    WritingGreeting,
    /// Awaiting the 2-byte method selection.
    ReadingSelection,
    /// Awaiting the flush of the caller-supplied request.
    WritingRequest,
    /// Awaiting the 6-byte fixed prefix of the reply.
    ReadingReplyHeader,
    /// Awaiting the rest of the reply, its length now known.
    ReadingReplyTail,
    /// The reply was assembled and handed out.
    Finished,
    /// The handshake failed; the instance is spent.
    Failed,
}

/// The originator-side handshake machine: the request to send, the reply
/// assembled so far, and where the handshake stands.
pub struct SocksConnectHandshake {
    request: SocksRequestResponse,
    response: SocksRequestResponse,
    state: ClientState,
}

/// The mathematical shape of a [`SocksConnectHandshake`].
#[verifier::ext_equal]
pub struct ClientView {
    pub state: ClientState,
    pub req: Seq<u8>,
    pub resp: Seq<u8>,
}

impl View for SocksConnectHandshake {
    type V = ClientView;

    closed spec fn view(&self) -> ClientView {
        ClientView { state: self.state, req: self.request@, resp: self.response@ }
    }
}

/// The machine's invariant: what the reply buffer holds in each state. While
/// the reply tail is awaited, it is the validated 6-byte prefix.
pub open spec fn client_wf(v: ClientView) -> bool {
    match v.state {
        ClientState::WritingGreeting => v.resp.len() == 0,
        ClientState::ReadingSelection => v.resp.len() == 0,
        ClientState::WritingRequest => v.resp.len() == 0,
        ClientState::ReadingReplyHeader => v.resp.len() == 0,
        ClientState::ReadingReplyTail => v.resp.len() == 6 && v.resp[0] == VERSION && v.resp[2]
            == 0 && valid_atyp(v.resp[3]),
        ClientState::Finished => v.resp.len() == 0,
        ClientState::Failed => true,
    }
}

/// Whether the machine is awaiting a read.
pub open spec fn client_is_reading(v: ClientView) -> bool {
    match v.state {
        ClientState::ReadingSelection => true,
        ClientState::ReadingReplyHeader => true,
        ClientState::ReadingReplyTail => true,
        _ => false,
    }
}

/// How many bytes the outstanding read asks for.
pub open spec fn client_read_target(v: ClientView) -> int {
    match v.state {
        ClientState::ReadingSelection => 2,
        ClientState::ReadingReplyHeader => 6,
        ClientState::ReadingReplyTail => spec_tail_len(v.resp[3], v.resp[4]),
        _ => 0,
    }
}

/// Whether the machine is awaiting the flush of a write.
pub open spec fn client_is_writing(v: ClientView) -> bool {
    v.state is WritingGreeting || v.state is WritingRequest
}

/// The whole originator-side transition relation: from a machine and the
/// outcome of its outstanding operation to the next machine and the next
/// action. `step` implements exactly this function.
pub open spec fn client_step(v: ClientView, e: EventView) -> (ClientView, ActionView) {
    let failed = ClientView { state: ClientState::Failed, req: v.req, resp: v.resp };
    match e {
        EventView::StreamEnded => (failed, ActionView::Fail(HandshakeError::UnexpectedEndOfStream)),
        EventView::TransportFailed => (
            failed,
            ActionView::Fail(HandshakeError::UnderlyingIoFailure),
        ),
        EventView::WriteCompleted => match v.state {
            ClientState::WritingGreeting => (
                ClientView { state: ClientState::ReadingSelection, req: v.req, resp: v.resp },
                ActionView::Read(2),
            ),
            ClientState::WritingRequest => (
                ClientView { state: ClientState::ReadingReplyHeader, req: v.req, resp: v.resp },
                ActionView::Read(6),
            ),
            _ => (failed, ActionView::Fail(HandshakeError::UnderlyingIoFailure)),
        },
        EventView::ReadCompleted(b) => match v.state {
            ClientState::ReadingSelection => {
                if b[0] != VERSION {
                    (failed, ActionView::Fail(HandshakeError::ProtocolVersionMismatch))
                } else if b[1] != METH_NO_AUTH {
                    (failed, ActionView::Fail(HandshakeError::NoAcceptableAuthMethod))
                } else {
                    (
                        ClientView { state: ClientState::WritingRequest, req: v.req, resp: v.resp },
                        ActionView::Write(v.req),
                    )
                }
            },
            ClientState::ReadingReplyHeader => match spec_header_error(b) {
                Some(err) => (failed, ActionView::Fail(err)),
                None => (
                    ClientView { state: ClientState::ReadingReplyTail, req: v.req, resp: b },
                    ActionView::Read(spec_tail_len(b[3], b[4])),
                ),
            },
            ClientState::ReadingReplyTail => (
                ClientView { state: ClientState::Finished, req: v.req, resp: Seq::<u8>::empty() },
                ActionView::Done(v.resp + b),
            ),
            _ => (failed, ActionView::Fail(HandshakeError::UnderlyingIoFailure)),
        },
    }
}

/// Starts an originator-side handshake with an already-encoded request. The
/// machine first asks its driver to flush the greeting that offers only the
/// "no authentication" method.
pub fn socks_connect_handshake(request: SocksRequestResponse) -> (r: (
    SocksConnectHandshake,
    Action,
))
    ensures
        r.0@.state is WritingGreeting,
        r.0@.req == request@,
        r.0@.resp.len() == 0,
        client_wf(r.0@),
        r.1@ == ActionView::Write(seq![VERSION, 1u8, METH_NO_AUTH]),
{
    let m = SocksConnectHandshake {
        request,
        response: SocksRequestResponse { bytes: Vec::with_capacity(MAX_MESSAGE_SIZE) },
        state: ClientState::WritingGreeting,
    };
    let mut w: Vec<u8> = Vec::new();
    w.push(VERSION);
    w.push(1);
    w.push(METH_NO_AUTH);
    proof {
        assert(w@ =~= seq![VERSION, 1u8, METH_NO_AUTH]);
    }
    (m, Action::Write(w))
}

impl SocksConnectHandshake {
    /// Feeds the outcome of the outstanding operation to the machine and
    /// returns the next action: exactly the transition [`client_step`]
    /// describes. A completed read must carry exactly the bytes asked for.
    pub fn step(&mut self, e: Event) -> (r: Action)
        requires
            client_wf(old(self)@),
            !(old(self)@.state is Finished),
            !(old(self)@.state is Failed),
            e matches Event::ReadCompleted(b) ==> client_is_reading(old(self)@) && b@.len()
                == client_read_target(old(self)@),
            e is WriteCompleted ==> client_is_writing(old(self)@),
        ensures
            final(self)@ == client_step(old(self)@, e@).0,
            r@ == client_step(old(self)@, e@).1,
            client_wf(final(self)@),
            r@ is Done ==> final(self)@.state is Finished,
            r@ is Fail ==> final(self)@.state is Failed,
            r@ matches ActionView::Done(m) ==> is_complete(m) && m.len() <= MAX_MESSAGE_SIZE && m[0]
                == VERSION && m[2] == 0,
    {
        let ghost v0 = self@;
        match e {
            Event::StreamEnded => {
                self.state = ClientState::Failed;
                Action::Fail(HandshakeError::UnexpectedEndOfStream)
            },
            Event::TransportFailed => {
                self.state = ClientState::Failed;
                Action::Fail(HandshakeError::UnderlyingIoFailure)
            },
            Event::WriteCompleted => match self.state {
                ClientState::WritingGreeting => {
                    self.state = ClientState::ReadingSelection;
                    Action::Read(2)
                },
                ClientState::WritingRequest => {
                    self.state = ClientState::ReadingReplyHeader;
                    Action::Read(6)
                },
                _ => unreached(),
            },
            Event::ReadCompleted(mut b) => match self.state {
                ClientState::ReadingSelection => {
                    if b[0] != VERSION {
                        self.state = ClientState::Failed;
                        Action::Fail(HandshakeError::ProtocolVersionMismatch)
                    } else if b[1] != METH_NO_AUTH {
                        self.state = ClientState::Failed;
                        Action::Fail(HandshakeError::NoAcceptableAuthMethod)
                    } else {
                        self.state = ClientState::WritingRequest;
                        Action::Write(clone_bytes(&self.request.bytes))
                    }
                },
                ClientState::ReadingReplyHeader => {
                    if b[0] != VERSION {
                        self.state = ClientState::Failed;
                        Action::Fail(HandshakeError::ProtocolVersionMismatch)
                    } else if b[2] != 0 {
                        self.state = ClientState::Failed;
                        Action::Fail(HandshakeError::ReservedFieldViolation)
                    } else {
                        let atyp = b[3];
                        if atyp == ATYP_IPV4 || atyp == ATYP_IPV6 || atyp == ATYP_DOMAIN {
                            let tail: usize = if atyp == ATYP_IPV4 {
                                4
                            } else if atyp == ATYP_IPV6 {
                                16
                            } else {
                                (b[4] as usize) + 1
                            };
                            self.response.bytes = b;
                            self.state = ClientState::ReadingReplyTail;
                            Action::Read(tail)
                        } else {
                            self.state = ClientState::Failed;
                            Action::Fail(HandshakeError::UnsupportedAddressType)
                        }
                    }
                },
                ClientState::ReadingReplyTail => {
                    self.response.bytes.append(&mut b);
                    let mut out = SocksRequestResponse { bytes: Vec::new() };
                    core::mem::swap(&mut out, &mut self.response);
                    self.state = ClientState::Finished;
                    proof {
                        assert(out@ == v0.resp + e@->ReadCompleted_0);
                        assert(self@ =~= client_step(v0, e@).0);
                    }
                    Action::Done(out)
                },
                _ => unreached(),
            },
        }
    }
}

} // verus!
