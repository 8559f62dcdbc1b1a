//! What the two handshake state machines exchange with their driver: the
//! outcome of the one outstanding read or write, the next operation asked
//! for, and the typed errors a handshake can end with.

use vstd::prelude::*;
use crate::msg::SocksRequestResponse;
use crate::msg::valid_atyp;
use crate::v5::VERSION;

verus! {

/// Why a handshake failed. Every failure is terminal for its instance.
#[derive(Clone, Copy, Debug, PartialEq, Eq, Structural)]
pub enum HandshakeError {
    /// A version byte other than 5 arrived.
    ProtocolVersionMismatch,
    /// The greeting offered zero authentication methods.
    MalformedGreeting,
    /// No offered method was acceptable; the rejection was flushed first.
    NoAcceptableAuthMethod,
    /// The reserved byte of a request or reply was not zero.
    ReservedFieldViolation,
    /// The address-type byte was none of IPv4, IPv6, domain name.
    UnsupportedAddressType,
    /// The peer closed the stream inside an exact-length read.
    UnexpectedEndOfStream,
    /// The transport reported an error of its own.
    UnderlyingIoFailure,
}

/// The outcome of the one outstanding operation, reported by the driver.
#[derive(Debug, PartialEq, Eq)]
pub enum Event {
    /// The asked-for read completed with exactly the bytes requested.
    ReadCompleted(Vec<u8>),
    /// The asked-for write was fully flushed.
    WriteCompleted,
    /// The stream ended before an exact-length read was satisfied.
    StreamEnded,
    /// The transport failed for another reason.
    TransportFailed,
}

/// The mathematical shape of an [`Event`].
pub enum EventView {
    ReadCompleted(Seq<u8>),
    WriteCompleted,
    StreamEnded,
    TransportFailed,
}

impl View for Event {
    type V = EventView;

    open spec fn view(&self) -> EventView {
        match self {
            Event::ReadCompleted(b) => EventView::ReadCompleted(b@),
            Event::WriteCompleted => EventView::WriteCompleted,
            Event::StreamEnded => EventView::StreamEnded,
            Event::TransportFailed => EventView::TransportFailed,
        }
    }
}

/// What the machine asks of its driver next.
#[derive(Debug, PartialEq, Eq)]
pub enum Action {
    /// Read exactly this many bytes, then report the outcome.
    Read(usize),
    /// Write exactly these bytes, then report the outcome.
    Write(Vec<u8>),
    /// The handshake succeeded; this is the assembled message.
    Done(SocksRequestResponse),
    /// The handshake failed; the instance is spent.
    Fail(HandshakeError),
}

/// The mathematical shape of an [`Action`].
pub enum ActionView {
    Read(int),
    Write(Seq<u8>),
    Done(Seq<u8>),
    Fail(HandshakeError),
}

impl View for Action {
    type V = ActionView;

    open spec fn view(&self) -> ActionView {
        match self {
            Action::Read(n) => ActionView::Read(*n as int),
            Action::Write(b) => ActionView::Write(b@),
            Action::Done(m) => ActionView::Done(m@),
            Action::Fail(e) => ActionView::Fail(*e),
        }
    }
}

/// What is wrong with a 6-byte request or reply prefix, if anything: the
/// version byte, then the reserved byte, then the address type, in that
/// order of precedence.
pub open spec fn spec_header_error(b: Seq<u8>) -> Option<HandshakeError> {
    if b[0] != VERSION {
        Some(HandshakeError::ProtocolVersionMismatch)
    } else if b[2] != 0 {
        Some(HandshakeError::ReservedFieldViolation)
    } else if !valid_atyp(b[3]) {
        Some(HandshakeError::UnsupportedAddressType)
    } else {
        None
    }
}

} // verus!
