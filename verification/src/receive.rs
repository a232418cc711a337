//! The receiving side of one connection: a state machine from what was read
//! to what to do next, and the same decisions on a whole byte stream.

use vstd::prelude::*;
use crate::paths::{resolve_destination, Destination};
use crate::wire::{
    be32_value, decode_length, decode_metadata, json_member_text, metadata_key, metadata_of,
    parse_message, parse_spec, ProtocolError,
};

verus! {

/// Where the handler of one connection stands.
#[derive(Debug, Clone, Copy, PartialEq, Eq, Structural)]
pub enum ReceiveState {
    AwaitingLength,
    AwaitingMetadata { length: u32 },
    AwaitingPayload,
    Closed,
}

/// What the outside world reports to the handler.
#[derive(Debug, Clone, PartialEq, Eq)]
pub enum ReceiveEvent {
    /// The bytes of the read that was asked for.
    Read(Vec<u8>),
    /// The read failed, or the connection ended before it was complete.
    ReadFailed,
    /// The payload was copied to the destination up to the end of the connection.
    PayloadStored,
    /// Creating the directories or the file, or copying the payload, failed.
    StoreFailed,
}

/// Why a connection's handler gave up.
#[derive(Debug, Clone, Copy, PartialEq, Eq, Structural)]
pub enum ReceiveError {
    Protocol(ProtocolError),
    Io,
}

/// What the handler asks the outside world to do next.
#[derive(Debug, Clone, PartialEq, Eq)]
pub enum ReceiveAction {
    /// Read exactly this many bytes from the connection.
    ReadExact { count: usize },
    /// Create the parent directory with all that is missing above it, create
    /// or truncate the file, and copy the rest of the connection into it.
    Store(Destination),
    /// The transfer is complete, or the handler was closed before: stop.
    Done,
    /// Report the error and stop.
    Abort(ReceiveError),
}

/// How far a state is along the way to `Closed`.
pub open spec fn progress(state: ReceiveState) -> int {
    match state {
        ReceiveState::AwaitingLength => 0,
        ReceiveState::AwaitingMetadata { .. } => 1,
        ReceiveState::AwaitingPayload => 2,
        ReceiveState::Closed => 3,
    }
}

/// The transition relation of a handler that stores under `root`.
///
/// A complete length prefix leads to the metadata read, a complete and
/// well-formed metadata block to storing the payload at the resolved
/// destination, a stored payload to the end. Anything else closes the
/// handler with an error; a closed handler stays closed.
pub open spec fn transition(
    root: Seq<char>,
    before: ReceiveState,
    event: ReceiveEvent,
    after: ReceiveState,
    action: ReceiveAction,
) -> bool {
    match before {
        ReceiveState::AwaitingLength => match event {
            ReceiveEvent::Read(bytes) if bytes@.len() == 4 => {
                &&& after == (ReceiveState::AwaitingMetadata {
                    length: be32_value(bytes@) as u32,
                })
                &&& action == (ReceiveAction::ReadExact { count: be32_value(bytes@) as usize })
            },
            _ => {
                &&& after == ReceiveState::Closed
                &&& action == ReceiveAction::Abort(
                    ReceiveError::Protocol(ProtocolError::PrematureEof),
                )
            },
        },
        ReceiveState::AwaitingMetadata { length } => match event {
            ReceiveEvent::Read(bytes) if bytes@.len() == length => match metadata_of(
                json_member_text(bytes@, metadata_key()),
            ) {
                Ok(path) => {
                    &&& after == ReceiveState::AwaitingPayload
                    &&& action matches ReceiveAction::Store(destination)
                    &&& destination.resolves(root, path)
                },
                Err(e) => {
                    &&& after == ReceiveState::Closed
                    &&& action == ReceiveAction::Abort(ReceiveError::Protocol(e))
                },
            },
            _ => {
                &&& after == ReceiveState::Closed
                &&& action == ReceiveAction::Abort(
                    ReceiveError::Protocol(ProtocolError::PrematureEof),
                )
            },
        },
        ReceiveState::AwaitingPayload => match event {
            ReceiveEvent::PayloadStored => {
                &&& after == ReceiveState::Closed
                &&& action == ReceiveAction::Done
            },
            _ => {
                &&& after == ReceiveState::Closed
                &&& action == ReceiveAction::Abort(ReceiveError::Io)
            },
        },
        ReceiveState::Closed => {
            &&& after == ReceiveState::Closed
            &&& action == ReceiveAction::Done
        },
    }
}

/// No transition leads back: every step moves forward or ends the handler.
pub proof fn lemma_no_way_back(
    root: Seq<char>,
    before: ReceiveState,
    event: ReceiveEvent,
    after: ReceiveState,
    action: ReceiveAction,
)
    requires
        transition(root, before, event, after, action),
    ensures
        before != ReceiveState::Closed ==> progress(after) > progress(before),
        before == ReceiveState::Closed ==> after == ReceiveState::Closed,
        action is Abort ==> after == ReceiveState::Closed,
{
}

/// The handler of one incoming connection.
pub struct Receiver {
    root: String,
    state: ReceiveState,
}

impl Receiver {
    /// The directory under which received files are stored.
    pub closed spec fn root(&self) -> Seq<char> {
        self.root@
    }

    /// Where the handler stands.
    pub closed spec fn state(&self) -> ReceiveState {
        self.state
    }

    /// A handler for a fresh connection, with the request for its first read:
    /// the four bytes of the length prefix.
    pub fn new(root: String) -> (r: (Receiver, ReceiveAction))
        ensures
            r.0.root() == root@,
            r.0.state() == ReceiveState::AwaitingLength,
            r.1 == (ReceiveAction::ReadExact { count: 4 }),
    {
        (Receiver { root, state: ReceiveState::AwaitingLength }, ReceiveAction::ReadExact { count: 4 })
    }

    /// Where the handler stands.
    pub fn current_state(&self) -> (r: ReceiveState)
        ensures
            r == self.state(),
    {
        self.state
    }

    /// Takes one event and says what to do next.
    pub fn step(&mut self, event: ReceiveEvent) -> (action: ReceiveAction)
        ensures
            final(self).root() == old(self).root(),
            transition(old(self).root(), old(self).state(), event, final(self).state(), action),
    {
        let eof = ReceiveAction::Abort(ReceiveError::Protocol(ProtocolError::PrematureEof));
        match self.state {
            ReceiveState::AwaitingLength => match event {
                ReceiveEvent::Read(bytes) => match decode_length(bytes.as_slice()) {
                    Some(length) => {
                        self.state = ReceiveState::AwaitingMetadata { length };
                        ReceiveAction::ReadExact { count: length as usize }
                    },
                    None => {
                        self.state = ReceiveState::Closed;
                        eof
                    },
                },
                _ => {
                    self.state = ReceiveState::Closed;
                    eof
                },
            },
            ReceiveState::AwaitingMetadata { length } => match event {
                ReceiveEvent::Read(bytes) => {
                    if bytes.len() != length as usize {
                        self.state = ReceiveState::Closed;
                        eof
                    } else {
                        match decode_metadata(bytes.as_slice()) {
                            Ok(metadata) => {
                                self.state = ReceiveState::AwaitingPayload;
                                ReceiveAction::Store(
                                    resolve_destination(
                                        self.root.as_str(),
                                        metadata.path.as_str(),
                                    ),
                                )
                            },
                            Err(e) => {
                                self.state = ReceiveState::Closed;
                                ReceiveAction::Abort(ReceiveError::Protocol(e))
                            },
                        }
                    }
                },
                _ => {
                    self.state = ReceiveState::Closed;
                    eof
                },
            },
            ReceiveState::AwaitingPayload => {
                self.state = ReceiveState::Closed;
                match event {
                    ReceiveEvent::PayloadStored => ReceiveAction::Done,
                    _ => ReceiveAction::Abort(ReceiveError::Io),
                }
            },
            ReceiveState::Closed => ReceiveAction::Done,
        }
    }
}

/// A received transfer: where it is stored, and the bytes to store.
#[derive(Debug, Clone, PartialEq, Eq)]
pub struct Received {
    pub destination: Destination,
    pub payload: Vec<u8>,
}

/// Reads one whole transfer from all the bytes of a connection and resolves
/// where it is stored under `root`. The relative path is honoured as it
/// stands.
pub fn receive(root: &str, bytes: &[u8]) -> (r: Result<Received, ProtocolError>)
    ensures
        match r {
            Ok(received) => parse_spec(bytes@) matches Ok((path, payload))
                && received.payload@ == payload && received.destination.resolves(root@, path),
            Err(e) => parse_spec(bytes@) == Err::<(Seq<char>, Seq<u8>), _>(e),
        },
{
    match parse_message(bytes) {
        Ok(message) => Ok(
            Received {
                destination: resolve_destination(root, message.relative_path.as_str()),
                payload: message.payload,
            },
        ),
        Err(e) => Err(e),
    }
}

} // verus!
