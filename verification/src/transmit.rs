//! The sending side of one connection: a state machine that asks for the
//! connection, the writes and the file read in the protocol's order, and
//! gives up at the first failure.

use vstd::prelude::*;
use crate::dispatch::Outgoing;
use crate::wire::TransferError;

verus! {

/// Where the transmission of one file to one target stands.
#[derive(Debug, Clone, Copy, PartialEq, Eq, Structural)]
pub enum SendState {
    Connecting,
    SendingHeader,
    ReadingFile,
    SendingPayload,
    Finished,
}

/// What the outside world reports to the transmitter.
#[derive(Debug, Clone, PartialEq, Eq)]
pub enum SendEvent {
    /// The connection is open.
    Connected,
    /// The bytes of the last write were all written.
    Written,
    /// The whole content of the file.
    FileRead(Vec<u8>),
    /// Connecting, reading or writing failed.
    Failed,
}

/// What the transmitter asks the outside world to do next.
#[derive(Debug, Clone, PartialEq, Eq)]
pub enum SendAction {
    /// Open a new connection to this host and port.
    Connect { host: String, port: u16 },
    /// Write all these bytes to the connection.
    Write(Vec<u8>),
    /// Read the whole file at this path.
    ReadFile { source: String },
    /// Close the connection: the transfer is complete, or the transmitter
    /// had finished before.
    Close,
    /// Report the error and close the connection.
    Abort(TransferError),
}

/// How far a state is along the way to `Finished`.
pub open spec fn progress(state: SendState) -> int {
    match state {
        SendState::Connecting => 0,
        SendState::SendingHeader => 1,
        SendState::ReadingFile => 2,
        SendState::SendingPayload => 3,
        SendState::Finished => 4,
    }
}

/// The transition relation of the transmitter of `outgoing`.
///
/// After the connection comes the header, after the header the file is
/// read, after that its content is written, and then the connection is
/// closed. An event that does not answer the last request, a failure among
/// them, ends the transmission with an I/O error.
pub open spec fn transition(
    outgoing: Outgoing,
    before: SendState,
    event: SendEvent,
    after: SendState,
    action: SendAction,
) -> bool {
    match (before, event) {
        (SendState::Connecting, SendEvent::Connected) => {
            &&& after == SendState::SendingHeader
            &&& action matches SendAction::Write(bytes)
            &&& bytes@ == outgoing.header@
        },
        (SendState::SendingHeader, SendEvent::Written) => {
            &&& after == SendState::ReadingFile
            &&& action matches SendAction::ReadFile { source }
            &&& source@ == outgoing.source@
        },
        (SendState::ReadingFile, SendEvent::FileRead(content)) => {
            &&& after == SendState::SendingPayload
            &&& action matches SendAction::Write(bytes)
            &&& bytes@ == content@
        },
        (SendState::SendingPayload, SendEvent::Written) => {
            &&& after == SendState::Finished
            &&& action == SendAction::Close
        },
        (SendState::Finished, _) => {
            &&& after == SendState::Finished
            &&& action == SendAction::Close
        },
        _ => {
            &&& after == SendState::Finished
            &&& action == SendAction::Abort(TransferError::Io)
        },
    }
}

/// Every step moves the transmission forward; a finished one stays finished.
pub proof fn lemma_always_forward(
    outgoing: Outgoing,
    before: SendState,
    event: SendEvent,
    after: SendState,
    action: SendAction,
)
    requires
        transition(outgoing, before, event, after, action),
    ensures
        before != SendState::Finished ==> progress(after) > progress(before),
        before == SendState::Finished ==> after == SendState::Finished,
        action is Abort || action is Close ==> after == SendState::Finished,
{
}

/// The bytes that an action puts on the connection.
pub open spec fn written(action: SendAction) -> Seq<u8> {
    match action {
        SendAction::Write(bytes) => bytes@,
        _ => Seq::empty(),
    }
}

/// A transmission in which nothing fails puts the header and then the whole
/// content of the file on the connection, nothing before, between or after,
/// and closes it.
pub proof fn lemma_run_writes_header_then_content(
    outgoing: Outgoing,
    content: Vec<u8>,
    steps: Seq<(SendState, SendAction)>,
)
    requires
        steps.len() == 4,
        transition(outgoing, SendState::Connecting, SendEvent::Connected, steps[0].0, steps[0].1),
        transition(outgoing, steps[0].0, SendEvent::Written, steps[1].0, steps[1].1),
        transition(outgoing, steps[1].0, SendEvent::FileRead(content), steps[2].0, steps[2].1),
        transition(outgoing, steps[2].0, SendEvent::Written, steps[3].0, steps[3].1),
    ensures
        written(steps[0].1) + written(steps[1].1) + written(steps[2].1) + written(steps[3].1)
            == outgoing.header@ + content@,
        steps[3].0 == SendState::Finished,
        steps[3].1 == SendAction::Close,
{
    assert(written(steps[0].1) + written(steps[1].1) + written(steps[2].1) + written(steps[3].1)
        =~= outgoing.header@ + content@);
}

/// The transmitter of one file to one target, over a connection of its own.
pub struct Transmitter {
    outgoing: Outgoing,
    state: SendState,
}

impl Transmitter {
    /// The transfer that is being carried out.
    pub closed spec fn outgoing(&self) -> Outgoing {
        self.outgoing
    }

    /// Where the transmission stands.
    pub closed spec fn state(&self) -> SendState {
        self.state
    }

    /// A transmitter for a prepared transfer, with its first request: to
    /// connect to the target.
    pub fn new(outgoing: Outgoing) -> (r: (Transmitter, SendAction))
        ensures
            r.0.outgoing() == outgoing,
            r.0.state() == SendState::Connecting,
            r.1 matches SendAction::Connect { host, port } && host@ == outgoing.host@ && port
                == outgoing.port,
    {
        let first = SendAction::Connect { host: outgoing.host.clone(), port: outgoing.port };
        (Transmitter { outgoing, state: SendState::Connecting }, first)
    }

    /// Where the transmission stands.
    pub fn current_state(&self) -> (r: SendState)
        ensures
            r == self.state(),
    {
        self.state
    }

    /// Takes one event and says what to do next.
    pub fn step(&mut self, event: SendEvent) -> (action: SendAction)
        ensures
            final(self).outgoing() == old(self).outgoing(),
            transition(old(self).outgoing(), old(self).state(), event, final(self).state(), action),
    {
        let before = self.state;
        self.state = SendState::Finished;
        match before {
            SendState::Connecting => match event {
                SendEvent::Connected => {
                    self.state = SendState::SendingHeader;
                    SendAction::Write(self.outgoing.header.clone())
                },
                _ => SendAction::Abort(TransferError::Io),
            },
            SendState::SendingHeader => match event {
                SendEvent::Written => {
                    self.state = SendState::ReadingFile;
                    SendAction::ReadFile { source: self.outgoing.source.clone() }
                },
                _ => SendAction::Abort(TransferError::Io),
            },
            SendState::ReadingFile => match event {
                SendEvent::FileRead(content) => {
                    self.state = SendState::SendingPayload;
                    SendAction::Write(content)
                },
                _ => SendAction::Abort(TransferError::Io),
            },
            SendState::SendingPayload => match event {
                SendEvent::Written => SendAction::Close,
                _ => SendAction::Abort(TransferError::Io),
            },
            SendState::Finished => SendAction::Close,
        }
    }
}

} // verus!
