//! A session with the reader, as a state machine that performs no I/O.
//!
//! The session decides which transfer comes next and what a finished transfer
//! means. The caller owns the device handle: it performs the `Action` that the
//! session owes and reports the outcome as an `Event`. One command is
//! outstanding at a time: write the command frame, then read the response
//! frame.

use crate::error::{Direction, ReaderError, TransportError};
use crate::frame::{
    CommandFrame, ResponseFrame, BULK_IN_ENDPOINT, BULK_OUT_ENDPOINT, OMNIKEY_PRODUCT_ID,
    OMNIKEY_VENDOR_ID, RESPONSE_LEN, TRANSFER_TIMEOUT_MS,
};
use crate::locate::{absent, locate, located_at, DeviceIdentity};
use crate::reader_data::{decoded, ReaderData};
use vstd::prelude::*;

verus! {

/// Where a session stands.
#[derive(Clone, Copy, Debug, PartialEq, Eq, Structural)]
pub enum Phase {
    /// The reader was found at place `device` of the enumeration and is yet
    /// to be opened.
    Opening { device: usize },
    /// The handle is open and no command is outstanding.
    Ready,
    /// The command frame is yet to be written.
    Writing(CommandFrame),
    /// The command frame was written whole; the response is yet to be read.
    Reading(CommandFrame),
    /// The session is over.
    Closed,
}

/// What the caller has to do for the session.
#[derive(Clone, Copy, Debug, PartialEq, Eq, Structural)]
pub enum Action {
    /// Open a handle on the device at place `device` of the enumeration.
    Open { device: usize },
    /// Write the bytes of `frame` to the bulk endpoint at `endpoint`, within
    /// `timeout_ms` milliseconds.
    Write { endpoint: u8, frame: CommandFrame, timeout_ms: u64 },
    /// Read up to `len` bytes from the bulk endpoint at `endpoint` into a
    /// blank response frame, within `timeout_ms` milliseconds.
    Read { endpoint: u8, len: usize, timeout_ms: u64 },
}

/// How an action went.
#[derive(Clone, Copy, Debug, PartialEq, Eq)]
pub enum Event {
    /// The device was opened, or the transport refused.
    Opened(Result<(), TransportError>),
    /// The endpoint took this many bytes, or the write failed.
    Written(Result<usize, TransportError>),
    /// The response frame after the read, or the read failed.
    Received(Result<ResponseFrame, TransportError>),
}

/// What a finished operation yielded.
#[derive(Clone, Copy, Debug, PartialEq, Eq, Structural)]
pub enum Outcome {
    /// The handle is open.
    Opened,
    /// The reader acknowledged the switch to the legacy mode.
    LegacyModeSet,
    /// The reader answered the query for the card's data.
    CardRead(ReaderData),
}

/// The session's answer to an event.
#[derive(Clone, Copy, Debug, PartialEq, Eq, Structural)]
pub enum Step {
    /// The operation goes on with this action.
    Perform(Action),
    /// The operation is finished.
    Done(Outcome),
    /// The operation failed, or the event was not called for.
    Failed(ReaderError),
}

/// The write that sends a command frame.
pub open spec fn write_of(frame: CommandFrame) -> Action {
    Action::Write { endpoint: BULK_OUT_ENDPOINT, frame, timeout_ms: TRANSFER_TIMEOUT_MS }
}

/// The read that fetches a response frame.
pub open spec fn read_of() -> Action {
    Action::Read { endpoint: BULK_IN_ENDPOINT, len: RESPONSE_LEN, timeout_ms: TRANSFER_TIMEOUT_MS }
}

/// The action that a session waits for, if any.
pub open spec fn owed(phase: Phase) -> Option<Action> {
    match phase {
        Phase::Opening { device } => Some(Action::Open { device }),
        Phase::Writing(frame) => Some(write_of(frame)),
        Phase::Reading(_) => Some(read_of()),
        Phase::Ready => None,
        Phase::Closed => None,
    }
}

/// What a response frame means as the answer to a command.
pub open spec fn outcome_of(frame: CommandFrame, response: Seq<u8>) -> Outcome {
    match frame {
        CommandFrame::SetLegacyMode => Outcome::LegacyModeSet,
        CommandFrame::GetCardData => Outcome::CardRead(decoded(response)),
    }
}

/// Asking a session for a command. A session that is ready owes the write of
/// the command frame from then on. A closed session refuses, and so does a
/// session with an operation outstanding; neither changes.
pub open spec fn begun(phase: Phase, frame: CommandFrame) -> (Phase, Result<Action, ReaderError>) {
    match phase {
        Phase::Ready => (Phase::Writing(frame), Ok(write_of(frame))),
        Phase::Closed => (Phase::Closed, Err(ReaderError::SessionClosed)),
        _ => (phase, Err(ReaderError::OutOfTurn)),
    }
}

/// Telling a session how the action went that it was waiting for: the phase
/// that follows, and the session's answer.
///
/// - A closed session stays closed and answers `SessionClosed`.
/// - An opened handle makes the session ready; a refused one closes it with
///   `HandleOpenFailed`.
/// - A write that took exactly the frame's length is followed by the read;
///   any other count ends the command with `ShortWrite`, a failed write with
///   `TransferFailed`.
/// - A read that succeeded ends the command with its outcome, a failed one
///   with `TransferFailed`.
/// - Whatever ends a command leaves the session ready for the next.
/// - An event that the session was not waiting for changes nothing and is
///   answered `OutOfTurn`.
pub open spec fn transition(phase: Phase, event: Event) -> (Phase, Step) {
    match phase {
        Phase::Closed => (Phase::Closed, Step::Failed(ReaderError::SessionClosed)),
        Phase::Opening { device } => match event {
            Event::Opened(Ok(_)) => (Phase::Ready, Step::Done(Outcome::Opened)),
            Event::Opened(Err(cause)) => (
                Phase::Closed,
                Step::Failed(ReaderError::HandleOpenFailed(cause)),
            ),
            _ => (phase, Step::Failed(ReaderError::OutOfTurn)),
        },
        Phase::Writing(frame) => match event {
            Event::Written(Ok(sent)) => if sent == frame@.len() {
                (Phase::Reading(frame), Step::Perform(read_of()))
            } else {
                (
                    Phase::Ready,
                    Step::Failed(
                        ReaderError::ShortWrite { expected: frame@.len() as usize, sent },
                    ),
                )
            },
            Event::Written(Err(cause)) => (
                Phase::Ready,
                Step::Failed(ReaderError::TransferFailed { direction: Direction::Out, cause }),
            ),
            _ => (phase, Step::Failed(ReaderError::OutOfTurn)),
        },
        Phase::Reading(frame) => match event {
            Event::Received(Ok(response)) => (
                Phase::Ready,
                Step::Done(outcome_of(frame, response@)),
            ),
            Event::Received(Err(cause)) => (
                Phase::Ready,
                Step::Failed(ReaderError::TransferFailed { direction: Direction::In, cause }),
            ),
            _ => (phase, Step::Failed(ReaderError::OutOfTurn)),
        },
        Phase::Ready => (phase, Step::Failed(ReaderError::OutOfTurn)),
    }
}

/// An endpoint that takes a number of bytes other than the length of the
/// command frame, fewer in particular, ends the command with `ShortWrite`:
/// the session does not go on to read.
pub proof fn lemma_short_write(frame: CommandFrame, sent: usize)
    requires
        sent != frame@.len(),
    ensures
        transition(Phase::Writing(frame), Event::Written(Ok(sent))) == (
            Phase::Ready,
            Step::Failed(ReaderError::ShortWrite { expected: frame@.len() as usize, sent }),
        ),
{
}

/// A closed session stays closed: it refuses every command and every event
/// with `SessionClosed` and owes no transfer.
pub proof fn lemma_closed_refuses(frame: CommandFrame, event: Event)
    ensures
        begun(Phase::Closed, frame) == (
            Phase::Closed,
            Err::<Action, ReaderError>(ReaderError::SessionClosed),
        ),
        transition(Phase::Closed, event) == (
            Phase::Closed,
            Step::Failed(ReaderError::SessionClosed),
        ),
        owed(Phase::Closed) is None,
{
}

/// One command is outstanding at a time: only a session that owes nothing
/// takes a command, and every other session is left as it was.
pub proof fn lemma_one_command_at_a_time(phase: Phase, frame: CommandFrame)
    ensures
        begun(phase, frame).1 is Ok <==> phase == Phase::Ready,
        begun(phase, frame).1 is Ok ==> owed(phase) is None && owed(begun(phase, frame).0) == Some(
            write_of(frame),
        ),
        begun(phase, frame).1 is Err ==> begun(phase, frame).0 == phase,
{
}

/// The session's answer and its next phase agree: an action that the answer
/// asks for is the one that the session then waits for; a finished operation
/// leaves the session ready; a failed one leaves it ready, or closed where
/// the handle could not be opened or the session was closed before; an event
/// out of turn leaves it as it was.
pub proof fn lemma_answer_matches_phase(phase: Phase, event: Event)
    ensures
        match transition(phase, event).1 {
            Step::Perform(action) => owed(transition(phase, event).0) == Some(action),
            Step::Done(_) => transition(phase, event).0 == Phase::Ready,
            Step::Failed(ReaderError::OutOfTurn) => transition(phase, event).0 == phase,
            Step::Failed(ReaderError::HandleOpenFailed(_)) => transition(phase, event).0
                == Phase::Closed,
            Step::Failed(ReaderError::SessionClosed) => transition(phase, event).0
                == Phase::Closed,
            Step::Failed(_) => transition(phase, event).0 == Phase::Ready,
        },
{
}

/// The whole of a query for the card's data that meets no failure: the frame
/// is written to the bulk OUT endpoint, the endpoint takes all 15 bytes, 17
/// bytes are read from the bulk IN endpoint, and the outcome is what the
/// response decodes to. Each transfer is allowed 100 milliseconds.
pub proof fn lemma_card_query(response: ResponseFrame)
    ensures
        begun(Phase::Ready, CommandFrame::GetCardData) == (
            Phase::Writing(CommandFrame::GetCardData),
            Ok::<Action, ReaderError>(
                Action::Write {
                    endpoint: 0x01,
                    frame: CommandFrame::GetCardData,
                    timeout_ms: 100,
                },
            ),
        ),
        transition(Phase::Writing(CommandFrame::GetCardData), Event::Written(Ok(15))) == (
            Phase::Reading(CommandFrame::GetCardData),
            Step::Perform(Action::Read { endpoint: 0x82, len: 17, timeout_ms: 100 }),
        ),
        transition(Phase::Reading(CommandFrame::GetCardData), Event::Received(Ok(response))) == (
            Phase::Ready,
            Step::Done(Outcome::CardRead(decoded(response@))),
        ),
{
}

/// The whole of a switch to the legacy mode that meets no failure: the frame
/// is written to the bulk OUT endpoint, the endpoint takes all 13 bytes, and
/// the acknowledgement is read from the bulk IN endpoint and not looked into.
pub proof fn lemma_legacy_mode_switch(response: ResponseFrame)
    ensures
        begun(Phase::Ready, CommandFrame::SetLegacyMode) == (
            Phase::Writing(CommandFrame::SetLegacyMode),
            Ok::<Action, ReaderError>(
                Action::Write {
                    endpoint: 0x01,
                    frame: CommandFrame::SetLegacyMode,
                    timeout_ms: 100,
                },
            ),
        ),
        transition(Phase::Writing(CommandFrame::SetLegacyMode), Event::Written(Ok(13))) == (
            Phase::Reading(CommandFrame::SetLegacyMode),
            Step::Perform(Action::Read { endpoint: 0x82, len: 17, timeout_ms: 100 }),
        ),
        transition(Phase::Reading(CommandFrame::SetLegacyMode), Event::Received(Ok(response)))
            == (Phase::Ready, Step::Done(Outcome::LegacyModeSet)),
{
}

/// A session with one reader. Its view is the phase it stands in.
#[derive(Debug)]
pub struct Reader {
    phase: Phase,
}

impl View for Reader {
    type V = Phase;

    closed spec fn view(&self) -> Phase {
        self.phase
    }
}

impl Reader {
    /// Starts a session with the first OMNIKEY 5025CL of an enumeration of
    /// the attached devices. The session then waits for that device to be
    /// opened. Without such a device there is no session.
    pub fn new(devices: &[Option<DeviceIdentity>]) -> (session: Result<Reader, ReaderError>)
        ensures
            match session {
                Ok(reader) => reader@ matches Phase::Opening { device } && located_at(
                    devices@,
                    OMNIKEY_VENDOR_ID,
                    OMNIKEY_PRODUCT_ID,
                    device as int,
                ),
                Err(e) => e == ReaderError::DeviceNotFound && absent(
                    devices@,
                    OMNIKEY_VENDOR_ID,
                    OMNIKEY_PRODUCT_ID,
                ),
            },
    {
        match locate(devices, OMNIKEY_VENDOR_ID, OMNIKEY_PRODUCT_ID) {
            Ok(device) => Ok(Reader { phase: Phase::Opening { device } }),
            Err(e) => Err(e),
        }
    }

    /// The phase the session stands in.
    pub fn phase(&self) -> (phase: Phase)
        ensures
            phase == self@,
    {
        self.phase
    }

    /// The action that the session waits for, if any.
    pub fn pending(&self) -> (action: Option<Action>)
        ensures
            action == owed(self@),
    {
        match self.phase {
            Phase::Opening { device } => Some(Action::Open { device }),
            Phase::Writing(frame) => Some(write_action(frame)),
            Phase::Reading(_) => Some(read_action()),
            Phase::Ready => None,
            Phase::Closed => None,
        }
    }

    /// Asks for the switch to the legacy CCID mode, which the reader needs
    /// before it answers a query for card data. On `Ok` the session owes the
    /// returned write.
    pub fn set_legacy_ccid_mode(&mut self) -> (first: Result<Action, ReaderError>)
        ensures
            final(self)@ == begun(old(self)@, CommandFrame::SetLegacyMode).0,
            first == begun(old(self)@, CommandFrame::SetLegacyMode).1,
    {
        self.begin(CommandFrame::SetLegacyMode)
    }

    /// Asks for the data of the card in the reader's field. On `Ok` the
    /// session owes the returned write.
    pub fn check_for_rfid_card(&mut self) -> (first: Result<Action, ReaderError>)
        ensures
            final(self)@ == begun(old(self)@, CommandFrame::GetCardData).0,
            first == begun(old(self)@, CommandFrame::GetCardData).1,
    {
        self.begin(CommandFrame::GetCardData)
    }

    /// Asks for a command.
    pub fn begin(&mut self, frame: CommandFrame) -> (first: Result<Action, ReaderError>)
        ensures
            final(self)@ == begun(old(self)@, frame).0,
            first == begun(old(self)@, frame).1,
    {
        match self.phase {
            Phase::Ready => {
                self.phase = Phase::Writing(frame);
                Ok(write_action(frame))
            },
            Phase::Closed => Err(ReaderError::SessionClosed),
            _ => Err(ReaderError::OutOfTurn),
        }
    }

    /// Takes the outcome of the action that the session was waiting for and
    /// says how the operation goes on.
    pub fn advance(&mut self, event: Event) -> (step: Step)
        ensures
            final(self)@ == transition(old(self)@, event).0,
            step == transition(old(self)@, event).1,
    {
        match self.phase {
            Phase::Closed => Step::Failed(ReaderError::SessionClosed),
            Phase::Opening { device } => match event {
                Event::Opened(Ok(_)) => {
                    self.phase = Phase::Ready;
                    Step::Done(Outcome::Opened)
                },
                Event::Opened(Err(cause)) => {
                    self.phase = Phase::Closed;
                    Step::Failed(ReaderError::HandleOpenFailed(cause))
                },
                _ => Step::Failed(ReaderError::OutOfTurn),
            },
            Phase::Writing(frame) => match event {
                Event::Written(Ok(sent)) => {
                    let expected: usize = frame.len();
                    if sent == expected {
                        self.phase = Phase::Reading(frame);
                        Step::Perform(read_action())
                    } else {
                        self.phase = Phase::Ready;
                        Step::Failed(ReaderError::ShortWrite { expected, sent })
                    }
                },
                Event::Written(Err(cause)) => {
                    self.phase = Phase::Ready;
                    Step::Failed(ReaderError::TransferFailed { direction: Direction::Out, cause })
                },
                _ => Step::Failed(ReaderError::OutOfTurn),
            },
            Phase::Reading(frame) => match event {
                Event::Received(Ok(response)) => {
                    self.phase = Phase::Ready;
                    match frame {
                        CommandFrame::SetLegacyMode => Step::Done(Outcome::LegacyModeSet),
                        CommandFrame::GetCardData => Step::Done(
                            Outcome::CardRead(ReaderData::new(&response)),
                        ),
                    }
                },
                Event::Received(Err(cause)) => {
                    self.phase = Phase::Ready;
                    Step::Failed(ReaderError::TransferFailed { direction: Direction::In, cause })
                },
                _ => Step::Failed(ReaderError::OutOfTurn),
            },
            Phase::Ready => Step::Failed(ReaderError::OutOfTurn),
        }
    }

    /// Ends the session. Whatever was outstanding is abandoned, and every
    /// later request is refused with `SessionClosed`.
    pub fn close(&mut self)
        ensures
            final(self)@ == Phase::Closed,
    {
        self.phase = Phase::Closed;
    }
}

/// The write that sends a command frame.
pub fn write_action(frame: CommandFrame) -> (action: Action)
    ensures
        action == write_of(frame),
{
    Action::Write { endpoint: BULK_OUT_ENDPOINT, frame, timeout_ms: TRANSFER_TIMEOUT_MS }
}

/// The read that fetches a response frame.
pub fn read_action() -> (action: Action)
    ensures
        action == read_of(),
{
    Action::Read { endpoint: BULK_IN_ENDPOINT, len: RESPONSE_LEN, timeout_ms: TRANSFER_TIMEOUT_MS }
}

} // verus!
