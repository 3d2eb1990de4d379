//! Error-frame monitoring: which CAN error frames become bus events, and how
//! the monitor of one interface keeps its socket alive.

use crate::events::{BusEvent, BusEventSource, BusEventType, ErrorFrame};
use crate::interface::CanInterfaceInfo;
use socketcan::{CanError, CanErrorFrame};
use vstd::prelude::*;

verus! {

/// The bits of an identifier word that hold the error class
/// (`CAN_ERR_MASK`).
pub const ERROR_MASK: u32 = 0x1FFF_FFFF;

/// Seconds to wait before the socket is opened again after a failure.
pub const RETRY_DELAY_SECS: u64 = 5;

/// What an error frame reports.
#[derive(Debug, Clone, Copy, PartialEq, Eq, Structural)]
pub enum CanErrorKind {
    /// Transmission timed out.
    TransmitTimeout,
    /// Arbitration was lost, after the given bit (zero where unknown).
    LostArbitration(u8),
    /// A problem of the controller.
    ControllerProblem,
    /// A violation of the protocol.
    ProtocolViolation,
    /// A transceiver fault.
    TransceiverError,
    /// No acknowledgement of a transmitted frame.
    NoAck,
    /// The controller went bus-off.
    BusOff,
    /// An error on the bus.
    BusError,
    /// The controller was restarted.
    Restarted,
    /// The frame names a class whose detail bytes make no sense.
    DecodingFailure,
    /// None of the known classes; the error bits are kept.
    Unknown(u32),
}

/// The error class bits of an identifier word.
pub open spec fn error_bits(id_word: u32) -> u32 {
    id_word & ERROR_MASK
}

/// Whether `bits` is exactly one of the nine error classes.
pub open spec fn is_error_class(bits: u32) -> bool {
    bits == 0x001 || bits == 0x002 || bits == 0x004 || bits == 0x008 || bits == 0x010 || bits
        == 0x020 || bits == 0x040 || bits == 0x080 || bits == 0x100
}

/// How the kind of an error frame goes with its error bits and data.
///
/// Each class has its own bit, and a frame with exactly that bit set is of
/// that class; lost arbitration carries the first data byte along. Controller
/// problems and protocol violations have detail bytes that may fail to
/// decode, which is reported instead. Any other combination of bits is
/// unknown and kept as it is.
pub open spec fn kind_fits(kind: CanErrorKind, bits: u32, data: Seq<u8>) -> bool {
    match kind {
        CanErrorKind::TransmitTimeout => bits == 0x001,
        CanErrorKind::LostArbitration(bit) => bits == 0x002 && bit == data[0],
        CanErrorKind::ControllerProblem => bits == 0x004,
        CanErrorKind::ProtocolViolation => bits == 0x008,
        CanErrorKind::TransceiverError => bits == 0x010,
        CanErrorKind::NoAck => bits == 0x020,
        CanErrorKind::BusOff => bits == 0x040,
        CanErrorKind::BusError => bits == 0x080,
        CanErrorKind::Restarted => bits == 0x100,
        CanErrorKind::DecodingFailure => bits == 0x004 || bits == 0x008,
        CanErrorKind::Unknown(code) => code == bits && !is_error_class(bits),
    }
}

/// What socketcan makes of an error frame with this identifier word and
/// these data bytes.
pub uninterp spec fn decoded_error(id_word: u32, data: Seq<u8>) -> CanErrorKind;

/// Decodes an error frame with socketcan: `CanErrorFrame::new_error` builds
/// the frame from the identifier word and the eight data bytes, and
/// `CanErrorFrame::into_error` classifies it.
///
/// socketcan matches the error bits of the identifier against the nine class
/// codes, so the kind goes with the bits as `kind_fits` says. For a
/// controller problem or a protocol violation it also decodes detail bytes,
/// and reports a decoding failure where they hold no known code; which bytes
/// those are is left to socketcan. Details it decodes beyond the class are
/// dropped here, except the bit position of a lost arbitration.
#[verifier::external_body]
fn decode_error(frame: &ErrorFrame) -> (kind: CanErrorKind)
    ensures
        kind == decoded_error(frame.id_word, frame.data@),
        kind_fits(kind, error_bits(frame.id_word), frame.data@),
{
    let Ok(raw) = CanErrorFrame::new_error(frame.id_word, &frame.data) else { return CanErrorKind::DecodingFailure };
    match raw.into_error() {
        CanError::TransmitTimeout => CanErrorKind::TransmitTimeout,
        CanError::LostArbitration(bit) => CanErrorKind::LostArbitration(bit),
        CanError::ControllerProblem(_) => CanErrorKind::ControllerProblem,
        CanError::ProtocolViolation { .. } => CanErrorKind::ProtocolViolation,
        CanError::TransceiverError => CanErrorKind::TransceiverError,
        CanError::NoAck => CanErrorKind::NoAck,
        CanError::BusOff => CanErrorKind::BusOff,
        CanError::BusError => CanErrorKind::BusError,
        CanError::Restarted => CanErrorKind::Restarted,
        CanError::DecodingFailure(_) => CanErrorKind::DecodingFailure,
        CanError::Unknown(code) => CanErrorKind::Unknown(code),
    }
}

/// The kind of error a frame reports.
pub fn classify(frame: &ErrorFrame) -> (kind: CanErrorKind)
    ensures
        kind == decoded_error(frame.id_word, frame.data@),
        kind_fits(kind, error_bits(frame.id_word), frame.data@),
{
    decode_error(frame)
}

/// The line that explains an error kind in the diagnostics.
pub open spec fn description(kind: CanErrorKind) -> Seq<char> {
    match kind {
        CanErrorKind::TransmitTimeout => "TX timeout (bus-off recovery in progress)"@,
        CanErrorKind::LostArbitration(_) => "Lost arbitration"@,
        CanErrorKind::ControllerProblem => "Controller problems"@,
        CanErrorKind::ProtocolViolation => "Protocol violations"@,
        CanErrorKind::TransceiverError => "Transceiver status"@,
        CanErrorKind::NoAck => "No acknowledgment on transmission"@,
        CanErrorKind::BusOff => "Bus off"@,
        CanErrorKind::BusError => "Bus error"@,
        CanErrorKind::Restarted => "Bus restarted"@,
        CanErrorKind::Unknown(code) => if code == 0x204 {
            "Error counters"@
        } else {
            "Other error condition"@
        },
        CanErrorKind::DecodingFailure => "Other error condition"@,
    }
}

/// Explains an error kind for the diagnostics. Bits `0x204` are the
/// controller's error counters; what has no line of its own is an "other"
/// condition.
pub fn describe_error(kind: CanErrorKind) -> (line: &'static str)
    ensures
        line@ == description(kind),
{
    match kind {
        CanErrorKind::TransmitTimeout => "TX timeout (bus-off recovery in progress)",
        CanErrorKind::LostArbitration(_) => "Lost arbitration",
        CanErrorKind::ControllerProblem => "Controller problems",
        CanErrorKind::ProtocolViolation => "Protocol violations",
        CanErrorKind::TransceiverError => "Transceiver status",
        CanErrorKind::NoAck => "No acknowledgment on transmission",
        CanErrorKind::BusOff => "Bus off",
        CanErrorKind::BusError => "Bus error",
        CanErrorKind::Restarted => "Bus restarted",
        CanErrorKind::Unknown(code) => if code == 0x204 {
            "Error counters"
        } else {
            "Other error condition"
        },
        CanErrorKind::DecodingFailure => "Other error condition",
    }
}

/// The event an error of `kind`, reported by `frame` on `interface`, stands
/// for: bus-off and restarted are events, everything else is diagnostics.
pub open spec fn event_for_kind(interface: CanInterfaceInfo, frame: ErrorFrame, kind: CanErrorKind) -> Option<BusEvent> {
    match kind {
        CanErrorKind::BusOff => Some(
            BusEvent {
                interface,
                event_type: BusEventType::BusOff,
                event_source: BusEventSource::ErrorFrame(frame),
            },
        ),
        CanErrorKind::Restarted => Some(
            BusEvent {
                interface,
                event_type: BusEventType::Restart,
                event_source: BusEventSource::ErrorFrame(frame),
            },
        ),
        _ => None,
    }
}

/// The event an error frame read on `interface` stands for, by its error
/// bits: `0x040` is bus-off, `0x100` is a restart, anything else is no
/// event.
pub open spec fn event_for_frame(interface: CanInterfaceInfo, frame: ErrorFrame) -> Option<BusEvent> {
    if error_bits(frame.id_word) == 0x040 {
        event_for_kind(interface, frame, CanErrorKind::BusOff)
    } else if error_bits(frame.id_word) == 0x100 {
        event_for_kind(interface, frame, CanErrorKind::Restarted)
    } else {
        None
    }
}

/// The event that an error of `kind`, reported by `frame` on `interface`,
/// stands for.
pub fn kind_event(interface: &CanInterfaceInfo, frame: ErrorFrame, kind: CanErrorKind) -> (event: Option<BusEvent>)
    ensures
        event == event_for_kind(*interface, frame, kind),
{
    match kind {
        CanErrorKind::BusOff => Some(
            BusEvent::bus_off(interface.clone(), BusEventSource::ErrorFrame(frame)),
        ),
        CanErrorKind::Restarted => Some(
            BusEvent::restart(interface.clone(), BusEventSource::ErrorFrame(frame)),
        ),
        _ => None,
    }
}

/// The event that an error frame read on `interface` stands for.
pub fn frame_event(interface: &CanInterfaceInfo, frame: ErrorFrame) -> (event: Option<BusEvent>)
    ensures
        event == event_for_frame(*interface, frame),
{
    let kind = classify(&frame);
    kind_event(interface, frame, kind)
}

/// What the error-frame monitor asks its driver to do next.
#[derive(Debug)]
pub enum ErrorMonitorAction {
    /// Open the interface's socket and set it to pass error frames only.
    OpenSocket,
    /// Wait for the next frame.
    ReadFrame,
    /// Put this event on the event channel.
    Emit(BusEvent),
    /// Wait this many seconds.
    Backoff(u64),
    /// Monitoring is over.
    Stop,
}

/// What the driver reports back after carrying out an action.
#[derive(Debug)]
pub enum SocketOutcome {
    /// The socket is open and filtered.
    Opened,
    /// The socket could not be opened.
    OpenFailed,
    /// The socket opened but refused the filters.
    FilterRejected,
    /// An error frame was read.
    ErrorFrame(ErrorFrame),
    /// A frame was read that is no error frame.
    OtherFrame,
    /// Reading failed.
    ReadFailed,
    /// The event channel took the event.
    Delivered,
    /// The event channel is closed.
    ChannelClosed,
    /// The wait is over.
    BackoffElapsed,
}

/// The error-frame monitor's rules for one interface.
///
/// A socket that cannot be opened or filtered is tried again after
/// `RETRY_DELAY_SECS`, and so is one that fails while being read. Frames are
/// read one by one; an error frame that stands for an event has it sent
/// before the next frame is read, any other frame is passed over. A closed
/// event channel ends monitoring; nothing else does. An outcome that does
/// not answer the action in flight leaves that action in flight.
pub open spec fn error_monitor_next(
    interface: CanInterfaceInfo,
    pending: ErrorMonitorAction,
    outcome: SocketOutcome,
) -> ErrorMonitorAction {
    match (pending, outcome) {
        (ErrorMonitorAction::OpenSocket, SocketOutcome::Opened) => ErrorMonitorAction::ReadFrame,
        (ErrorMonitorAction::OpenSocket, SocketOutcome::OpenFailed) => ErrorMonitorAction::Backoff(
            RETRY_DELAY_SECS,
        ),
        (ErrorMonitorAction::OpenSocket, SocketOutcome::FilterRejected) => ErrorMonitorAction::Backoff(
            RETRY_DELAY_SECS,
        ),
        (ErrorMonitorAction::ReadFrame, SocketOutcome::ErrorFrame(frame)) => match event_for_frame(
            interface,
            frame,
        ) {
            Some(event) => ErrorMonitorAction::Emit(event),
            None => ErrorMonitorAction::ReadFrame,
        },
        (ErrorMonitorAction::ReadFrame, SocketOutcome::OtherFrame) => ErrorMonitorAction::ReadFrame,
        (ErrorMonitorAction::ReadFrame, SocketOutcome::ReadFailed) => ErrorMonitorAction::Backoff(
            RETRY_DELAY_SECS,
        ),
        (ErrorMonitorAction::Emit(_), SocketOutcome::Delivered) => ErrorMonitorAction::ReadFrame,
        (ErrorMonitorAction::Emit(_), SocketOutcome::ChannelClosed) => ErrorMonitorAction::Stop,
        (ErrorMonitorAction::Backoff(_), SocketOutcome::BackoffElapsed) => ErrorMonitorAction::OpenSocket,
        (pending, _) => pending,
    }
}

/// Advances the error-frame monitor of `interface` by one outcome: given the
/// action in flight and what came of it, the action to carry out next.
///
/// A driver starts with `ErrorMonitorAction::OpenSocket`, carries out each
/// action, and ends when it is handed `ErrorMonitorAction::Stop`.
pub fn monitor_interface_errors(
    interface: &CanInterfaceInfo,
    pending: ErrorMonitorAction,
    outcome: SocketOutcome,
) -> (next: ErrorMonitorAction)
    ensures
        next == error_monitor_next(*interface, pending, outcome),
{
    match (pending, outcome) {
        (ErrorMonitorAction::OpenSocket, SocketOutcome::Opened) => ErrorMonitorAction::ReadFrame,
        (ErrorMonitorAction::OpenSocket, SocketOutcome::OpenFailed) => ErrorMonitorAction::Backoff(
            RETRY_DELAY_SECS,
        ),
        (ErrorMonitorAction::OpenSocket, SocketOutcome::FilterRejected) => ErrorMonitorAction::Backoff(
            RETRY_DELAY_SECS,
        ),
        (ErrorMonitorAction::ReadFrame, SocketOutcome::ErrorFrame(frame)) => match frame_event(
            interface,
            frame,
        ) {
            Some(event) => ErrorMonitorAction::Emit(event),
            None => ErrorMonitorAction::ReadFrame,
        },
        (ErrorMonitorAction::ReadFrame, SocketOutcome::OtherFrame) => ErrorMonitorAction::ReadFrame,
        (ErrorMonitorAction::ReadFrame, SocketOutcome::ReadFailed) => ErrorMonitorAction::Backoff(
            RETRY_DELAY_SECS,
        ),
        (ErrorMonitorAction::Emit(_), SocketOutcome::Delivered) => ErrorMonitorAction::ReadFrame,
        (ErrorMonitorAction::Emit(_), SocketOutcome::ChannelClosed) => ErrorMonitorAction::Stop,
        (ErrorMonitorAction::Backoff(_), SocketOutcome::BackoffElapsed) => ErrorMonitorAction::OpenSocket,
        (pending, _) => pending,
    }
}

/// The action in flight after the driver has reported all of `outcomes`,
/// first to last, starting from `start`.
pub open spec fn error_monitor_run(
    interface: CanInterfaceInfo,
    start: ErrorMonitorAction,
    outcomes: Seq<SocketOutcome>,
) -> ErrorMonitorAction
    decreases outcomes.len(),
{
    if outcomes.len() == 0 {
        start
    } else {
        error_monitor_next(
            interface,
            error_monitor_run(interface, start, outcomes.drop_last()),
            outcomes.last(),
        )
    }
}

/// The outcomes of `n` attempts to open the socket that all fail, each
/// followed by the end of the wait.
pub open spec fn failed_attempts(n: nat) -> Seq<SocketOutcome>
    decreases n,
{
    if n == 0 {
        Seq::empty()
    } else {
        failed_attempts((n - 1) as nat).push(SocketOutcome::OpenFailed).push(
            SocketOutcome::BackoffElapsed,
        )
    }
}

/// Every failure of the socket is answered by a wait of `RETRY_DELAY_SECS`,
/// and nothing but the end of the wait leads to the next attempt.
pub proof fn lemma_failure_leads_to_backoff(
    interface: CanInterfaceInfo,
    pending: ErrorMonitorAction,
    outcome: SocketOutcome,
)
    ensures
        pending is OpenSocket && (outcome is OpenFailed || outcome is FilterRejected)
            ==> error_monitor_next(interface, pending, outcome) == ErrorMonitorAction::Backoff(
            RETRY_DELAY_SECS,
        ),
        pending is ReadFrame && outcome is ReadFailed ==> error_monitor_next(
            interface,
            pending,
            outcome,
        ) == ErrorMonitorAction::Backoff(RETRY_DELAY_SECS),
        pending is Backoff ==> error_monitor_next(interface, pending, outcome) == (if outcome
            is BackoffElapsed {
            ErrorMonitorAction::OpenSocket
        } else {
            pending
        }),
{
}

/// However often the socket fails to open, the monitor tries again after
/// each wait, and starts reading once it opens.
pub proof fn lemma_retries_until_open(interface: CanInterfaceInfo, n: nat)
    ensures
        error_monitor_run(interface, ErrorMonitorAction::OpenSocket, failed_attempts(n))
            == ErrorMonitorAction::OpenSocket,
        error_monitor_run(
            interface,
            ErrorMonitorAction::OpenSocket,
            failed_attempts(n).push(SocketOutcome::OpenFailed),
        ) == ErrorMonitorAction::Backoff(RETRY_DELAY_SECS),
        error_monitor_run(
            interface,
            ErrorMonitorAction::OpenSocket,
            failed_attempts(n).push(SocketOutcome::Opened),
        ) == ErrorMonitorAction::ReadFrame,
    decreases n,
{
    let open = ErrorMonitorAction::OpenSocket;
    if n > 0 {
        lemma_retries_until_open(interface, (n - 1) as nat);
        let earlier = failed_attempts((n - 1) as nat);
        let failed = earlier.push(SocketOutcome::OpenFailed);
        assert(failed.drop_last() == earlier);
        assert(failed_attempts(n).drop_last() == failed);
    }
    let attempts = failed_attempts(n);
    assert(attempts.push(SocketOutcome::OpenFailed).drop_last() == attempts);
    assert(attempts.push(SocketOutcome::Opened).drop_last() == attempts);
}

/// The monitor gives up for one reason only: it stops when the event channel
/// is closed, and at no other time.
pub proof fn lemma_stops_only_when_channel_closed(
    interface: CanInterfaceInfo,
    start: ErrorMonitorAction,
    outcomes: Seq<SocketOutcome>,
)
    requires
        !(start is Stop),
        error_monitor_run(interface, start, outcomes) is Stop,
    ensures
        outcomes.contains(SocketOutcome::ChannelClosed),
    decreases outcomes.len(),
{
    if outcomes.len() > 0 {
        let earlier = outcomes.drop_last();
        if error_monitor_run(interface, start, earlier) is Stop {
            lemma_stops_only_when_channel_closed(interface, start, earlier);
            let k = choose|k: int| 0 <= k < earlier.len() && earlier[k] == SocketOutcome::ChannelClosed;
            assert(outcomes[k] == SocketOutcome::ChannelClosed);
        } else {
            assert(outcomes[outcomes.len() - 1] == SocketOutcome::ChannelClosed);
        }
    }
}

/// A restart reported by an error frame is always passed on, and so is a
/// bus-off: while the monitor is reading, a frame with error bits `0x100`
/// has a restart event sent and one with `0x040` a bus-off event, each for
/// the monitored interface and carrying the frame. No other frame has
/// anything sent.
pub proof fn lemma_error_frame_events(interface: CanInterfaceInfo, frame: ErrorFrame)
    ensures
        error_bits(frame.id_word) == 0x100 ==> error_monitor_next(
            interface,
            ErrorMonitorAction::ReadFrame,
            SocketOutcome::ErrorFrame(frame),
        ) == ErrorMonitorAction::Emit(
            BusEvent {
                interface,
                event_type: BusEventType::Restart,
                event_source: BusEventSource::ErrorFrame(frame),
            },
        ),
        error_bits(frame.id_word) == 0x040 ==> error_monitor_next(
            interface,
            ErrorMonitorAction::ReadFrame,
            SocketOutcome::ErrorFrame(frame),
        ) == ErrorMonitorAction::Emit(
            BusEvent {
                interface,
                event_type: BusEventType::BusOff,
                event_source: BusEventSource::ErrorFrame(frame),
            },
        ),
        error_bits(frame.id_word) != 0x100 && error_bits(frame.id_word) != 0x040
            ==> error_monitor_next(
            interface,
            ErrorMonitorAction::ReadFrame,
            SocketOutcome::ErrorFrame(frame),
        ) == ErrorMonitorAction::ReadFrame,
{
}

} // verus!
