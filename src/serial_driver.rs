use vstd::prelude::*;

verus! {

/// Line speed of the footswitch link, in baud.
pub const BAUD_RATE: u32 = 9600;

/// How long one read waits for a byte, in milliseconds.
pub const READ_TIMEOUT_MS: u64 = 1000;

/// Pause between two failed attempts to reopen the port, in milliseconds.
pub const MISSING_SERIAL_WAIT_MS: u64 = 10000;

/// Frame byte of a release.
pub const RELEASE_BYTE: u8 = 0x30;

/// Frame byte of a press.
pub const PRESS_BYTE: u8 = 0x31;

/// Parity bit of a serial frame.
#[derive(Debug, Clone, Copy, PartialEq, Eq, Structural)]
pub enum Parity {
    Off,
    Odd,
    Even,
}

/// Flow control of a serial line.
#[derive(Debug, Clone, Copy, PartialEq, Eq, Structural)]
pub enum FlowControl {
    Off,
    Software,
    Hardware,
}

/// How the serial port is to be configured.
#[derive(Debug, Clone, Copy, PartialEq, Eq, Structural)]
pub struct SerialSettings {
    pub baud_rate: u32,
    pub data_bits: u8,
    pub parity: Parity,
    pub stop_bits: u8,
    pub flow_control: FlowControl,
    pub timeout_ms: u64,
}

/// The footswitch's framing: 9600 baud, 8N1, hardware flow control, and a
/// one second read timeout.
pub open spec fn footswitch_settings() -> SerialSettings {
    SerialSettings {
        baud_rate: BAUD_RATE,
        data_bits: 8,
        parity: Parity::Off,
        stop_bits: 1,
        flow_control: FlowControl::Hardware,
        timeout_ms: READ_TIMEOUT_MS,
    }
}

/// Configuration for the footswitch's serial port.
pub fn setup() -> (r: SerialSettings)
    ensures
        r == footswitch_settings(),
{
    SerialSettings {
        baud_rate: BAUD_RATE,
        data_bits: 8,
        parity: Parity::Off,
        stop_bits: 1,
        flow_control: FlowControl::Hardware,
        timeout_ms: READ_TIMEOUT_MS,
    }
}

/// The event that a frame stands for: `Some(true)` for a press, `Some(false)`
/// for a release, `None` for a frame that breaks the protocol.
pub open spec fn frame_event(len: usize, byte: u8) -> Option<bool> {
    if len != 1 {
        None
    } else if byte == PRESS_BYTE {
        Some(true)
    } else if byte == RELEASE_BYTE {
        Some(false)
    } else {
        None
    }
}

/// Decodes a read of `len` bytes whose first byte is `byte`.
pub fn decode_frame(len: usize, byte: u8) -> (r: Option<bool>)
    ensures
        r == frame_event(len, byte),
{
    if len != 1 {
        None
    } else if byte == PRESS_BYTE {
        Some(true)
    } else if byte == RELEASE_BYTE {
        Some(false)
    } else {
        None
    }
}

/// What the serial reader is doing.
#[derive(Debug, Clone, Copy, PartialEq, Eq, Structural)]
pub enum ReaderState {
    /// Reading frames from an open port.
    Reading,
    /// The port was lost; opening it again.
    Reconnecting,
    /// The receiving side has gone away; the reader is done.
    Stopped,
}

/// What the last action of the reader came to.
#[derive(Debug, Clone, Copy, PartialEq, Eq, Structural)]
pub enum ReaderEvent {
    /// A read returned `len` bytes, the first of them `byte`.
    Received { len: usize, byte: u8 },
    /// A read saw no byte within its timeout.
    ReadTimedOut,
    /// A read failed otherwise.
    ReadFailed,
    /// An event was handed to the dispatch loop.
    Delivered,
    /// The dispatch loop has gone away.
    ChannelClosed,
    /// The port was opened again.
    Opened,
    /// Opening the port failed.
    OpenFailed,
}

/// What the serial reader does next.
#[derive(Debug, Clone, Copy, PartialEq, Eq, Structural)]
pub enum ReaderAction {
    /// Read one byte.
    Read,
    /// Hand this event (`true` for a press) to the dispatch loop.
    Forward(bool),
    /// Drop the port and open it again at once.
    Reopen,
    /// Wait this many milliseconds, then try to open the port again.
    WaitThenReopen(u64),
    /// End the reader.
    Stop,
}

/// The reader's transition: next state and action after `event` in `s`.
/// Events that cannot follow the action of a state leave it as it is and
/// repeat that action.
pub open spec fn reader_step(s: ReaderState, event: ReaderEvent) -> (ReaderState, ReaderAction) {
    match s {
        ReaderState::Stopped => (ReaderState::Stopped, ReaderAction::Stop),
        ReaderState::Reading => match event {
            ReaderEvent::Received { len, byte } => match frame_event(len, byte) {
                Some(pressed) => (ReaderState::Reading, ReaderAction::Forward(pressed)),
                None => (ReaderState::Reconnecting, ReaderAction::Reopen),
            },
            ReaderEvent::ReadFailed => (ReaderState::Reconnecting, ReaderAction::Reopen),
            ReaderEvent::ChannelClosed => (ReaderState::Stopped, ReaderAction::Stop),
            _ => (ReaderState::Reading, ReaderAction::Read),
        },
        ReaderState::Reconnecting => match event {
            ReaderEvent::Opened => (ReaderState::Reading, ReaderAction::Read),
            ReaderEvent::OpenFailed => (
                ReaderState::Reconnecting,
                ReaderAction::WaitThenReopen(MISSING_SERIAL_WAIT_MS),
            ),
            ReaderEvent::ChannelClosed => (ReaderState::Stopped, ReaderAction::Stop),
            _ => (ReaderState::Reconnecting, ReaderAction::Reopen),
        },
    }
}

/// Decides what the serial reader does after `event`: forward a decoded
/// frame, read again after a timeout, reconnect after a bad frame or a
/// failed read (pausing between failed attempts), or stop once the dispatch
/// loop has gone away.
pub fn interact(state: &mut ReaderState, event: ReaderEvent) -> (r: ReaderAction)
    ensures
        (*final(state), r) == reader_step(*old(state), event),
{
    match *state {
        ReaderState::Stopped => ReaderAction::Stop,
        ReaderState::Reading => match event {
            ReaderEvent::Received { len, byte } => match decode_frame(len, byte) {
                Some(pressed) => ReaderAction::Forward(pressed),
                None => {
                    *state = ReaderState::Reconnecting;
                    ReaderAction::Reopen
                },
            },
            ReaderEvent::ReadFailed => {
                *state = ReaderState::Reconnecting;
                ReaderAction::Reopen
            },
            ReaderEvent::ChannelClosed => {
                *state = ReaderState::Stopped;
                ReaderAction::Stop
            },
            _ => ReaderAction::Read,
        },
        ReaderState::Reconnecting => match event {
            ReaderEvent::Opened => {
                *state = ReaderState::Reading;
                ReaderAction::Read
            },
            ReaderEvent::OpenFailed => ReaderAction::WaitThenReopen(MISSING_SERIAL_WAIT_MS),
            ReaderEvent::ChannelClosed => {
                *state = ReaderState::Stopped;
                ReaderAction::Stop
            },
            _ => ReaderAction::Reopen,
        },
    }
}

/// State of the reader after `events` from `s`.
pub open spec fn reader_run_state(s: ReaderState, events: Seq<ReaderEvent>) -> ReaderState
    decreases events.len(),
{
    if events.len() == 0 {
        s
    } else {
        reader_step(reader_run_state(s, events.drop_last()), events.last()).0
    }
}

/// Actions, one per event, of the reader taking `events` from `s`.
pub open spec fn reader_run_actions(s: ReaderState, events: Seq<ReaderEvent>) -> Seq<ReaderAction>
    decreases events.len(),
{
    if events.len() == 0 {
        Seq::empty()
    } else {
        reader_run_actions(s, events.drop_last()).push(
            reader_step(reader_run_state(s, events.drop_last()), events.last()).1,
        )
    }
}

/// Milliseconds spent waiting by `acts`.
pub open spec fn time_waited(acts: Seq<ReaderAction>) -> nat
    decreases acts.len(),
{
    if acts.len() == 0 {
        0
    } else {
        time_waited(acts.drop_last()) + match acts.last() {
            ReaderAction::WaitThenReopen(ms) => ms as nat,
            _ => 0nat,
        }
    }
}

/// `n` failed attempts to open the port.
pub open spec fn open_failures(n: nat) -> Seq<ReaderEvent> {
    Seq::new(n, |i: int| ReaderEvent::OpenFailed)
}

proof fn lemma_failures_keep_waiting(n: nat)
    ensures
        reader_run_state(ReaderState::Reconnecting, open_failures(n)) == ReaderState::Reconnecting,
        reader_run_actions(ReaderState::Reconnecting, open_failures(n)) =~= Seq::new(
            n,
            |i: int| ReaderAction::WaitThenReopen(MISSING_SERIAL_WAIT_MS),
        ),
        time_waited(reader_run_actions(ReaderState::Reconnecting, open_failures(n))) == n
            * MISSING_SERIAL_WAIT_MS,
    decreases n,
{
    if n > 0 {
        let prev = (n - 1) as nat;
        lemma_failures_keep_waiting(prev);
        assert(open_failures(n).drop_last() =~= open_failures(prev));
        let acts = reader_run_actions(ReaderState::Reconnecting, open_failures(n));
        assert(acts.drop_last() =~= reader_run_actions(ReaderState::Reconnecting, open_failures(prev)));
        assert(n * MISSING_SERIAL_WAIT_MS == prev * MISSING_SERIAL_WAIT_MS + MISSING_SERIAL_WAIT_MS)
            by (nonlinear_arith)
            requires
                n == prev + 1,
        ;
    }
}

/// A reader that has lost its port and whose next `n` attempts to open it
/// fail before one succeeds waits the reconnect pause after each failure,
/// `n` pauses in all, never stops, and then reads again.
pub proof fn reconnect_resumes_after_failures(n: nat)
    ensures
        ({
            let events = open_failures(n).push(ReaderEvent::Opened);
            let acts = reader_run_actions(ReaderState::Reconnecting, events);
            &&& reader_run_state(ReaderState::Reconnecting, events) == ReaderState::Reading
            &&& acts.len() == n + 1
            &&& forall|i: int| 0 <= i < n ==> #[trigger] acts[i] == ReaderAction::WaitThenReopen(
                MISSING_SERIAL_WAIT_MS,
            )
            &&& acts[n as int] == ReaderAction::Read
            &&& forall|i: int| 0 <= i < acts.len() ==> #[trigger] acts[i] != ReaderAction::Stop
            &&& time_waited(acts) == n * MISSING_SERIAL_WAIT_MS
        }),
{
    lemma_failures_keep_waiting(n);
    let events = open_failures(n).push(ReaderEvent::Opened);
    assert(events.drop_last() =~= open_failures(n));
    let acts = reader_run_actions(ReaderState::Reconnecting, events);
    assert(acts.drop_last() =~= reader_run_actions(ReaderState::Reconnecting, open_failures(n)));
    assert forall|i: int| 0 <= i < acts.len() implies #[trigger] acts[i] != ReaderAction::Stop by {
        if i < n {
            assert(acts[i] == acts.drop_last()[i]);
        }
    }
}

} // verus!
