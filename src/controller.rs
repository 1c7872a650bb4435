use vstd::prelude::*;

use crate::audio::{AudioControllerTrait, AudioError, AudioInputDeviceTrait};

verus! {

/// Longest wait for the next event, in milliseconds: a heartbeat.
pub const CHANNEL_TIMEOUT_MS: u64 = 1000;

/// Shortest wait for the next event, in milliseconds.
pub const MIN_TIMEOUT_MS: u64 = 1;

/// Longest debounce window accepted, in milliseconds.
pub const MAX_DEBOUNCE_MS: u64 = 10000;

/// Debounce window used when none is configured, in milliseconds.
pub const DEFAULT_DEBOUNCE_MS: u64 = 100;

/// Logical state of the footswitch. Times are milliseconds on a monotonic clock.
#[derive(Debug, Clone, Copy, PartialEq, Eq, Structural)]
pub enum ControllerState {
    /// The button has been fully released.
    Released,
    /// The button has just been pressed.
    Pressed,
    /// The button is held.
    Held,
    /// The button has been recently released, and is waiting for debounce.
    /// The value is when the button was released.
    ReleaseWait(u64),
}

/// Side effect decided by a dispatch.
#[derive(Debug, Clone, Copy, PartialEq, Eq, Structural)]
pub enum Action {
    /// Nothing to do.
    Idle,
    /// The button went down: release the emulated key and unmute.
    Activate,
    /// The release outlasted the debounce window: press the emulated key and mute.
    Deactivate,
}

/// Why a debounce window is refused.
#[derive(Debug, Clone, Copy, PartialEq, Eq, Structural)]
pub enum DebounceError {
    /// A window of no time at all.
    Zero,
    /// A window longer than `MAX_DEBOUNCE_MS`.
    TooLong,
}

/// Accepts a debounce window of 1 to `MAX_DEBOUNCE_MS` milliseconds.
pub fn check_debounce(ms: u64) -> (r: Result<u64, DebounceError>)
    ensures
        ms == 0 <==> r == Err::<u64, DebounceError>(DebounceError::Zero),
        ms > MAX_DEBOUNCE_MS <==> r == Err::<u64, DebounceError>(DebounceError::TooLong),
        0 < ms <= MAX_DEBOUNCE_MS <==> r == Ok::<u64, DebounceError>(ms),
{
    if ms == 0 {
        Err(DebounceError::Zero)
    } else if ms > MAX_DEBOUNCE_MS {
        Err(DebounceError::TooLong)
    } else {
        Ok(ms)
    }
}

/// The mute request an action makes of the microphone: an activation
/// unmutes it, a deactivation mutes it, and nothing else touches it.
pub open spec fn mute_of(a: Action) -> Option<bool> {
    match a {
        Action::Activate => Some(false),
        Action::Deactivate => Some(true),
        Action::Idle => None,
    }
}

/// The mute request of `a`.
pub fn mute_request(a: Action) -> (m: Option<bool>)
    ensures
        m == mute_of(a),
{
    match a {
        Action::Activate => Some(false),
        Action::Deactivate => Some(true),
        Action::Idle => None,
    }
}

/// What the dispatch loop is woken by.
pub enum Input {
    /// An event from the switch (`true` for a press) received at `at`.
    Event { pressed: bool, at: u64 },
    /// A receive that timed out at `at`.
    Tick { at: u64 },
}

/// Time passed from `at` to `now`; a clock never runs backwards, so an
/// earlier `now` counts as no time at all.
pub open spec fn elapsed(at: u64, now: u64) -> int {
    if now >= at {
        now - at
    } else {
        0
    }
}

/// State after an event, before the dispatch that follows it.
pub open spec fn after_event(s: ControllerState, pressed: bool, now: u64) -> ControllerState {
    if pressed {
        match s {
            ControllerState::Released => ControllerState::Pressed,
            ControllerState::ReleaseWait(_) => ControllerState::Held,
            _ => s,
        }
    } else {
        ControllerState::ReleaseWait(now)
    }
}

/// State and action of a dispatch at `now`.
pub open spec fn dispatch_spec(s: ControllerState, now: u64, debounce: u64) -> (ControllerState, Action) {
    match s {
        ControllerState::Pressed => (ControllerState::Held, Action::Activate),
        ControllerState::ReleaseWait(at) => {
            if elapsed(at, now) >= debounce {
                (ControllerState::Released, Action::Deactivate)
            } else {
                (s, Action::Idle)
            }
        },
        _ => (s, Action::Idle),
    }
}

/// Wait for the next event: until the debounce window closes, but at least
/// `MIN_TIMEOUT_MS` and at most `CHANNEL_TIMEOUT_MS`.
pub open spec fn timeout_spec(s: ControllerState, now: u64, debounce: u64) -> int {
    match s {
        ControllerState::ReleaseWait(at) => {
            let left = debounce - elapsed(at, now);
            if left < MIN_TIMEOUT_MS {
                MIN_TIMEOUT_MS as int
            } else if left > CHANNEL_TIMEOUT_MS {
                CHANNEL_TIMEOUT_MS as int
            } else {
                left
            }
        },
        _ => CHANNEL_TIMEOUT_MS as int,
    }
}

/// One turn of the dispatch loop.
pub open spec fn step(s: ControllerState, input: Input, debounce: u64) -> (ControllerState, Action) {
    match input {
        Input::Event { pressed, at } => dispatch_spec(after_event(s, pressed, at), at, debounce),
        Input::Tick { at } => dispatch_spec(s, at, debounce),
    }
}

/// State after the dispatch loop has taken `inputs` from `s`.
pub open spec fn run_state(s: ControllerState, inputs: Seq<Input>, debounce: u64) -> ControllerState
    decreases inputs.len(),
{
    if inputs.len() == 0 {
        s
    } else {
        step(run_state(s, inputs.drop_last(), debounce), inputs.last(), debounce).0
    }
}

/// Actions, one per input, of the dispatch loop taking `inputs` from `s`.
pub open spec fn run_actions(s: ControllerState, inputs: Seq<Input>, debounce: u64) -> Seq<Action>
    decreases inputs.len(),
{
    if inputs.len() == 0 {
        Seq::empty()
    } else {
        run_actions(s, inputs.drop_last(), debounce).push(
            step(run_state(s, inputs.drop_last(), debounce), inputs.last(), debounce).1,
        )
    }
}

/// The debounce/dispatch state machine, with the microphone it controls when
/// mute control is on.
pub struct MicController<D> {
    comms_device: Option<D>,
    debounce_ms: u64,
    controller_state: ControllerState,
}

impl<D: AudioInputDeviceTrait> MicController<D> {
    pub closed spec fn spec_state(&self) -> ControllerState {
        self.controller_state
    }

    pub closed spec fn spec_debounce(&self) -> u64 {
        self.debounce_ms
    }

    pub closed spec fn spec_has_device(&self) -> bool {
        self.comms_device is Some
    }

    /// A controller in the released state. `comms_device` is `None` when
    /// mute control is off.
    pub fn new(comms_device: Option<D>, debounce_ms: u64) -> (r: Self)
        ensures
            r.spec_state() == ControllerState::Released,
            r.spec_debounce() == debounce_ms,
            r.spec_has_device() == comms_device is Some,
    {
        MicController { comms_device, debounce_ms, controller_state: ControllerState::Released }
    }

    /// A controller in the released state that controls the default
    /// communications device of `audio` when `microphone_control` is on.
    pub fn connect<T: AudioControllerTrait<Device = D>>(
        audio: &T,
        microphone_control: bool,
        debounce_ms: u64,
    ) -> (r: Result<Self, AudioError>)
        ensures
            !microphone_control ==> r is Ok,
            r is Ok ==> r->Ok_0.spec_state() == ControllerState::Released,
            r is Ok ==> r->Ok_0.spec_debounce() == debounce_ms,
            r is Ok ==> r->Ok_0.spec_has_device() == microphone_control,
    {
        if microphone_control {
            match audio.get_comms_device() {
                Ok(device) => Ok(MicController::new(Some(device), debounce_ms)),
                Err(e) => Err(e),
            }
        } else {
            Ok(MicController::new(None, debounce_ms))
        }
    }

    /// Name of the controlled microphone, or "None" without one.
    pub fn device_name(&self) -> (r: Result<String, AudioError>)
        ensures
            !self.spec_has_device() ==> r is Ok && r->Ok_0@ == "None"@,
    {
        match &self.comms_device {
            Some(c) => c.name(),
            None => Ok("None".to_owned()),
        }
    }

    pub fn controller_state(&self) -> (r: ControllerState)
        ensures
            r == self.spec_state(),
    {
        self.controller_state
    }

    pub fn debounce_ms(&self) -> (r: u64)
        ensures
            r == self.spec_debounce(),
    {
        self.debounce_ms
    }

    /// How long to wait for the next event when the clock reads `now_ms`.
    pub fn receive_timeout(&self, now_ms: u64) -> (r: u64)
        ensures
            r == timeout_spec(self.spec_state(), now_ms, self.spec_debounce()),
            MIN_TIMEOUT_MS <= r <= CHANNEL_TIMEOUT_MS,
    {
        match self.controller_state {
            ControllerState::ReleaseWait(at) => {
                let passed: u64 = if now_ms >= at { now_ms - at } else { 0 };
                let left: u64 = self.debounce_ms.saturating_sub(passed);
                if left < MIN_TIMEOUT_MS {
                    MIN_TIMEOUT_MS
                } else if left > CHANNEL_TIMEOUT_MS {
                    CHANNEL_TIMEOUT_MS
                } else {
                    left
                }
            },
            _ => CHANNEL_TIMEOUT_MS,
        }
    }

    /// Hands a mute request to the microphone, if there is one: `Some(true)`
    /// mutes it, `Some(false)` unmutes it, and `None` asks nothing of it.
    pub fn mute_device(&self, request: Option<bool>) -> (r: Result<(), AudioError>)
        ensures
            (request is None || !self.spec_has_device()) ==> r is Ok,
    {
        match (&self.comms_device, request) {
            (Some(c), Some(muted)) => match c.set_mute(muted) {
                Ok(_) => Ok(()),
                Err(e) => Err(e),
            },
            _ => Ok(()),
        }
    }

    /// Commits a pending press or an expired release, as of `now_ms`, and
    /// says which action that calls for.
    pub fn dispatch(&mut self, now_ms: u64) -> (r: Action)
        ensures
            final(self).spec_state() == dispatch_spec(old(self).spec_state(), now_ms, old(self).spec_debounce()).0,
            r == dispatch_spec(old(self).spec_state(), now_ms, old(self).spec_debounce()).1,
            final(self).spec_debounce() == old(self).spec_debounce(),
            final(self).spec_has_device() == old(self).spec_has_device(),
    {
        match self.controller_state {
            ControllerState::Pressed => {
                self.controller_state = ControllerState::Held;
                Action::Activate
            },
            ControllerState::ReleaseWait(at) => {
                let passed: u64 = if now_ms >= at { now_ms - at } else { 0 };
                if passed >= self.debounce_ms {
                    self.controller_state = ControllerState::Released;
                    Action::Deactivate
                } else {
                    Action::Idle
                }
            },
            _ => Action::Idle,
        }
    }

    /// Takes an event from the switch (`true` for a press) received at
    /// `now_ms`, then dispatches.
    pub fn handle_event(&mut self, pressed: bool, now_ms: u64) -> (r: Action)
        ensures
            final(self).spec_state() == step(old(self).spec_state(), (Input::Event { pressed, at: now_ms }), old(self).spec_debounce()).0,
            r == step(old(self).spec_state(), (Input::Event { pressed, at: now_ms }), old(self).spec_debounce()).1,
            final(self).spec_debounce() == old(self).spec_debounce(),
            final(self).spec_has_device() == old(self).spec_has_device(),
    {
        if pressed {
            match self.controller_state {
                ControllerState::Released => self.controller_state = ControllerState::Pressed,
                ControllerState::ReleaseWait(_) => self.controller_state = ControllerState::Held,
                _ => {},
            }
        } else {
            self.controller_state = ControllerState::ReleaseWait(now_ms);
        }
        self.dispatch(now_ms)
    }
}

} // verus!
