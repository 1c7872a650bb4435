use std::cell::RefCell;

use footswitch::audio::{AudioError, AudioInputDeviceTrait};
use footswitch::controller::{
    check_debounce, mute_request, Action, ControllerState, DebounceError, MicController,
    CHANNEL_TIMEOUT_MS, DEFAULT_DEBOUNCE_MS, MAX_DEBOUNCE_MS, MIN_TIMEOUT_MS,
};

/// A microphone that records every mute request.
struct RecordingMic {
    calls: RefCell<Vec<bool>>,
    fail: bool,
}

impl RecordingMic {
    fn new() -> Self {
        RecordingMic { calls: RefCell::new(Vec::new()), fail: false }
    }

    fn failing() -> Self {
        RecordingMic { calls: RefCell::new(Vec::new()), fail: true }
    }
}

impl AudioInputDeviceTrait for &RecordingMic {
    fn name(&self) -> Result<String, AudioError> {
        Ok("Recorder".to_string())
    }

    fn set_mute(&self, state: bool) -> Result<bool, AudioError> {
        self.calls.borrow_mut().push(state);
        if self.fail {
            Err(AudioError { msg: "unplugged".to_string() })
        } else {
            Ok(state)
        }
    }
}

fn controller(mic: &RecordingMic, debounce: u64) -> MicController<&RecordingMic> {
    MicController::new(Some(mic), debounce)
}

/// One received event, as the dispatch loop handles it.
fn feed(mc: &mut MicController<&RecordingMic>, pressed: bool, now: u64) -> Action {
    let action = mc.handle_event(pressed, now);
    mc.mute_device(mute_request(action)).unwrap();
    action
}

/// One receive timeout, as the dispatch loop handles it.
fn tick(mc: &mut MicController<&RecordingMic>, now: u64) -> Action {
    let action = mc.dispatch(now);
    mc.mute_device(mute_request(action)).unwrap();
    action
}

#[test]
fn single_press_unmutes_once_and_holds() {
    let mic = RecordingMic::new();
    let mut mc = controller(&mic, 100);
    assert_eq!(feed(&mut mc, true, 0), Action::Activate);
    assert_eq!(*mic.calls.borrow(), vec![false]);
    assert_eq!(mc.controller_state(), ControllerState::Held);
}

#[test]
fn press_then_release_then_idle_mutes_after_window() {
    let mic = RecordingMic::new();
    let mut mc = controller(&mic, 100);
    assert_eq!(feed(&mut mc, true, 0), Action::Activate);
    assert_eq!(feed(&mut mc, false, 10), Action::Idle);
    assert_eq!(mc.controller_state(), ControllerState::ReleaseWait(10));
    assert_eq!(mc.receive_timeout(10), 100);
    // a heartbeat before the window closes commits nothing
    assert_eq!(tick(&mut mc, 60), Action::Idle);
    assert_eq!(*mic.calls.borrow(), vec![false]);
    assert_eq!(mc.receive_timeout(60), 50);
    assert_eq!(tick(&mut mc, 110), Action::Deactivate);
    assert_eq!(*mic.calls.borrow(), vec![false, true]);
    assert_eq!(mc.controller_state(), ControllerState::Released);
    // the rest of the idle period does nothing more
    assert_eq!(tick(&mut mc, 160), Action::Idle);
    assert_eq!(*mic.calls.borrow(), vec![false, true]);
    assert_eq!(mc.controller_state(), ControllerState::Released);
}

#[test]
fn bounce_within_window_keeps_microphone_open() {
    let mic = RecordingMic::new();
    let mut mc = controller(&mic, 100);
    feed(&mut mc, true, 0);
    feed(&mut mc, false, 10);
    assert_eq!(feed(&mut mc, true, 30), Action::Idle);
    assert_eq!(mc.controller_state(), ControllerState::Held);
    assert_eq!(tick(&mut mc, 500), Action::Idle);
    assert_eq!(*mic.calls.borrow(), vec![false]);
    assert_eq!(mc.controller_state(), ControllerState::Held);
}

#[test]
fn release_then_press_just_before_window_never_mutes() {
    let mic = RecordingMic::new();
    let mut mc = controller(&mic, 100);
    feed(&mut mc, true, 0);
    feed(&mut mc, false, 1000);
    assert_eq!(tick(&mut mc, 1050), Action::Idle);
    assert_eq!(tick(&mut mc, 1099), Action::Idle);
    assert_eq!(feed(&mut mc, true, 1099), Action::Idle);
    assert_eq!(*mic.calls.borrow(), vec![false]);
    assert_eq!(mc.controller_state(), ControllerState::Held);
}

#[test]
fn release_held_exactly_the_window_mutes_once() {
    let mic = RecordingMic::new();
    let mut mc = controller(&mic, 100);
    feed(&mut mc, true, 0);
    feed(&mut mc, false, 200);
    assert_eq!(tick(&mut mc, 300), Action::Deactivate);
    assert_eq!(tick(&mut mc, 301), Action::Idle);
    assert_eq!(tick(&mut mc, 5000), Action::Idle);
    let mutes = mic.calls.borrow().iter().filter(|m| **m).count();
    assert_eq!(mutes, 1);
    assert_eq!(mc.controller_state(), ControllerState::Released);
}

#[test]
fn repeated_presses_while_held_are_silent() {
    let mic = RecordingMic::new();
    let mut mc = controller(&mic, 100);
    feed(&mut mc, true, 0);
    for t in 1..20u64 {
        assert_eq!(feed(&mut mc, true, t), Action::Idle);
        assert_eq!(mc.controller_state(), ControllerState::Held);
    }
    assert_eq!(*mic.calls.borrow(), vec![false]);
}

#[test]
fn repeated_release_restarts_window() {
    let mic = RecordingMic::new();
    let mut mc = controller(&mic, 100);
    feed(&mut mc, true, 0);
    feed(&mut mc, false, 10);
    feed(&mut mc, false, 90);
    assert_eq!(mc.controller_state(), ControllerState::ReleaseWait(90));
    assert_eq!(tick(&mut mc, 120), Action::Idle);
    assert_eq!(tick(&mut mc, 189), Action::Idle);
    assert_eq!(tick(&mut mc, 190), Action::Deactivate);
    assert_eq!(*mic.calls.borrow(), vec![false, true]);
}

#[test]
fn release_while_released_waits_again() {
    let mic = RecordingMic::new();
    let mut mc = controller(&mic, 100);
    assert_eq!(feed(&mut mc, false, 5), Action::Idle);
    assert_eq!(mc.controller_state(), ControllerState::ReleaseWait(5));
    assert_eq!(tick(&mut mc, 105), Action::Deactivate);
    assert_eq!(*mic.calls.borrow(), vec![true]);
}

#[test]
fn press_after_committed_release_unmutes_again() {
    let mic = RecordingMic::new();
    let mut mc = controller(&mic, 100);
    feed(&mut mc, true, 0);
    feed(&mut mc, false, 10);
    tick(&mut mc, 110);
    assert_eq!(feed(&mut mc, true, 200), Action::Activate);
    assert_eq!(*mic.calls.borrow(), vec![false, true, false]);
    assert_eq!(mc.controller_state(), ControllerState::Held);
}

#[test]
fn timeout_is_heartbeat_outside_release_wait() {
    let mic = RecordingMic::new();
    let mut mc = controller(&mic, 100);
    assert_eq!(mc.receive_timeout(0), CHANNEL_TIMEOUT_MS);
    feed(&mut mc, true, 0);
    assert_eq!(mc.receive_timeout(50), 1000);
}

#[test]
fn timeout_tracks_remaining_window() {
    let mic = RecordingMic::new();
    let mut mc = controller(&mic, 100);
    feed(&mut mc, false, 1000);
    assert_eq!(mc.receive_timeout(1000), 100);
    assert_eq!(mc.receive_timeout(1030), 70);
    assert_eq!(mc.receive_timeout(1099), 1);
}

#[test]
fn timeout_when_overdue_is_one_millisecond() {
    let mic = RecordingMic::new();
    let mut mc = controller(&mic, 100);
    feed(&mut mc, false, 1000);
    assert_eq!(mc.receive_timeout(1100), MIN_TIMEOUT_MS);
    assert_eq!(mc.receive_timeout(99_999), MIN_TIMEOUT_MS);
}

#[test]
fn timeout_caps_long_window_at_one_second() {
    let mic = RecordingMic::new();
    let mut mc = controller(&mic, MAX_DEBOUNCE_MS);
    feed(&mut mc, false, 0);
    assert_eq!(mc.receive_timeout(0), 1000);
    assert_eq!(mc.receive_timeout(9_500), 500);
}

#[test]
fn clock_reading_before_release_counts_as_no_time() {
    let mic = RecordingMic::new();
    let mut mc = controller(&mic, 100);
    feed(&mut mc, false, 1000);
    assert_eq!(mc.receive_timeout(900), 100);
    assert_eq!(tick(&mut mc, 900), Action::Idle);
    assert_eq!(mc.controller_state(), ControllerState::ReleaseWait(1000));
}

#[test]
fn audio_failure_is_reported_and_state_advances() {
    let mic = RecordingMic::failing();
    let mut mc = controller(&mic, 100);
    let action = mc.handle_event(true, 0);
    assert_eq!(action, Action::Activate);
    let r = mc.mute_device(mute_request(action));
    assert_eq!(r.unwrap_err().msg, "unplugged");
    assert_eq!(mc.controller_state(), ControllerState::Held);
    assert_eq!(*mic.calls.borrow(), vec![false]);
}

#[test]
fn without_microphone_actions_still_reported() {
    let mut mc: MicController<&RecordingMic> = MicController::new(None, 100);
    assert_eq!(feed(&mut mc, true, 0), Action::Activate);
    assert_eq!(feed(&mut mc, false, 10), Action::Idle);
    assert_eq!(tick(&mut mc, 110), Action::Deactivate);
    assert!(mc.mute_device(Some(true)).is_ok());
    assert_eq!(mc.device_name().unwrap(), "None");
}

#[test]
fn device_name_comes_from_microphone() {
    let mic = RecordingMic::new();
    let mc = controller(&mic, 100);
    assert_eq!(mc.device_name().unwrap(), "Recorder");
    assert_eq!(mc.debounce_ms(), 100);
    assert_eq!(mc.controller_state(), ControllerState::Released);
}

#[test]
fn debounce_bounds() {
    assert_eq!(check_debounce(0), Err(DebounceError::Zero));
    assert_eq!(check_debounce(1), Ok(1));
    assert_eq!(check_debounce(DEFAULT_DEBOUNCE_MS), Ok(100));
    assert_eq!(check_debounce(10_000), Ok(10_000));
    assert_eq!(check_debounce(10_001), Err(DebounceError::TooLong));
    assert_eq!(check_debounce(u64::MAX), Err(DebounceError::TooLong));
}

#[test]
fn mute_requests_of_actions() {
    assert_eq!(mute_request(Action::Activate), Some(false));
    assert_eq!(mute_request(Action::Deactivate), Some(true));
    assert_eq!(mute_request(Action::Idle), None);
}

#[test]
fn idle_request_leaves_microphone_alone() {
    let mic = RecordingMic::failing();
    let mc = controller(&mic, 100);
    assert!(mc.mute_device(None).is_ok());
    assert!(mic.calls.borrow().is_empty());
}
