/// Audio backends: what the dispatch loop needs of a microphone, and a
/// stand-in backend for platforms without a native one.
pub mod audio;
/// The debounce/dispatch state machine that turns switch events and the
/// passage of time into mute and unmute actions.
pub mod controller;
/// Facts about runs of the debounce/dispatch state machine.
pub mod debounce_lemmas;
/// The serial reader: framing, decoding and the reconnect policy.
pub mod serial_driver;
