use vstd::prelude::*;

verus! {

/// Failure reported by an audio backend.
#[derive(Debug)]
pub struct AudioError {
    pub msg: String,
}

/// An audio input device whose mute state can be controlled.
pub trait AudioInputDeviceTrait {
    /// The human-readable name of the audio device.
    fn name(&self) -> Result<String, AudioError>;

    /// Sets the mute state of the audio device, returning the state applied.
    fn set_mute(&self, state: bool) -> Result<bool, AudioError>;
}

/// The audio subsystem of a platform.
pub trait AudioControllerTrait: Sized {
    /// The kind of input device this subsystem hands out.
    type Device: AudioInputDeviceTrait;

    /// Create a new connection to the audio subsystem.
    fn new() -> Self;

    /// Gets the default communications device.
    fn get_comms_device(&self) -> Result<Self::Device, AudioError>;

    /// Gets an input device by name.
    fn get_input_device(&self, name: String) -> Result<Self::Device, AudioError>;

    /// Gets all input device names.
    fn get_input_device_names(&self) -> Result<Vec<String>, AudioError>;
}

/// Name of the single microphone that the stand-in backend offers.
pub open spec fn fake_mic_name() -> Seq<char> {
    "Fake Microphone"@
}

/// Stand-in audio subsystem for platforms without a native backend: it offers
/// one microphone, and every operation on it succeeds.
pub struct AudioController {
    fake_mic: AudioInputDevice,
}

/// The microphone of the stand-in audio subsystem.
#[derive(Clone, Debug)]
pub struct AudioInputDevice {
    name: String,
}

impl AudioInputDevice {
    /// A stand-in microphone with the given name.
    pub fn with_name(name: String) -> (r: AudioInputDevice)
        ensures
            r.spec_name() == name@,
    {
        AudioInputDevice { name }
    }

    pub closed spec fn spec_name(&self) -> Seq<char> {
        self.name@
    }
}

impl AudioInputDeviceTrait for AudioInputDevice {
    /// The name, which is always read.
    fn name(&self) -> (r: Result<String, AudioError>)
        ensures
            r is Ok && r->Ok_0@ == self.spec_name(),
    {
        Ok(self.name.clone())
    }

    /// Succeeds without touching any hardware, and reports the logical
    /// negation of `state`.
    fn set_mute(&self, state: bool) -> (r: Result<bool, AudioError>)
        ensures
            r is Ok && r->Ok_0 == !state,
    {
        Ok(!state)
    }
}

impl AudioController {
    pub closed spec fn spec_mic(&self) -> AudioInputDevice {
        self.fake_mic
    }
}

impl AudioControllerTrait for AudioController {
    type Device = AudioInputDevice;

    /// The stand-in subsystem, whose microphone is called "Fake Microphone".
    fn new() -> (r: AudioController)
        ensures
            r.spec_mic().spec_name() == fake_mic_name(),
    {
        let name = "Fake Microphone".to_owned();
        proof {
            reveal_strlit("Fake Microphone");
        }
        AudioController { fake_mic: AudioInputDevice::with_name(name) }
    }

    /// The microphone, as the default communications device.
    fn get_comms_device(&self) -> (r: Result<AudioInputDevice, AudioError>)
        ensures
            r is Ok && r->Ok_0.spec_name() == self.spec_mic().spec_name(),
    {
        Ok(AudioInputDevice { name: self.fake_mic.name.clone() })
    }

    /// Looks a microphone up by name: only the one microphone is found.
    fn get_input_device(&self, name: String) -> (r: Result<AudioInputDevice, AudioError>)
        ensures
            r is Ok <==> name@ == self.spec_mic().spec_name(),
            r is Ok ==> r->Ok_0.spec_name() == name@,
    {
        if name == self.fake_mic.name {
            Ok(AudioInputDevice { name: self.fake_mic.name.clone() })
        } else {
            Err(AudioError { msg: "device not found".to_owned() })
        }
    }

    /// The names of all input devices: the one microphone.
    fn get_input_device_names(&self) -> (r: Result<Vec<String>, AudioError>)
        ensures
            r is Ok && r->Ok_0@.len() == 1 && r->Ok_0@[0]@ == self.spec_mic().spec_name(),
    {
        let mut names: Vec<String> = Vec::new();
        names.push(self.fake_mic.name.clone());
        Ok(names)
    }
}

} // verus!
