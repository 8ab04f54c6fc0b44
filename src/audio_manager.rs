//! The platform's description of an audio device, decoded into plain values.
use vstd::prelude::*;
use jni::errors::Error as JniFailure;
use jni::objects::JObject;
use jni::JNIEnv;
use crate::jni_utils::{call_method_with_int, value_object};

verus! {

/// Flags of the platform's device query.
pub struct AudioManager;

impl AudioManager {
    /// Query flag for input devices.
    pub const GET_DEVICES_INPUTS: i32 = 1;

    /// Query flag for output devices.
    pub const GET_DEVICES_OUTPUTS: i32 = 2;

    /// Query flag for all devices.
    pub const GET_DEVICES_ALL: i32 = 3;
}

/// The platform's description of one audio device.
#[derive(Debug, Clone)]
pub struct AudioDeviceInfo {
    /// Device identifier.
    pub id: i32,
    /// The type of device.
    pub device_type: AudioDeviceType,
    /// Whether the device can be used for playback and/or capture.
    pub direction: AudioDeviceDirection,
    /// Device address.
    pub address: String,
    /// Device product name.
    pub product_name: String,
    /// Available channel counts; empty when the device reports none.
    pub channel_counts: Vec<i32>,
    /// Supported sample rates; empty when the device reports none.
    pub sample_rates: Vec<i32>,
    /// Supported sample formats; empty when the device reports none.
    pub formats: Vec<AudioFormat>,
}

/// The type of an audio device.
#[derive(Debug, Clone, Copy, PartialEq, Eq, Structural)]
pub enum AudioDeviceType {
    Unknown,
    AuxLine,
    BluetoothA2DP,
    BluetoothSCO,
    BuiltinEarpiece,
    BuiltinMic,
    BuiltinSpeaker,
    Bus,
    Dock,
    Fm,
    FmTuner,
    Hdmi,
    HdmiArc,
    HearingAid,
    Ip,
    LineAnalog,
    LineDigital,
    Telephony,
    TvTuner,
    UsbAccessory,
    UsbDevice,
    UsbHeadset,
    UsbHeadphones,
    WiredHeadset,
}

impl AudioDeviceType {
    /// The platform's type code of each device type.
    pub open spec fn code_of(code: i32) -> Option<AudioDeviceType> {
        if code == 0 {
            Some(AudioDeviceType::Unknown)
        } else if code == 19 {
            Some(AudioDeviceType::AuxLine)
        } else if code == 8 {
            Some(AudioDeviceType::BluetoothA2DP)
        } else if code == 7 {
            Some(AudioDeviceType::BluetoothSCO)
        } else if code == 1 {
            Some(AudioDeviceType::BuiltinEarpiece)
        } else if code == 15 {
            Some(AudioDeviceType::BuiltinMic)
        } else if code == 2 {
            Some(AudioDeviceType::BuiltinSpeaker)
        } else if code == 21 {
            Some(AudioDeviceType::Bus)
        } else if code == 13 {
            Some(AudioDeviceType::Dock)
        } else if code == 14 {
            Some(AudioDeviceType::Fm)
        } else if code == 16 {
            Some(AudioDeviceType::FmTuner)
        } else if code == 9 {
            Some(AudioDeviceType::Hdmi)
        } else if code == 10 {
            Some(AudioDeviceType::HdmiArc)
        } else if code == 23 {
            Some(AudioDeviceType::HearingAid)
        } else if code == 20 {
            Some(AudioDeviceType::Ip)
        } else if code == 5 {
            Some(AudioDeviceType::LineAnalog)
        } else if code == 6 {
            Some(AudioDeviceType::LineDigital)
        } else if code == 18 {
            Some(AudioDeviceType::Telephony)
        } else if code == 17 {
            Some(AudioDeviceType::TvTuner)
        } else if code == 12 {
            Some(AudioDeviceType::UsbAccessory)
        } else if code == 11 {
            Some(AudioDeviceType::UsbDevice)
        } else if code == 22 {
            Some(AudioDeviceType::UsbHeadset)
        } else if code == 4 {
            Some(AudioDeviceType::UsbHeadphones)
        } else if code == 3 {
            Some(AudioDeviceType::WiredHeadset)
        } else {
            None
        }
    }

    /// Decodes the platform's device type code.
    pub fn from_i32(code: i32) -> (r: Option<AudioDeviceType>)
        ensures
            r == Self::code_of(code),
    {
        match code {
            0 => Some(AudioDeviceType::Unknown),
            19 => Some(AudioDeviceType::AuxLine),
            8 => Some(AudioDeviceType::BluetoothA2DP),
            7 => Some(AudioDeviceType::BluetoothSCO),
            1 => Some(AudioDeviceType::BuiltinEarpiece),
            15 => Some(AudioDeviceType::BuiltinMic),
            2 => Some(AudioDeviceType::BuiltinSpeaker),
            21 => Some(AudioDeviceType::Bus),
            13 => Some(AudioDeviceType::Dock),
            14 => Some(AudioDeviceType::Fm),
            16 => Some(AudioDeviceType::FmTuner),
            9 => Some(AudioDeviceType::Hdmi),
            10 => Some(AudioDeviceType::HdmiArc),
            23 => Some(AudioDeviceType::HearingAid),
            20 => Some(AudioDeviceType::Ip),
            5 => Some(AudioDeviceType::LineAnalog),
            6 => Some(AudioDeviceType::LineDigital),
            18 => Some(AudioDeviceType::Telephony),
            17 => Some(AudioDeviceType::TvTuner),
            12 => Some(AudioDeviceType::UsbAccessory),
            11 => Some(AudioDeviceType::UsbDevice),
            22 => Some(AudioDeviceType::UsbHeadset),
            4 => Some(AudioDeviceType::UsbHeadphones),
            3 => Some(AudioDeviceType::WiredHeadset),
            _ => None,
        }
    }
}

/// The direction of an audio device.
#[derive(Debug, Clone, Copy, PartialEq, Eq, Hash, Structural)]
pub enum AudioDeviceDirection {
    Input,
    Output,
    InputOutput,
}

impl AudioDeviceDirection {
    pub open spec fn new_spec(is_input: bool, is_output: bool) -> Option<AudioDeviceDirection> {
        if is_input && is_output {
            Some(AudioDeviceDirection::InputOutput)
        } else if is_output {
            Some(AudioDeviceDirection::Output)
        } else if is_input {
            Some(AudioDeviceDirection::Input)
        } else {
            None
        }
    }

    /// The direction of a device that is a source and/or a sink; `None` when
    /// it is neither.
    pub fn new(is_input: bool, is_output: bool) -> (r: Option<Self>)
        ensures
            r == Self::new_spec(is_input, is_output),
    {
        match (is_input, is_output) {
            (true, true) => Some(AudioDeviceDirection::InputOutput),
            (false, true) => Some(AudioDeviceDirection::Output),
            (true, false) => Some(AudioDeviceDirection::Input),
            _ => None,
        }
    }

    pub open spec fn flags_spec(self) -> i32 {
        match self {
            AudioDeviceDirection::Input => AudioManager::GET_DEVICES_INPUTS,
            AudioDeviceDirection::Output => AudioManager::GET_DEVICES_OUTPUTS,
            AudioDeviceDirection::InputOutput => AudioManager::GET_DEVICES_ALL,
        }
    }

    /// The flag bits of the platform's device query for this direction.
    pub fn flags(self) -> (r: i32)
        ensures
            r == self.flags_spec(),
    {
        match self {
            AudioDeviceDirection::Input => AudioManager::GET_DEVICES_INPUTS,
            AudioDeviceDirection::Output => AudioManager::GET_DEVICES_OUTPUTS,
            AudioDeviceDirection::InputOutput => AudioManager::GET_DEVICES_ALL,
        }
    }
}

#[derive(Debug, Clone, Copy, PartialEq, Eq, Structural)]
pub enum AudioFormat {
    I16,
    F32,
}

/// The platform's encoding code of 16-bit integer samples.
pub const ENCODING_PCM_16BIT: i32 = 2;

/// The platform's encoding code of 32-bit float samples.
pub const ENCODING_PCM_FLOAT: i32 = 4;

impl AudioFormat {
    pub open spec fn from_encoding_spec(encoding: i32) -> Option<AudioFormat> {
        if encoding == ENCODING_PCM_16BIT {
            Some(AudioFormat::I16)
        } else if encoding == ENCODING_PCM_FLOAT {
            Some(AudioFormat::F32)
        } else {
            None
        }
    }

    /// The format of a platform encoding code; `None` for one this host does
    /// not handle.
    pub fn from_encoding(encoding: i32) -> (r: Option<AudioFormat>)
        ensures
            r == Self::from_encoding_spec(encoding),
    {
        if encoding == ENCODING_PCM_16BIT {
            Some(AudioFormat::I16)
        } else if encoding == ENCODING_PCM_FLOAT {
            Some(AudioFormat::F32)
        } else {
            None
        }
    }

    pub open spec fn encoding_spec(self) -> i32 {
        match self {
            AudioFormat::I16 => ENCODING_PCM_16BIT,
            AudioFormat::F32 => ENCODING_PCM_FLOAT,
        }
    }

    /// The platform encoding code of this format.
    pub fn encoding(self) -> (r: i32)
        ensures
            r == self.encoding_spec(),
    {
        match self {
            AudioFormat::I16 => ENCODING_PCM_16BIT,
            AudioFormat::F32 => ENCODING_PCM_FLOAT,
        }
    }
}

/// The formats among `encodings` that this host handles, in order.
pub open spec fn known_formats(encodings: Seq<i32>) -> Seq<AudioFormat>
    decreases encodings.len(),
{
    if encodings.len() == 0 {
        Seq::empty()
    } else {
        let prev = known_formats(encodings.drop_last());
        match AudioFormat::from_encoding_spec(encodings.last()) {
            Some(f) => prev.push(f),
            None => prev,
        }
    }
}

/// Keeps the encodings that this host handles, as formats, in order.
pub fn formats_from_encodings(encodings: &Vec<i32>) -> (r: Vec<AudioFormat>)
    ensures
        r@ == known_formats(encodings@),
{
    let mut out: Vec<AudioFormat> = Vec::new();
    let mut i: usize = 0;
    while i < encodings.len()
        invariant
            i <= encodings@.len(),
            out@ == known_formats(encodings@.take(i as int)),
        decreases encodings@.len() - i,
    {
        assert(encodings@.take(i as int + 1).drop_last() == encodings@.take(i as int));
        if let Some(f) = AudioFormat::from_encoding(encodings[i]) {
            out.push(f);
        }
        i = i + 1;
    }
    assert(encodings@.take(encodings@.len() as int) == encodings@);
    out
}

/// The values that the platform reports for one device, as read.
pub struct ReportedDevice {
    pub id: i32,
    pub address: String,
    pub product_name: String,
    pub type_code: i32,
    pub is_source: bool,
    pub is_sink: bool,
    pub channel_counts: Vec<i32>,
    pub sample_rates: Vec<i32>,
    pub encodings: Vec<i32>,
}

/// The device type of a type code; a code of no known type reads as
/// `Unknown`.
pub open spec fn type_or_unknown(code: i32) -> AudioDeviceType {
    match AudioDeviceType::code_of(code) {
        Some(t) => t,
        None => AudioDeviceType::Unknown,
    }
}

/// Whether a reported device is kept: it must be a source or a sink.
pub open spec fn is_usable(rec: ReportedDevice) -> bool {
    rec.is_source || rec.is_sink
}

/// `info` is the decoded form of `rec`.
pub open spec fn decodes(rec: ReportedDevice, info: AudioDeviceInfo) -> bool {
    &&& info.id == rec.id
    &&& info.address@ == rec.address@
    &&& info.product_name@ == rec.product_name@
    &&& info.device_type == type_or_unknown(rec.type_code)
    &&& Some(info.direction) == AudioDeviceDirection::new_spec(rec.is_source, rec.is_sink)
    &&& info.channel_counts@ == rec.channel_counts@
    &&& info.sample_rates@ == rec.sample_rates@
    &&& info.formats@ == known_formats(rec.encodings@)
}

/// The usable reported devices, in order.
pub open spec fn usable_devices(recs: Seq<ReportedDevice>) -> Seq<ReportedDevice>
    decreases recs.len(),
{
    if recs.len() == 0 {
        Seq::empty()
    } else {
        let prev = usable_devices(recs.drop_last());
        if is_usable(recs.last()) {
            prev.push(recs.last())
        } else {
            prev
        }
    }
}

/// `list` holds the decoded form of each usable device of `recs`, in order.
pub open spec fn decoded_devices(recs: Seq<ReportedDevice>, list: Seq<AudioDeviceInfo>) -> bool {
    &&& list.len() == usable_devices(recs).len()
    &&& forall|i: int| 0 <= i < list.len() ==> decodes(#[trigger] usable_devices(recs)[i], list[i])
}

impl AudioDeviceInfo {
    /// Decodes the values that the platform reports for a device. `None` when
    /// the device is neither a source nor a sink; a type code of no known
    /// type reads as `Unknown`.
    pub fn from_reported(rec: ReportedDevice) -> (r: Option<AudioDeviceInfo>)
        ensures
            r.is_some() <==> is_usable(rec),
            r matches Some(info) ==> decodes(rec, info),
    {
        let direction = match AudioDeviceDirection::new(rec.is_source, rec.is_sink) {
            Some(d) => d,
            None => return None,
        };
        let device_type = match AudioDeviceType::from_i32(rec.type_code) {
            Some(t) => t,
            None => AudioDeviceType::Unknown,
        };
        let formats = formats_from_encodings(&rec.encodings);
        Some(
            AudioDeviceInfo {
                id: rec.id,
                device_type,
                direction,
                address: rec.address,
                product_name: rec.product_name,
                channel_counts: rec.channel_counts,
                sample_rates: rec.sample_rates,
                formats,
            },
        )
    }
}

/// Decodes a device list: one record per usable device, in order; a device
/// that is neither a source nor a sink is left out.
pub fn decode_devices(reported: Vec<ReportedDevice>) -> (r: Vec<AudioDeviceInfo>)
    ensures
        decoded_devices(reported@, r@),
{
    let ghost all = reported@;
    let n = reported.len();
    let mut rest = reported;
    let mut out: Vec<AudioDeviceInfo> = Vec::new();
    let mut done: usize = 0;
    while rest.len() > 0
        invariant
            done + rest@.len() == all.len(),
            all.len() == n,
            forall|i: int| 0 <= i < rest@.len() ==> rest@[i] == all[done + i],
            decoded_devices(all.take(done as int), out@),
        decreases rest@.len(),
    {
        let rec = rest.remove(0);
        proof {
            assert(all.take(done as int + 1).drop_last() == all.take(done as int));
            assert(all.take(done as int + 1).last() == rec);
        }
        let ghost before = out@;
        match AudioDeviceInfo::from_reported(rec) {
            Some(info) => {
                out.push(info);
                proof {
                    let u = usable_devices(all.take(done as int + 1));
                    assert forall|i: int| 0 <= i < out@.len() implies decodes(#[trigger] u[i], out@[i]) by {
                        if i < before.len() {
                            assert(u[i] == usable_devices(all.take(done as int))[i]);
                        }
                    }
                }
            },
            None => {},
        }
        done = done + 1;
    }
    assert(all.take(all.len() as int) == all);
    out
}

/// JNI signature of `AudioManager.getDevices`.
pub const SIG_GET_DEVICES: &'static str = "(I)[Landroid/media/AudioDeviceInfo;";

/// Calls `getDevices` of the audio manager `subject` with the query `flags`.
pub fn get_devices<'a>(env: &JNIEnv<'a>, subject: JObject<'a>, flags: i32) -> Result<JObject<'a>, JniFailure> {
    match call_method_with_int(env, subject, "getDevices", SIG_GET_DEVICES, flags) {
        Ok(v) => value_object(v),
        Err(e) => Err(e),
    }
}

} // verus!
