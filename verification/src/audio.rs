//! Audio capture logic: canonical 16-bit PCM conversion, RMS loudness
//! gating, wire encoding of samples, and device-list assembly.
//!
//! Float samples are handled in fixed point: a native float amplitude is
//! scaled by 1 000 000 ("micro units", full scale = one million) before it
//! reaches this module, so every rule here is stated over plain integers.
use vstd::prelude::*;

use crate::models::{AudioDeviceInfo, AudioDeviceList, LoopbackAvailability, MicDeviceDescriptor,
    PlatformStyle};
use crate::text::dec_str;

verus! {

/// Fixed-point full scale: one million micro units stand for amplitude 1.0.
pub const FULL_SCALE_MICRO: i64 = 1000000;

/// Clamps a fixed-point amplitude to [-1.0, 1.0] (in micro units).
pub open spec fn clamp_micro(m: int) -> int {
    if m < -1000000 {
        -1000000
    } else if m > 1000000 {
        1000000
    } else {
        m
    }
}

/// The canonical signed 16-bit sample for a fixed-point amplitude:
/// clamp to full scale, then scale by `i16::MAX`, truncating toward zero.
pub open spec fn micro_to_i16(m: int) -> int {
    let c = clamp_micro(m);
    if c >= 0 {
        (c * 32767) / 1000000
    } else {
        -(((-c) * 32767) / 1000000)
    }
}

/// Converts one fixed-point (micro-unit) sample to signed 16-bit PCM.
pub fn convert_micro_sample(m: i64) -> (r: i16)
    ensures
        r as int == micro_to_i16(m as int),
{
    let c: i64 = if m < -1000000 {
        -1000000
    } else if m > 1000000 {
        1000000
    } else {
        m
    };
    if c >= 0 {
        ((c * 32767) / 1000000) as i16
    } else {
        (-(((-c) * 32767) / 1000000)) as i16
    }
}

/// The canonical signed sample for an unsigned 16-bit sample: recenter by
/// subtracting half range; the one value above range wraps, as a narrowing
/// cast does.
pub open spec fn u16_to_i16(s: int) -> int {
    if s - 32767 <= 32767 {
        s - 32767
    } else {
        -32768
    }
}

/// Converts one unsigned 16-bit sample to signed 16-bit PCM.
pub fn convert_u16_sample(s: u16) -> (r: i16)
    ensures
        r as int == u16_to_i16(s as int),
{
    let centered: i32 = s as i32 - 32767;
    if centered <= 32767 {
        centered as i16
    } else {
        i16::MIN
    }
}

/// Converts a buffer of fixed-point samples to PCM, pointwise.
pub fn convert_micro_samples(data: &Vec<i64>) -> (r: Vec<i16>)
    ensures
        r@.len() == data@.len(),
        forall|i: int| 0 <= i < data@.len() ==> r@[i] as int == micro_to_i16(data@[i] as int),
{
    let mut out: Vec<i16> = Vec::new();
    let mut i: usize = 0;
    while i < data.len()
        invariant
            i <= data@.len(),
            out@.len() == i,
            forall|j: int| 0 <= j < i ==> out@[j] as int == micro_to_i16(data@[j] as int),
        decreases data@.len() - i,
    {
        out.push(convert_micro_sample(data[i]));
        i += 1;
    }
    out
}

/// Converts a buffer of unsigned 16-bit samples to PCM, pointwise.
pub fn convert_u16_samples(data: &Vec<u16>) -> (r: Vec<i16>)
    ensures
        r@.len() == data@.len(),
        forall|i: int| 0 <= i < data@.len() ==> r@[i] as int == u16_to_i16(data@[i] as int),
{
    let mut out: Vec<i16> = Vec::new();
    let mut i: usize = 0;
    while i < data.len()
        invariant
            i <= data@.len(),
            out@.len() == i,
            forall|j: int| 0 <= j < i ==> out@[j] as int == u16_to_i16(data@[j] as int),
        decreases data@.len() - i,
    {
        out.push(convert_u16_sample(data[i]));
        i += 1;
    }
    out
}

/// Sum of squared sample values.
pub open spec fn sum_sq(s: Seq<i16>) -> int
    decreases s.len(),
{
    if s.len() == 0 {
        0
    } else {
        sum_sq(s.drop_last()) + s.last() * s.last()
    }
}

proof fn lemma_sum_sq_bounds(s: Seq<i16>)
    ensures
        0 <= sum_sq(s) <= s.len() * 0x40000000,
    decreases s.len(),
{
    if s.len() > 0 {
        lemma_sum_sq_bounds(s.drop_last());
        let x = s.last() as int;
        assert(x * x <= 0x40000000) by (nonlinear_arith)
            requires
                -0x8000 <= x <= 0x7fff,
        ;
        assert(x * x >= 0) by (nonlinear_arith);
        assert((s.len() - 1) * 0x40000000 + 0x40000000 == s.len() * 0x40000000) by (nonlinear_arith);
    }
}

/// A buffer counts as loud when its RMS energy reaches the threshold
/// (threshold in micro units of full scale): equivalently, when
/// `sum_sq * 10^12 >= len * threshold^2 * 32767^2`. The empty buffer is
/// never loud.
pub open spec fn spec_loud(samples: Seq<i16>, threshold_micro: u32) -> bool {
    samples.len() > 0 && sum_sq(samples) * 1000000000000 >= samples.len() * (
    threshold_micro as int * threshold_micro as int) * (32767 * 32767)
}

/// Whether the buffer's RMS energy reaches the loudness threshold.
pub fn is_loud_enough(samples: &Vec<i16>, threshold_micro: u32) -> (r: bool)
    requires
        samples@.len() <= 0x1000000,
    ensures
        r == spec_loud(samples@, threshold_micro),
{
    if samples.len() == 0 {
        return false;
    }
    let mut acc: u128 = 0;
    let mut i: usize = 0;
    while i < samples.len()
        invariant
            samples@.len() <= 0x1000000,
            i <= samples@.len(),
            acc as int == sum_sq(samples@.subrange(0, i as int)),
            acc <= i * 0x40000000,
        decreases samples@.len() - i,
    {
        let s = samples[i];
        proof {
            let x = samples@[i as int] as int;
            assert(0 <= x * x <= 0x40000000) by (nonlinear_arith)
                requires
                    -0x8000 <= x <= 0x7fff,
            ;
            assert(samples@.subrange(0, i + 1).drop_last() =~= samples@.subrange(0, i as int));
            assert((i + 1) * 0x40000000 == i * 0x40000000 + 0x40000000) by (nonlinear_arith);
        }
        let sq: u128 = (s as i64 * s as i64) as u128;
        acc = acc + sq;
        i += 1;
    }
    proof {
        assert(samples@.subrange(0, samples@.len() as int) =~= samples@);
        assert(acc <= 0x1000000 * 0x40000000);
    }
    let n = samples.len();
    let lhs: u128 = acc * 1000000000000;
    let t = threshold_micro as u128;
    proof {
        assert((t as int) * (t as int) <= 0xffffffff * 0xffffffff) by (nonlinear_arith)
            requires
                0 <= t as int <= 0xffffffff,
        ;
    }
    let tt: u128 = t * t;
    proof {
        assert((n as int) * (tt as int) <= 0x1000000 * (0xffffffff * 0xffffffff))
            by (nonlinear_arith)
            requires
                0 <= n as int <= 0x1000000,
                0 <= tt as int <= 0xffffffff * 0xffffffff,
        ;
    }
    let ntt: u128 = (n as u128) * tt;
    proof {
        assert((ntt as int) * (32767 * 32767) <= (0x1000000 * (0xffffffff * 0xffffffff)) * (32767
            * 32767)) by (nonlinear_arith)
            requires
                0 <= ntt as int <= 0x1000000 * (0xffffffff * 0xffffffff),
        ;
    }
    let rhs: u128 = ntt * (32767 * 32767);
    lhs >= rhs
}

/// Gate applied to every converted buffer before it may reach the
/// provider sender: a buffer below the loudness threshold is dropped,
/// one at or above it is forwarded unchanged.
pub fn gate_chunk(samples: Vec<i16>, threshold_micro: u32) -> (r: Option<Vec<i16>>)
    requires
        samples@.len() <= 0x1000000,
    ensures
        spec_loud(samples@, threshold_micro) ==> r == Some(samples),
        !spec_loud(samples@, threshold_micro) ==> r is None,
{
    if samples.len() == 0 {
        return None;
    }
    if is_loud_enough(&samples, threshold_micro) {
        Some(samples)
    } else {
        None
    }
}

/// The unsigned 16-bit reinterpretation of a signed sample.
pub open spec fn u16_bits_of(s: i16) -> int {
    if s >= 0 {
        s as int
    } else {
        s as int + 65536
    }
}

/// Encodes PCM samples as little-endian bytes for the audio socket.
pub fn pcm_to_le_bytes(samples: &Vec<i16>) -> (r: Vec<u8>)
    ensures
        r@.len() == 2 * samples@.len(),
        forall|i: int|
            0 <= i < samples@.len() ==> r@[2 * i] as int == u16_bits_of(samples@[i]) % 256,
        forall|i: int|
            0 <= i < samples@.len() ==> r@[2 * i + 1] as int == u16_bits_of(samples@[i]) / 256,
{
    let mut out: Vec<u8> = Vec::new();
    let mut i: usize = 0;
    while i < samples.len()
        invariant
            i <= samples@.len(),
            out@.len() == 2 * i,
            forall|j: int| 0 <= j < i ==> out@[2 * j] as int == u16_bits_of(samples@[j]) % 256,
            forall|j: int| 0 <= j < i ==> out@[2 * j + 1] as int == u16_bits_of(samples@[j]) / 256,
        decreases samples@.len() - i,
    {
        let s = samples[i];
        let u: u16 = if s >= 0 {
            s as u16
        } else {
            (s as i32 + 65536) as u16
        };
        out.push((u % 256) as u8);
        out.push((u / 256) as u8);
        i += 1;
    }
    out
}

/// The device id assigned to the microphone at enumeration position `idx`.
pub open spec fn spec_device_id(idx: int) -> Seq<char> {
    "mic-"@ + dec_str(idx as nat)
}

/// Builds the id string for the microphone at position `idx`.
pub fn device_id_for_index(idx: usize) -> (r: String)
    ensures
        r@ == spec_device_id(idx as int),
{
    let mut out = String::from_str("mic-");
    crate::text::push_u64_dec(&mut out, idx as u64);
    out
}

/// Builds descriptors from enumerated device names: position gives the id,
/// equality with the default device's name marks the default.
pub fn build_mic_descriptors(names: Vec<String>, default_name: &String) -> (r: Vec<
    MicDeviceDescriptor,
>)
    ensures
        r@.len() == names@.len(),
        forall|i: int|
            0 <= i < names@.len() ==> (#[trigger] r@[i]).id@ == spec_device_id(i) && r@[i].name@
                == names@[i]@ && r@[i].is_default == (names@[i]@ == default_name@),
{
    let mut out: Vec<MicDeviceDescriptor> = Vec::new();
    let mut i: usize = 0;
    while i < names.len()
        invariant
            i <= names@.len(),
            out@.len() == i,
            forall|j: int|
                0 <= j < i ==> (#[trigger] out@[j]).id@ == spec_device_id(j) && out@[j].name@
                    == names@[j]@ && out@[j].is_default == (names@[j]@ == default_name@),
        decreases names@.len() - i,
    {
        let name = names[i].clone();
        let is_default = crate::text::str_eq(name.as_str(), default_name.as_str());
        out.push(
            MicDeviceDescriptor { id: device_id_for_index(i), name, is_default },
        );
        i += 1;
    }
    out
}

/// Finds the enumeration position whose assigned id equals `selected`.
pub fn find_device_by_id(device_count: usize, selected: &str) -> (r: Option<usize>)
    ensures
        r is Some ==> r.unwrap() < device_count && selected@ == spec_device_id(
            r.unwrap() as int,
        ),
        r is None ==> forall|i: int| 0 <= i < device_count ==> selected@ != spec_device_id(i),
{
    let mut i: usize = 0;
    while i < device_count
        invariant
            i <= device_count,
            forall|j: int| 0 <= j < i ==> selected@ != spec_device_id(j),
        decreases device_count - i,
    {
        let id = device_id_for_index(i);
        if crate::text::str_eq(id.as_str(), selected) {
            return Some(i);
        }
        i += 1;
    }
    None
}

/// System loopback is not captured on any platform yet; the note says so.
pub fn detect_loopback_availability(style: PlatformStyle) -> (r: LoopbackAvailability)
    ensures
        !r.available,
        r.note is Some,
        style == PlatformStyle::Windows ==> r.note.unwrap()@
            == "Windows loopback will be added in phase 2. MVP currently uses microphone only."@,
        style == PlatformStyle::Macos ==> r.note.unwrap()@
            == "macOS system audio capture is not enabled in MVP. Use microphone mode for now."@,
        style == PlatformStyle::Linux ==> r.note.unwrap()@
            == "System loopback is not available on this platform in MVP."@,
{
    match style {
        PlatformStyle::Windows => LoopbackAvailability {
            available: false,
            note: Some(
                String::from_str(
                    "Windows loopback will be added in phase 2. MVP currently uses microphone only.",
                ),
            ),
        },
        PlatformStyle::Macos => LoopbackAvailability {
            available: false,
            note: Some(
                String::from_str(
                    "macOS system audio capture is not enabled in MVP. Use microphone mode for now.",
                ),
            ),
        },
        PlatformStyle::Linux => LoopbackAvailability {
            available: false,
            note: Some(String::from_str("System loopback is not available on this platform in MVP.")),
        },
    }
}

/// Combines enumerated microphones and loopback detection into the list
/// offered to the UI.
pub fn list_audio_devices(mics: Vec<MicDeviceDescriptor>, loopback: LoopbackAvailability) -> (r:
    AudioDeviceList)
    ensures
        r.microphones@.len() == mics@.len(),
        forall|i: int|
            0 <= i < mics@.len() ==> (#[trigger] r.microphones@[i]).id@ == mics@[i].id@
                && r.microphones@[i].name@ == mics@[i].name@ && r.microphones@[i].is_default
                == mics@[i].is_default,
        r.system_loopback_available == loopback.available,
        r.note == loopback.note,
{
    let mut microphones: Vec<AudioDeviceInfo> = Vec::new();
    let mut i: usize = 0;
    while i < mics.len()
        invariant
            i <= mics@.len(),
            microphones@.len() == i,
            forall|j: int|
                0 <= j < i ==> (#[trigger] microphones@[j]).id@ == mics@[j].id@
                    && microphones@[j].name@ == mics@[j].name@ && microphones@[j].is_default
                    == mics@[j].is_default,
        decreases mics@.len() - i,
    {
        let m = &mics[i];
        microphones.push(
            AudioDeviceInfo { id: m.id.clone(), name: m.name.clone(), is_default: m.is_default },
        );
        i += 1;
    }
    AudioDeviceList {
        microphones,
        system_loopback_available: loopback.available,
        note: loopback.note,
    }
}

} // verus!
