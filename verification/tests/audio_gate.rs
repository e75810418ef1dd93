use meeting_session::audio::{
    build_mic_descriptors, convert_micro_sample, convert_micro_samples, convert_u16_sample,
    convert_u16_samples, detect_loopback_availability, device_id_for_index, find_device_by_id,
    gate_chunk, is_loud_enough, list_audio_devices, pcm_to_le_bytes,
};
use meeting_session::models::{LoopbackAvailability, PlatformStyle};

const THRESHOLD: u32 = 15000; // 0.015 of full scale, in micro units

#[test]
fn full_scale_positive_float_maps_to_i16_max() {
    assert_eq!(convert_micro_sample(1_000_000), i16::MAX);
    assert_eq!(convert_micro_sample(2_500_000), i16::MAX); // clamped
}

#[test]
fn full_scale_negative_float_maps_to_negative_full_scale() {
    assert_eq!(convert_micro_sample(-1_000_000), -32767);
    assert_eq!(convert_micro_sample(-9_000_000), -32767); // clamped
}

#[test]
fn zero_and_half_scale_float_samples() {
    assert_eq!(convert_micro_sample(0), 0);
    assert_eq!(convert_micro_sample(500_000), 16383);
    assert_eq!(convert_micro_sample(-500_000), -16383);
}

#[test]
fn unsigned_mid_range_maps_to_zero() {
    assert_eq!(convert_u16_sample(32767), 0);
    assert_eq!(convert_u16_sample(0), -32767);
    assert_eq!(convert_u16_sample(65535), i16::MIN);
    assert_eq!(convert_u16_sample(65534), i16::MAX);
}

#[test]
fn buffer_conversions_are_pointwise() {
    let micro = vec![1_000_000i64, 0, -1_000_000];
    assert_eq!(convert_micro_samples(&micro), vec![32767i16, 0, -32767]);
    let unsigned = vec![32767u16, 0, 65535];
    assert_eq!(convert_u16_samples(&unsigned), vec![0i16, -32767, -32768]);
}

#[test]
fn silent_buffer_is_dropped() {
    let silent = vec![0i16; 1600];
    assert!(!is_loud_enough(&silent, THRESHOLD));
    assert_eq!(gate_chunk(silent, THRESHOLD), None);
}

#[test]
fn loud_buffer_is_forwarded_unchanged() {
    let loud = vec![20000i16; 1600];
    assert!(is_loud_enough(&loud, THRESHOLD));
    assert_eq!(gate_chunk(loud.clone(), THRESHOLD), Some(loud));
}

#[test]
fn empty_buffer_is_dropped() {
    assert_eq!(gate_chunk(Vec::new(), THRESHOLD), None);
}

#[test]
fn rms_exactly_at_threshold_is_forwarded() {
    // One full-scale sample against a full-scale threshold: RMS == threshold.
    let buffer = vec![32767i16];
    assert!(is_loud_enough(&buffer, 1_000_000));
    // A hair above full scale can never be reached.
    assert!(!is_loud_enough(&vec![32766i16], 1_000_000));
}

#[test]
fn pcm_bytes_are_little_endian() {
    let samples = vec![0x1234i16, -1, 0];
    assert_eq!(pcm_to_le_bytes(&samples), vec![0x34u8, 0x12, 0xff, 0xff, 0x00, 0x00]);
}

#[test]
fn device_ids_follow_enumeration_order() {
    assert_eq!(device_id_for_index(0), "mic-0");
    assert_eq!(device_id_for_index(12), "mic-12");
    assert_eq!(find_device_by_id(3, "mic-2"), Some(2));
    assert_eq!(find_device_by_id(3, "mic-7"), None);
    assert_eq!(find_device_by_id(0, "mic-0"), None);
}

#[test]
fn descriptors_mark_the_default_by_name() {
    let names = vec!["USB Mic".to_string(), "Built-in".to_string()];
    let descriptors = build_mic_descriptors(names, &"Built-in".to_string());
    assert_eq!(descriptors.len(), 2);
    assert_eq!(descriptors[0].id, "mic-0");
    assert!(!descriptors[0].is_default);
    assert_eq!(descriptors[1].id, "mic-1");
    assert!(descriptors[1].is_default);
}

#[test]
fn loopback_is_never_available_and_says_why() {
    let windows = detect_loopback_availability(PlatformStyle::Windows);
    assert!(!windows.available);
    assert_eq!(
        windows.note.as_deref(),
        Some("Windows loopback will be added in phase 2. MVP currently uses microphone only.")
    );
    let macos = detect_loopback_availability(PlatformStyle::Macos);
    assert!(!macos.available);
    let linux = detect_loopback_availability(PlatformStyle::Linux);
    assert_eq!(
        linux.note.as_deref(),
        Some("System loopback is not available on this platform in MVP.")
    );
}

#[test]
fn device_list_combines_mics_and_loopback() {
    let names = vec!["A".to_string()];
    let mics = build_mic_descriptors(names, &"A".to_string());
    let loopback = LoopbackAvailability { available: false, note: Some("n".to_string()) };
    let list = list_audio_devices(mics, loopback);
    assert_eq!(list.microphones.len(), 1);
    assert_eq!(list.microphones[0].id, "mic-0");
    assert!(list.microphones[0].is_default);
    assert!(!list.system_loopback_available);
    assert_eq!(list.note.as_deref(), Some("n"));
}
