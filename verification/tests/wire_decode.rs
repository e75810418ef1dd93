use meeting_session::wire::{
    bridge_aliyun_event, bridge_deepgram_event, deepgram_close_frame, deepgram_live_url,
    parse_event_payload, parse_transcript_event, AliyunEvent, AsrEventKind, DeepgramTranscript,
};

#[test]
fn deepgram_results_frame_decodes() {
    let payload = "{\"type\":\"Results\",\"is_final\":true,\"channel\":{\"alternatives\":[{\"transcript\":\"  hello world \"}]}}";
    let transcript = parse_transcript_event(payload).unwrap();
    assert_eq!(transcript.text, "hello world");
    assert!(transcript.is_final);
}

#[test]
fn deepgram_interim_frame_defaults_to_not_final() {
    let payload =
        "{\"type\":\"Results\",\"channel\":{\"alternatives\":[{\"transcript\":\"hi\"}]}}";
    let transcript = parse_transcript_event(payload).unwrap();
    assert_eq!(transcript.text, "hi");
    assert!(!transcript.is_final);
}

#[test]
fn deepgram_unknown_and_empty_frames_are_dropped() {
    assert!(parse_transcript_event("{\"type\":\"Metadata\"}").is_none());
    assert!(parse_transcript_event("not json at all").is_none());
    let empty =
        "{\"type\":\"Results\",\"channel\":{\"alternatives\":[{\"transcript\":\"   \"}]}}";
    assert!(parse_transcript_event(empty).is_none());
}

#[test]
fn tingwu_sentence_end_is_a_final_transcript() {
    let payload = "{\"header\":{\"name\":\"SentenceEnd\"},\"payload\":{\"result\":\" finished sentence \",\"index\":7}}";
    let events = parse_event_payload(payload).unwrap();
    assert_eq!(events.len(), 1);
    assert!(matches!(events[0].kind, AsrEventKind::Transcript));
    assert_eq!(events[0].text, "finished sentence");
    assert!(events[0].is_final);
    assert_eq!(events[0].sentence_index, Some(7));
}

#[test]
fn tingwu_intermediate_results_are_not_final() {
    let payload = "{\"header\":{\"name\":\"TranscriptionResultChanged\"},\"payload\":{\"result\":\"partial\"}}";
    let events = parse_event_payload(payload).unwrap();
    assert!(!events[0].is_final);
    assert_eq!(events[0].sentence_index, None);
}

#[test]
fn tingwu_translation_joins_fragments_with_single_spaces() {
    let payload = "{\"header\":{\"name\":\"ResultTranslated\"},\"payload\":{\"partial\":true,\"translate_result\":[{\"text\":\" first \"},{\"text\":\"   \"},{\"index\":7,\"text\":\"second\"}]}}";
    let events = parse_event_payload(payload).unwrap();
    assert_eq!(events.len(), 1);
    assert!(matches!(events[0].kind, AsrEventKind::Translation));
    assert_eq!(events[0].text, "first second");
    assert!(!events[0].is_final); // partial
    // The payload carried no top-level index: the first fragment index wins.
    assert_eq!(events[0].sentence_index, Some(7));
}

#[test]
fn tingwu_translation_with_no_usable_fragments_is_dropped() {
    let payload = "{\"header\":{\"name\":\"ResultTranslated\"},\"payload\":{\"translate_result\":[{\"text\":\"  \"}]}}";
    assert!(parse_event_payload(payload).is_none());
    let no_list = "{\"header\":{\"name\":\"ResultTranslated\"},\"payload\":{}}";
    assert!(parse_event_payload(no_list).is_none());
}

#[test]
fn tingwu_top_level_index_wins_over_fragment_indexes() {
    let payload = "{\"header\":{\"name\":\"ResultTranslated\"},\"payload\":{\"index\":3,\"translate_result\":[{\"index\":9,\"text\":\"x\"}]}}";
    let events = parse_event_payload(payload).unwrap();
    assert_eq!(events[0].sentence_index, Some(3));
    assert!(events[0].is_final); // no partial flag means final
}

#[test]
fn tingwu_unknown_names_and_empty_results_are_dropped() {
    assert!(parse_event_payload("{\"header\":{\"name\":\"Heartbeat\"},\"payload\":{}}").is_none());
    assert!(parse_event_payload("{\"header\":{},\"payload\":{}}").is_none());
    assert!(parse_event_payload("{}").is_none());
    let empty = "{\"header\":{\"name\":\"SentenceBegin\"},\"payload\":{\"result\":\"  \"}}";
    assert!(parse_event_payload(empty).is_none());
}

#[test]
fn bridges_normalize_both_backends() {
    let aliyun = AliyunEvent {
        kind: AsrEventKind::Translation,
        text: "t".to_string(),
        is_final: true,
        sentence_index: Some(2),
    };
    let bridged = bridge_aliyun_event(aliyun);
    assert!(matches!(bridged.kind, AsrEventKind::Translation));
    assert_eq!(bridged.sentence_index, Some(2));

    let deepgram = DeepgramTranscript { text: "d".to_string(), is_final: false };
    let bridged = bridge_deepgram_event(deepgram);
    assert!(matches!(bridged.kind, AsrEventKind::Transcript));
    assert_eq!(bridged.text, "d");
    assert_eq!(bridged.sentence_index, None);
}

#[test]
fn deepgram_url_encodes_the_recognition_parameters() {
    let url = deepgram_live_url("en-US", 48000, 1);
    assert_eq!(
        url,
        "wss://api.deepgram.com/v1/listen?model=nova-2&language=en-US&encoding=linear16&sample_rate=48000&channels=1&interim_results=true&punctuate=true"
    );
}

#[test]
fn deepgram_close_frame_is_the_control_message() {
    assert_eq!(deepgram_close_frame(), "{\"type\":\"CloseStream\"}");
}
