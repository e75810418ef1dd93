use meeting_session::models::{AsrProvider, SegmentSource, SpeakerRole, TranslationSource};
use meeting_session::transcript::{
    finalization_plan, llm_translation_event, ProcessedEvent, SentenceMap, TranscriptProcessor,
};
use meeting_session::wire::{AsrEvent, AsrEventKind};

fn transcript_event(text: &str, is_final: bool, index: Option<i64>) -> AsrEvent {
    AsrEvent { kind: AsrEventKind::Transcript, text: text.to_string(), is_final, sentence_index: index }
}

fn translation_event(text: &str, is_final: bool, index: Option<i64>) -> AsrEvent {
    AsrEvent {
        kind: AsrEventKind::Translation,
        text: text.to_string(),
        is_final,
        sentence_index: index,
    }
}

#[test]
fn translation_with_registered_index_resolves_to_that_transcript() {
    let mut processor = TranscriptProcessor::new();
    let session = "sid".to_string();

    let first = processor.process_event(
        transcript_event("hello there", false, Some(7)),
        "transcript-7".to_string(),
        "unused".to_string(),
        &session,
        AsrProvider::Aliyun,
        1000,
        true,
    );
    match first {
        ProcessedEvent::Transcript { event, finalize } => {
            assert_eq!(event.id, "transcript-7");
            assert_eq!(event.session_id, "sid");
            assert!(matches!(event.speaker, SpeakerRole::Me));
            assert_eq!(event.text, "hello there");
            assert!(!event.is_final);
            assert_eq!(event.timestamp_ms, 1000);
            assert!(matches!(event.source, SegmentSource::Microphone));
            assert!(!finalize);
        },
        ProcessedEvent::Translation { .. } => panic!("expected a transcript"),
    }

    let second = processor.process_event(
        translation_event("bonjour", true, Some(7)),
        "translation-1".to_string(),
        "synthetic-1".to_string(),
        &session,
        AsrProvider::Aliyun,
        2000,
        true,
    );
    match second {
        ProcessedEvent::Translation { event } => {
            assert_eq!(event.id, "translation-1");
            assert_eq!(event.transcript_id, "transcript-7");
            assert_eq!(event.text, "bonjour");
            assert!(event.is_final);
            assert!(matches!(event.source, TranslationSource::Asr));
        },
        ProcessedEvent::Transcript { .. } => panic!("expected a translation"),
    }
}

#[test]
fn translation_without_index_falls_back_to_latest_transcript() {
    let mut processor = TranscriptProcessor::new();
    let session = "sid".to_string();
    processor.process_event(
        transcript_event("first", false, None),
        "t-1".to_string(),
        "x".to_string(),
        &session,
        AsrProvider::Aliyun,
        1,
        false,
    );
    processor.process_event(
        transcript_event("second", false, None),
        "t-2".to_string(),
        "x".to_string(),
        &session,
        AsrProvider::Aliyun,
        2,
        false,
    );
    let translated = processor.process_event(
        translation_event("deux", false, None),
        "tr".to_string(),
        "synthetic".to_string(),
        &session,
        AsrProvider::Aliyun,
        3,
        false,
    );
    match translated {
        ProcessedEvent::Translation { event } => assert_eq!(event.transcript_id, "t-2"),
        ProcessedEvent::Transcript { .. } => panic!("expected a translation"),
    }
}

#[test]
fn orphan_translation_gets_a_synthetic_id_and_never_fails() {
    let mut processor = TranscriptProcessor::new();
    let session = "sid".to_string();
    let translated = processor.process_event(
        translation_event("loose", false, None),
        "tr".to_string(),
        "synthetic-id".to_string(),
        &session,
        AsrProvider::Aliyun,
        3,
        false,
    );
    match translated {
        ProcessedEvent::Translation { event } => assert_eq!(event.transcript_id, "synthetic-id"),
        ProcessedEvent::Transcript { .. } => panic!("expected a translation"),
    }
}

#[test]
fn unknown_index_falls_back_before_synthesizing() {
    let mut processor = TranscriptProcessor::new();
    let session = "sid".to_string();
    processor.process_event(
        transcript_event("only", false, Some(1)),
        "t-1".to_string(),
        "x".to_string(),
        &session,
        AsrProvider::Aliyun,
        1,
        false,
    );
    // Index 9 was never registered: the latest transcript id is used.
    let translated = processor.process_event(
        translation_event("neuf", false, Some(9)),
        "tr".to_string(),
        "synthetic".to_string(),
        &session,
        AsrProvider::Aliyun,
        2,
        false,
    );
    match translated {
        ProcessedEvent::Translation { event } => assert_eq!(event.transcript_id, "t-1"),
        ProcessedEvent::Transcript { .. } => panic!("expected a translation"),
    }
}

#[test]
fn finalization_owed_only_for_final_transcripts_with_an_llm() {
    let mut processor = TranscriptProcessor::new();
    let session = "sid".to_string();
    let done = processor.process_event(
        transcript_event("done", true, None),
        "t".to_string(),
        "x".to_string(),
        &session,
        AsrProvider::Deepgram,
        1,
        true,
    );
    assert!(matches!(done, ProcessedEvent::Transcript { finalize: true, .. }));

    let no_llm = processor.process_event(
        transcript_event("done", true, None),
        "t2".to_string(),
        "x".to_string(),
        &session,
        AsrProvider::Deepgram,
        2,
        false,
    );
    assert!(matches!(no_llm, ProcessedEvent::Transcript { finalize: false, .. }));
}

#[test]
fn sentence_map_replaces_on_reinsert() {
    let mut map = SentenceMap::new();
    assert!(map.get(7).is_none());
    map.insert(7, "a".to_string());
    map.insert(7, "b".to_string());
    assert_eq!(map.get(7).map(String::as_str), Some("b"));
    assert!(map.get(8).is_none());
}

#[test]
fn finalization_plan_translates_only_on_the_secondary_provider() {
    let plan = finalization_plan(AsrProvider::Deepgram, "What is the plan?");
    assert!(plan.translate);
    assert!(plan.question);
    let primary = finalization_plan(AsrProvider::Aliyun, "We shipped it yesterday.");
    assert!(!primary.translate);
    assert!(!primary.question);
}

#[test]
fn llm_translation_events_are_final_and_tagged() {
    let event = llm_translation_event(
        "id-1".to_string(),
        &"t-9".to_string(),
        "translated text".to_string(),
        42,
        AsrProvider::Deepgram,
    );
    assert_eq!(event.id, "id-1");
    assert_eq!(event.transcript_id, "t-9");
    assert_eq!(event.text, "translated text");
    assert!(event.is_final);
    assert_eq!(event.timestamp_ms, 42);
    assert!(matches!(event.source, TranslationSource::Llm));
}
