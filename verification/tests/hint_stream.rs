use meeting_session::hint::hint_deltas;
use meeting_session::ids::fresh_uuid;

#[test]
fn three_tokens_give_three_deltas_and_one_done() {
    let id = "hint-1".to_string();
    let session = "sid".to_string();
    let deltas = hint_deltas(&id, &session, "a b c");
    assert_eq!(deltas.len(), 4);
    assert_eq!(deltas[0].delta, "a ");
    assert_eq!(deltas[1].delta, "b ");
    assert_eq!(deltas[2].delta, "c ");
    for delta in &deltas[..3] {
        assert!(!delta.done);
        assert_eq!(delta.id, "hint-1");
        assert_eq!(delta.session_id, "sid");
        assert_eq!(delta.source, "llm");
    }
    let done = &deltas[3];
    assert!(done.done);
    assert_eq!(done.delta, "");
    assert_eq!(done.id, "hint-1");
    assert_eq!(done.source, "llm");
}

#[test]
fn surrounding_and_repeated_whitespace_separates_tokens_once() {
    let id = "h".to_string();
    let session = "s".to_string();
    let deltas = hint_deltas(&id, &session, "  lead\t mid\n\ntail ");
    assert_eq!(deltas.len(), 4);
    assert_eq!(deltas[0].delta, "lead ");
    assert_eq!(deltas[1].delta, "mid ");
    assert_eq!(deltas[2].delta, "tail ");
    assert!(deltas[3].done);
}

#[test]
fn empty_hint_still_terminates_with_one_done_delta() {
    let id = "h".to_string();
    let session = "s".to_string();
    let deltas = hint_deltas(&id, &session, "   ");
    assert_eq!(deltas.len(), 1);
    assert!(deltas[0].done);
    assert_eq!(deltas[0].delta, "");
}

#[test]
fn fresh_ids_are_hyphenated_uuids() {
    let id = fresh_uuid();
    assert_eq!(id.chars().count(), 36);
    assert_eq!(id.chars().filter(|c| *c == '-').count(), 4);
}
