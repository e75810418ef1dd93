use meeting_session::signing::{
    authorization_value, build_create_task_body, build_start_transcription_payload,
    build_stop_task_body, build_stop_transcription_payload, canonicalized_headers,
    canonicalized_resource, content_md5, create_task_outcome, prepare_signed_roa_request,
    sign_hmac_sha1, stop_task_outcome, string_to_sign,
};

#[test]
fn hmac_sha1_base64_matches_the_known_vector() {
    // RFC 2202 test case 2, base64-encoded.
    let signature = sign_hmac_sha1("key", "The quick brown fox jumps over the lazy dog");
    assert_eq!(signature, "3nybhbi3iqa8ino29wqQcBydtNk=");
}

#[test]
fn content_md5_matches_the_known_vectors() {
    // base64(md5("")) and base64(md5("hello"))
    assert_eq!(content_md5(""), "1B2M2Y8AsgTpgAmY7PhCfg==");
    assert_eq!(content_md5("hello"), "XUFAKrxLKna5cZ2REBfFkg==");
}

#[test]
fn canonicalized_headers_join_sorted_pairs() {
    let headers = vec![
        ("x-acs-signature-method".to_string(), "HMAC-SHA1".to_string()),
        ("x-acs-version".to_string(), "2023-09-30".to_string()),
    ];
    assert_eq!(
        canonicalized_headers(&headers),
        "x-acs-signature-method:HMAC-SHA1\nx-acs-version:2023-09-30\n"
    );
}

#[test]
fn canonicalized_resource_appends_the_query() {
    let path = "/openapi/tingwu/v2/tasks";
    assert_eq!(canonicalized_resource(path, &Vec::new()), path);
    let query = vec![
        ("operation".to_string(), "stop".to_string()),
        ("type".to_string(), "realtime".to_string()),
    ];
    assert_eq!(
        canonicalized_resource(path, &query),
        "/openapi/tingwu/v2/tasks?operation=stop&type=realtime"
    );
}

#[test]
fn string_to_sign_is_newline_separated() {
    let value = string_to_sign("PUT", "a", "md5", "ct", "date", "h:v\n", "/path");
    assert_eq!(value, "PUT\na\nmd5\nct\ndate\nh:v\n/path");
}

#[test]
fn authorization_names_the_key_id() {
    assert_eq!(authorization_value("AKID", "SIG="), "acs AKID:SIG=");
}

#[test]
fn signed_request_carries_every_header() {
    let query = vec![("type".to_string(), "realtime".to_string())];
    let body = "{\"TaskId\":\"t\"}";
    let request = prepare_signed_roa_request(
        "AKID",
        "SECRET-REDACTED",
        "PUT",
        "/openapi/tingwu/v2/tasks",
        &query,
        body,
        "Mon, 01 Jan 2024 00:00:00 GMT",
        "nonce-1234",
    );
    assert_eq!(request.method, "PUT");
    assert_eq!(
        request.url,
        "https://tingwu.cn-beijing.aliyuncs.com/openapi/tingwu/v2/tasks?type=realtime"
    );
    assert_eq!(request.body, body);
    assert_eq!(request.headers.len(), 9);
    assert_eq!(request.headers[0], ("accept".to_string(), "application/json".to_string()));
    assert_eq!(request.headers[1].0, "content-type");
    assert_eq!(request.headers[2], ("content-md5".to_string(), content_md5(body)));
    assert_eq!(request.headers[3].1, "Mon, 01 Jan 2024 00:00:00 GMT");
    assert_eq!(request.headers[5], ("x-acs-signature-method".to_string(), "HMAC-SHA1".to_string()));
    assert_eq!(request.headers[6].1, "nonce-1234");
    assert_eq!(request.headers[7].1, "1.0");
    assert_eq!(request.headers[8], ("x-acs-version".to_string(), "2023-09-30".to_string()));

    // The authorization signature signs exactly the canonical string.
    let expected_to_sign = string_to_sign(
        "PUT",
        "application/json",
        content_md5(body).as_str(),
        "application/json",
        "Mon, 01 Jan 2024 00:00:00 GMT",
        "x-acs-signature-method:HMAC-SHA1\nx-acs-signature-nonce:nonce-1234\nx-acs-signature-version:1.0\nx-acs-version:2023-09-30\n",
        "/openapi/tingwu/v2/tasks?type=realtime",
    );
    let expected_signature = sign_hmac_sha1("SECRET-REDACTED", expected_to_sign.as_str());
    assert_eq!(request.headers[4].0, "authorization");
    assert_eq!(request.headers[4].1, format!("acs AKID:{expected_signature}"));
}

#[test]
fn start_transcription_payload_is_exact_json() {
    let payload = build_start_transcription_payload("app", "mid", "tid", 16000);
    assert_eq!(
        payload,
        "{\"header\":{\"appkey\":\"app\",\"message_id\":\"mid\",\"name\":\"StartTranscription\",\"namespace\":\"SpeechTranscriber\",\"task_id\":\"tid\"},\"payload\":{\"enable_intermediate_result\":true,\"enable_inverse_text_normalization\":true,\"format\":\"pcm\",\"sample_rate\":16000}}"
    );
}

#[test]
fn stop_transcription_payload_is_exact_json() {
    let payload = build_stop_transcription_payload("app", "mid", "tid");
    assert_eq!(
        payload,
        "{\"header\":{\"appkey\":\"app\",\"message_id\":\"mid\",\"name\":\"StopTranscription\",\"namespace\":\"SpeechTranscriber\",\"task_id\":\"tid\"},\"payload\":{}}"
    );
}

#[test]
fn json_strings_are_escaped() {
    let payload = build_stop_task_body("quote\" slash\\ newline\n tab\t bell\u{7}");
    assert_eq!(
        payload,
        "{\"TaskId\":\"quote\\\" slash\\\\ newline\\n tab\\t bell\\u0007\"}"
    );
}

#[test]
fn create_task_body_is_exact_json() {
    let body = build_create_task_body("app", "en", "zh");
    assert_eq!(
        body,
        "{\"AppKey\":\"app\",\"SourceLanguage\":\"en\",\"TranscriptionEnabled\":true,\"TranslationEnabled\":true,\"TranslationLanguages\":[\"zh\"]}"
    );
}

#[test]
fn create_task_outcome_judges_each_shape() {
    let ok_body = "{\"Data\":{\"TaskId\":\"t1\",\"MeetingJoinUrl\":\"wss://x\"}}";
    let task = create_task_outcome(true, ok_body).unwrap();
    assert_eq!(task.task_id, "t1");
    assert_eq!(task.meeting_join_url, "wss://x");

    let lower = "{\"data\":{\"taskId\":\"t2\",\"meetingJoinUrl\":\"wss://y\"}}";
    let task = create_task_outcome(true, lower).unwrap();
    assert_eq!(task.task_id, "t2");

    assert_eq!(
        create_task_outcome(false, "denied").unwrap_err(),
        "Aliyun CreateTask failed: denied"
    );
    assert_eq!(
        create_task_outcome(true, "not json").unwrap_err(),
        "failed to parse Aliyun CreateTask response"
    );
    assert_eq!(
        create_task_outcome(true, "{}").unwrap_err(),
        "Aliyun CreateTask response missing Data field: {}"
    );
    assert_eq!(
        create_task_outcome(true, "{\"Data\":{}}").unwrap_err(),
        "Aliyun CreateTask response missing TaskId: {\"Data\":{}}"
    );
    assert_eq!(
        create_task_outcome(true, "{\"Data\":{\"TaskId\":\"t\"}}").unwrap_err(),
        "Aliyun CreateTask response missing MeetingJoinUrl: {\"Data\":{\"TaskId\":\"t\"}}"
    );
}

#[test]
fn stop_task_outcome_wraps_the_body() {
    assert!(stop_task_outcome(true, "ignored").is_ok());
    assert_eq!(
        stop_task_outcome(false, "busy").unwrap_err(),
        "Aliyun stop task failed: busy"
    );
}
