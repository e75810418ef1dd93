//! The primary backend's signed control-plane requests: canonicalized
//! headers and resource, the string-to-sign, HMAC-SHA1 signing with a
//! base64-encoded signature, a content checksum, and the JSON payloads of
//! the start/stop handshake. The hash, MAC and base64 primitives are
//! outside calls behind trusted items; everything assembled from them is
//! verified, including JSON string escaping.
use vstd::prelude::*;

use base64::Engine;
use hmac::{KeyInit, Mac};
use vstd::string::StringSliceAdditionalSpecFns;

use crate::text::{dec_str, join_seq, join_strings, push_char, push_u64_dec};

verus! {

/// What HMAC-SHA1 yields for a key and message; a 20-byte pure function
/// of both.
pub uninterp spec fn hmac_sha1_of(key: Seq<char>, message: Seq<char>) -> Seq<u8>;

/// What the MD5 digest of a byte sequence is; a 16-byte pure function.
pub uninterp spec fn md5_of(data: Seq<u8>) -> Seq<u8>;

/// What standard (padded) base64 encodes a byte sequence to; a pure
/// function of the bytes.
pub uninterp spec fn base64_of(data: Seq<u8>) -> Seq<char>;

/// Relies on `Hmac::<Sha1>::new_from_slice` (which accepts keys of any
/// length, so it returns a MAC for every input), `Mac::update` and
/// `Mac::finalize`: a 20-byte tag over the message.
#[verifier::external_body]
fn hmac_sha1(secret: &str, payload: &str) -> (r: Option<Vec<u8>>)
    ensures
        r is Some,
        r matches Some(d) ==> d@ == hmac_sha1_of(secret@, payload@) && d@.len() == 20,
{
    let mut mac = match hmac::Hmac::<sha1::Sha1>::new_from_slice(secret.as_bytes()) {
        Ok(mac) => mac,
        Err(_) => return None,
    };
    mac.update(payload.as_bytes());
    Some(mac.finalize().into_bytes().to_vec())
}

/// Relies on `md5::compute`: the 16-byte MD5 digest of the body's bytes.
#[verifier::external_body]
fn md5_digest(body: &str) -> (r: Vec<u8>)
    ensures
        r@ == md5_of(body.spec_bytes()),
        r@.len() == 16,
{
    md5::compute(body.as_bytes()).0.to_vec()
}

/// Relies on `base64::engine::general_purpose::STANDARD.encode`: standard
/// alphabet with padding, four output characters per three input bytes.
/// The length bound keeps the input away from the sizes on which the
/// engine cannot represent its output length.
#[verifier::external_body]
fn base64_encode(data: &Vec<u8>) -> (r: String)
    requires
        4 * ((data@.len() + 2) / 3) <= usize::MAX,
    ensures
        r@ == base64_of(data@),
        r@.len() == 4 * ((data@.len() + 2) / 3),
{
    base64::engine::general_purpose::STANDARD.encode(data)
}

/// Signs a payload: base64 of the HMAC-SHA1 tag under `secret`.
pub fn sign_hmac_sha1(secret: &str, payload: &str) -> (r: String)
    ensures
        r@ == base64_of(hmac_sha1_of(secret@, payload@)),
        r@.len() == 28,
{
    match hmac_sha1(secret, payload) {
        Some(digest) => base64_encode(&digest),
        None => unreached(),
    }
}

/// The base64-encoded MD5 checksum carried in the `content-md5` header.
pub fn content_md5(body: &str) -> (r: String)
    ensures
        r@ == base64_of(md5_of(body.spec_bytes())),
        r@.len() == 24,
{
    let digest = md5_digest(body);
    base64_encode(&digest)
}

/// The canonicalized header block: each pair as `key:value` followed by a
/// newline, in the given order (callers pass the pairs sorted by key).
pub open spec fn canon_headers_seq(headers: Seq<(String, String)>) -> Seq<char>
    decreases headers.len(),
{
    if headers.len() == 0 {
        Seq::empty()
    } else {
        canon_headers_seq(headers.drop_last()) + headers.last().0@ + seq![':'] + headers.last().1@
            + seq!['\n']
    }
}

/// Builds the canonicalized header block.
pub fn canonicalized_headers(headers: &Vec<(String, String)>) -> (r: String)
    ensures
        r@ == canon_headers_seq(headers@),
{
    let mut out = String::new();
    let mut i: usize = 0;
    proof {
        assert(headers@.subrange(0, 0) =~= Seq::<(String, String)>::empty());
        assert(out@ =~= canon_headers_seq(headers@.subrange(0, 0)));
    }
    while i < headers.len()
        invariant
            i <= headers@.len(),
            out@ == canon_headers_seq(headers@.subrange(0, i as int)),
        decreases headers@.len() - i,
    {
        proof {
            assert(headers@.subrange(0, i + 1).drop_last() =~= headers@.subrange(0, i as int));
            assert(headers@.subrange(0, i + 1).last() == headers@[i as int]);
        }
        out.append(headers[i].0.as_str());
        push_char(&mut out, ':');
        out.append(headers[i].1.as_str());
        push_char(&mut out, '\n');
        proof {
            assert(out@ =~= canon_headers_seq(headers@.subrange(0, i + 1)));
        }
        i += 1;
    }
    proof {
        assert(headers@.subrange(0, headers@.len() as int) =~= headers@);
    }
    out
}

/// The `key=value` text of one query pair.
pub open spec fn query_pair_seq(pair: (String, String)) -> Seq<char> {
    pair.0@ + seq!['='] + pair.1@
}

/// The query pairs as texts, in order.
pub open spec fn query_pairs(query: Seq<(String, String)>) -> Seq<Seq<char>>
    decreases query.len(),
{
    if query.len() == 0 {
        Seq::empty()
    } else {
        query_pairs(query.drop_last()).push(query_pair_seq(query.last()))
    }
}

/// The canonicalized resource: the path alone for an empty query, else the
/// path, `?`, and the pairs joined with `&`, in the given order (callers
/// pass the pairs sorted by key).
pub open spec fn canon_resource_seq(path: Seq<char>, query: Seq<(String, String)>) -> Seq<char> {
    if query.len() == 0 {
        path
    } else {
        path + seq!['?'] + join_seq(query_pairs(query), "&"@)
    }
}

/// Builds the canonicalized resource.
pub fn canonicalized_resource(path: &str, query: &Vec<(String, String)>) -> (r: String)
    ensures
        r@ == canon_resource_seq(path@, query@),
{
    if query.len() == 0 {
        return path.to_owned();
    }
    let mut parts: Vec<String> = Vec::new();
    let mut i: usize = 0;
    proof {
        assert(query@.subrange(0, 0) =~= Seq::<(String, String)>::empty());
        assert(parts.deep_view() =~= query_pairs(query@.subrange(0, 0)));
    }
    while i < query.len()
        invariant
            i <= query@.len(),
            parts.deep_view() == query_pairs(query@.subrange(0, i as int)),
        decreases query@.len() - i,
    {
        proof {
            assert(query@.subrange(0, i + 1).drop_last() =~= query@.subrange(0, i as int));
            assert(query@.subrange(0, i + 1).last() == query@[i as int]);
        }
        let mut part = query[i].0.clone();
        push_char(&mut part, '=');
        part.append(query[i].1.as_str());
        proof {
            assert(part@ =~= query_pair_seq(query@[i as int]));
        }
        let ghost dv = parts.deep_view();
        parts.push(part);
        proof {
            assert(parts.deep_view() =~= dv.push(query_pair_seq(query@[i as int])));
        }
        i += 1;
    }
    proof {
        assert(query@.subrange(0, query@.len() as int) =~= query@);
    }
    let joined = join_strings(&parts, "&");
    let mut out = path.to_owned();
    push_char(&mut out, '?');
    out.append(joined.as_str());
    out
}

/// The string that is signed: method, accept, content checksum, content
/// type and date, newline-separated, then the canonicalized headers and
/// resource.
pub open spec fn string_to_sign_seq(
    method: Seq<char>,
    accept: Seq<char>,
    content_md5: Seq<char>,
    content_type: Seq<char>,
    date: Seq<char>,
    canon_headers: Seq<char>,
    canon_resource: Seq<char>,
) -> Seq<char> {
    method + seq!['\n'] + accept + seq!['\n'] + content_md5 + seq!['\n'] + content_type
        + seq!['\n'] + date + seq!['\n'] + canon_headers + canon_resource
}

/// Builds the string to sign.
pub fn string_to_sign(
    method: &str,
    accept: &str,
    content_md5: &str,
    content_type: &str,
    date: &str,
    canon_headers: &str,
    canon_resource: &str,
) -> (r: String)
    ensures
        r@ == string_to_sign_seq(
            method@,
            accept@,
            content_md5@,
            content_type@,
            date@,
            canon_headers@,
            canon_resource@,
        ),
{
    let mut out = method.to_owned();
    push_char(&mut out, '\n');
    out.append(accept);
    push_char(&mut out, '\n');
    out.append(content_md5);
    push_char(&mut out, '\n');
    out.append(content_type);
    push_char(&mut out, '\n');
    out.append(date);
    push_char(&mut out, '\n');
    out.append(canon_headers);
    out.append(canon_resource);
    out
}

/// The authorization header value: `acs <key id>:<signature>`.
pub open spec fn authorization_seq(access_key_id: Seq<char>, signature: Seq<char>) -> Seq<char> {
    "acs "@ + access_key_id + seq![':'] + signature
}

/// Builds the authorization header value.
pub fn authorization_value(access_key_id: &str, signature: &str) -> (r: String)
    ensures
        r@ == authorization_seq(access_key_id@, signature@),
{
    let mut out = String::from_str("acs ");
    out.append(access_key_id);
    push_char(&mut out, ':');
    out.append(signature);
    out
}

/// The lowercase hexadecimal digit for `d`.
pub open spec fn hex_digit_char(d: nat) -> char {
    if d < 10 {
        ((48 + d) as u8) as char
    } else {
        ((87 + d) as u8) as char
    }
}

/// How one character appears inside a JSON string literal.
pub open spec fn json_escape_char(c: char) -> Seq<char> {
    if c == '"' {
        seq!['\\', '"']
    } else if c == '\\' {
        seq!['\\', '\\']
    } else if c == '\u{8}' {
        seq!['\\', 'b']
    } else if c == '\u{c}' {
        seq!['\\', 'f']
    } else if c == '\n' {
        seq!['\\', 'n']
    } else if c == '\r' {
        seq!['\\', 'r']
    } else if c == '\t' {
        seq!['\\', 't']
    } else if (c as nat) < 32 {
        seq!['\\', 'u', '0', '0', hex_digit_char((c as nat) / 16), hex_digit_char((c as nat) % 16)]
    } else {
        seq![c]
    }
}

/// The body of a JSON string literal for `s`.
pub open spec fn json_escaped(s: Seq<char>) -> Seq<char>
    decreases s.len(),
{
    if s.len() == 0 {
        Seq::empty()
    } else {
        json_escaped(s.drop_last()) + json_escape_char(s.last())
    }
}

/// The JSON string literal for `s`, quotes included.
pub open spec fn json_quoted(s: Seq<char>) -> Seq<char> {
    seq!['"'] + json_escaped(s) + seq!['"']
}

/// Appends the escaped body of a JSON string literal for `s`.
fn push_json_escaped(out: &mut String, s: &str)
    ensures
        final(out)@ == old(out)@ + json_escaped(s@),
{
    let len = s.unicode_len();
    let mut i: usize = 0;
    proof {
        assert(s@.subrange(0, 0) =~= Seq::<char>::empty());
        assert(out@ =~= out@ + json_escaped(s@.subrange(0, 0)));
    }
    while i < len
        invariant
            len == s@.len(),
            i <= len,
            out@ == old(out)@ + json_escaped(s@.subrange(0, i as int)),
        decreases len - i,
    {
        proof {
            assert(s@.subrange(0, i + 1).drop_last() =~= s@.subrange(0, i as int));
            assert(s@.subrange(0, i + 1).last() == s@[i as int]);
        }
        let c = s.get_char(i);
        if c == '"' {
            push_char(out, '\\');
            push_char(out, '"');
        } else if c == '\\' {
            push_char(out, '\\');
            push_char(out, '\\');
        } else if c == '\u{8}' {
            push_char(out, '\\');
            push_char(out, 'b');
        } else if c == '\u{c}' {
            push_char(out, '\\');
            push_char(out, 'f');
        } else if c == '\n' {
            push_char(out, '\\');
            push_char(out, 'n');
        } else if c == '\r' {
            push_char(out, '\\');
            push_char(out, 'r');
        } else if (c as u32) < 32 {
            push_char(out, '\\');
            if c == '\t' {
                push_char(out, 't');
            } else {
                push_char(out, 'u');
                push_char(out, '0');
                push_char(out, '0');
                let v = c as u32;
                let hi = (v / 16) as u8;
                let lo = (v % 16) as u8;
                push_char(out, (if hi < 10 { 48 + hi } else { 87 + hi }) as char);
                push_char(out, (if lo < 10 { 48 + lo } else { 87 + lo }) as char);
            }
        } else {
            push_char(out, c);
        }
        proof {
            assert(out@ =~= old(out)@ + json_escaped(s@.subrange(0, i + 1)));
        }
        i += 1;
    }
    proof {
        assert(s@.subrange(0, len as int) =~= s@);
    }
}

/// Appends the JSON string literal for `s`, quotes included.
fn push_json_quoted(out: &mut String, s: &str)
    ensures
        final(out)@ == old(out)@ + json_quoted(s@),
{
    push_char(out, '"');
    push_json_escaped(out, s);
    push_char(out, '"');
    proof {
        assert(out@ =~= old(out)@ + json_quoted(s@));
    }
}

/// The start-transcription frame sent over the audio socket once it is
/// open, keys in serialization order.
pub open spec fn start_transcription_payload_seq(
    app_key: Seq<char>,
    message_id: Seq<char>,
    task_id: Seq<char>,
    sample_rate: nat,
) -> Seq<char> {
    "{\"header\":{\"appkey\":"@ + json_quoted(app_key) + ",\"message_id\":"@ + json_quoted(
        message_id,
    ) + ",\"name\":\"StartTranscription\",\"namespace\":\"SpeechTranscriber\",\"task_id\":"@
        + json_quoted(task_id)
        + "},\"payload\":{\"enable_intermediate_result\":true,\"enable_inverse_text_normalization\":true,\"format\":\"pcm\",\"sample_rate\":"@
        + dec_str(sample_rate) + "}}"@
}

/// Builds the start-transcription frame. The message id is minted by the
/// caller, one per frame.
pub fn build_start_transcription_payload(
    app_key: &str,
    message_id: &str,
    task_id: &str,
    sample_rate: u32,
) -> (r: String)
    ensures
        r@ == start_transcription_payload_seq(
            app_key@,
            message_id@,
            task_id@,
            sample_rate as nat,
        ),
{
    let mut out = String::from_str("{\"header\":{\"appkey\":");
    push_json_quoted(&mut out, app_key);
    out.append(",\"message_id\":");
    push_json_quoted(&mut out, message_id);
    out.append(",\"name\":\"StartTranscription\",\"namespace\":\"SpeechTranscriber\",\"task_id\":");
    push_json_quoted(&mut out, task_id);
    out.append(
        "},\"payload\":{\"enable_intermediate_result\":true,\"enable_inverse_text_normalization\":true,\"format\":\"pcm\",\"sample_rate\":",
    );
    push_u64_dec(&mut out, sample_rate as u64);
    out.append("}}");
    out
}

/// The stop-transcription frame sent over the audio socket on close.
pub open spec fn stop_transcription_payload_seq(
    app_key: Seq<char>,
    message_id: Seq<char>,
    task_id: Seq<char>,
) -> Seq<char> {
    "{\"header\":{\"appkey\":"@ + json_quoted(app_key) + ",\"message_id\":"@ + json_quoted(
        message_id,
    ) + ",\"name\":\"StopTranscription\",\"namespace\":\"SpeechTranscriber\",\"task_id\":"@
        + json_quoted(task_id) + "},\"payload\":{}}"@
}

/// Builds the stop-transcription frame.
pub fn build_stop_transcription_payload(app_key: &str, message_id: &str, task_id: &str) -> (r:
    String)
    ensures
        r@ == stop_transcription_payload_seq(app_key@, message_id@, task_id@),
{
    let mut out = String::from_str("{\"header\":{\"appkey\":");
    push_json_quoted(&mut out, app_key);
    out.append(",\"message_id\":");
    push_json_quoted(&mut out, message_id);
    out.append(",\"name\":\"StopTranscription\",\"namespace\":\"SpeechTranscriber\",\"task_id\":");
    push_json_quoted(&mut out, task_id);
    out.append("},\"payload\":{}}");
    out
}

/// The create-task request body, keys in serialization order.
pub open spec fn create_task_body_seq(
    app_key: Seq<char>,
    source_language: Seq<char>,
    target_language: Seq<char>,
) -> Seq<char> {
    "{\"AppKey\":"@ + json_quoted(app_key) + ",\"SourceLanguage\":"@ + json_quoted(source_language)
        + ",\"TranscriptionEnabled\":true,\"TranslationEnabled\":true,\"TranslationLanguages\":["@
        + json_quoted(target_language) + "]}"@
}

/// Builds the create-task request body.
pub fn build_create_task_body(app_key: &str, source_language: &str, target_language: &str) -> (r:
    String)
    ensures
        r@ == create_task_body_seq(app_key@, source_language@, target_language@),
{
    let mut out = String::from_str("{\"AppKey\":");
    push_json_quoted(&mut out, app_key);
    out.append(",\"SourceLanguage\":");
    push_json_quoted(&mut out, source_language);
    out.append(",\"TranscriptionEnabled\":true,\"TranslationEnabled\":true,\"TranslationLanguages\":[");
    push_json_quoted(&mut out, target_language);
    out.append("]}");
    out
}

/// The stop-task request body.
pub open spec fn stop_task_body_seq(task_id: Seq<char>) -> Seq<char> {
    "{\"TaskId\":"@ + json_quoted(task_id) + "}"@
}

/// Builds the stop-task request body.
pub fn build_stop_task_body(task_id: &str) -> (r: String)
    ensures
        r@ == stop_task_body_seq(task_id@),
{
    let mut out = String::from_str("{\"TaskId\":");
    push_json_quoted(&mut out, task_id);
    out.append("}");
    out
}

/// The control-plane endpoint of the primary backend.
pub open spec fn roa_endpoint() -> Seq<char> {
    "https://tingwu.cn-beijing.aliyuncs.com"@
}

/// The fields of a create-task response, as they sit in its JSON text;
/// the data object may carry either casing of each key.
#[derive(Debug, Clone)]
pub struct CreateTaskFields {
    pub has_data: bool,
    pub task_id: Option<String>,
    pub meeting_join_url: Option<String>,
}

/// What the JSON text of a create-task response holds; a pure function of
/// the text, `None` when it is not JSON.
pub uninterp spec fn create_task_fields_of(body: Seq<char>) -> Option<CreateTaskFields>;

/// Relies on `serde_json::from_str` and `serde_json::Value::{get, as_str}`
/// to read the data object of one create-task response, either key casing.
#[verifier::external_body]
fn read_create_task_fields(body: &str) -> (r: Option<CreateTaskFields>)
    ensures
        r == create_task_fields_of(body@),
{
    let v: serde_json::Value = serde_json::from_str(body).ok()?;
    let data = v.get("Data").or_else(|| v.get("data"));
    Some(CreateTaskFields {
        has_data: data.is_some(),
        task_id: data
            .and_then(|d| d.get("TaskId").or_else(|| d.get("taskId")))
            .and_then(|x| x.as_str())
            .map(|s| s.to_string()),
        meeting_join_url: data
            .and_then(|d| d.get("MeetingJoinUrl").or_else(|| d.get("meetingJoinUrl")))
            .and_then(|x| x.as_str())
            .map(|s| s.to_string()),
    })
}

/// What a successful create-task handshake yields: the task identity for
/// the out-of-band stop call and the streaming endpoint URL.
#[derive(Debug, Clone)]
pub struct CreateTaskResult {
    pub task_id: String,
    pub meeting_join_url: String,
}

/// Exactly which result or error a create-task response yields.
pub open spec fn spec_create_task_decision(
    status_ok: bool,
    body: Seq<char>,
    fields: Option<CreateTaskFields>,
    r: Result<CreateTaskResult, String>,
) -> bool {
    if !status_ok {
        r matches Err(m) && m@ == "Aliyun CreateTask failed: "@ + body
    } else {
        match fields {
            None => r matches Err(m) && m@ == "failed to parse Aliyun CreateTask response"@,
            Some(f) => {
                if !f.has_data {
                    r matches Err(m) && m@ == "Aliyun CreateTask response missing Data field: "@
                        + body
                } else if f.task_id is None {
                    r matches Err(m) && m@ == "Aliyun CreateTask response missing TaskId: "@ + body
                } else if f.meeting_join_url is None {
                    r matches Err(m) && m@
                        == "Aliyun CreateTask response missing MeetingJoinUrl: "@ + body
                } else {
                    &&& r matches Ok(t)
                    &&& t.task_id@ == f.task_id.unwrap()@
                    &&& t.meeting_join_url@ == f.meeting_join_url.unwrap()@
                }
            },
        }
    }
}

/// Judges one create-task response: a failed status or a malformed body
/// is an error naming what was missing; a complete one yields the task.
pub fn create_task_outcome(status_ok: bool, body: &str) -> (r: Result<CreateTaskResult, String>)
    ensures
        spec_create_task_decision(status_ok, body@, create_task_fields_of(body@), r),
{
    if !status_ok {
        let mut m = String::from_str("Aliyun CreateTask failed: ");
        m.append(body);
        return Err(m);
    }
    let fields = match read_create_task_fields(body) {
        Some(f) => f,
        None => {
            return Err(String::from_str("failed to parse Aliyun CreateTask response"));
        },
    };
    if !fields.has_data {
        let mut m = String::from_str("Aliyun CreateTask response missing Data field: ");
        m.append(body);
        return Err(m);
    }
    let task_id = match fields.task_id {
        Some(id) => id,
        None => {
            let mut m = String::from_str("Aliyun CreateTask response missing TaskId: ");
            m.append(body);
            return Err(m);
        },
    };
    let meeting_join_url = match fields.meeting_join_url {
        Some(url) => url,
        None => {
            let mut m = String::from_str("Aliyun CreateTask response missing MeetingJoinUrl: ");
            m.append(body);
            return Err(m);
        },
    };
    Ok(CreateTaskResult { task_id, meeting_join_url })
}

/// Judges one stop-task response; the close path swallows the error, but
/// what it would say is still pinned down.
pub fn stop_task_outcome(status_ok: bool, body: &str) -> (r: Result<(), String>)
    ensures
        status_ok ==> r is Ok,
        !status_ok ==> (r matches Err(m) && m@ == "Aliyun stop task failed: "@ + body@),
{
    if status_ok {
        Ok(())
    } else {
        let mut m = String::from_str("Aliyun stop task failed: ");
        m.append(body);
        Err(m)
    }
}

/// The signature-scheme headers of one signed request, sorted by name, as
/// a canonicalized block.
pub open spec fn acs_headers_seq(nonce: Seq<char>) -> Seq<char> {
    "x-acs-signature-method"@ + seq![':'] + "HMAC-SHA1"@ + seq!['\n'] + "x-acs-signature-nonce"@
        + seq![':'] + nonce + seq!['\n'] + "x-acs-signature-version"@ + seq![':'] + "1.0"@
        + seq!['\n'] + "x-acs-version"@ + seq![':'] + "2023-09-30"@ + seq!['\n']
}

/// The string signed for one control-plane request.
pub open spec fn roa_string_to_sign(
    method: Seq<char>,
    path: Seq<char>,
    query: Seq<(String, String)>,
    body_md5: Seq<char>,
    date: Seq<char>,
    nonce: Seq<char>,
) -> Seq<char> {
    string_to_sign_seq(
        method,
        "application/json"@,
        body_md5,
        "application/json"@,
        date,
        acs_headers_seq(nonce),
        canon_resource_seq(path, query),
    )
}

/// One fully prepared signed control-plane request: everything the HTTP
/// edge needs to send it.
#[derive(Debug, Clone)]
pub struct SignedRoaRequest {
    pub method: String,
    pub url: String,
    pub headers: Vec<(String, String)>,
    pub body: String,
}

/// Prepares one signed control-plane request: computes the body checksum,
/// canonicalizes the signature-scheme headers and the resource, signs the
/// canonical string with the account secret, and lists every header the
/// request must carry. The date and the replay-resistant nonce are minted
/// by the caller.
pub fn prepare_signed_roa_request(
    access_key_id: &str,
    access_key_secret: &str,
    method: &str,
    path: &str,
    query: &Vec<(String, String)>,
    body: &str,
    date: &str,
    nonce: &str,
) -> (r: SignedRoaRequest)
    ensures
        r.method@ == method@,
        r.url@ == roa_endpoint() + canon_resource_seq(path@, query@),
        r.body@ == body@,
        r.headers@.len() == 9,
        r.headers@[0].0@ == "accept"@ && r.headers@[0].1@ == "application/json"@,
        r.headers@[1].0@ == "content-type"@ && r.headers@[1].1@ == "application/json"@,
        r.headers@[2].0@ == "content-md5"@ && r.headers@[2].1@ == base64_of(
            md5_of(body.spec_bytes()),
        ),
        r.headers@[3].0@ == "date"@ && r.headers@[3].1@ == date@,
        r.headers@[4].0@ == "authorization"@ && r.headers@[4].1@ == authorization_seq(
            access_key_id@,
            base64_of(
                hmac_sha1_of(
                    access_key_secret@,
                    roa_string_to_sign(
                        method@,
                        path@,
                        query@,
                        base64_of(md5_of(body.spec_bytes())),
                        date@,
                        nonce@,
                    ),
                ),
            ),
        ),
        r.headers@[5].0@ == "x-acs-signature-method"@ && r.headers@[5].1@ == "HMAC-SHA1"@,
        r.headers@[6].0@ == "x-acs-signature-nonce"@ && r.headers@[6].1@ == nonce@,
        r.headers@[7].0@ == "x-acs-signature-version"@ && r.headers@[7].1@ == "1.0"@,
        r.headers@[8].0@ == "x-acs-version"@ && r.headers@[8].1@ == "2023-09-30"@,
{
    let mut acs_headers: Vec<(String, String)> = Vec::new();
    acs_headers.push(
        (String::from_str("x-acs-signature-method"), String::from_str("HMAC-SHA1")),
    );
    acs_headers.push((String::from_str("x-acs-signature-nonce"), nonce.to_owned()));
    acs_headers.push((String::from_str("x-acs-signature-version"), String::from_str("1.0")));
    acs_headers.push((String::from_str("x-acs-version"), String::from_str("2023-09-30")));

    let canon_headers = canonicalized_headers(&acs_headers);
    proof {
        reveal_with_fuel(canon_headers_seq, 5);
        let hs = acs_headers@;
        assert(hs.drop_last().drop_last().drop_last().drop_last() =~= Seq::<(
            String,
            String,
        )>::empty());
        assert(canon_headers@ =~= acs_headers_seq(nonce@));
    }
    let canon_resource = canonicalized_resource(path, query);
    let body_md5 = content_md5(body);
    let to_sign = string_to_sign(
        method,
        "application/json",
        body_md5.as_str(),
        "application/json",
        date,
        canon_headers.as_str(),
        canon_resource.as_str(),
    );
    let signature = sign_hmac_sha1(access_key_secret, to_sign.as_str());
    let authorization = authorization_value(access_key_id, signature.as_str());

    let mut url = String::from_str("https://tingwu.cn-beijing.aliyuncs.com");
    url.append(canon_resource.as_str());

    let mut headers: Vec<(String, String)> = Vec::new();
    headers.push((String::from_str("accept"), String::from_str("application/json")));
    headers.push((String::from_str("content-type"), String::from_str("application/json")));
    headers.push((String::from_str("content-md5"), body_md5));
    headers.push((String::from_str("date"), date.to_owned()));
    headers.push((String::from_str("authorization"), authorization));
    headers.push(
        (String::from_str("x-acs-signature-method"), String::from_str("HMAC-SHA1")),
    );
    headers.push((String::from_str("x-acs-signature-nonce"), nonce.to_owned()));
    headers.push((String::from_str("x-acs-signature-version"), String::from_str("1.0")));
    headers.push((String::from_str("x-acs-version"), String::from_str("2023-09-30")));

    SignedRoaRequest { method: method.to_owned(), url, headers, body: body.to_owned() }
}

} // verus!
