//! Wire-event decoding for both recognition backends. The JSON text of a
//! provider frame is read into plain fields by trusted readers; every
//! decision about those fields — which message kinds matter, dropping
//! empty text, joining translation fragments, resolving sentence indexes —
//! is verified here. Unknown message kinds are ignored silently.
use vstd::prelude::*;

use crate::text::{dec_str, join_seq, join_strings, push_u64_dec, str_eq, trim_spec, trim_str};

verus! {

/// The two kinds of events a provider stream yields.
#[derive(Debug, Clone, Copy, PartialEq, Eq, Structural)]
pub enum AsrEventKind {
    Transcript,
    Translation,
}

/// One provider event, normalized across backends.
#[derive(Debug, Clone)]
pub struct AsrEvent {
    pub kind: AsrEventKind,
    pub text: String,
    pub is_final: bool,
    pub sentence_index: Option<i64>,
}

/// One recognition result of the secondary backend.
#[derive(Debug, Clone)]
pub struct DeepgramTranscript {
    pub text: String,
    pub is_final: bool,
}

/// One event of the primary backend.
#[derive(Debug, Clone)]
pub struct AliyunEvent {
    pub kind: AsrEventKind,
    pub text: String,
    pub is_final: bool,
    pub sentence_index: Option<i64>,
}

/// The plain fields of one secondary-backend frame, as they sit in its
/// JSON text; absent paths are `None`.
#[derive(Debug, Clone)]
pub struct DeepgramFrame {
    pub msg_type: Option<String>,
    pub transcript: Option<String>,
    pub is_final: Option<bool>,
}

/// What the JSON text of a secondary-backend frame holds; the fields are a
/// pure function of the text.
pub uninterp spec fn deepgram_frame_of(payload: Seq<char>) -> Option<DeepgramFrame>;

/// Relies on `serde_json::from_str` and `serde_json::Value::{get, as_str,
/// as_bool}` to read the type tag, the first alternative's transcript and
/// the final flag out of one frame.
#[verifier::external_body]
fn read_deepgram_frame(payload: &str) -> (r: Option<DeepgramFrame>)
    ensures
        r == deepgram_frame_of(payload@),
{
    let v: serde_json::Value = serde_json::from_str(payload).ok()?;
    let transcript = v
        .get("channel")
        .and_then(|c| c.get("alternatives"))
        .and_then(|a| a.get(0))
        .and_then(|a| a.get("transcript"))
        .and_then(|t| t.as_str())
        .map(|s| s.to_string());
    Some(DeepgramFrame {
        msg_type: v.get("type").and_then(|t| t.as_str()).map(|s| s.to_string()),
        transcript,
        is_final: v.get("is_final").and_then(|b| b.as_bool()),
    })
}

/// The final flag of a frame; an absent flag counts as not final.
pub open spec fn frame_final(flag: Option<bool>) -> bool {
    match flag {
        Some(b) => b,
        None => false,
    }
}

/// Exactly which transcript a secondary-backend frame yields: only frames
/// tagged `Results` count, and text that trims to nothing is dropped.
pub open spec fn spec_deepgram_decision(frame: DeepgramFrame, r: Option<DeepgramTranscript>) -> bool {
    if frame.msg_type matches Some(t) && t@ == "Results"@ {
        match frame.transcript {
            Some(raw) => {
                if trim_spec(raw@).len() == 0 {
                    r is None
                } else {
                    r matches Some(d) && d.text@ == trim_spec(raw@) && d.is_final == frame_final(
                        frame.is_final,
                    )
                }
            },
            None => r is None,
        }
    } else {
        r is None
    }
}

/// Decodes the fields of one secondary-backend frame.
pub fn transcript_from_frame(frame: &DeepgramFrame) -> (r: Option<DeepgramTranscript>)
    ensures
        spec_deepgram_decision(*frame, r),
{
    let is_results = match &frame.msg_type {
        Some(t) => str_eq(t.as_str(), "Results"),
        None => false,
    };
    if !is_results {
        return None;
    }
    let raw = match &frame.transcript {
        Some(raw) => raw,
        None => {
            return None;
        },
    };
    let text = trim_str(raw.as_str());
    if text.unicode_len() == 0 {
        assert(text@.len() == 0);
        return None;
    }
    let is_final = match frame.is_final {
        Some(b) => b,
        None => false,
    };
    Some(DeepgramTranscript { text, is_final })
}

/// Decodes one secondary-backend wire frame, tolerating unknown message
/// types and dropping empty normalized text.
pub fn parse_transcript_event(payload: &str) -> (r: Option<DeepgramTranscript>)
    ensures
        deepgram_frame_of(payload@) is None ==> r is None,
        deepgram_frame_of(payload@) matches Some(frame) ==> spec_deepgram_decision(frame, r),
{
    match read_deepgram_frame(payload) {
        Some(frame) => transcript_from_frame(&frame),
        None => None,
    }
}

/// One phrase fragment inside a primary-backend translation frame.
#[derive(Debug, Clone)]
pub struct TingwuFragment {
    pub index: Option<i64>,
    pub text: Option<String>,
}

/// The plain fields of one primary-backend frame: the header name, the
/// payload scalars, and the translation fragments when present.
#[derive(Debug, Clone)]
pub struct TingwuFrame {
    pub name: String,
    pub result: Option<String>,
    pub index: Option<i64>,
    pub partial: Option<bool>,
    pub fragments: Option<Vec<TingwuFragment>>,
}

/// What the JSON text of a primary-backend frame holds in its header name
/// and payload scalars; a pure function of the text.
pub uninterp spec fn tingwu_scalars_of(payload: Seq<char>) -> Option<TingwuFrame>;

/// What the JSON text of a primary-backend frame holds under
/// `payload.translate_result`; a pure function of the text.
pub uninterp spec fn tingwu_fragments_of(payload: Seq<char>) -> Option<Vec<TingwuFragment>>;

/// Relies on `serde_json::from_str` and `serde_json::Value::{get, as_str,
/// as_i64, as_bool}` to read the header name and payload scalars of one
/// frame; frames without a header name or payload are `None`.
#[verifier::external_body]
fn read_tingwu_scalars(payload: &str) -> (r: Option<TingwuFrame>)
    ensures
        r == tingwu_scalars_of(payload@),
{
    let v: serde_json::Value = serde_json::from_str(payload).ok()?;
    let name = v.get("header")?.get("name")?.as_str()?.to_string();
    let p = v.get("payload")?;
    Some(TingwuFrame {
        name,
        result: p.get("result").and_then(|x| x.as_str()).map(|s| s.to_string()),
        index: p.get("index").and_then(|x| x.as_i64()),
        partial: p.get("partial").and_then(|x| x.as_bool()),
        fragments: None,
    })
}

/// Relies on `serde_json::from_str` and `serde_json::Value::{get, as_array,
/// as_str, as_i64}` to read the translation fragment list of one frame.
#[verifier::external_body]
fn read_tingwu_fragments(payload: &str) -> (r: Option<Vec<TingwuFragment>>)
    ensures
        r == tingwu_fragments_of(payload@),
{
    let v: serde_json::Value = serde_json::from_str(payload).ok()?;
    let items = v.get("payload")?.get("translate_result")?.as_array()?;
    Some(
        items
            .iter()
            .map(
                |item| TingwuFragment {
                    index: item.get("index").and_then(|x| x.as_i64()),
                    text: item.get("text").and_then(|x| x.as_str()).map(|s| s.to_string()),
                },
            )
            .collect(),
    )
}

/// The header names that carry transcript text.
pub open spec fn is_transcript_name(name: Seq<char>) -> bool {
    name == "TranscriptionResultChanged"@ || name == "SentenceBegin"@ || name == "SentenceEnd"@
}

/// The trimmed, non-empty fragment texts, in order.
pub open spec fn frag_texts(frags: Seq<TingwuFragment>) -> Seq<Seq<char>>
    decreases frags.len(),
{
    if frags.len() == 0 {
        Seq::empty()
    } else {
        let rest = frag_texts(frags.drop_last());
        match frags.last().text {
            Some(t) => {
                if trim_spec(t@).len() > 0 {
                    rest.push(trim_spec(t@))
                } else {
                    rest
                }
            },
            None => rest,
        }
    }
}

/// The first sentence index present among the fragments, front to back.
pub open spec fn first_frag_index(frags: Seq<TingwuFragment>) -> Option<i64>
    decreases frags.len(),
{
    if frags.len() == 0 {
        None
    } else if frags[0].index is Some {
        frags[0].index
    } else {
        first_frag_index(frags.subrange(1, frags.len() as int))
    }
}

/// The sentence index of a translation event: the payload's own index
/// when present, else the first fragment index.
pub open spec fn resolved_index(top: Option<i64>, frags: Seq<TingwuFragment>) -> Option<i64> {
    if top is Some {
        top
    } else {
        first_frag_index(frags)
    }
}

/// The fragment sequence of a frame; an absent list is empty.
pub open spec fn frame_frags(frame: TingwuFrame) -> Seq<TingwuFragment> {
    match frame.fragments {
        Some(f) => f@,
        None => Seq::empty(),
    }
}

/// Exactly which events a primary-backend frame yields. Transcript-kind
/// names give one transcript event unless the text trims to nothing;
/// `ResultTranslated` joins its non-empty fragments with single spaces and
/// is dropped when none remain; every other name is ignored.
pub open spec fn spec_tingwu_decision(frame: TingwuFrame, r: Option<Vec<AliyunEvent>>) -> bool {
    if is_transcript_name(frame.name@) {
        let raw = match frame.result {
            Some(t) => t@,
            None => Seq::<char>::empty(),
        };
        if trim_spec(raw).len() == 0 {
            r is None
        } else {
            &&& r matches Some(v)
            &&& v@.len() == 1
            &&& v@[0].kind == AsrEventKind::Transcript
            &&& v@[0].text@ == trim_spec(raw)
            &&& v@[0].is_final == (frame.name@ == "SentenceEnd"@)
            &&& v@[0].sentence_index == frame.index
        }
    } else if frame.name@ == "ResultTranslated"@ {
        let texts = frag_texts(frame_frags(frame));
        if texts.len() == 0 {
            r is None
        } else {
            &&& r matches Some(v)
            &&& v@.len() == 1
            &&& v@[0].kind == AsrEventKind::Translation
            &&& v@[0].text@ == join_seq(texts, " "@)
            &&& v@[0].is_final == !frame_final(frame.partial)
            &&& v@[0].sentence_index == resolved_index(frame.index, frame_frags(frame))
        }
    } else {
        r is None
    }
}

/// Collects the trimmed, non-empty fragment texts.
fn collect_frag_texts(frags: &Vec<TingwuFragment>) -> (r: Vec<String>)
    ensures
        r.deep_view() == frag_texts(frags@),
{
    let mut out: Vec<String> = Vec::new();
    let mut i: usize = 0;
    proof {
        assert(frags@.subrange(0, 0) =~= Seq::<TingwuFragment>::empty());
        assert(out.deep_view() =~= frag_texts(frags@.subrange(0, 0)));
    }
    while i < frags.len()
        invariant
            i <= frags@.len(),
            out.deep_view() == frag_texts(frags@.subrange(0, i as int)),
        decreases frags@.len() - i,
    {
        let ghost prefix = frags@.subrange(0, i as int);
        let ghost next_prefix = frags@.subrange(0, i + 1);
        proof {
            assert(next_prefix.drop_last() =~= prefix);
            assert(next_prefix.last() == frags@[i as int]);
        }
        match &frags[i].text {
            Some(t) => {
                let trimmed = trim_str(t.as_str());
                if trimmed.unicode_len() > 0 {
                    let ghost dv = out.deep_view();
                    out.push(trimmed);
                    proof {
                        assert(out.deep_view() =~= dv.push(trim_spec(t@)));
                    }
                } else {
                    assert(trim_spec(t@).len() == 0);
                }
            },
            None => {},
        }
        i += 1;
    }
    proof {
        assert(frags@.subrange(0, frags@.len() as int) =~= frags@);
    }
    out
}

/// Finds the first sentence index among the fragments.
fn find_first_frag_index(frags: &Vec<TingwuFragment>) -> (r: Option<i64>)
    ensures
        r == first_frag_index(frags@),
{
    let mut i: usize = 0;
    proof {
        assert(frags@.subrange(0, frags@.len() as int) =~= frags@);
    }
    while i < frags.len()
        invariant
            i <= frags@.len(),
            first_frag_index(frags@) == first_frag_index(
                frags@.subrange(i as int, frags@.len() as int),
            ),
        decreases frags@.len() - i,
    {
        let ghost rest = frags@.subrange(i as int, frags@.len() as int);
        proof {
            assert(rest[0] == frags@[i as int]);
            assert(rest.subrange(1, rest.len() as int) =~= frags@.subrange(
                i + 1,
                frags@.len() as int,
            ));
        }
        match frags[i].index {
            Some(v) => {
                return Some(v);
            },
            None => {},
        }
        i += 1;
    }
    None
}

/// Decodes the fields of one primary-backend frame into its events.
pub fn events_from_tingwu_frame(frame: &TingwuFrame) -> (r: Option<Vec<AliyunEvent>>)
    ensures
        spec_tingwu_decision(*frame, r),
{
    let is_transcript = str_eq(frame.name.as_str(), "TranscriptionResultChanged") || str_eq(
        frame.name.as_str(),
        "SentenceBegin",
    ) || str_eq(frame.name.as_str(), "SentenceEnd");
    if is_transcript {
        let text = match &frame.result {
            Some(t) => trim_str(t.as_str()),
            None => {
                proof {
                    crate::text::lemma_trim_empty();
                }
                String::new()
            },
        };
        if text.unicode_len() == 0 {
            return None;
        }
        let is_final = str_eq(frame.name.as_str(), "SentenceEnd");
        let mut events: Vec<AliyunEvent> = Vec::new();
        events.push(
            AliyunEvent {
                kind: AsrEventKind::Transcript,
                text,
                is_final,
                sentence_index: frame.index,
            },
        );
        Some(events)
    } else if str_eq(frame.name.as_str(), "ResultTranslated") {
        let empty_frags: Vec<TingwuFragment> = Vec::new();
        let frags: &Vec<TingwuFragment> = match &frame.fragments {
            Some(f) => f,
            None => &empty_frags,
        };
        proof {
            assert(frags@ =~= frame_frags(*frame));
        }
        let texts = collect_frag_texts(frags);
        if texts.len() == 0 {
            proof {
                assert(texts.deep_view().len() == texts@.len());
            }
            return None;
        }
        let translated = join_strings(&texts, " ");
        let sentence_index = match frame.index {
            Some(v) => Some(v),
            None => find_first_frag_index(frags),
        };
        let partial = match frame.partial {
            Some(b) => b,
            None => false,
        };
        let mut events: Vec<AliyunEvent> = Vec::new();
        events.push(
            AliyunEvent {
                kind: AsrEventKind::Translation,
                text: translated,
                is_final: !partial,
                sentence_index,
            },
        );
        proof {
            assert(texts.deep_view().len() == texts@.len());
        }
        Some(events)
    } else {
        None
    }
}

/// Decodes one primary-backend wire frame, tolerating unknown message
/// types, dropping empty text, and joining translation fragments.
pub fn parse_event_payload(payload: &str) -> (r: Option<Vec<AliyunEvent>>)
    ensures
        tingwu_scalars_of(payload@) is None ==> r is None,
        tingwu_scalars_of(payload@) matches Some(scalars) ==> spec_tingwu_decision(
            TingwuFrame {
                fragments: tingwu_fragments_of(payload@),
                ..scalars
            },
            r,
        ),
{
    let scalars = match read_tingwu_scalars(payload) {
        Some(s) => s,
        None => {
            return None;
        },
    };
    let fragments = read_tingwu_fragments(payload);
    let frame = TingwuFrame {
        name: scalars.name,
        result: scalars.result,
        index: scalars.index,
        partial: scalars.partial,
        fragments,
    };
    events_from_tingwu_frame(&frame)
}

/// Normalizes a primary-backend event into the shared event shape.
pub fn bridge_aliyun_event(item: AliyunEvent) -> (r: AsrEvent)
    ensures
        r.kind == item.kind,
        r.text@ == item.text@,
        r.is_final == item.is_final,
        r.sentence_index == item.sentence_index,
{
    AsrEvent {
        kind: item.kind,
        text: item.text,
        is_final: item.is_final,
        sentence_index: item.sentence_index,
    }
}

/// Normalizes a secondary-backend transcript into the shared event shape;
/// the secondary backend supplies no sentence indexes.
pub fn bridge_deepgram_event(item: DeepgramTranscript) -> (r: AsrEvent)
    ensures
        r.kind == AsrEventKind::Transcript,
        r.text@ == item.text@,
        r.is_final == item.is_final,
        r.sentence_index is None,
{
    AsrEvent {
        kind: AsrEventKind::Transcript,
        text: item.text,
        is_final: item.is_final,
        sentence_index: None,
    }
}

/// The streaming endpoint URL of the secondary backend, with the
/// recognition parameters query-encoded.
pub open spec fn deepgram_live_url_seq(
    language: Seq<char>,
    sample_rate: nat,
    channels: nat,
) -> Seq<char> {
    "wss://api.deepgram.com/v1/listen?model=nova-2&language="@ + language
        + "&encoding=linear16&sample_rate="@ + dec_str(sample_rate) + "&channels="@ + dec_str(
        channels,
    ) + "&interim_results=true&punctuate=true"@
}

/// Builds the streaming endpoint URL of the secondary backend.
pub fn deepgram_live_url(language: &str, sample_rate: u32, channels: u16) -> (r: String)
    ensures
        r@ == deepgram_live_url_seq(language@, sample_rate as nat, channels as nat),
{
    let mut out = String::from_str("wss://api.deepgram.com/v1/listen?model=nova-2&language=");
    out.append(language);
    out.append("&encoding=linear16&sample_rate=");
    push_u64_dec(&mut out, sample_rate as u64);
    out.append("&channels=");
    push_u64_dec(&mut out, channels as u64);
    out.append("&interim_results=true&punctuate=true");
    out
}

/// The one close frame of the secondary backend.
pub fn deepgram_close_frame() -> (r: String)
    ensures
        r@ == "{\"type\":\"CloseStream\"}"@,
{
    String::from_str("{\"type\":\"CloseStream\"}")
}

} // verus!
