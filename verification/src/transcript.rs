//! Transcript/translation processing: mints stable identities for
//! recognized utterances, correlates translation events to their source
//! transcript through the provider's sentence index, and decides when
//! finalization work (LLM translation, hint generation) is owed.
//!
//! Identities are random outside this module: each call takes the fresh
//! ids it may need as arguments, so every correlation rule here holds for
//! whatever ids are supplied.
use vstd::prelude::*;

use crate::models::{AsrProvider, SegmentSource, SpeakerRole, TranscriptSegmentEvent,
    TranslationSegmentEvent, TranslationSource};
use crate::wire::{AsrEvent, AsrEventKind};

verus! {

/// The sentence-index map as a mathematical map, later entries winning.
pub open spec fn entries_map(s: Seq<(i64, String)>) -> Map<int, Seq<char>>
    decreases s.len(),
{
    if s.len() == 0 {
        Map::empty()
    } else {
        entries_map(s.drop_last()).insert(s.last().0 as int, s.last().1@)
    }
}

/// Maps provider-assigned sentence indexes to locally minted transcript
/// ids. Inserting an index again replaces its id, as the event stream
/// revises utterances.
#[derive(Debug)]
pub struct SentenceMap {
    entries: Vec<(i64, String)>,
}

impl View for SentenceMap {
    type V = Map<int, Seq<char>>;

    closed spec fn view(&self) -> Map<int, Seq<char>> {
        entries_map(self.entries@)
    }
}

impl SentenceMap {
    /// An empty map.
    pub fn new() -> (r: Self)
        ensures
            r@ == Map::<int, Seq<char>>::empty(),
    {
        let entries: Vec<(i64, String)> = Vec::new();
        SentenceMap { entries }
    }

    /// Binds `index` to `transcript_id`, replacing any earlier binding.
    pub fn insert(&mut self, index: i64, transcript_id: String)
        ensures
            final(self)@ == old(self)@.insert(index as int, transcript_id@),
    {
        let ghost before = self.entries@;
        self.entries.push((index, transcript_id));
        proof {
            assert(self.entries@.drop_last() =~= before);
        }
    }

    /// Looks up the transcript id bound to `index`.
    pub fn get(&self, index: i64) -> (r: Option<&String>)
        ensures
            self@.contains_key(index as int) ==> (r matches Some(id) && id@ == self@[index as int]),
            !self@.contains_key(index as int) ==> r is None,
    {
        let mut found: Option<&String> = None;
        let mut i: usize = 0;
        proof {
            assert(self.entries@.subrange(0, 0) =~= Seq::<(i64, String)>::empty());
        }
        while i < self.entries.len()
            invariant
                i <= self.entries@.len(),
                found is None ==> !entries_map(self.entries@.subrange(0, i as int)).contains_key(
                    index as int,
                ),
                found matches Some(id) ==> entries_map(
                    self.entries@.subrange(0, i as int),
                ).contains_key(index as int) && entries_map(self.entries@.subrange(0, i as int))[
                    index as int] == id@,
            decreases self.entries@.len() - i,
        {
            proof {
                assert(self.entries@.subrange(0, i + 1).drop_last() =~= self.entries@.subrange(
                    0,
                    i as int,
                ));
                assert(self.entries@.subrange(0, i + 1).last() == self.entries@[i as int]);
            }
            if self.entries[i].0 == index {
                found = Some(&self.entries[i].1);
            }
            i += 1;
        }
        proof {
            assert(self.entries@.subrange(0, self.entries@.len() as int) =~= self.entries@);
        }
        found
    }
}

/// Correlation state of one session's event stream.
#[derive(Debug)]
pub struct TranscriptProcessor {
    pub sentence_map: SentenceMap,
    pub latest_transcript_id: Option<String>,
}

/// The transcript id a translation event is attributed to: the id bound to
/// its sentence index when one is bound, else the most recently minted
/// transcript id, else a fresh synthetic id (a best-effort fallback that
/// will match no real transcript).
pub open spec fn resolve_translation_id(
    map: Map<int, Seq<char>>,
    latest: Option<Seq<char>>,
    sentence_index: Option<i64>,
    synthetic: Seq<char>,
) -> Seq<char> {
    let by_index = match sentence_index {
        Some(i) => if map.contains_key(i as int) {
            Some(map[i as int])
        } else {
            None
        },
        None => None,
    };
    match by_index {
        Some(id) => id,
        None => match latest {
            Some(l) => l,
            None => synthetic,
        },
    }
}

/// What processing one provider event produced.
#[derive(Debug)]
pub enum ProcessedEvent {
    /// Emit this transcript segment; `finalize` says whether finalization
    /// work is owed for it.
    Transcript { event: TranscriptSegmentEvent, finalize: bool },
    /// Emit this translation segment.
    Translation { event: TranslationSegmentEvent },
}

impl TranscriptProcessor {
    /// A processor that has seen nothing.
    pub fn new() -> (r: Self)
        ensures
            r.sentence_map@ == Map::<int, Seq<char>>::empty(),
            r.latest_transcript_id is None,
    {
        TranscriptProcessor { sentence_map: SentenceMap::new(), latest_transcript_id: None }
    }

    /// Processes one provider event.
    ///
    /// A transcript event mints `fresh_id` as the utterance's identity,
    /// binds the provider's sentence index to it when one is carried, and
    /// owes finalization exactly for final utterances when an LLM is
    /// configured. A translation event is attributed per
    /// `resolve_translation_id`, using `extra_id` as the synthetic
    /// fallback, and leaves the correlation state unchanged.
    pub fn process_event(
        &mut self,
        item: AsrEvent,
        fresh_id: String,
        extra_id: String,
        session_id: &String,
        provider: AsrProvider,
        timestamp_ms: i64,
        llm_available: bool,
    ) -> (r: ProcessedEvent)
        ensures
            item.kind == AsrEventKind::Transcript ==> ({
                &&& r matches ProcessedEvent::Transcript { event, finalize }
                &&& event.id@ == fresh_id@
                &&& event.session_id@ == session_id@
                &&& event.speaker == SpeakerRole::Me
                &&& event.text@ == item.text@
                &&& event.is_final == item.is_final
                &&& event.timestamp_ms == timestamp_ms
                &&& event.provider == provider
                &&& event.source == SegmentSource::Microphone
                &&& finalize == (item.is_final && llm_available)
                &&& final(self).sentence_map@ == (match item.sentence_index {
                    Some(i) => old(self).sentence_map@.insert(i as int, fresh_id@),
                    None => old(self).sentence_map@,
                })
                &&& final(self).latest_transcript_id matches Some(l) && l@ == fresh_id@
            }),
            item.kind == AsrEventKind::Translation ==> ({
                &&& r matches ProcessedEvent::Translation { event }
                &&& event.id@ == fresh_id@
                &&& event.transcript_id@ == resolve_translation_id(
                    old(self).sentence_map@,
                    match old(self).latest_transcript_id {
                        Some(l) => Some(l@),
                        None => None,
                    },
                    item.sentence_index,
                    extra_id@,
                )
                &&& event.text@ == item.text@
                &&& event.is_final == item.is_final
                &&& event.timestamp_ms == timestamp_ms
                &&& event.provider == provider
                &&& event.source == TranslationSource::Asr
                &&& final(self).sentence_map@ == old(self).sentence_map@
                &&& final(self).latest_transcript_id == old(self).latest_transcript_id
            }),
    {
        match item.kind {
            AsrEventKind::Transcript => {
                if let Some(index) = item.sentence_index {
                    self.sentence_map.insert(index, fresh_id.clone());
                }
                self.latest_transcript_id = Some(fresh_id.clone());
                let event = TranscriptSegmentEvent {
                    id: fresh_id,
                    session_id: session_id.clone(),
                    speaker: SpeakerRole::Me,
                    text: item.text,
                    is_final: item.is_final,
                    timestamp_ms,
                    provider,
                    source: SegmentSource::Microphone,
                };
                ProcessedEvent::Transcript { event, finalize: item.is_final && llm_available }
            },
            AsrEventKind::Translation => {
                let transcript_id: String = {
                    let by_index = match item.sentence_index {
                        Some(index) => {
                            match self.sentence_map.get(index) {
                                Some(id) => Some(id.clone()),
                                None => None,
                            }
                        },
                        None => None,
                    };
                    match by_index {
                        Some(id) => id,
                        None => {
                            match &self.latest_transcript_id {
                                Some(l) => l.clone(),
                                None => extra_id,
                            }
                        },
                    }
                };
                let event = TranslationSegmentEvent {
                    id: fresh_id,
                    transcript_id,
                    text: item.text,
                    is_final: item.is_final,
                    timestamp_ms,
                    provider,
                    source: TranslationSource::Asr,
                };
                ProcessedEvent::Translation { event }
            },
        }
    }
}

/// Sentence correlation: a translation whose sentence index was bound by
/// an earlier transcript resolves to exactly that transcript's id; and a
/// translation with no index arriving before any transcript resolves to
/// the synthetic id — there is always an answer, never a failure.
pub proof fn lemma_sentence_correlation(
    map: Map<int, Seq<char>>,
    index: i64,
    transcript_id: Seq<char>,
    latest: Option<Seq<char>>,
    synthetic: Seq<char>,
)
    ensures
        resolve_translation_id(
            map.insert(index as int, transcript_id),
            Some(transcript_id),
            Some(index),
            synthetic,
        ) == transcript_id,
        resolve_translation_id(Map::empty(), None, None, synthetic) == synthetic,
{
}

/// Finalization policy for a final transcript: LLM translation is invoked
/// only on the secondary provider (the primary supplies its own
/// translation stream); hint generation is owed exactly for question-like
/// text.
pub struct FinalizationPlan {
    pub translate: bool,
    pub question: bool,
}

/// Decides the finalization work owed for one final transcript text.
pub fn finalization_plan(provider: AsrProvider, text: &str) -> (r: FinalizationPlan)
    ensures
        r.translate == (provider == AsrProvider::Deepgram),
        r.question == crate::llm::spec_looks_like_question(text@),
{
    FinalizationPlan {
        translate: provider == AsrProvider::Deepgram,
        question: crate::llm::looks_like_question(text),
    }
}

/// Builds the translation segment for a successful LLM translation of a
/// final transcript.
pub fn llm_translation_event(
    fresh_id: String,
    transcript_id: &String,
    translation: String,
    timestamp_ms: i64,
    provider: AsrProvider,
) -> (r: TranslationSegmentEvent)
    ensures
        r.id@ == fresh_id@,
        r.transcript_id@ == transcript_id@,
        r.text@ == translation@,
        r.is_final,
        r.timestamp_ms == timestamp_ms,
        r.provider == provider,
        r.source == TranslationSource::Llm,
{
    TranslationSegmentEvent {
        id: fresh_id,
        transcript_id: transcript_id.clone(),
        text: translation,
        is_final: true,
        timestamp_ms,
        provider,
        source: TranslationSource::Llm,
    }
}

} // verus!
