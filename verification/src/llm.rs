//! LLM support logic: the question heuristic that triggers hint
//! generation, the exact prompts of the translate and suggest-answer
//! operations, endpoint construction, and the assembly of completion text
//! from response parts. The HTTP calls themselves are outside work.
use vstd::prelude::*;

use crate::text::{ascii_lower, contains_seq, contains_str, join_seq, lower_seq, trim_spec,
    trim_str};

verus! {

/// Text counts as question-like when it contains `?` or, case-insensitively,
/// any of: "what", "why", "how", "could you", "would you".
pub open spec fn spec_looks_like_question(text: Seq<char>) -> bool {
    let low = lower_seq(text);
    contains_seq(low, "?"@) || contains_seq(low, "what"@) || contains_seq(low, "why"@)
        || contains_seq(low, "how"@) || contains_seq(low, "could you"@) || contains_seq(
        low,
        "would you"@,
    )
}

/// The fixed heuristic deciding whether a finalized utterance deserves an
/// answer hint.
pub fn looks_like_question(text: &str) -> (r: bool)
    ensures
        r == spec_looks_like_question(text@),
{
    let low = ascii_lower(text);
    contains_str(low.as_str(), "?") || contains_str(low.as_str(), "what") || contains_str(
        low.as_str(),
        "why",
    ) || contains_str(low.as_str(), "how") || contains_str(low.as_str(), "could you")
        || contains_str(low.as_str(), "would you")
}

/// A system/user prompt pair for one LLM call.
#[derive(Debug, Clone)]
pub struct LlmPrompt {
    pub system: String,
    pub user: String,
}

/// The system prompt of the translate operation.
pub open spec fn translate_system_prompt() -> Seq<char> {
    "You are a real-time translator. Translate English speech into concise and natural Simplified Chinese. Keep original meaning and tone."@
}

/// The user prompt of the translate operation for a source text.
pub open spec fn translate_user_prompt(source_text: Seq<char>) -> Seq<char> {
    "Translate this into Chinese only:\n\n"@ + source_text
}

/// Builds the prompt pair of the translate operation.
pub fn translate_prompt(source_text: &str) -> (r: LlmPrompt)
    ensures
        r.system@ == translate_system_prompt(),
        r.user@ == translate_user_prompt(source_text@),
{
    let mut user = String::from_str("Translate this into Chinese only:\n\n");
    user.append(source_text);
    LlmPrompt {
        system: String::from_str(
            "You are a real-time translator. Translate English speech into concise and natural Simplified Chinese. Keep original meaning and tone.",
        ),
        user,
    }
}

/// The system prompt of the suggest-answer operation.
pub open spec fn suggest_system_prompt() -> Seq<char> {
    "You generate concise answer hints for live meetings. Reply in Chinese Markdown bullets with practical speaking suggestions."@
}

/// The user prompt of the suggest-answer operation for a profile context
/// and a detected question.
pub open spec fn suggest_user_prompt(profile_context: Seq<char>, question: Seq<char>) -> Seq<char> {
    "Meeting context:\n"@ + profile_context + "\n\nDetected question:\n"@ + question
        + "\n\nProvide a concise answer suggestion."@
}

/// Builds the prompt pair of the suggest-answer operation.
pub fn suggest_answer_prompt(profile_context: &str, question: &str) -> (r: LlmPrompt)
    ensures
        r.system@ == suggest_system_prompt(),
        r.user@ == suggest_user_prompt(profile_context@, question@),
{
    let mut user = String::from_str("Meeting context:\n");
    user.append(profile_context);
    user.append("\n\nDetected question:\n");
    user.append(question);
    user.append("\n\nProvide a concise answer suggestion.");
    LlmPrompt {
        system: String::from_str(
            "You generate concise answer hints for live meetings. Reply in Chinese Markdown bullets with practical speaking suggestions.",
        ),
        user,
    }
}

/// Which stored credential serves each LLM vendor choice.
pub fn llm_key_provider(kind: crate::models::LlmProviderKind) -> (r: crate::models::ProviderKind)
    ensures
        r == (match kind {
            crate::models::LlmProviderKind::Anthropic => crate::models::ProviderKind::Anthropic,
            crate::models::LlmProviderKind::Openai => crate::models::ProviderKind::Openai,
            crate::models::LlmProviderKind::Custom => crate::models::ProviderKind::CustomLlm,
        }),
{
    match kind {
        crate::models::LlmProviderKind::Anthropic => crate::models::ProviderKind::Anthropic,
        crate::models::LlmProviderKind::Openai => crate::models::ProviderKind::Openai,
        crate::models::LlmProviderKind::Custom => crate::models::ProviderKind::CustomLlm,
    }
}

/// Whether the configured vendor speaks the Anthropic wire format.
pub fn llm_uses_anthropic_format(
    kind: crate::models::LlmProviderKind,
    api_format: crate::models::LlmApiFormat,
) -> (r: bool)
    ensures
        r == (kind == crate::models::LlmProviderKind::Anthropic || (kind
            == crate::models::LlmProviderKind::Custom && api_format
            == crate::models::LlmApiFormat::Anthropic)),
{
    match kind {
        crate::models::LlmProviderKind::Anthropic => true,
        crate::models::LlmProviderKind::Openai => false,
        crate::models::LlmProviderKind::Custom => api_format
            == crate::models::LlmApiFormat::Anthropic,
    }
}

/// Exactly which settings or error a save-settings request yields: an
/// empty trimmed model is rejected, a custom vendor needs a non-empty
/// base URL, and the stored fields are the trimmed inputs.
pub open spec fn spec_llm_settings_decision(
    input: crate::models::SaveLlmSettingsInput,
    r: Result<crate::models::LlmSettings, String>,
) -> bool {
    let base = match input.base_url {
        Some(u) => u@,
        None => Seq::<char>::empty(),
    };
    if trim_spec(input.model@).len() == 0 {
        r matches Err(m) && m@ == "llm model cannot be empty"@
    } else if input.provider == crate::models::LlmProviderKind::Custom && trim_spec(base).len()
        == 0 {
        r matches Err(m) && m@ == "custom llm baseUrl is required"@
    } else {
        &&& r matches Ok(s)
        &&& s.provider == input.provider
        &&& s.model@ == trim_spec(input.model@)
        &&& s.base_url is Some == input.base_url is Some
        &&& (s.base_url matches Some(u) ==> u@ == trim_spec(base))
        &&& s.api_format == input.api_format
    }
}

/// Validates and normalizes one save-settings request.
pub fn validated_llm_settings(input: &crate::models::SaveLlmSettingsInput) -> (r: Result<
    crate::models::LlmSettings,
    String,
>)
    ensures
        spec_llm_settings_decision(*input, r),
{
    let model = trim_str(input.model.as_str());
    if model.unicode_len() == 0 {
        return Err(String::from_str("llm model cannot be empty"));
    }
    let base_trimmed = match &input.base_url {
        Some(u) => trim_str(u.as_str()),
        None => {
            proof {
                crate::text::lemma_trim_empty();
            }
            String::new()
        },
    };
    if input.provider == crate::models::LlmProviderKind::Custom && base_trimmed.unicode_len()
        == 0 {
        return Err(String::from_str("custom llm baseUrl is required"));
    }
    let base_url = match &input.base_url {
        Some(_) => Some(base_trimmed),
        None => None,
    };
    Ok(
        crate::models::LlmSettings {
            provider: input.provider,
            model,
            base_url,
            api_format: input.api_format,
        },
    )
}

/// Number of trailing `/` characters of `s`.
pub open spec fn trailing_slashes(s: Seq<char>) -> nat
    decreases s.len(),
{
    if s.len() == 0 {
        0
    } else if s[s.len() - 1] == '/' {
        1 + trailing_slashes(s.subrange(0, s.len() - 1))
    } else {
        0
    }
}

/// `s` without its trailing slashes.
pub open spec fn spec_trim_end_slashes(s: Seq<char>) -> Seq<char> {
    s.subrange(0, s.len() - trailing_slashes(s))
}

proof fn lemma_trailing_slashes_at(s: Seq<char>, i: int)
    requires
        0 <= i <= s.len(),
        forall|j: int| s.len() - i <= j < s.len() ==> s[j] == '/',
        i == s.len() || s[s.len() - i - 1] != '/',
    ensures
        trailing_slashes(s) == i,
    decreases i,
{
    if i > 0 {
        let t = s.subrange(0, s.len() - 1);
        assert forall|j: int| t.len() - (i - 1) <= j < t.len() implies t[j] == '/' by {
            assert(t[j] == s[j]);
        }
        lemma_trailing_slashes_at(t, i - 1);
    }
}

/// Removes the trailing slashes of a base URL.
fn trim_end_slashes(s: &str) -> (r: String)
    ensures
        r@ == spec_trim_end_slashes(s@),
{
    let len = s.unicode_len();
    let mut b: usize = len;
    while b > 0 && s.get_char(b - 1) == '/'
        invariant
            len == s@.len(),
            b <= len,
            forall|j: int| b <= j < len ==> s@[j] == '/',
        decreases b,
    {
        b -= 1;
    }
    proof {
        lemma_trailing_slashes_at(s@, len - b);
    }
    s.substring_char(0, b).to_owned()
}

/// The messages endpoint under an Anthropic-style base URL.
pub fn anthropic_endpoint(base_url: &str) -> (r: String)
    ensures
        r@ == spec_trim_end_slashes(base_url@) + "/messages"@,
{
    let mut out = trim_end_slashes(base_url);
    out.append("/messages");
    out
}

/// The chat-completions endpoint under an OpenAI-style base URL.
pub fn openai_endpoint(base_url: &str) -> (r: String)
    ensures
        r@ == spec_trim_end_slashes(base_url@) + "/chat/completions"@,
{
    let mut out = trim_end_slashes(base_url);
    out.append("/chat/completions");
    out
}

/// The texts present among optional response parts, in order.
pub open spec fn present_texts(items: Seq<Option<String>>) -> Seq<Seq<char>>
    decreases items.len(),
{
    if items.len() == 0 {
        Seq::empty()
    } else {
        let rest = present_texts(items.drop_last());
        match items.last() {
            Some(t) => rest.push(t@),
            None => rest,
        }
    }
}

/// Assembles completion text from response parts: the present texts joined
/// with newlines, then trimmed.
pub fn join_content_texts(items: &Vec<Option<String>>) -> (r: String)
    ensures
        r@ == trim_spec(join_seq(present_texts(items@), "\n"@)),
{
    let mut texts: Vec<String> = Vec::new();
    let mut i: usize = 0;
    proof {
        assert(items@.subrange(0, 0) =~= Seq::<Option<String>>::empty());
        assert(texts.deep_view() =~= present_texts(items@.subrange(0, 0)));
    }
    while i < items.len()
        invariant
            i <= items@.len(),
            texts.deep_view() == present_texts(items@.subrange(0, i as int)),
        decreases items@.len() - i,
    {
        proof {
            assert(items@.subrange(0, i + 1).drop_last() =~= items@.subrange(0, i as int));
            assert(items@.subrange(0, i + 1).last() == items@[i as int]);
        }
        match &items[i] {
            Some(t) => {
                let ghost dv = texts.deep_view();
                texts.push(t.clone());
                proof {
                    assert(texts.deep_view() =~= dv.push(items@[i as int].unwrap()@));
                }
            },
            None => {},
        }
        i += 1;
    }
    proof {
        assert(items@.subrange(0, items@.len() as int) =~= items@);
    }
    let joined = crate::text::join_strings(&texts, "\n");
    trim_str(joined.as_str())
}

/// The extracted texts of the attachments, in order.
pub open spec fn attachment_texts(attachments: Seq<crate::models::AttachmentRecord>) -> Seq<
    Seq<char>,
> {
    attachments.map_values(|a: crate::models::AttachmentRecord| a.extracted_text@)
}

/// The grounding text handed to the suggest-answer operation: the profile
/// fields, line by line, then the attachment texts separated by blank
/// lines.
pub open spec fn profile_context_seq(p: crate::models::MeetingProfile) -> Seq<char> {
    "Name: "@ + p.name@ + "\nType: "@ + p.meeting_type@ + "\nDomain: "@ + p.domain@
        + "\nLanguage: "@ + p.language@ + "\nSelf Intro: "@ + p.self_intro@ + "\nNotes: "@
        + p.context_notes@ + "\nAttachments:\n"@ + join_seq(attachment_texts(p.attachments@), "\n\n"@)
}

/// Assembles the grounding text of one profile.
pub fn assemble_profile_context(profile: &crate::models::MeetingProfile) -> (r: String)
    ensures
        r@ == profile_context_seq(*profile),
{
    let mut texts: Vec<String> = Vec::new();
    let mut i: usize = 0;
    proof {
        assert(profile.attachments@.subrange(0, 0) =~= Seq::<
            crate::models::AttachmentRecord,
        >::empty());
        assert(texts.deep_view() =~= attachment_texts(profile.attachments@.subrange(0, 0)));
    }
    while i < profile.attachments.len()
        invariant
            i <= profile.attachments@.len(),
            texts.deep_view() == attachment_texts(profile.attachments@.subrange(0, i as int)),
        decreases profile.attachments@.len() - i,
    {
        let ghost dv = texts.deep_view();
        texts.push(profile.attachments[i].extracted_text.clone());
        proof {
            assert(texts.deep_view() =~= dv.push(profile.attachments@[i as int].extracted_text@));
            assert(attachment_texts(profile.attachments@.subrange(0, i + 1)) =~= attachment_texts(
                profile.attachments@.subrange(0, i as int),
            ).push(profile.attachments@[i as int].extracted_text@));
        }
        i += 1;
    }
    proof {
        assert(profile.attachments@.subrange(0, profile.attachments@.len() as int)
            =~= profile.attachments@);
    }
    let attachments = crate::text::join_strings(&texts, "\n\n");
    let mut out = String::from_str("Name: ");
    out.append(profile.name.as_str());
    out.append("\nType: ");
    out.append(profile.meeting_type.as_str());
    out.append("\nDomain: ");
    out.append(profile.domain.as_str());
    out.append("\nLanguage: ");
    out.append(profile.language.as_str());
    out.append("\nSelf Intro: ");
    out.append(profile.self_intro.as_str());
    out.append("\nNotes: ");
    out.append(profile.context_notes.as_str());
    out.append("\nAttachments:\n");
    out.append(attachments.as_str());
    out
}

} // verus!
