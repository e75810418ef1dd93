//! Data model of the live-meeting session engine: providers, settings,
//! profiles, and the event payloads broadcast to the host UI.
use vstd::prelude::*;

use crate::text::{lower_seq, str_eq};

verus! {

/// Which speech-recognition backend a session uses.
#[derive(Debug, Clone, Copy, PartialEq, Eq, Structural)]
pub enum AsrProvider {
    Aliyun,
    Deepgram,
}

impl Default for AsrProvider {
    /// The provider tried first when the caller names none.
    fn default() -> (r: Self)
        ensures
            r == AsrProvider::Aliyun,
    {
        AsrProvider::Aliyun
    }
}

/// Lifecycle states of one session; `Stopped` and `Error` are terminal.
#[derive(Debug, Clone, Copy, PartialEq, Eq, Structural)]
pub enum SessionLifecycleState {
    Starting,
    Running,
    Stopped,
    Error,
}

/// Who spoke a transcript segment.
#[derive(Debug, Clone, Copy, PartialEq, Eq, Structural)]
pub enum SpeakerRole {
    Me,
    Other,
    Unknown,
}

/// Where the audio behind a segment came from.
#[derive(Debug, Clone, Copy, PartialEq, Eq, Structural)]
pub enum SegmentSource {
    Microphone,
    System,
}

/// Whether a translation came from the recognition stream or an LLM call.
#[derive(Debug, Clone, Copy, PartialEq, Eq, Structural)]
pub enum TranslationSource {
    Asr,
    Llm,
}

/// Providers for which a credential can be stored.
#[derive(Debug, Clone, Copy, PartialEq, Eq, Structural)]
pub enum ProviderKind {
    Aliyun,
    Deepgram,
    Anthropic,
    Gemini,
    Openai,
    CustomLlm,
}

impl ProviderKind {
    /// The stable account-name component for this provider.
    pub fn as_key(&self) -> (r: &'static str)
        ensures
            r@ == self.spec_key(),
    {
        match self {
            Self::Aliyun => "aliyun",
            Self::Deepgram => "deepgram",
            Self::Anthropic => "anthropic",
            Self::Gemini => "gemini",
            Self::Openai => "openai",
            Self::CustomLlm => "custom_llm",
        }
    }

    /// The account-name component, at the specification level.
    pub open spec fn spec_key(self) -> Seq<char> {
        match self {
            Self::Aliyun => "aliyun"@,
            Self::Deepgram => "deepgram"@,
            Self::Anthropic => "anthropic"@,
            Self::Gemini => "gemini"@,
            Self::Openai => "openai"@,
            Self::CustomLlm => "custom_llm"@,
        }
    }
}

/// The individual secret fields a provider may need.
#[derive(Debug, Clone, Copy, PartialEq, Eq, Structural)]
pub enum ProviderSecretField {
    ApiKey,
    AccessKeyId,
    AccessKeySecret,
    AppKey,
}

impl ProviderSecretField {
    /// The stable account-name component for this field.
    pub fn as_key(&self) -> (r: &'static str)
        ensures
            r@ == self.spec_key(),
    {
        match self {
            Self::ApiKey => "api_key",
            Self::AccessKeyId => "access_key_id",
            Self::AccessKeySecret => "access_key_secret",
            Self::AppKey => "app_key",
        }
    }

    /// The account-name component, at the specification level.
    pub open spec fn spec_key(self) -> Seq<char> {
        match self {
            Self::ApiKey => "api_key"@,
            Self::AccessKeyId => "access_key_id"@,
            Self::AccessKeySecret => "access_key_secret"@,
            Self::AppKey => "app_key"@,
        }
    }
}

/// UI language.
#[derive(Debug, Clone, Copy, PartialEq, Eq, Structural)]
pub enum LocaleCode {
    ZhCn,
    EnUs,
}

impl LocaleCode {
    /// Chooses the locale from a language tag such as the `LANG` value.
    pub fn from_lang_tag(lang: &str) -> (r: Self)
        ensures
            r == (if lower_seq(lang@).len() >= 2 && lower_seq(lang@)[0] == 'z' && lower_seq(lang@)[1]
                == 'h' {
                LocaleCode::ZhCn
            } else {
                LocaleCode::EnUs
            }),
    {
        let len = lang.unicode_len();
        if len >= 2 {
            let c0 = lang.get_char(0);
            let c1 = lang.get_char(1);
            let l0 = if 'A' <= c0 && c0 <= 'Z' {
                (((c0 as u8) + 32) as char)
            } else {
                c0
            };
            let l1 = if 'A' <= c1 && c1 <= 'Z' {
                (((c1 as u8) + 32) as char)
            } else {
                c1
            };
            if l0 == 'z' && l1 == 'h' {
                return LocaleCode::ZhCn;
            }
        }
        LocaleCode::EnUs
    }
}

impl Default for LocaleCode {
    /// The locale used when no language tag is available.
    fn default() -> (r: Self)
        ensures
            r == LocaleCode::EnUs,
    {
        LocaleCode::EnUs
    }
}

/// UI theme.
#[derive(Debug, Clone, Copy, PartialEq, Eq, Structural)]
pub enum ThemeMode {
    Light,
    Dark,
    System,
}

impl Default for ThemeMode {
    fn default() -> (r: Self)
        ensures
            r == ThemeMode::System,
    {
        ThemeMode::System
    }
}

/// Which LLM vendor serves translation and hint calls.
#[derive(Debug, Clone, Copy, PartialEq, Eq, Structural)]
pub enum LlmProviderKind {
    Anthropic,
    Openai,
    Custom,
}

impl Default for LlmProviderKind {
    fn default() -> (r: Self)
        ensures
            r == LlmProviderKind::Anthropic,
    {
        LlmProviderKind::Anthropic
    }
}

/// Wire format spoken by a custom LLM endpoint.
#[derive(Debug, Clone, Copy, PartialEq, Eq, Structural)]
pub enum LlmApiFormat {
    Anthropic,
    Openai,
}

impl Default for LlmApiFormat {
    fn default() -> (r: Self)
        ensures
            r == LlmApiFormat::Anthropic,
    {
        LlmApiFormat::Anthropic
    }
}

/// The stand-in model identifier used when the user has not picked one;
/// deployments set the vendor's real model through the settings.
pub fn default_llm_model() -> (r: String)
    ensures
        r@ == "anthropic-default"@,
{
    String::from_str("anthropic-default")
}

/// Settings for the LLM used by finalization work.
#[derive(Debug, Clone)]
pub struct LlmSettings {
    pub provider: LlmProviderKind,
    pub model: String,
    pub base_url: Option<String>,
    pub api_format: LlmApiFormat,
}

impl Default for LlmSettings {
    fn default() -> (r: Self)
        ensures
            r.provider == LlmProviderKind::Anthropic,
            r.model@ == "anthropic-default"@,
            r.base_url is None,
            r.api_format == LlmApiFormat::Anthropic,
    {
        LlmSettings {
            provider: LlmProviderKind::Anthropic,
            model: default_llm_model(),
            base_url: None,
            api_format: LlmApiFormat::Anthropic,
        }
    }
}

/// Look of the host platform.
#[derive(Debug, Clone, Copy, PartialEq, Eq, Structural)]
pub enum PlatformStyle {
    Macos,
    Windows,
    Linux,
}

impl PlatformStyle {
    /// Maps an OS name to its platform style; unknown names fall back to Linux.
    pub fn from_os_name(os: &str) -> (r: Self)
        ensures
            r == (if os@ == "macos"@ {
                PlatformStyle::Macos
            } else if os@ == "windows"@ {
                PlatformStyle::Windows
            } else {
                PlatformStyle::Linux
            }),
    {
        if str_eq(os, "macos") {
            Self::Macos
        } else if str_eq(os, "windows") {
            Self::Windows
        } else {
            Self::Linux
        }
    }
}

/// Per-user preferences that persist across runs.
#[derive(Debug, Clone)]
pub struct UserPreferences {
    pub locale: LocaleCode,
    pub theme_mode: ThemeMode,
    pub onboarding_completed: bool,
    pub llm_settings: LlmSettings,
}

impl Default for UserPreferences {
    fn default() -> (r: Self)
        ensures
            r.locale == LocaleCode::EnUs,
            r.theme_mode == ThemeMode::System,
            !r.onboarding_completed,
            r.llm_settings.provider == LlmProviderKind::Anthropic,
            r.llm_settings.model@ == "anthropic-default"@,
            r.llm_settings.base_url is None,
            r.llm_settings.api_format == LlmApiFormat::Anthropic,
    {
        UserPreferences {
            locale: LocaleCode::EnUs,
            theme_mode: ThemeMode::System,
            onboarding_completed: false,
            llm_settings: LlmSettings::default(),
        }
    }
}

/// Which credentials are present, per provider.
#[derive(Debug, Clone, Copy, PartialEq, Eq, Structural)]
pub struct ProviderStatus {
    pub aliyun: bool,
    pub deepgram: bool,
    pub anthropic: bool,
    pub gemini: bool,
    pub openai: bool,
    pub custom_llm: bool,
}

/// Which auxiliary windows exist right now.
#[derive(Debug, Clone, Copy, PartialEq, Eq, Structural)]
pub struct WindowAvailability {
    pub live_overlay: bool,
}

/// A text attachment whose extracted text grounds hint generation.
#[derive(Debug, Clone)]
pub struct AttachmentRecord {
    pub id: String,
    pub profile_id: String,
    pub file_path: String,
    pub file_type: AttachmentFileType,
    pub extracted_text: String,
    pub created_at: String,
}

/// Supported attachment file formats.
#[derive(Debug, Clone, Copy, PartialEq, Eq, Structural)]
pub enum AttachmentFileType {
    Txt,
    Pdf,
}

/// Request to extract the text of one attachment.
#[derive(Debug, Clone)]
pub struct ExtractAttachmentInput {
    pub profile_id: String,
    pub file_path: String,
    pub file_type: AttachmentFileType,
}

/// A meeting profile grounding the hint pipeline.
#[derive(Debug, Clone)]
pub struct MeetingProfile {
    pub id: String,
    pub name: String,
    pub meeting_type: String,
    pub domain: String,
    pub language: String,
    pub self_intro: String,
    pub context_notes: String,
    pub attachments: Vec<AttachmentRecord>,
    pub created_at: String,
    pub updated_at: String,
}

/// Insert-or-update request for a meeting profile.
#[derive(Debug, Clone)]
pub struct MeetingProfileUpsert {
    pub id: Option<String>,
    pub name: String,
    pub meeting_type: String,
    pub domain: String,
    pub language: String,
    pub self_intro: String,
    pub context_notes: String,
}

/// Request to delete a profile.
#[derive(Debug, Clone)]
pub struct DeleteProfileInput {
    pub id: String,
}

/// Request to store one provider API key.
#[derive(Debug, Clone)]
pub struct SaveProviderKeyInput {
    pub provider: ProviderKind,
    pub api_key: String,
}

/// Request to store one provider secret field.
#[derive(Debug, Clone)]
pub struct SaveProviderSecretInput {
    pub provider: ProviderKind,
    pub field: ProviderSecretField,
    pub value: String,
}

/// Request to change the basic user preferences.
#[derive(Debug, Clone)]
pub struct SaveUserPreferencesInput {
    pub locale: LocaleCode,
    pub theme_mode: ThemeMode,
    pub onboarding_completed: bool,
}

impl SaveUserPreferencesInput {
    /// The preferences after this request: the basic fields are replaced,
    /// the LLM settings are kept as they were.
    pub fn apply(self, current: UserPreferences) -> (r: UserPreferences)
        ensures
            r.locale == self.locale,
            r.theme_mode == self.theme_mode,
            r.onboarding_completed == self.onboarding_completed,
            r.llm_settings == current.llm_settings,
    {
        UserPreferences {
            locale: self.locale,
            theme_mode: self.theme_mode,
            onboarding_completed: self.onboarding_completed,
            llm_settings: current.llm_settings,
        }
    }
}

/// Request to change the LLM settings.
#[derive(Debug, Clone)]
pub struct SaveLlmSettingsInput {
    pub provider: LlmProviderKind,
    pub model: String,
    pub base_url: Option<String>,
    pub api_format: LlmApiFormat,
}

/// One selectable input device.
#[derive(Debug, Clone)]
pub struct AudioDeviceInfo {
    pub id: String,
    pub name: String,
    pub is_default: bool,
}

/// Everything the UI needs to offer audio sources.
#[derive(Debug, Clone)]
pub struct AudioDeviceList {
    pub microphones: Vec<AudioDeviceInfo>,
    pub system_loopback_available: bool,
    pub note: Option<String>,
}

/// A microphone as the capture layer enumerates it.
#[derive(Debug, Clone)]
pub struct MicDeviceDescriptor {
    pub id: String,
    pub name: String,
    pub is_default: bool,
}

/// Whether system-audio loopback capture is possible here.
#[derive(Debug, Clone)]
pub struct LoopbackAvailability {
    pub available: bool,
    pub note: Option<String>,
}

/// Caller's request to start a live session.
#[derive(Debug, Clone)]
pub struct StartSessionInput {
    pub profile_id: String,
    pub microphone_id: Option<String>,
    pub source_language: String,
    pub target_language: String,
    pub asr_provider: Option<AsrProvider>,
}

/// What a successful `start` hands back.
#[derive(Debug, Clone)]
pub struct SessionStartResult {
    pub session_id: String,
    pub degraded_mode: bool,
    pub message: String,
    pub provider: AsrProvider,
}

/// Broadcast on every lifecycle transition.
#[derive(Debug, Clone)]
pub struct SessionStateEvent {
    pub session_id: String,
    pub state: SessionLifecycleState,
    pub message: String,
    pub degraded_mode: bool,
    pub provider: AsrProvider,
}

/// One recognized utterance (interim or final).
#[derive(Debug, Clone)]
pub struct TranscriptSegmentEvent {
    pub id: String,
    pub session_id: String,
    pub speaker: SpeakerRole,
    pub text: String,
    pub is_final: bool,
    pub timestamp_ms: i64,
    pub provider: AsrProvider,
    pub source: SegmentSource,
}

/// A translation correlated (by id) to the transcript it explains.
#[derive(Debug, Clone)]
pub struct TranslationSegmentEvent {
    pub id: String,
    pub transcript_id: String,
    pub text: String,
    pub is_final: bool,
    pub timestamp_ms: i64,
    pub provider: AsrProvider,
    pub source: TranslationSource,
}

/// One incremental piece of an answer hint.
#[derive(Debug, Clone)]
pub struct HintDeltaEvent {
    pub id: String,
    pub session_id: String,
    pub delta: String,
    pub done: bool,
    pub source: String,
}

/// An advisory error; it never terminates anything by itself.
#[derive(Debug, Clone)]
pub struct RuntimeErrorEvent {
    pub code: String,
    pub message: String,
    pub recoverable: bool,
    pub provider: Option<AsrProvider>,
    pub source: String,
}

/// The per-provider secret bundle of the primary backend.
#[derive(Debug, Clone)]
pub struct AliyunSecrets {
    pub access_key_id: String,
    pub access_key_secret: String,
    pub app_key: String,
}

/// Configuration handed to an embedding runtime.
#[derive(Debug, Clone)]
pub struct RuntimeConfig {
    pub data_dir: Option<String>,
    pub platform: Option<String>,
}

/// A structured error returned across the embedding boundary.
#[derive(Debug, Clone)]
pub struct InvokeError {
    pub code: String,
    pub message: String,
}

} // verus!
