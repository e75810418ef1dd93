//! Profile and preference storage logic. The repository works on the
//! in-memory image of the persisted state; reading the image from disk and
//! writing it back are the storage edge's work, done around these calls.
//!
//! Returned copies agree with the stored values in every field; the
//! `*_like` relations state that agreement at the view level.
use vstd::prelude::*;

use crate::models::{AttachmentRecord, LlmSettings, MeetingProfile, MeetingProfileUpsert,
    UserPreferences};

verus! {

/// Version of the persisted-state layout this build writes.
pub const CURRENT_SCHEMA_VERSION: u32 = 4;

/// Everything the application persists.
#[derive(Debug)]
pub struct PersistedState {
    pub schema_version: u32,
    pub meeting_profiles: Vec<MeetingProfile>,
    pub user_preferences: UserPreferences,
}

impl Default for PersistedState {
    fn default() -> (r: Self)
        ensures
            r.schema_version == CURRENT_SCHEMA_VERSION,
            r.meeting_profiles@.len() == 0,
            r.user_preferences.locale == crate::models::LocaleCode::EnUs,
            r.user_preferences.theme_mode == crate::models::ThemeMode::System,
            !r.user_preferences.onboarding_completed,
            r.user_preferences.llm_settings.provider == crate::models::LlmProviderKind::Anthropic,
            r.user_preferences.llm_settings.model@ == "anthropic-default"@,
            r.user_preferences.llm_settings.base_url is None,
            r.user_preferences.llm_settings.api_format == crate::models::LlmApiFormat::Anthropic,
    {
        PersistedState {
            schema_version: CURRENT_SCHEMA_VERSION,
            meeting_profiles: Vec::new(),
            user_preferences: UserPreferences::default(),
        }
    }
}

/// Why a repository call failed.
#[derive(Debug, Clone)]
pub struct StorageError {
    pub message: String,
}

/// Two attachment records agree in every field.
pub open spec fn attachment_like(a: AttachmentRecord, b: AttachmentRecord) -> bool {
    &&& a.id@ == b.id@
    &&& a.profile_id@ == b.profile_id@
    &&& a.file_path@ == b.file_path@
    &&& a.file_type == b.file_type
    &&& a.extracted_text@ == b.extracted_text@
    &&& a.created_at@ == b.created_at@
}

/// Two profiles agree in every field, attachments pointwise.
pub open spec fn profile_like(a: MeetingProfile, b: MeetingProfile) -> bool {
    &&& a.id@ == b.id@
    &&& a.name@ == b.name@
    &&& a.meeting_type@ == b.meeting_type@
    &&& a.domain@ == b.domain@
    &&& a.language@ == b.language@
    &&& a.self_intro@ == b.self_intro@
    &&& a.context_notes@ == b.context_notes@
    &&& a.created_at@ == b.created_at@
    &&& a.updated_at@ == b.updated_at@
    &&& a.attachments@.len() == b.attachments@.len()
    &&& forall|i: int|
        0 <= i < a.attachments@.len() ==> attachment_like(
            #[trigger] a.attachments@[i],
            b.attachments@[i],
        )
}

/// Two profile sequences agree pointwise.
pub open spec fn profiles_like(a: Seq<MeetingProfile>, b: Seq<MeetingProfile>) -> bool {
    a.len() == b.len() && forall|i: int| 0 <= i < a.len() ==> profile_like(#[trigger] a[i], b[i])
}

/// Two preference values agree in every field.
pub open spec fn prefs_like(a: UserPreferences, b: UserPreferences) -> bool {
    &&& a.locale == b.locale
    &&& a.theme_mode == b.theme_mode
    &&& a.onboarding_completed == b.onboarding_completed
    &&& a.llm_settings.provider == b.llm_settings.provider
    &&& a.llm_settings.model@ == b.llm_settings.model@
    &&& a.llm_settings.base_url is Some == b.llm_settings.base_url is Some
    &&& (a.llm_settings.base_url matches Some(u) ==> u@ == b.llm_settings.base_url.unwrap()@)
    &&& a.llm_settings.api_format == b.llm_settings.api_format
}

/// Copies one attachment record.
fn clone_attachment(a: &AttachmentRecord) -> (r: AttachmentRecord)
    ensures
        attachment_like(r, *a),
{
    AttachmentRecord {
        id: a.id.clone(),
        profile_id: a.profile_id.clone(),
        file_path: a.file_path.clone(),
        file_type: a.file_type,
        extracted_text: a.extracted_text.clone(),
        created_at: a.created_at.clone(),
    }
}

/// Copies one profile, attachments included.
fn clone_profile(p: &MeetingProfile) -> (r: MeetingProfile)
    ensures
        profile_like(r, *p),
{
    let mut attachments: Vec<AttachmentRecord> = Vec::new();
    let mut i: usize = 0;
    while i < p.attachments.len()
        invariant
            i <= p.attachments@.len(),
            attachments@.len() == i,
            forall|j: int|
                0 <= j < i ==> attachment_like(#[trigger] attachments@[j], p.attachments@[j]),
        decreases p.attachments@.len() - i,
    {
        attachments.push(clone_attachment(&p.attachments[i]));
        i += 1;
    }
    MeetingProfile {
        id: p.id.clone(),
        name: p.name.clone(),
        meeting_type: p.meeting_type.clone(),
        domain: p.domain.clone(),
        language: p.language.clone(),
        self_intro: p.self_intro.clone(),
        context_notes: p.context_notes.clone(),
        attachments,
        created_at: p.created_at.clone(),
        updated_at: p.updated_at.clone(),
    }
}

/// Copies the preferences.
fn clone_preferences(p: &UserPreferences) -> (r: UserPreferences)
    ensures
        prefs_like(r, *p),
{
    UserPreferences {
        locale: p.locale,
        theme_mode: p.theme_mode,
        onboarding_completed: p.onboarding_completed,
        llm_settings: LlmSettings {
            provider: p.llm_settings.provider,
            model: p.llm_settings.model.clone(),
            base_url: match &p.llm_settings.base_url {
                Some(u) => Some(u.clone()),
                None => None,
            },
            api_format: p.llm_settings.api_format,
        },
    }
}

/// The position of the first profile whose id views as `id`, or the length
/// when none does.
pub open spec fn first_with_id(profiles: Seq<MeetingProfile>, id: Seq<char>) -> int
    decreases profiles.len(),
{
    if profiles.len() == 0 {
        0
    } else if profiles[0].id@ == id {
        0
    } else {
        1 + first_with_id(profiles.subrange(1, profiles.len() as int), id)
    }
}

proof fn lemma_first_with_id_at(profiles: Seq<MeetingProfile>, id: Seq<char>, k: int)
    requires
        0 <= k <= profiles.len(),
        forall|j: int| 0 <= j < k ==> profiles[j].id@ != id,
        k == profiles.len() || profiles[k].id@ == id,
    ensures
        first_with_id(profiles, id) == k,
    decreases k,
{
    if k > 0 {
        let t = profiles.subrange(1, profiles.len() as int);
        assert forall|j: int| 0 <= j < k - 1 implies t[j].id@ != id by {
            assert(t[j] == profiles[j + 1]);
        }
        if k - 1 < t.len() {
            assert(t[k - 1] == profiles[k]);
        }
        lemma_first_with_id_at(t, id, k - 1);
    }
}

/// The profiles left after deleting `id`: every profile whose id differs,
/// in order.
pub open spec fn remove_profiles(
    profiles: Seq<MeetingProfile>,
    id: Seq<char>,
) -> Seq<MeetingProfile>
    decreases profiles.len(),
{
    if profiles.len() == 0 {
        Seq::empty()
    } else {
        let rest = remove_profiles(profiles.drop_last(), id);
        if profiles.last().id@ == id {
            rest
        } else {
            rest.push(profiles.last())
        }
    }
}

/// The profile repository, over the in-memory image of the persisted
/// state.
#[derive(Debug)]
pub struct JsonProfileRepository {
    pub state: PersistedState,
}

impl JsonProfileRepository {
    /// A repository over a freshly initialized state.
    pub fn new() -> (r: Self)
        ensures
            r.state.schema_version == CURRENT_SCHEMA_VERSION,
            r.state.meeting_profiles@.len() == 0,
            r.state.user_preferences.locale == crate::models::LocaleCode::EnUs,
            r.state.user_preferences.theme_mode == crate::models::ThemeMode::System,
            !r.state.user_preferences.onboarding_completed,
    {
        JsonProfileRepository { state: PersistedState::default() }
    }

    /// A repository over a state image read by the storage edge.
    pub fn from_state(state: PersistedState) -> (r: Self)
        ensures
            r.state == state,
    {
        JsonProfileRepository { state }
    }

    /// Raises the schema version to the current one; the result says
    /// whether the state changed and must be written back.
    pub fn migrate_if_needed(&mut self) -> (changed: bool)
        ensures
            changed == (old(self).state.schema_version < CURRENT_SCHEMA_VERSION),
            final(self).state.schema_version == (if old(self).state.schema_version
                < CURRENT_SCHEMA_VERSION {
                CURRENT_SCHEMA_VERSION
            } else {
                old(self).state.schema_version
            }),
            final(self).state.meeting_profiles == old(self).state.meeting_profiles,
            final(self).state.user_preferences == old(self).state.user_preferences,
    {
        if self.state.schema_version < CURRENT_SCHEMA_VERSION {
            self.state.schema_version = CURRENT_SCHEMA_VERSION;
            true
        } else {
            false
        }
    }

    /// Copies of all profiles, in storage order.
    pub fn list_profiles(&self) -> (r: Vec<MeetingProfile>)
        ensures
            profiles_like(r@, self.state.meeting_profiles@),
    {
        let mut out: Vec<MeetingProfile> = Vec::new();
        let mut i: usize = 0;
        while i < self.state.meeting_profiles.len()
            invariant
                i <= self.state.meeting_profiles@.len(),
                out@.len() == i,
                forall|j: int|
                    0 <= j < i ==> profile_like(
                        #[trigger] out@[j],
                        self.state.meeting_profiles@[j],
                    ),
            decreases self.state.meeting_profiles@.len() - i,
        {
            out.push(clone_profile(&self.state.meeting_profiles[i]));
            i += 1;
        }
        out
    }

    /// Inserts or updates a profile. An input carrying the id of a stored
    /// profile updates that profile's editable fields and update time in
    /// place, keeping its identity, attachments and creation time; any
    /// other input appends a new profile whose id is the input's, or the
    /// fresh id when the input carries none. Returns a copy of the stored
    /// profile.
    pub fn upsert_profile(
        &mut self,
        input: MeetingProfileUpsert,
        fresh_id: String,
        now: String,
    ) -> (r: MeetingProfile)
        ensures
            ({
                let ps = old(self).state.meeting_profiles@;
                let qs = final(self).state.meeting_profiles@;
                let found = input.id matches Some(id) && first_with_id(ps, id@) < ps.len();
                &&& final(self).state.schema_version == old(self).state.schema_version
                &&& final(self).state.user_preferences == old(self).state.user_preferences
                &&& (found ==> {
                    let k = first_with_id(ps, input.id.unwrap()@);
                    &&& qs.len() == ps.len()
                    &&& (forall|j: int| 0 <= j < ps.len() && j != k ==> qs[j] == ps[j])
                    &&& qs[k].id@ == ps[k].id@
                    &&& qs[k].name@ == input.name@
                    &&& qs[k].meeting_type@ == input.meeting_type@
                    &&& qs[k].domain@ == input.domain@
                    &&& qs[k].language@ == input.language@
                    &&& qs[k].self_intro@ == input.self_intro@
                    &&& qs[k].context_notes@ == input.context_notes@
                    &&& qs[k].attachments@.len() == ps[k].attachments@.len()
                    &&& (forall|i: int|
                        0 <= i < ps[k].attachments@.len() ==> attachment_like(
                            #[trigger] qs[k].attachments@[i],
                            ps[k].attachments@[i],
                        ))
                    &&& qs[k].created_at@ == ps[k].created_at@
                    &&& qs[k].updated_at@ == now@
                    &&& profile_like(r, qs[k])
                })
                &&& (!found ==> {
                    &&& qs.len() == ps.len() + 1
                    &&& (forall|j: int| 0 <= j < ps.len() ==> qs[j] == ps[j])
                    &&& qs.last().id@ == (match input.id {
                        Some(id) => id@,
                        None => fresh_id@,
                    })
                    &&& qs.last().name@ == input.name@
                    &&& qs.last().meeting_type@ == input.meeting_type@
                    &&& qs.last().domain@ == input.domain@
                    &&& qs.last().language@ == input.language@
                    &&& qs.last().self_intro@ == input.self_intro@
                    &&& qs.last().context_notes@ == input.context_notes@
                    &&& qs.last().attachments@.len() == 0
                    &&& qs.last().created_at@ == now@
                    &&& qs.last().updated_at@ == now@
                    &&& profile_like(r, qs.last())
                })
            }),
    {
        let ghost ps = self.state.meeting_profiles@;
        let mut found_at: Option<usize> = None;
        if let Some(id) = &input.id {
            let len = self.state.meeting_profiles.len();
            let mut k: usize = 0;
            while k < len && !crate::text::str_eq(
                self.state.meeting_profiles[k].id.as_str(),
                id.as_str(),
            )
                invariant
                    len == ps.len(),
                    self.state.meeting_profiles@ == ps,
                    k <= len,
                    forall|j: int| 0 <= j < k ==> ps[j].id@ != id@,
                decreases len - k,
            {
                k += 1;
            }
            proof {
                lemma_first_with_id_at(ps, id@, k as int);
            }
            if k < len {
                found_at = Some(k);
            }
        }
        match found_at {
            Some(k) => {
                let old_profile = clone_profile(&self.state.meeting_profiles[k]);
                let updated = MeetingProfile {
                    id: old_profile.id,
                    name: input.name,
                    meeting_type: input.meeting_type,
                    domain: input.domain,
                    language: input.language,
                    self_intro: input.self_intro,
                    context_notes: input.context_notes,
                    attachments: old_profile.attachments,
                    created_at: old_profile.created_at,
                    updated_at: now,
                };
                let result = clone_profile(&updated);
                self.state.meeting_profiles.set(k, updated);
                result
            },
            None => {
                let id = match input.id {
                    Some(id) => id,
                    None => fresh_id,
                };
                let attachments: Vec<AttachmentRecord> = Vec::new();
                let profile = MeetingProfile {
                    id,
                    name: input.name,
                    meeting_type: input.meeting_type,
                    domain: input.domain,
                    language: input.language,
                    self_intro: input.self_intro,
                    context_notes: input.context_notes,
                    attachments,
                    created_at: now.clone(),
                    updated_at: now,
                };
                let result = clone_profile(&profile);
                self.state.meeting_profiles.push(profile);
                result
            },
        }
    }

    /// Removes every profile with this id; the others keep their order and
    /// every field.
    pub fn delete_profile(&mut self, id: &str)
        ensures
            profiles_like(
                final(self).state.meeting_profiles@,
                remove_profiles(old(self).state.meeting_profiles@, id@),
            ),
            forall|i: int|
                0 <= i < final(self).state.meeting_profiles@.len()
                    ==> (#[trigger] final(self).state.meeting_profiles@[i]).id@ != id@,
            final(self).state.schema_version == old(self).state.schema_version,
            final(self).state.user_preferences == old(self).state.user_preferences,
    {
        let ghost ps = self.state.meeting_profiles@;
        let mut kept: Vec<MeetingProfile> = Vec::new();
        let mut i: usize = 0;
        proof {
            assert(ps.subrange(0, 0) =~= Seq::<MeetingProfile>::empty());
            assert(remove_profiles(ps.subrange(0, 0), id@) =~= Seq::<MeetingProfile>::empty());
        }
        while i < self.state.meeting_profiles.len()
            invariant
                self.state.meeting_profiles@ == ps,
                i <= ps.len(),
                profiles_like(kept@, remove_profiles(ps.subrange(0, i as int), id@)),
                forall|j: int| 0 <= j < kept@.len() ==> (#[trigger] kept@[j]).id@ != id@,
            decreases ps.len() - i,
        {
            proof {
                assert(ps.subrange(0, i + 1).drop_last() =~= ps.subrange(0, i as int));
                assert(ps.subrange(0, i + 1).last() == ps[i as int]);
            }
            if !crate::text::str_eq(self.state.meeting_profiles[i].id.as_str(), id) {
                let ghost kept_before = kept@;
                kept.push(clone_profile(&self.state.meeting_profiles[i]));
                proof {
                    assert(remove_profiles(ps.subrange(0, i + 1), id@) =~= remove_profiles(
                        ps.subrange(0, i as int),
                        id@,
                    ).push(ps[i as int]));
                    assert(kept@ =~= kept_before.push(kept@.last()));
                }
            }
            i += 1;
        }
        proof {
            assert(ps.subrange(0, ps.len() as int) =~= ps);
        }
        self.state.meeting_profiles = kept;
    }

    /// Appends an attachment to its profile and touches the profile's
    /// update time; fails, leaving the state unchanged, when no profile
    /// carries the attachment's profile id.
    pub fn add_attachment(&mut self, attachment: AttachmentRecord, now: String) -> (r: Result<
        AttachmentRecord,
        StorageError,
    >)
        ensures
            ({
                let ps = old(self).state.meeting_profiles@;
                let qs = final(self).state.meeting_profiles@;
                let k = first_with_id(ps, attachment.profile_id@);
                &&& final(self).state.schema_version == old(self).state.schema_version
                &&& final(self).state.user_preferences == old(self).state.user_preferences
                &&& (k == ps.len() ==> {
                    &&& final(self).state.meeting_profiles == old(self).state.meeting_profiles
                    &&& r matches Err(e) && e.message@ == "meeting profile not found: "@
                        + attachment.profile_id@
                })
                &&& (k < ps.len() ==> {
                    &&& (r matches Ok(a) && a == attachment)
                    &&& qs.len() == ps.len()
                    &&& (forall|j: int| 0 <= j < ps.len() && j != k ==> qs[j] == ps[j])
                    &&& qs[k].id@ == ps[k].id@
                    &&& qs[k].name@ == ps[k].name@
                    &&& qs[k].created_at@ == ps[k].created_at@
                    &&& qs[k].updated_at@ == now@
                    &&& qs[k].attachments@.len() == ps[k].attachments@.len() + 1
                    &&& (forall|i: int|
                        0 <= i < ps[k].attachments@.len() ==> attachment_like(
                            #[trigger] qs[k].attachments@[i],
                            ps[k].attachments@[i],
                        ))
                    &&& attachment_like(qs[k].attachments@.last(), attachment)
                })
            }),
    {
        let ghost ps = self.state.meeting_profiles@;
        let len = self.state.meeting_profiles.len();
        let mut k: usize = 0;
        while k < len && !crate::text::str_eq(
            self.state.meeting_profiles[k].id.as_str(),
            attachment.profile_id.as_str(),
        )
            invariant
                len == ps.len(),
                self.state.meeting_profiles@ == ps,
                k <= len,
                forall|j: int| 0 <= j < k ==> ps[j].id@ != attachment.profile_id@,
            decreases len - k,
        {
            k += 1;
        }
        proof {
            lemma_first_with_id_at(ps, attachment.profile_id@, k as int);
        }
        if k == len {
            let mut message = String::from_str("meeting profile not found: ");
            message.append(attachment.profile_id.as_str());
            return Err(StorageError { message });
        }
        let old_profile = clone_profile(&self.state.meeting_profiles[k]);
        let mut attachments = old_profile.attachments;
        attachments.push(clone_attachment(&attachment));
        let updated = MeetingProfile {
            id: old_profile.id,
            name: old_profile.name,
            meeting_type: old_profile.meeting_type,
            domain: old_profile.domain,
            language: old_profile.language,
            self_intro: old_profile.self_intro,
            context_notes: old_profile.context_notes,
            attachments,
            created_at: old_profile.created_at,
            updated_at: now,
        };
        self.state.meeting_profiles.set(k, updated);
        Ok(attachment)
    }

    /// A copy of the first profile with this id, when one is stored.
    pub fn find_profile(&self, profile_id: &str) -> (r: Option<MeetingProfile>)
        ensures
            ({
                let ps = self.state.meeting_profiles@;
                let k = first_with_id(ps, profile_id@);
                &&& (k < ps.len() ==> (r matches Some(p) && profile_like(p, ps[k])))
                &&& (k == ps.len() ==> r is None)
            }),
    {
        let ghost ps = self.state.meeting_profiles@;
        let len = self.state.meeting_profiles.len();
        let mut k: usize = 0;
        while k < len && !crate::text::str_eq(
            self.state.meeting_profiles[k].id.as_str(),
            profile_id,
        )
            invariant
                len == ps.len(),
                self.state.meeting_profiles@ == ps,
                k <= len,
                forall|j: int| 0 <= j < k ==> ps[j].id@ != profile_id@,
            decreases len - k,
        {
            k += 1;
        }
        proof {
            lemma_first_with_id_at(ps, profile_id@, k as int);
        }
        if k < len {
            Some(clone_profile(&self.state.meeting_profiles[k]))
        } else {
            None
        }
    }

    /// A copy of the stored preferences.
    pub fn get_user_preferences(&self) -> (r: UserPreferences)
        ensures
            prefs_like(r, self.state.user_preferences),
    {
        clone_preferences(&self.state.user_preferences)
    }

    /// Replaces the stored preferences, handing a copy of the stored value
    /// back.
    pub fn save_user_preferences(&mut self, input: UserPreferences) -> (r: UserPreferences)
        ensures
            final(self).state.user_preferences == input,
            final(self).state.schema_version == old(self).state.schema_version,
            final(self).state.meeting_profiles == old(self).state.meeting_profiles,
            prefs_like(r, input),
    {
        let result = clone_preferences(&input);
        self.state.user_preferences = input;
        result
    }
}

} // verus!
