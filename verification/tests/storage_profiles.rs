use meeting_session::models::{
    AttachmentFileType, AttachmentRecord, LocaleCode, MeetingProfileUpsert, ThemeMode,
    UserPreferences,
};
use meeting_session::storage::{JsonProfileRepository, CURRENT_SCHEMA_VERSION};

fn upsert_input(id: Option<&str>, name: &str) -> MeetingProfileUpsert {
    MeetingProfileUpsert {
        id: id.map(str::to_string),
        name: name.to_string(),
        meeting_type: "interview".to_string(),
        domain: "infra".to_string(),
        language: "en".to_string(),
        self_intro: "intro".to_string(),
        context_notes: "notes".to_string(),
    }
}

fn attachment(profile_id: &str, id: &str) -> AttachmentRecord {
    AttachmentRecord {
        id: id.to_string(),
        profile_id: profile_id.to_string(),
        file_path: "/tmp/a.txt".to_string(),
        file_type: AttachmentFileType::Txt,
        extracted_text: "body".to_string(),
        created_at: "2024-01-01T00:00:00.000Z".to_string(),
    }
}

#[test]
fn new_repository_starts_at_the_current_schema() {
    let mut repo = JsonProfileRepository::new();
    assert_eq!(repo.state.schema_version, CURRENT_SCHEMA_VERSION);
    assert!(repo.list_profiles().is_empty());
    assert!(!repo.migrate_if_needed());
}

#[test]
fn migration_raises_old_schema_versions() {
    let mut repo = JsonProfileRepository::new();
    repo.state.schema_version = 1;
    assert!(repo.migrate_if_needed());
    assert_eq!(repo.state.schema_version, CURRENT_SCHEMA_VERSION);
    assert!(!repo.migrate_if_needed());
}

#[test]
fn upsert_without_id_mints_the_fresh_id() {
    let mut repo = JsonProfileRepository::new();
    let profile = repo.upsert_profile(
        upsert_input(None, "First"),
        "fresh-1".to_string(),
        "t0".to_string(),
    );
    assert_eq!(profile.id, "fresh-1");
    assert_eq!(profile.name, "First");
    assert_eq!(profile.created_at, "t0");
    assert_eq!(profile.updated_at, "t0");
    assert!(profile.attachments.is_empty());
    assert_eq!(repo.list_profiles().len(), 1);
}

#[test]
fn upsert_with_known_id_updates_in_place() {
    let mut repo = JsonProfileRepository::new();
    repo.upsert_profile(upsert_input(Some("p1"), "Old"), "x".to_string(), "t0".to_string());
    repo.add_attachment(attachment("p1", "a1"), "t1".to_string()).unwrap();

    let updated = repo.upsert_profile(
        upsert_input(Some("p1"), "New"),
        "unused".to_string(),
        "t2".to_string(),
    );
    assert_eq!(updated.id, "p1");
    assert_eq!(updated.name, "New");
    // Creation time and attachments survive an update.
    assert_eq!(updated.created_at, "t0");
    assert_eq!(updated.updated_at, "t2");
    assert_eq!(updated.attachments.len(), 1);
    assert_eq!(repo.list_profiles().len(), 1);
}

#[test]
fn upsert_with_unknown_id_appends_under_that_id() {
    let mut repo = JsonProfileRepository::new();
    let profile = repo.upsert_profile(
        upsert_input(Some("chosen"), "Named"),
        "fresh".to_string(),
        "t0".to_string(),
    );
    assert_eq!(profile.id, "chosen");
    assert_eq!(repo.list_profiles().len(), 1);
}

#[test]
fn delete_removes_only_the_named_profile() {
    let mut repo = JsonProfileRepository::new();
    repo.upsert_profile(upsert_input(Some("p1"), "A"), "x".to_string(), "t".to_string());
    repo.upsert_profile(upsert_input(Some("p2"), "B"), "x".to_string(), "t".to_string());
    repo.add_attachment(attachment("p2", "a2"), "t1".to_string()).unwrap();
    repo.delete_profile("p1");
    let left = repo.list_profiles();
    assert_eq!(left.len(), 1);
    // The kept profile survives with every field, attachments included.
    assert_eq!(left[0].id, "p2");
    assert_eq!(left[0].name, "B");
    assert_eq!(left[0].meeting_type, "interview");
    assert_eq!(left[0].created_at, "t");
    assert_eq!(left[0].attachments.len(), 1);
    assert_eq!(left[0].attachments[0].id, "a2");
    // Deleting again is harmless.
    repo.delete_profile("p1");
    assert_eq!(repo.list_profiles().len(), 1);
}

#[test]
fn add_attachment_to_missing_profile_fails_and_changes_nothing() {
    let mut repo = JsonProfileRepository::new();
    let result = repo.add_attachment(attachment("ghost", "a1"), "t".to_string());
    let error = result.err().unwrap();
    assert_eq!(error.message, "meeting profile not found: ghost");
    assert!(repo.list_profiles().is_empty());
}

#[test]
fn add_attachment_touches_the_profile_update_time() {
    let mut repo = JsonProfileRepository::new();
    repo.upsert_profile(upsert_input(Some("p1"), "A"), "x".to_string(), "t0".to_string());
    let stored = repo.add_attachment(attachment("p1", "a1"), "t1".to_string()).unwrap();
    assert_eq!(stored.id, "a1");
    let profile = repo.find_profile("p1").unwrap();
    assert_eq!(profile.updated_at, "t1");
    assert_eq!(profile.attachments.len(), 1);
    assert_eq!(profile.attachments[0].extracted_text, "body");
}

#[test]
fn find_profile_returns_none_for_unknown_ids() {
    let mut repo = JsonProfileRepository::new();
    assert!(repo.find_profile("nope").is_none());
    repo.upsert_profile(upsert_input(Some("p1"), "A"), "x".to_string(), "t".to_string());
    assert_eq!(repo.find_profile("p1").unwrap().name, "A");
}

#[test]
fn preferences_round_trip() {
    let mut repo = JsonProfileRepository::new();
    let initial = repo.get_user_preferences();
    assert!(matches!(initial.locale, LocaleCode::EnUs));
    assert!(matches!(initial.theme_mode, ThemeMode::System));
    assert!(!initial.onboarding_completed);
    assert_eq!(initial.llm_settings.model, "anthropic-default");

    let mut next = UserPreferences::default();
    next.locale = LocaleCode::ZhCn;
    next.theme_mode = ThemeMode::Dark;
    next.onboarding_completed = true;
    let saved = repo.save_user_preferences(next);
    assert!(matches!(saved.locale, LocaleCode::ZhCn));
    let loaded = repo.get_user_preferences();
    assert!(matches!(loaded.theme_mode, ThemeMode::Dark));
    assert!(loaded.onboarding_completed);
}
