use herding_cats_rust::database::models::codex::{CodexEntryType, CodexStatus};

#[test]
fn test_entry_type_display_names() {
    assert_eq!(CodexEntryType::StorySummary.display_name(), "Story Summary");
    assert_eq!(CodexEntryType::CharacterSheet.display_name(), "Character Sheet");
    assert_eq!(CodexEntryType::Object.display_name(), "Object");
    assert_eq!(CodexEntryType::Time.display_name(), "Time");
    assert_eq!(CodexEntryType::Place.display_name(), "Place");
}

#[test]
fn test_status_display_names() {
    assert_eq!(CodexStatus::Draft.display_name(), "Draft");
    assert_eq!(CodexStatus::InReview.display_name(), "In Review");
    assert_eq!(CodexStatus::Final.display_name(), "Final");
    assert_eq!(CodexStatus::Archived.display_name(), "Archived");
}

#[test]
fn codex_storage_names() {
    assert_eq!(CodexEntryType::CharacterSheet.storage_name(), "character_sheet");
    assert_eq!(CodexStatus::InReview.storage_name(), "in_review");
}
