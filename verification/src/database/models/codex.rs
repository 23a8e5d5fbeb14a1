//! Codex entries of a writing project: story summary, character sheets,
//! objects, time and place, with their status and type-specific details.

use vstd::prelude::*;
use crate::text::{to_owned_string};
use crate::timeutil::{DateTimeUtc, utc_now, new_uuid};

verus! {

/// Types of codex entries.
#[derive(Debug, Clone, Copy, PartialEq, Eq, Hash, Structural)]
pub enum CodexEntryType {
    /// Story Summary - Overall narrative overview
    StorySummary,
    /// Character Sheet - Individual character details
    CharacterSheet,
    /// Object - In-world items, artifacts, technology
    Object,
    /// Time - Timeline events, calendars, time periods
    Time,
    /// Place - Locations, settings, world geography
    Place,
}

/// The name under which an entry type is stored.
pub open spec fn entry_type_storage(t: CodexEntryType) -> Seq<char> {
    match t {
        CodexEntryType::StorySummary => "story_summary"@,
        CodexEntryType::CharacterSheet => "character_sheet"@,
        CodexEntryType::Object => "object"@,
        CodexEntryType::Time => "time"@,
        CodexEntryType::Place => "place"@,
    }
}

/// The entry type stored under a name.
pub open spec fn entry_type_from_storage(s: Seq<char>) -> Option<CodexEntryType> {
    if s == "story_summary"@ {
        Some(CodexEntryType::StorySummary)
    } else if s == "character_sheet"@ {
        Some(CodexEntryType::CharacterSheet)
    } else if s == "object"@ {
        Some(CodexEntryType::Object)
    } else if s == "time"@ {
        Some(CodexEntryType::Time)
    } else if s == "place"@ {
        Some(CodexEntryType::Place)
    } else {
        None
    }
}

impl CodexEntryType {
    /// Display name for the entry type.
    pub fn display_name(self) -> (r: &'static str)
        ensures
            r@ == (match self {
                CodexEntryType::StorySummary => "Story Summary"@,
                CodexEntryType::CharacterSheet => "Character Sheet"@,
                CodexEntryType::Object => "Object"@,
                CodexEntryType::Time => "Time"@,
                CodexEntryType::Place => "Place"@,
            }),
    {
        match self {
            CodexEntryType::StorySummary => "Story Summary",
            CodexEntryType::CharacterSheet => "Character Sheet",
            CodexEntryType::Object => "Object",
            CodexEntryType::Time => "Time",
            CodexEntryType::Place => "Place",
        }
    }

    /// Icon for the entry type.
    pub fn icon(self) -> (r: &'static str)
        ensures
            r@ == (match self {
                CodexEntryType::StorySummary => "📚"@,
                CodexEntryType::CharacterSheet => "👤"@,
                CodexEntryType::Object => "📦"@,
                CodexEntryType::Time => "⏰"@,
                CodexEntryType::Place => "🌍"@,
            }),
    {
        match self {
            CodexEntryType::StorySummary => "📚",
            CodexEntryType::CharacterSheet => "👤",
            CodexEntryType::Object => "📦",
            CodexEntryType::Time => "⏰",
            CodexEntryType::Place => "🌍",
        }
    }

    /// Description of the entry type.
    pub fn description(self) -> (r: &'static str)
        ensures
            r@ == (match self {
                CodexEntryType::StorySummary => "Overall narrative summary and plot overview"@,
                CodexEntryType::CharacterSheet => "Detailed character information and development"@,
                CodexEntryType::Object => "In-world items, artifacts, and technology"@,
                CodexEntryType::Time => "Timeline events, calendars, and time periods"@,
                CodexEntryType::Place => "Locations, settings, and world geography"@,
            }),
    {
        match self {
            CodexEntryType::StorySummary => "Overall narrative summary and plot overview",
            CodexEntryType::CharacterSheet => "Detailed character information and development",
            CodexEntryType::Object => "In-world items, artifacts, and technology",
            CodexEntryType::Time => "Timeline events, calendars, and time periods",
            CodexEntryType::Place => "Locations, settings, and world geography",
        }
    }

    /// All entry types, in declaration order.
    pub fn all_types() -> (r: Vec<CodexEntryType>)
        ensures
            r@ == seq![
                CodexEntryType::StorySummary,
                CodexEntryType::CharacterSheet,
                CodexEntryType::Object,
                CodexEntryType::Time,
                CodexEntryType::Place,
            ],
    {
        let mut v: Vec<CodexEntryType> = Vec::new();
        v.push(CodexEntryType::StorySummary);
        v.push(CodexEntryType::CharacterSheet);
        v.push(CodexEntryType::Object);
        v.push(CodexEntryType::Time);
        v.push(CodexEntryType::Place);
        assert(v@ =~= seq![
            CodexEntryType::StorySummary,
            CodexEntryType::CharacterSheet,
            CodexEntryType::Object,
            CodexEntryType::Time,
            CodexEntryType::Place,
        ]);
        v
    }

    /// The name under which the type is stored.
    pub fn storage_name(self) -> (r: &'static str)
        ensures
            r@ == entry_type_storage(self),
    {
        match self {
            CodexEntryType::StorySummary => "story_summary",
            CodexEntryType::CharacterSheet => "character_sheet",
            CodexEntryType::Object => "object",
            CodexEntryType::Time => "time",
            CodexEntryType::Place => "place",
        }
    }
}

/// Status of codex entries.
#[derive(Debug, Clone, Copy, PartialEq, Eq, Hash, Structural)]
pub enum CodexStatus {
    /// Draft - Still being written
    Draft,
    /// In Review - Ready for feedback
    InReview,
    /// Final - Completed and approved
    Final,
    /// Archived - No longer actively used
    Archived,
}

/// The name under which a status is stored.
pub open spec fn status_storage(s: CodexStatus) -> Seq<char> {
    match s {
        CodexStatus::Draft => "draft"@,
        CodexStatus::InReview => "in_review"@,
        CodexStatus::Final => "final"@,
        CodexStatus::Archived => "archived"@,
    }
}

/// The status stored under a name.
pub open spec fn status_from_storage(s: Seq<char>) -> Option<CodexStatus> {
    if s == "draft"@ {
        Some(CodexStatus::Draft)
    } else if s == "in_review"@ {
        Some(CodexStatus::InReview)
    } else if s == "final"@ {
        Some(CodexStatus::Final)
    } else if s == "archived"@ {
        Some(CodexStatus::Archived)
    } else {
        None
    }
}

impl CodexStatus {
    /// Display name for the status.
    pub fn display_name(self) -> (r: &'static str)
        ensures
            r@ == (match self {
                CodexStatus::Draft => "Draft"@,
                CodexStatus::InReview => "In Review"@,
                CodexStatus::Final => "Final"@,
                CodexStatus::Archived => "Archived"@,
            }),
    {
        match self {
            CodexStatus::Draft => "Draft",
            CodexStatus::InReview => "In Review",
            CodexStatus::Final => "Final",
            CodexStatus::Archived => "Archived",
        }
    }

    /// CSS class for the status in the user interface.
    pub fn color_class(self) -> (r: &'static str)
        ensures
            r@ == (match self {
                CodexStatus::Draft => "status-draft"@,
                CodexStatus::InReview => "status-review"@,
                CodexStatus::Final => "status-final"@,
                CodexStatus::Archived => "status-archived"@,
            }),
    {
        match self {
            CodexStatus::Draft => "status-draft",
            CodexStatus::InReview => "status-review",
            CodexStatus::Final => "status-final",
            CodexStatus::Archived => "status-archived",
        }
    }

    /// The name under which the status is stored.
    pub fn storage_name(self) -> (r: &'static str)
        ensures
            r@ == status_storage(self),
    {
        match self {
            CodexStatus::Draft => "draft",
            CodexStatus::InReview => "in_review",
            CodexStatus::Final => "final",
            CodexStatus::Archived => "archived",
        }
    }
}

/// Main codex entry representing any codex item.
#[derive(Debug, Clone)]
pub struct CodexEntry {
    /// Unique identifier
    pub id: u128,
    /// Project this codex entry belongs to
    pub project_id: u128,
    /// Type of codex entry
    pub entry_type: CodexEntryType,
    /// Human-readable title
    pub title: String,
    /// Detailed content/description
    pub content: String,
    /// Entry status
    pub status: CodexStatus,
    /// Creation timestamp
    pub created_at: DateTimeUtc,
    /// Last modification timestamp
    pub updated_at: DateTimeUtc,
    /// Whether entry is active/not deleted
    pub is_active: bool,
    /// Optional metadata as JSON for flexible attributes
    pub metadata: Option<String>,
    /// Sort order within the entry type
    pub sort_order: i32,
}

impl CodexEntry {
    /// A new draft entry: fresh identifier, active, no metadata, sort order 0,
    /// created and updated now.
    pub fn new(project_id: u128, entry_type: CodexEntryType, title: String, content: String) -> (e: Self)
        ensures
            e.project_id == project_id,
            e.entry_type == entry_type,
            e.title == title,
            e.content == content,
            e.status == CodexStatus::Draft,
            e.is_active,
            e.metadata is None,
            e.sort_order == 0,
            e.created_at == e.updated_at,
    {
        let now = utc_now();
        CodexEntry {
            id: new_uuid(),
            project_id,
            entry_type,
            title,
            content,
            status: CodexStatus::Draft,
            created_at: now,
            updated_at: now,
            is_active: true,
            metadata: None,
            sort_order: 0,
        }
    }

    /// Replaces title and content and touches the update time.
    pub fn update_content(&mut self, title: String, content: String)
        ensures
            *final(self) == (CodexEntry { title, content, updated_at: final(self).updated_at, ..*old(self) }),
    {
        self.title = title;
        self.content = content;
        self.updated_at = utc_now();
    }

    /// Sets the metadata and touches the update time.
    pub fn set_metadata(&mut self, metadata: String)
        ensures
            *final(self) == (CodexEntry { metadata: Some(metadata), updated_at: final(self).updated_at, ..*old(self) }),
    {
        self.metadata = Some(metadata);
        self.updated_at = utc_now();
    }

    /// Marks the entry deleted (inactive) and touches the update time.
    pub fn delete(&mut self)
        ensures
            *final(self) == (CodexEntry { is_active: false, updated_at: final(self).updated_at, ..*old(self) }),
    {
        self.is_active = false;
        self.updated_at = utc_now();
    }

    /// Sets the status and touches the update time.
    pub fn set_status(&mut self, status: CodexStatus)
        ensures
            *final(self) == (CodexEntry { status, updated_at: final(self).updated_at, ..*old(self) }),
    {
        self.status = status;
        self.updated_at = utc_now();
    }
}

/// Sentiment of character relationships.
#[derive(Debug, Clone, Copy, PartialEq, Eq, Hash, Structural)]
pub enum RelationshipSentiment {
    Positive,
    Negative,
    Neutral,
    Complex,
}

/// Relationship between characters.
#[derive(Debug, Clone)]
pub struct CharacterRelationship {
    /// ID of the related character
    pub character_id: u128,
    /// Type of relationship
    pub relationship_type: String,
    /// Description of the relationship
    pub description: String,
    /// Relationship status (positive, negative, neutral)
    pub sentiment: RelationshipSentiment,
}

/// Character-specific data for enhanced character sheets.
#[derive(Debug, Clone)]
pub struct CharacterData {
    pub names: Vec<String>,
    pub physical_description: Option<String>,
    pub personality_traits: Vec<String>,
    pub goals: Vec<String>,
    pub fears: Vec<String>,
    pub backstory: Option<String>,
    pub arc: Option<String>,
    pub relationships: Vec<CharacterRelationship>,
    pub skills: Vec<String>,
    pub inventory: Vec<String>,
}

/// Place-specific data for enhanced location tracking.
#[derive(Debug, Clone)]
pub struct PlaceData {
    pub alternative_names: Vec<String>,
    pub coordinates: Option<String>,
    pub climate: Option<String>,
    pub population: Option<String>,
    pub culture: Option<String>,
    pub points_of_interest: Vec<String>,
    pub history: Option<String>,
    pub current_events: Vec<String>,
}

/// Time-specific data for timeline management.
#[derive(Debug, Clone)]
pub struct TimeData {
    pub start_time: Option<String>,
    pub end_time: Option<String>,
    pub duration: Option<String>,
    pub calendar_system: Option<String>,
    pub season: Option<String>,
    pub historical_context: Option<String>,
    pub era: Option<String>,
}

/// Object-specific data for item tracking.
#[derive(Debug, Clone)]
pub struct ObjectData {
    pub object_type: Option<String>,
    pub dimensions: Option<String>,
    pub weight_materials: Option<String>,
    pub properties: Vec<String>,
    pub current_location: Option<String>,
    pub history: Option<String>,
    pub usage: Option<String>,
    pub value: Option<String>,
}

/// Story-specific data for narrative tracking.
#[derive(Debug, Clone)]
pub struct StoryData {
    pub main_plot: Option<String>,
    pub subplots: Vec<String>,
    pub themes: Vec<String>,
    pub structure: Option<String>,
    pub point_of_view: Option<String>,
    pub tone: Option<String>,
    pub target_audience: Option<String>,
}

/// Codex entry with enhanced data for specific types.
#[derive(Debug, Clone)]
pub struct EnhancedCodexEntry {
    pub base: CodexEntry,
    pub character_data: Option<CharacterData>,
    pub place_data: Option<PlaceData>,
    pub time_data: Option<TimeData>,
    pub object_data: Option<ObjectData>,
    pub story_data: Option<StoryData>,
}

impl EnhancedCodexEntry {
    /// A new entry with no type-specific data.
    pub fn new(project_id: u128, entry_type: CodexEntryType, title: String, content: String) -> (e: Self)
        ensures
            e.base.project_id == project_id,
            e.base.entry_type == entry_type,
            e.base.title == title,
            e.base.content == content,
            e.base.status == CodexStatus::Draft,
            e.base.is_active,
            e.character_data is None && e.place_data is None && e.time_data is None,
            e.object_data is None && e.story_data is None,
    {
        EnhancedCodexEntry {
            base: CodexEntry::new(project_id, entry_type, title, content),
            character_data: None,
            place_data: None,
            time_data: None,
            object_data: None,
            story_data: None,
        }
    }

    /// Sets the character data.
    pub fn with_character_data(self, data: CharacterData) -> (e: Self)
        ensures
            e == (EnhancedCodexEntry { character_data: Some(data), ..self }),
    {
        EnhancedCodexEntry { character_data: Some(data), ..self }
    }

    /// Sets the place data.
    pub fn with_place_data(self, data: PlaceData) -> (e: Self)
        ensures
            e == (EnhancedCodexEntry { place_data: Some(data), ..self }),
    {
        EnhancedCodexEntry { place_data: Some(data), ..self }
    }

    /// Sets the time data.
    pub fn with_time_data(self, data: TimeData) -> (e: Self)
        ensures
            e == (EnhancedCodexEntry { time_data: Some(data), ..self }),
    {
        EnhancedCodexEntry { time_data: Some(data), ..self }
    }

    /// Sets the object data.
    pub fn with_object_data(self, data: ObjectData) -> (e: Self)
        ensures
            e == (EnhancedCodexEntry { object_data: Some(data), ..self }),
    {
        EnhancedCodexEntry { object_data: Some(data), ..self }
    }

    /// Sets the story data.
    pub fn with_story_data(self, data: StoryData) -> (e: Self)
        ensures
            e == (EnhancedCodexEntry { story_data: Some(data), ..self }),
    {
        EnhancedCodexEntry { story_data: Some(data), ..self }
    }
}

/// Fields that can be used for sorting codex entries.
#[derive(Debug, Clone, Copy, PartialEq, Eq, Structural)]
pub enum CodexSortField {
    Title,
    CreatedAt,
    UpdatedAt,
    SortOrder,
    Status,
    EntryType,
}

/// Query parameters for filtering codex entries.
#[derive(Debug, Clone)]
pub struct CodexQuery {
    pub project_id: Option<u128>,
    pub entry_type: Option<CodexEntryType>,
    pub status: Option<CodexStatus>,
    pub is_active: Option<bool>,
    pub search_term: Option<String>,
    pub sort_by: Option<CodexSortField>,
    pub sort_desc: bool,
    pub limit: Option<i64>,
    pub offset: i64,
}

impl CodexQuery {
    /// A query with no filter, no sorting and no pagination.
    pub fn new() -> (q: Self)
        ensures
            q.project_id is None && q.entry_type is None && q.status is None,
            q.is_active is None && q.search_term is None && q.sort_by is None,
            !q.sort_desc && q.limit is None && q.offset == 0,
    {
        CodexQuery {
            project_id: None,
            entry_type: None,
            status: None,
            is_active: None,
            search_term: None,
            sort_by: None,
            sort_desc: false,
            limit: None,
            offset: 0,
        }
    }
}

/// Statistics for codex data.
#[derive(Debug, Clone)]
pub struct CodexStatistics {
    pub total_entries: i64,
    pub entries_by_type: crate::strmap::StrMap<i64>,
    pub entries_by_status: crate::strmap::StrMap<i64>,
    pub total_word_count: i64,
    pub last_updated: Option<DateTimeUtc>,
    pub projects_breakdown: Vec<(u128, i64)>,
}

/// Result of a codex import operation.
#[derive(Debug, Clone)]
pub struct CodexImportResult {
    pub imported_count: usize,
    pub failed_count: usize,
    pub errors: Vec<String>,
    pub duration_ms: u128,
}

/// Result of a codex export operation.
#[derive(Debug, Clone)]
pub struct CodexExportResult {
    pub exported_count: usize,
    pub format: String,
    pub file_path: Option<String>,
    pub duration_ms: u128,
}

} // verus!

verus! {

/// An entry type stored under its name reads back as the same type.
pub proof fn law_entry_type_round_trip(t: CodexEntryType)
    ensures
        entry_type_from_storage(entry_type_storage(t)) == Some(t),
{
    reveal_strlit("story_summary");
    assert("story_summary"@[0] == 's');
    reveal_strlit("character_sheet");
    assert("character_sheet"@[0] == 'c');
    reveal_strlit("object");
    assert("object"@[0] == 'o');
    reveal_strlit("time");
    assert("time"@[0] == 't');
    reveal_strlit("place");
    assert("place"@[0] == 'p');
}

/// A status stored under its name reads back as the same status.
pub proof fn law_status_round_trip(s: CodexStatus)
    ensures
        status_from_storage(status_storage(s)) == Some(s),
{
    reveal_strlit("draft");
    assert("draft"@[0] == 'd');
    reveal_strlit("in_review");
    assert("in_review"@[0] == 'i');
    reveal_strlit("final");
    assert("final"@[0] == 'f');
    reveal_strlit("archived");
    assert("archived"@[0] == 'a');
}

} // verus!
