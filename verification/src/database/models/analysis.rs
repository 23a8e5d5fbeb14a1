//! Structure analyses of a piece of writing: the kinds of writing, the kinds
//! of fields an analysis holds, and the records themselves.

use vstd::prelude::*;
use crate::timeutil::{DateTimeUtc, new_uuid, utc_now};

verus! {

/// Kinds of writing an analysis can be about.
#[derive(Debug, Clone, Copy, PartialEq, Eq, Hash, Structural)]
pub enum WritingType {
    Story,
    ResearchPaper,
    Article,
    Essay,
    Script,
    Poem,
    Other,
}

impl WritingType {
    pub open spec fn spec_display_name(self) -> Seq<char> {
        match self {
            WritingType::Story => "Story/Fiction"@,
            WritingType::ResearchPaper => "Research Paper"@,
            WritingType::Article => "Article"@,
            WritingType::Essay => "Essay"@,
            WritingType::Script => "Script/Screenplay"@,
            WritingType::Poem => "Poetry"@,
            WritingType::Other => "Other"@,
        }
    }

    /// The name shown to the user.
    pub fn display_name(&self) -> (r: &'static str)
        ensures
            r@ == self.spec_display_name(),
    {
        match self {
            WritingType::Story => "Story/Fiction",
            WritingType::ResearchPaper => "Research Paper",
            WritingType::Article => "Article",
            WritingType::Essay => "Essay",
            WritingType::Script => "Script/Screenplay",
            WritingType::Poem => "Poetry",
            WritingType::Other => "Other",
        }
    }

    pub open spec fn spec_description(self) -> Seq<char> {
        match self {
            WritingType::Story => "Fictional narrative with characters, plot, and setting"@,
            WritingType::ResearchPaper => "Academic research with thesis, evidence, and conclusion"@,
            WritingType::Article => "Informative or persuasive non-fiction writing"@,
            WritingType::Essay => "Shorter academic or personal writing piece"@,
            WritingType::Script => "Screenplay or stage play with dialogue and action"@,
            WritingType::Poem => "Poetic form with meter, rhyme, and imagery"@,
            WritingType::Other => "Other writing format"@,
        }
    }

    /// A one-line description of the kind of writing.
    pub fn description(&self) -> (r: &'static str)
        ensures
            r@ == self.spec_description(),
    {
        match self {
            WritingType::Story => "Fictional narrative with characters, plot, and setting",
            WritingType::ResearchPaper => "Academic research with thesis, evidence, and conclusion",
            WritingType::Article => "Informative or persuasive non-fiction writing",
            WritingType::Essay => "Shorter academic or personal writing piece",
            WritingType::Script => "Screenplay or stage play with dialogue and action",
            WritingType::Poem => "Poetic form with meter, rhyme, and imagery",
            WritingType::Other => "Other writing format",
        }
    }

    /// The number stored for the kind (its position in the declaration).
    pub fn code(&self) -> (r: i32)
        ensures
            0 <= r < 7,
            r == match self {
                WritingType::Story => 0i32,
                WritingType::ResearchPaper => 1,
                WritingType::Article => 2,
                WritingType::Essay => 3,
                WritingType::Script => 4,
                WritingType::Poem => 5,
                WritingType::Other => 6,
            },
    {
        match self {
            WritingType::Story => 0,
            WritingType::ResearchPaper => 1,
            WritingType::Article => 2,
            WritingType::Essay => 3,
            WritingType::Script => 4,
            WritingType::Poem => 5,
            WritingType::Other => 6,
        }
    }
}

/// Kinds of fields an analysis holds; they can be dragged between tools.
#[derive(Debug, Clone, Copy, PartialEq, Eq, Hash, Structural)]
pub enum AnalysisFieldType {
    Character,
    Setting,
    PlotPoint,
    Theme,
    ThesisStatement,
    Evidence,
    CounterArgument,
    Conclusion,
    Introduction,
    Body,
    Transition,
}

impl AnalysisFieldType {
    pub open spec fn spec_display_name(self) -> Seq<char> {
        match self {
            AnalysisFieldType::Character => "Character"@,
            AnalysisFieldType::Setting => "Setting"@,
            AnalysisFieldType::PlotPoint => "Plot Point"@,
            AnalysisFieldType::Theme => "Theme"@,
            AnalysisFieldType::ThesisStatement => "Thesis Statement"@,
            AnalysisFieldType::Evidence => "Evidence"@,
            AnalysisFieldType::CounterArgument => "Counter Argument"@,
            AnalysisFieldType::Conclusion => "Conclusion"@,
            AnalysisFieldType::Introduction => "Introduction"@,
            AnalysisFieldType::Body => "Body"@,
            AnalysisFieldType::Transition => "Transition"@,
        }
    }

    /// The name shown to the user.
    pub fn display_name(&self) -> (r: &'static str)
        ensures
            r@ == self.spec_display_name(),
    {
        match self {
            AnalysisFieldType::Character => "Character",
            AnalysisFieldType::Setting => "Setting",
            AnalysisFieldType::PlotPoint => "Plot Point",
            AnalysisFieldType::Theme => "Theme",
            AnalysisFieldType::ThesisStatement => "Thesis Statement",
            AnalysisFieldType::Evidence => "Evidence",
            AnalysisFieldType::CounterArgument => "Counter Argument",
            AnalysisFieldType::Conclusion => "Conclusion",
            AnalysisFieldType::Introduction => "Introduction",
            AnalysisFieldType::Body => "Body",
            AnalysisFieldType::Transition => "Transition",
        }
    }

    /// The number stored for the kind (its position in the declaration).
    pub fn code(&self) -> (r: i32)
        ensures
            0 <= r < 11,
            r == match self {
                AnalysisFieldType::Character => 0i32,
                AnalysisFieldType::Setting => 1,
                AnalysisFieldType::PlotPoint => 2,
                AnalysisFieldType::Theme => 3,
                AnalysisFieldType::ThesisStatement => 4,
                AnalysisFieldType::Evidence => 5,
                AnalysisFieldType::CounterArgument => 6,
                AnalysisFieldType::Conclusion => 7,
                AnalysisFieldType::Introduction => 8,
                AnalysisFieldType::Body => 9,
                AnalysisFieldType::Transition => 10,
            },
    {
        match self {
            AnalysisFieldType::Character => 0,
            AnalysisFieldType::Setting => 1,
            AnalysisFieldType::PlotPoint => 2,
            AnalysisFieldType::Theme => 3,
            AnalysisFieldType::ThesisStatement => 4,
            AnalysisFieldType::Evidence => 5,
            AnalysisFieldType::CounterArgument => 6,
            AnalysisFieldType::Conclusion => 7,
            AnalysisFieldType::Introduction => 8,
            AnalysisFieldType::Body => 9,
            AnalysisFieldType::Transition => 10,
        }
    }
}

/// One field of an analysis.
#[derive(Debug, Clone)]
pub struct AnalysisField {
    pub id: u128,
    pub analysis_id: u128,
    pub field_type: AnalysisFieldType,
    pub content: String,
    pub created_at: DateTimeUtc,
    pub updated_at: DateTimeUtc,
}

/// An analysis of a piece of writing.
#[derive(Debug, Clone)]
pub struct Analysis {
    pub id: u128,
    pub project_id: u128,
    pub title: String,
    pub description: String,
    pub writing_type: WritingType,
    pub created_at: DateTimeUtc,
    pub updated_at: DateTimeUtc,
}

impl Default for Analysis {
    /// A fresh analysis of a story, with a new identifier and no project.
    fn default() -> (a: Self)
        ensures
            a.project_id == 0,
            a.title@ == "New Analysis"@,
            a.description@ == "Analyze your writing structure here"@,
            a.writing_type == WritingType::Story,
    {
        Analysis {
            id: new_uuid(),
            project_id: 0,
            title: "New Analysis".to_string(),
            description: "Analyze your writing structure here".to_string(),
            writing_type: WritingType::Story,
            created_at: utc_now(),
            updated_at: utc_now(),
        }
    }
}

/// An analysis with its fields and the insights drawn from them.
#[derive(Debug, Clone)]
pub struct AnalysisWithFields {
    pub analysis: Analysis,
    pub fields: Vec<AnalysisField>,
    pub insights: Vec<String>,
}

/// What a search for analyses asks for.
#[derive(Debug, Clone)]
pub struct AnalysisQuery {
    pub project_id: Option<u128>,
    pub writing_type: Option<WritingType>,
    pub search_query: Option<String>,
    pub limit: Option<i32>,
    pub offset: Option<i32>,
}

/// Create analysis table SQL
pub const CREATE_ANALYSIS_TABLE_SQL: &'static str = "\nCREATE TABLE IF NOT EXISTS analyses (\n    id UUID PRIMARY KEY DEFAULT gen_random_uuid(),\n    project_id UUID NOT NULL REFERENCES projects(id) ON DELETE CASCADE,\n    title VARCHAR(255) NOT NULL,\n    description TEXT,\n    writing_type writing_type NOT NULL,\n    created_at TIMESTAMPTZ NOT NULL DEFAULT NOW(),\n    updated_at TIMESTAMPTZ NOT NULL DEFAULT NOW(),\n    \n    -- Indexes\n    INDEX idx_analyses_project_id (project_id),\n    INDEX idx_analyses_writing_type (writing_type),\n    INDEX idx_analyses_created_at (created_at)\n);\n";

/// Create analysis fields table SQL
pub const CREATE_ANALYSIS_FIELDS_TABLE_SQL: &'static str = "\nCREATE TABLE IF NOT EXISTS analysis_fields (\n    id UUID PRIMARY KEY DEFAULT gen_random_uuid(),\n    analysis_id UUID NOT NULL REFERENCES analyses(id) ON DELETE CASCADE,\n    field_type analysis_field_type NOT NULL,\n    content TEXT NOT NULL,\n    created_at TIMESTAMPTZ NOT NULL DEFAULT NOW(),\n    updated_at TIMESTAMPTZ NOT NULL DEFAULT NOW(),\n    \n    -- Indexes\n    INDEX idx_analysis_fields_analysis_id (analysis_id),\n    INDEX idx_analysis_fields_field_type (field_type)\n);\n";

/// Create analysis triggers SQL
pub const CREATE_ANALYSIS_TRIGGERS_SQL: &'static str = "\n-- Trigger to update updated_at timestamp for analyses\nCREATE TRIGGER update_analyses_updated_at \n    BEFORE UPDATE ON analyses \n    FOR EACH ROW \n    EXECUTE FUNCTION update_updated_at_column();\n\n-- Trigger to update updated_at timestamp for analysis_fields\nCREATE TRIGGER update_analysis_fields_updated_at \n    BEFORE UPDATE ON analysis_fields \n    FOR EACH ROW \n    EXECUTE FUNCTION update_updated_at_column();\n";

/// Insert analysis SQL
pub const INSERT_ANALYSIS_SQL: &'static str = "\nINSERT INTO analyses (id, project_id, title, description, writing_type, created_at, updated_at)\nVALUES ($1, $2, $3, $4, $5, $6, $7)\nRETURNING *;\n";

/// Update analysis SQL
pub const UPDATE_ANALYSIS_SQL: &'static str = "\nUPDATE analyses \nSET title = $2, description = $3, writing_type = $4, updated_at = $5\nWHERE id = $1 AND project_id = $6\nRETURNING *;\n";

/// Get analysis by ID SQL
pub const GET_ANALYSIS_SQL: &'static str = "\nSELECT * FROM analyses WHERE id = $1 AND project_id = $2;\n";

/// Get analyses by project SQL
pub const GET_ANALYSES_BY_PROJECT_SQL: &'static str = "\nSELECT * FROM analyses \nWHERE project_id = $1 \nORDER BY updated_at DESC\nLIMIT $2 OFFSET $3;\n";

/// Delete analysis SQL
pub const DELETE_ANALYSIS_SQL: &'static str = "\nDELETE FROM analyses WHERE id = $1 AND project_id = $2;\n";

/// Insert analysis field SQL
pub const INSERT_ANALYSIS_FIELD_SQL: &'static str = "\nINSERT INTO analysis_fields (id, analysis_id, field_type, content, created_at, updated_at)\nVALUES ($1, $2, $3, $4, $5, $6)\nRETURNING *;\n";

/// Update analysis field SQL
pub const UPDATE_ANALYSIS_FIELD_SQL: &'static str = "\nUPDATE analysis_fields \nSET field_type = $2, content = $3, updated_at = $4\nWHERE id = $1 AND analysis_id = $5\nRETURNING *;\n";

/// Get analysis fields SQL
pub const GET_ANALYSIS_FIELDS_SQL: &'static str = "\nSELECT * FROM analysis_fields WHERE analysis_id = $1 ORDER BY field_type, created_at;\n";

/// Delete analysis field SQL
pub const DELETE_ANALYSIS_FIELD_SQL: &'static str = "\nDELETE FROM analysis_fields WHERE id = $1 AND analysis_id = $2;\n";

/// Search analysis fields SQL
pub const SEARCH_ANALYSIS_FIELDS_SQL: &'static str = "\nSELECT af.* FROM analysis_fields af\nJOIN analyses a ON af.analysis_id = a.id\nWHERE a.project_id = $1 \nAND (\n    af.content ILIKE $2 \n    OR af.field_type::text ILIKE $2\n)\nORDER BY af.created_at DESC\nLIMIT $3 OFFSET $4;\n";

/// Analysis statistics SQL
pub const GET_ANALYSIS_STATS_SQL: &'static str = "\nSELECT \n    COUNT(DISTINCT a.id) as total_analyses,\n    COUNT(DISTINCT af.id) as total_fields,\n    AVG(field_counts.field_count) as avg_fields_per_analysis\nFROM analyses a\nLEFT JOIN (\n    SELECT analysis_id, COUNT(*) as field_count\n    FROM analysis_fields \n    GROUP BY analysis_id\n) field_counts ON a.id = field_counts.analysis_id\nWHERE a.project_id = $1;\n";

/// Analysis stats by writing type SQL
pub const GET_ANALYSIS_STATS_BY_TYPE_SQL: &'static str = "\nSELECT \n    writing_type,\n    COUNT(*) as count\nFROM analyses \nWHERE project_id = $1\nGROUP BY writing_type\nORDER BY count DESC;\n";

} // verus!
