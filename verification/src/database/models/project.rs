//! Projects, the documents they hold, document versions and requests for
//! document embeddings.

use vstd::prelude::*;
use crate::database::search_service::{split_words, words_of};
use crate::timeutil::{DateTimeUtc, new_uuid, utc_now};

verus! {

/// A logical grouping of documents.
#[derive(Debug, Clone)]
pub struct Project {
    pub id: u128,
    pub name: String,
    pub description: Option<String>,
    pub created_at: DateTimeUtc,
    pub updated_at: DateTimeUtc,
    pub is_archived: bool,
    /// Only one project is active at a time.
    pub is_active: bool,
    /// Settings as JSON text.
    pub settings: Option<String>,
}

impl Project {
    /// A new project, neither archived nor active, without settings.
    pub fn new(name: String, description: Option<String>) -> (p: Self)
        ensures
            p.name == name,
            p.description == description,
            p.created_at == p.updated_at,
            !p.is_archived,
            !p.is_active,
            p.settings is None,
    {
        let now = utc_now();
        Project {
            id: new_uuid(),
            name,
            description,
            created_at: now,
            updated_at: now,
            is_archived: false,
            is_active: false,
            settings: None,
        }
    }

    /// The project with the given settings, touched now.
    pub fn with_settings(self, settings: String) -> (p: Self)
        ensures
            p.settings == Some(settings),
            p.id == self.id,
            p.name == self.name,
            p.description == self.description,
            p.created_at == self.created_at,
            p.is_archived == self.is_archived,
            p.is_active == self.is_active,
    {
        let mut p = self;
        p.settings = Some(settings);
        p.updated_at = utc_now();
        p
    }

    /// The project archived, and so no longer active, touched now.
    pub fn archive(self) -> (p: Self)
        ensures
            p.is_archived,
            !p.is_active,
            p.id == self.id,
            p.name == self.name,
            p.description == self.description,
            p.settings == self.settings,
            p.created_at == self.created_at,
    {
        let mut p = self;
        p.is_archived = true;
        p.is_active = false;
        p.updated_at = utc_now();
        p
    }

    /// The project made active, touched now.
    pub fn activate(self) -> (p: Self)
        ensures
            p.is_active,
            p.is_archived == self.is_archived,
            p.id == self.id,
            p.name == self.name,
            p.description == self.description,
            p.settings == self.settings,
            p.created_at == self.created_at,
    {
        let mut p = self;
        p.is_active = true;
        p.updated_at = utc_now();
        p
    }

    /// The project with the name and description replaced where given,
    /// touched now.
    pub fn update(self, name: Option<String>, description: Option<String>) -> (p: Self)
        ensures
            p.name == match name { Some(n) => n, None => self.name },
            p.description == match description { Some(d) => Some(d), None => self.description },
            p.id == self.id,
            p.is_active == self.is_active,
            p.is_archived == self.is_archived,
            p.settings == self.settings,
            p.created_at == self.created_at,
    {
        let mut p = self;
        if let Some(n) = name {
            p.name = n;
        }
        if let Some(d) = description {
            p.description = Some(d);
        }
        p.updated_at = utc_now();
        p
    }
}

/// Counts about a project's documents.
#[derive(Debug, Clone, Copy, PartialEq, Eq, Structural)]
pub struct ProjectStatistics {
    pub document_count: usize,
    pub total_words: usize,
    pub storage_size: usize,
    pub last_document_update: Option<DateTimeUtc>,
}

impl Default for ProjectStatistics {
    fn default() -> (s: Self)
        ensures
            s.document_count == 0,
            s.total_words == 0,
            s.storage_size == 0,
            s.last_document_update is None,
    {
        ProjectStatistics { document_count: 0, total_words: 0, storage_size: 0, last_document_update: None }
    }
}

/// A text document of a project.
#[derive(Debug, Clone)]
pub struct Document {
    pub id: u128,
    pub project_id: u128,
    pub title: String,
    pub content: Option<String>,
    /// Markdown, plain text and so on.
    pub document_type: String,
    pub word_count: usize,
    /// SHA-256 checksum of the content, as computed by the service.
    pub checksum: String,
    pub created_at: DateTimeUtc,
    pub updated_at: DateTimeUtc,
    pub is_active: bool,
    pub version: u32,
    /// Metadata as JSON text.
    pub metadata: Option<String>,
}

/// The number of words of a document's content (none without content).
pub open spec fn content_words(content: Option<String>) -> nat {
    match content {
        Some(c) => words_of(c@).len(),
        None => 0,
    }
}

/// The number of words of a text, as `split_whitespace().count()` gives it.
pub fn word_count_of(text: &str) -> (n: usize)
    ensures
        n == words_of(text@).len(),
{
    let words = split_words(text);
    proof {
        assert(words@.map_values(|t: String| t@).len() == words@.len());
    }
    words.len()
}

impl Document {
    /// A new active document at version one, with no words counted, no
    /// checksum and no metadata.
    pub fn new(project_id: u128, title: String, content: Option<String>, document_type: String) -> (d: Self)
        ensures
            d.project_id == project_id,
            d.title == title,
            d.content == content,
            d.document_type == document_type,
            d.word_count == 0,
            d.checksum@.len() == 0,
            d.created_at == d.updated_at,
            d.is_active,
            d.version == 1,
            d.metadata is None,
    {
        let now = utc_now();
        Document {
            id: new_uuid(),
            project_id,
            title,
            content,
            document_type,
            word_count: 0,
            checksum: String::new(),
            created_at: now,
            updated_at: now,
            is_active: true,
            version: 1,
            metadata: None,
        }
    }

    /// The document with its words counted, where it has content.
    pub fn calculate_word_count(self) -> (d: Self)
        ensures
            d.word_count == if self.content is Some { content_words(self.content) } else { self.word_count as nat },
            d.content == self.content,
            d.title == self.title,
            d.version == self.version,
            d.updated_at == self.updated_at,
    {
        let mut d = self;
        let n = match &d.content {
            Some(c) => word_count_of(c.as_str()),
            None => d.word_count,
        };
        d.word_count = n;
        d
    }

    /// The document with the given metadata, touched now.
    pub fn with_metadata(self, metadata: String) -> (d: Self)
        ensures
            d.metadata == Some(metadata),
            d.content == self.content,
            d.title == self.title,
            d.version == self.version,
    {
        let mut d = self;
        d.metadata = Some(metadata);
        d.updated_at = utc_now();
        d
    }

    /// The document with its title and content replaced where given (the
    /// words recounted with a new content), one version later, touched now.
    pub fn update_content(self, content: Option<String>, title: Option<String>) -> (d: Self)
        requires
            self.version < u32::MAX,
        ensures
            d.title == match title { Some(t) => t, None => self.title },
            d.content == match content { Some(c) => Some(c), None => self.content },
            d.word_count == match content { Some(c) => words_of(c@).len(), None => self.word_count as nat },
            d.version == self.version + 1,
            d.is_active == self.is_active,
            d.id == self.id,
    {
        let mut d = self;
        if let Some(t) = title {
            d.title = t;
        }
        if let Some(c) = content {
            let n = word_count_of(c.as_str());
            d.content = Some(c);
            d.word_count = n;
        }
        d.version = d.version + 1;
        d.updated_at = utc_now();
        d
    }

    /// The document marked deleted, touched now.
    pub fn deactivate(self) -> (d: Self)
        ensures
            !d.is_active,
            d.content == self.content,
            d.title == self.title,
            d.version == self.version,
    {
        let mut d = self;
        d.is_active = false;
        d.updated_at = utc_now();
        d
    }

    /// The document with the given checksum.
    pub fn with_checksum(self, checksum: String) -> (d: Self)
        ensures
            d.checksum == checksum,
            d.content == self.content,
            d.title == self.title,
            d.version == self.version,
            d.updated_at == self.updated_at,
    {
        let mut d = self;
        d.checksum = checksum;
        d
    }
}

/// A stored version of a document.
#[derive(Debug, Clone)]
pub struct DocumentVersion {
    pub id: u128,
    pub document_id: u128,
    pub version: u32,
    pub title: String,
    pub content: String,
    pub created_at: DateTimeUtc,
    pub change_description: Option<String>,
}

/// A request to embed several documents in chunks.
#[derive(Debug, Clone)]
pub struct BatchEmbeddingRequest {
    pub document_ids: Vec<u128>,
    pub model_name: String,
    pub chunk_size: usize,
    pub chunk_overlap: usize,
}

impl BatchEmbeddingRequest {
    /// A request with the given parts.
    pub fn new(document_ids: Vec<u128>, model_name: String, chunk_size: usize, chunk_overlap: usize) -> (r: Self)
        ensures
            r.document_ids == document_ids,
            r.model_name == model_name,
            r.chunk_size == chunk_size,
            r.chunk_overlap == chunk_overlap,
    {
        BatchEmbeddingRequest { document_ids, model_name, chunk_size, chunk_overlap }
    }
}

} // verus!
