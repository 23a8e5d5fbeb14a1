//! Research materials: PDF documents, images, web links, citations and notes
//! attached to a writing project, with citation formatting and the rules that
//! turn stored rows back into materials.

use vstd::prelude::*;
use crate::text::{
    chars_of, push_str, push_all, string_from_chars, to_owned_string, is_blank, trim_seq,
    starts_with, starts_with_seq, to_lowercase, spec_to_lowercase, push_signed_decimal,
    signed_decimal_seq, parse_i64, spec_parse_i64, parse_u64, spec_parse_u64, str_eq,
    contains_seq, occurs_at, ends_with_seq,
};
use crate::text::{join_strings, join_seq, parse_usize, spec_parse_usize, decimal_seq, u64_to_string};
use crate::json::{encode_json_string_list, spec_json_encode_string_list};
use crate::timeutil::{rfc3339_text, spec_rfc3339_text, uuid_text, spec_uuid_text, 
    DateTimeUtc, utc_now, new_uuid, parse_rfc3339, spec_parse_rfc3339, year_of, spec_year_of,
    parse_uuid, spec_parse_uuid, parse_uuid_text, spec_uuid_error_text, parse_rfc3339_text,
    spec_rfc3339_error_text,
};
use crate::json::{
    parse_json_string_list, spec_json_string_list, normalize_json, spec_json_normalized,
};
use crate::database::DatabaseError;
use crate::database::enhanced_database_sqlx::{DatabaseRow, QueryResult, cell_of};

verus! {

/// Research material types that can be attached to writing projects.
#[derive(Debug, Clone, Copy, PartialEq, Eq, Hash, Structural)]
pub enum ResearchMaterialType {
    /// PDF document
    Pdf,
    /// Image file (JPG, PNG, GIF, etc.)
    Image,
    /// Web link/URL
    WebLink,
    /// Citation reference
    Citation,
    /// Note or annotation
    Note,
    /// Audio file
    Audio,
    /// Video file
    Video,
}

/// The name under which a material type is stored (its `Debug` name).
pub open spec fn material_type_name(t: ResearchMaterialType) -> Seq<char> {
    match t {
        ResearchMaterialType::Pdf => "Pdf"@,
        ResearchMaterialType::Image => "Image"@,
        ResearchMaterialType::WebLink => "WebLink"@,
        ResearchMaterialType::Citation => "Citation"@,
        ResearchMaterialType::Note => "Note"@,
        ResearchMaterialType::Audio => "Audio"@,
        ResearchMaterialType::Video => "Video"@,
    }
}

/// The material type stored under a name, if the name is one of them.
pub open spec fn material_type_from_name(s: Seq<char>) -> Option<ResearchMaterialType> {
    if s == "Pdf"@ {
        Some(ResearchMaterialType::Pdf)
    } else if s == "Image"@ {
        Some(ResearchMaterialType::Image)
    } else if s == "WebLink"@ {
        Some(ResearchMaterialType::WebLink)
    } else if s == "Citation"@ {
        Some(ResearchMaterialType::Citation)
    } else if s == "Note"@ {
        Some(ResearchMaterialType::Note)
    } else if s == "Audio"@ {
        Some(ResearchMaterialType::Audio)
    } else if s == "Video"@ {
        Some(ResearchMaterialType::Video)
    } else {
        None
    }
}

impl ResearchMaterialType {
    /// Name shown to the user.
    pub fn display_name(&self) -> (r: &'static str)
        ensures
            r@ == (match *self {
                ResearchMaterialType::Pdf => "PDF Document"@,
                ResearchMaterialType::Image => "Image"@,
                ResearchMaterialType::WebLink => "Web Link"@,
                ResearchMaterialType::Citation => "Citation"@,
                ResearchMaterialType::Note => "Note"@,
                ResearchMaterialType::Audio => "Audio"@,
                ResearchMaterialType::Video => "Video"@,
            }),
    {
        match self {
            ResearchMaterialType::Pdf => "PDF Document",
            ResearchMaterialType::Image => "Image",
            ResearchMaterialType::WebLink => "Web Link",
            ResearchMaterialType::Citation => "Citation",
            ResearchMaterialType::Note => "Note",
            ResearchMaterialType::Audio => "Audio",
            ResearchMaterialType::Video => "Video",
        }
    }

    /// File extensions of this kind of material.
    pub fn file_extensions(&self) -> (r: Vec<&'static str>)
        ensures
            r@.map_values(|e: &str| e@) == material_extensions(*self),
    {
        let mut v: Vec<&'static str> = Vec::new();
        match self {
            ResearchMaterialType::Pdf => {
                v.push("pdf");
            },
            ResearchMaterialType::Image => {
                v.push("jpg");
                v.push("jpeg");
                v.push("png");
                v.push("gif");
                v.push("bmp");
                v.push("svg");
                v.push("webp");
            },
            ResearchMaterialType::WebLink => {},
            ResearchMaterialType::Citation => {
                v.push("bib");
                v.push("ris");
            },
            ResearchMaterialType::Note => {
                v.push("txt");
                v.push("md");
            },
            ResearchMaterialType::Audio => {
                v.push("mp3");
                v.push("wav");
                v.push("ogg");
                v.push("m4a");
            },
            ResearchMaterialType::Video => {
                v.push("mp4");
                v.push("avi");
                v.push("mov");
                v.push("wmv");
                v.push("flv");
            },
        }
        assert(v@.map_values(|e: &str| e@) =~= material_extensions(*self));
        v
    }

    /// MIME type of this kind of material.
    pub fn mime_type(&self) -> (r: &'static str)
        ensures
            r@ == (match *self {
                ResearchMaterialType::Pdf => "application/pdf"@,
                ResearchMaterialType::Image => "image/*"@,
                ResearchMaterialType::WebLink => "text/uri-list"@,
                ResearchMaterialType::Citation => "application/x-bibtex"@,
                ResearchMaterialType::Note => "text/plain"@,
                ResearchMaterialType::Audio => "audio/*"@,
                ResearchMaterialType::Video => "video/*"@,
            }),
    {
        match self {
            ResearchMaterialType::Pdf => "application/pdf",
            ResearchMaterialType::Image => "image/*",
            ResearchMaterialType::WebLink => "text/uri-list",
            ResearchMaterialType::Citation => "application/x-bibtex",
            ResearchMaterialType::Note => "text/plain",
            ResearchMaterialType::Audio => "audio/*",
            ResearchMaterialType::Video => "video/*",
        }
    }

    /// The name under which the type is stored.
    pub fn storage_name(&self) -> (r: &'static str)
        ensures
            r@ == material_type_name(*self),
    {
        match self {
            ResearchMaterialType::Pdf => "Pdf",
            ResearchMaterialType::Image => "Image",
            ResearchMaterialType::WebLink => "WebLink",
            ResearchMaterialType::Citation => "Citation",
            ResearchMaterialType::Note => "Note",
            ResearchMaterialType::Audio => "Audio",
            ResearchMaterialType::Video => "Video",
        }
    }
}

/// The file extensions of each material type.
pub open spec fn material_extensions(t: ResearchMaterialType) -> Seq<Seq<char>> {
    match t {
        ResearchMaterialType::Pdf => seq!["pdf"@],
        ResearchMaterialType::Image => seq![
            "jpg"@,
            "jpeg"@,
            "png"@,
            "gif"@,
            "bmp"@,
            "svg"@,
            "webp"@,
        ],
        ResearchMaterialType::WebLink => Seq::empty(),
        ResearchMaterialType::Citation => seq!["bib"@, "ris"@],
        ResearchMaterialType::Note => seq!["txt"@, "md"@],
        ResearchMaterialType::Audio => seq!["mp3"@, "wav"@, "ogg"@, "m4a"@],
        ResearchMaterialType::Video => seq!["mp4"@, "avi"@, "mov"@, "wmv"@, "flv"@],
    }
}

/// Parses a stored material type name; any other text is a validation error.
pub fn parse_material_type(type_str: &str) -> (r: Result<ResearchMaterialType, DatabaseError>)
    ensures
        match r {
            Ok(t) => material_type_from_name(type_str@) == Some(t),
            Err(e) => material_type_from_name(type_str@) is None && e is ValidationError
                && e.spec_message() == "Validation error: "@ + "Unknown material type: "@
                + type_str@,
        },
{
    if str_eq(type_str, "Pdf") {
        Ok(ResearchMaterialType::Pdf)
    } else if str_eq(type_str, "Image") {
        Ok(ResearchMaterialType::Image)
    } else if str_eq(type_str, "WebLink") {
        Ok(ResearchMaterialType::WebLink)
    } else if str_eq(type_str, "Citation") {
        Ok(ResearchMaterialType::Citation)
    } else if str_eq(type_str, "Note") {
        Ok(ResearchMaterialType::Note)
    } else if str_eq(type_str, "Audio") {
        Ok(ResearchMaterialType::Audio)
    } else if str_eq(type_str, "Video") {
        Ok(ResearchMaterialType::Video)
    } else {
        let mut v = chars_of("Unknown material type: ");
        push_str(&mut v, type_str);
        let e = DatabaseError::ValidationError(string_from_chars(&v));
        assert(e.spec_message() =~= "Validation error: "@ + "Unknown material type: "@ + type_str@);
        Err(e)
    }
}

/// Citation styles for academic references.
#[derive(Debug, Clone, Copy, PartialEq, Eq, Hash, Structural)]
pub enum CitationStyle {
    Apa,
    Mla,
    Chicago,
    Harvard,
    Ieee,
    Vancouver,
    Custom,
}

impl CitationStyle {
    /// Name shown to the user.
    pub fn display_name(&self) -> (r: &'static str)
        ensures
            r@ == (match *self {
                CitationStyle::Apa => "APA"@,
                CitationStyle::Mla => "MLA"@,
                CitationStyle::Chicago => "Chicago"@,
                CitationStyle::Harvard => "Harvard"@,
                CitationStyle::Ieee => "IEEE"@,
                CitationStyle::Vancouver => "Vancouver"@,
                CitationStyle::Custom => "Custom"@,
            }),
    {
        match self {
            CitationStyle::Apa => "APA",
            CitationStyle::Mla => "MLA",
            CitationStyle::Chicago => "Chicago",
            CitationStyle::Harvard => "Harvard",
            CitationStyle::Ieee => "IEEE",
            CitationStyle::Vancouver => "Vancouver",
            CitationStyle::Custom => "Custom",
        }
    }
}

/// Research material metadata.
#[derive(Debug, Clone)]
pub struct ResearchMaterial {
    pub id: u128,
    pub project_id: u128,
    pub material_type: ResearchMaterialType,
    pub title: String,
    pub description: Option<String>,
    pub file_path: Option<String>,
    pub url: Option<String>,
    pub author: Option<String>,
    pub publication_date: Option<DateTimeUtc>,
    pub accessed_date: Option<DateTimeUtc>,
    pub tags: Vec<String>,
    /// The material's JSON metadata, as compact JSON text.
    pub metadata: String,
    pub created_at: DateTimeUtc,
    pub updated_at: DateTimeUtc,
    pub file_size: Option<u64>,
    pub thumbnail_path: Option<String>,
    pub extracted_text: Option<String>,
}

/// The text of an optional string, if any.
pub open spec fn opt_text(s: Option<String>) -> Option<Seq<char>> {
    match s {
        Some(t) => Some(t@),
        None => None,
    }
}

/// The author a citation names: the material's author or `Unknown`.
pub open spec fn citation_author(m: ResearchMaterial) -> Seq<char> {
    match m.author {
        Some(a) => a@,
        None => "Unknown"@,
    }
}

/// The year a citation names: the publication year, or `n.d.` without a
/// publication date.
pub open spec fn citation_year(m: ResearchMaterial) -> Seq<char> {
    match m.publication_date {
        Some(d) => match spec_year_of(d.secs, d.nanos) {
            Some(y) => signed_decimal_seq(y as int),
            None => "n.d."@,
        },
        None => "n.d."@,
    }
}

/// A formatted citation in a given style.
pub open spec fn citation_text(m: ResearchMaterial, style: CitationStyle) -> Seq<char> {
    let author = citation_author(m);
    let year = citation_year(m);
    match style {
        CitationStyle::Apa => match m.url {
            Some(u) => author + " ("@ + year + ") "@ + m.title@ + ". Retrieved from "@ + u@,
            None => author + " ("@ + year + "). "@ + m.title@ + "."@,
        },
        CitationStyle::Mla => match m.url {
            Some(u) => author + ". "@ + m.title@ + ". "@ + u@ + "."@,
            None => author + ". "@ + m.title@ + "."@,
        },
        _ => author + " - "@ + m.title@ + " ("@ + year + ")"@,
    }
}

/// How citations read: every style begins with the author (`Unknown` where
/// there is none) and names the title; an MLA citation is the author, a full
/// stop and the title, then the address where there is one, and ends with a
/// full stop; an APA citation gives the year in brackets after the author and
/// ends with the address where there is one.
pub proof fn law_citation_shape(m: ResearchMaterial, style: CitationStyle)
    ensures
        ({
            let a = match m.author {
                Some(x) => x@,
                None => "Unknown"@,
            };
            let y = match m.publication_date {
                Some(d) => match spec_year_of(d.secs, d.nanos) {
                    Some(n) => signed_decimal_seq(n as int),
                    None => "n.d."@,
                },
                None => "n.d."@,
            };
            &&& starts_with_seq(citation_text(m, style), a)
            &&& contains_seq(citation_text(m, style), m.title@)
            &&& starts_with_seq(citation_text(m, CitationStyle::Mla), a + ". "@ + m.title@)
            &&& m.url is None ==> ends_with_seq(citation_text(m, CitationStyle::Mla), "."@)
                && citation_text(m, CitationStyle::Mla).len() == a.len() + m.title@.len() + 3
            &&& m.url matches Some(u) ==> ends_with_seq(citation_text(m, CitationStyle::Mla), ". "@ + u@ + "."@)
            &&& starts_with_seq(citation_text(m, CitationStyle::Apa), a + " ("@ + y + ")"@)
            &&& m.url matches Some(u) ==> ends_with_seq(citation_text(m, CitationStyle::Apa), " Retrieved from "@ + u@)
        }),
{
    let a = citation_author(m);
    let y = citation_year(m);
    let t = m.title@;
    reveal_strlit(". ");
    reveal_strlit(".");
    reveal_strlit(" (");
    reveal_strlit(")");
    reveal_strlit(") ");
    reveal_strlit("). ");
    reveal_strlit(". Retrieved from ");
    reveal_strlit(" Retrieved from ");
    reveal_strlit(" - ");
    let c = citation_text(m, style);
    assert(c.subrange(0, a.len() as int) =~= a);
    let off: int = match style {
        CitationStyle::Apa => match m.url {
            Some(u) => (a + " ("@ + y + ") "@).len() as int,
            None => (a + " ("@ + y + "). "@).len() as int,
        },
        CitationStyle::Mla => (a + ". "@).len() as int,
        _ => (a + " - "@).len() as int,
    };
    assert(c.subrange(off, off + t.len()) =~= t);
    assert(occurs_at(c, t, off));
    let mla = citation_text(m, CitationStyle::Mla);
    assert(mla.subrange(0, (a + ". "@ + t).len() as int) =~= a + ". "@ + t);
    match m.url {
        Some(u) => {
            let e = ". "@ + u@ + "."@;
            assert(mla.subrange(mla.len() - e.len(), mla.len() as int) =~= e);
            let apa = citation_text(m, CitationStyle::Apa);
            let f = " Retrieved from "@ + u@;
            assert(apa.subrange(apa.len() - f.len(), apa.len() as int) =~= f);
            assert(apa.subrange(0, (a + " ("@ + y + ")"@).len() as int) =~= a + " ("@ + y + ")"@);
        },
        None => {
            let apa = citation_text(m, CitationStyle::Apa);
            assert(apa.subrange(0, (a + " ("@ + y + ")"@).len() as int) =~= a + " ("@ + y + ")"@);
            assert(mla.subrange(mla.len() - 1, mla.len() as int) =~= "."@);
        },
    }
}

/// A name for what `std::path::Path::extension` gives for a path text. Path
/// syntax is the target platform's, so the name is fixed for one build.
pub uninterp spec fn spec_path_extension(path: Seq<char>) -> Option<Seq<char>>;

/// The extension of a path (`Path::extension`, as text). Path syntax is std's
/// and is not restated; the result is named by `spec_path_extension`.
#[verifier::external_body]
pub(crate) fn path_extension(path: &str) -> (r: Option<String>)
    ensures
        opt_text(r) == spec_path_extension(path@),
{
    std::path::Path::new(path).extension().map(|e| e.to_string_lossy().to_string())
}

/// A name for whether the `url` crate parses a text as a URL.
pub uninterp spec fn spec_url_parses(text: Seq<char>) -> bool;

/// Whether `url::Url::parse` accepts a text. The URL grammar is the crate's
/// (WHATWG) and is not restated.
#[verifier::external_body]
pub(crate) fn url_is_valid(text: &str) -> (r: bool)
    ensures
        r == spec_url_parses(text@),
{
    url::Url::parse(text).is_ok()
}

impl ResearchMaterial {
    /// A new material of a project: a fresh identifier, created and updated now,
    /// `null` metadata and no other details.
    pub fn new(project_id: u128, material_type: ResearchMaterialType, title: String) -> (m: Self)
        ensures
            m.project_id == project_id,
            m.material_type == material_type,
            m.title == title,
            m.description is None && m.file_path is None && m.url is None && m.author is None,
            m.publication_date is None && m.accessed_date is None,
            m.tags@.len() == 0,
            m.metadata@ == "null"@,
            m.file_size is None && m.thumbnail_path is None && m.extracted_text is None,
            m.created_at == m.updated_at,
    {
        let now = utc_now();
        ResearchMaterial {
            id: new_uuid(),
            project_id,
            material_type,
            title,
            description: None,
            file_path: None,
            url: None,
            author: None,
            publication_date: None,
            accessed_date: None,
            tags: Vec::new(),
            metadata: to_owned_string("null"),
            created_at: now,
            updated_at: now,
            file_size: None,
            thumbnail_path: None,
            extracted_text: None,
        }
    }

    /// Whether the material has a non-empty URL.
    pub fn has_url(&self) -> (r: bool)
        ensures
            r == (self.url matches Some(u) && u@.len() > 0),
    {
        match &self.url {
            Some(u) => u.as_str().unicode_len() > 0,
            None => false,
        }
    }

    /// The lower-cased extension of the material's file, if it has one.
    pub fn file_extension(&self) -> (r: Option<String>)
        ensures
            opt_text(r) == (match self.file_path {
                Some(p) => match spec_path_extension(p@) {
                    Some(e) => Some(spec_to_lowercase(e)),
                    None => None,
                },
                None => None,
            }),
    {
        match &self.file_path {
            Some(p) => match path_extension(p.as_str()) {
                Some(e) => Some(to_lowercase(e.as_str())),
                None => None,
            },
            None => None,
        }
    }

    /// Whether the URL starts with `https://`.
    pub fn is_secure_url(&self) -> (r: bool)
        ensures
            r == (self.url matches Some(u) && starts_with_seq(u@, "https://"@)),
    {
        match &self.url {
            Some(u) => starts_with(&chars_of(u.as_str()), &chars_of("https://")),
            None => false,
        }
    }

    /// Whether the URL is one the `url` crate accepts.
    pub fn is_valid_url(&self) -> (r: bool)
        ensures
            r == (self.url matches Some(u) && spec_url_parses(u@)),
    {
        match &self.url {
            Some(u) => url_is_valid(u.as_str()),
            None => false,
        }
    }

    /// The material's citation in a style: APA and MLA have their own shapes
    /// (with the URL where there is one), the other styles share one.
    pub fn format_citation(&self, style: CitationStyle) -> (r: String)
        ensures
            r@ == citation_text(*self, style),
    {
        let author: Vec<char> = match &self.author {
            Some(a) => chars_of(a.as_str()),
            None => chars_of("Unknown"),
        };
        let mut year: Vec<char> = Vec::new();
        match self.publication_date {
            Some(d) => match year_of(d) {
                Some(y) => push_signed_decimal(&mut year, y as i64),
                None => push_str(&mut year, "n.d."),
            },
            None => push_str(&mut year, "n.d."),
        }
        assert(year@ =~= citation_year(*self));
        let title = chars_of(self.title.as_str());
        let mut v: Vec<char> = Vec::new();
        match style {
            CitationStyle::Apa => match &self.url {
                Some(u) => {
                    push_all(&mut v, &author);
                    push_str(&mut v, " (");
                    push_all(&mut v, &year);
                    push_str(&mut v, ") ");
                    push_all(&mut v, &title);
                    push_str(&mut v, ". Retrieved from ");
                    push_str(&mut v, u.as_str());
                },
                None => {
                    push_all(&mut v, &author);
                    push_str(&mut v, " (");
                    push_all(&mut v, &year);
                    push_str(&mut v, "). ");
                    push_all(&mut v, &title);
                    push_str(&mut v, ".");
                },
            },
            CitationStyle::Mla => match &self.url {
                Some(u) => {
                    push_all(&mut v, &author);
                    push_str(&mut v, ". ");
                    push_all(&mut v, &title);
                    push_str(&mut v, ". ");
                    push_str(&mut v, u.as_str());
                    push_str(&mut v, ".");
                },
                None => {
                    push_all(&mut v, &author);
                    push_str(&mut v, ". ");
                    push_all(&mut v, &title);
                    push_str(&mut v, ".");
                },
            },
            _ => {
                push_all(&mut v, &author);
                push_str(&mut v, " - ");
                push_all(&mut v, &title);
                push_str(&mut v, " (");
                push_all(&mut v, &year);
                push_str(&mut v, ")");
            },
        }
        assert(v@ =~= citation_text(*self, style));
        string_from_chars(&v)
    }
}


/// How a query lays out the rows of research materials; the layouts differ in
/// whether the description may be missing and in how the file size is read.
#[derive(Debug, Clone, Copy, PartialEq, Eq, Structural)]
pub enum MaterialRowLayout {
    /// A single material fetched by its identifier: the description may be
    /// `NULL`; the file size is read as a signed number.
    ById,
    /// A listing of a project's materials or a search result: the description
    /// is required; the file size is read as a signed number.
    Listing,
    /// The materials of a collection: the description is required; the file
    /// size is read as an unsigned number.
    InCollection,
}

#[verifier::opaque]
/// The first reason, if any, why a row cannot be read as a material: whether the
/// error is a validation error (rather than a service error), and the error's detail.
pub open spec fn material_row_failure(v: Seq<Option<String>>, layout: MaterialRowLayout) -> Option<(bool, Seq<char>)> {
    if cell_of(v, 0) is None {
        Some((false, "Failed to get ID"@))
    } else if spec_parse_uuid(cell_of(v, 0)->0) is None {
        Some((false, "Failed to parse UUID: "@ + spec_uuid_error_text(cell_of(v, 0)->0)))
    } else if cell_of(v, 1) is None {
        Some((false, "Failed to get project ID"@))
    } else if spec_parse_uuid(cell_of(v, 1)->0) is None {
        Some((false, "Failed to parse UUID: "@ + spec_uuid_error_text(cell_of(v, 1)->0)))
    } else if cell_of(v, 2) is None {
        Some((false, "Failed to get material type"@))
    } else if material_type_from_name(cell_of(v, 2)->0) is None {
        Some((true, "Unknown material type: "@ + cell_of(v, 2)->0))
    } else if cell_of(v, 3) is None {
        Some((false, "Failed to get title"@))
    } else if layout != MaterialRowLayout::ById && cell_of(v, 4) is None {
        Some((false, "Failed to get description"@))
    } else if cell_of(v, 7) is None {
        Some((false, "Failed to get author"@))
    } else if cell_of(v, 10) is None {
        Some((false, "Failed to get tags"@))
    } else if cell_of(v, 11) is None {
        Some((false, "Failed to get metadata"@))
    } else if cell_of(v, 12) is None {
        Some((false, "Failed to get created_at"@))
    } else if spec_parse_rfc3339(cell_of(v, 12)->0) is None {
        Some((false, "Failed to parse datetime: "@ + spec_rfc3339_error_text(cell_of(v, 12)->0)))
    } else if cell_of(v, 13) is None {
        Some((false, "Failed to get updated_at"@))
    } else if spec_parse_rfc3339(cell_of(v, 13)->0) is None {
        Some((false, "Failed to parse datetime: "@ + spec_rfc3339_error_text(cell_of(v, 13)->0)))
    } else {
        None
    }
}

/// Whether an error reports a row failure: a validation error or a service
/// error with the failure's detail.
pub open spec fn row_error_is(e: DatabaseError, f: (bool, Seq<char>)) -> bool {
    if f.0 {
        e is ValidationError && e->ValidationError_0@ == f.1
    } else {
        e is Service && e->Service_0@ == f.1
    }
}

/// A stored path: present when the cell holds a non-empty text.
pub open spec fn path_cell(c: Option<Seq<char>>) -> Option<Seq<char>> {
    match c {
        Some(t) => if t.len() > 0 { Some(t) } else { None },
        None => None,
    }
}

/// A stored date-time: present when the cell holds a text chrono accepts.
pub open spec fn date_cell(c: Option<Seq<char>>) -> Option<DateTimeUtc> {
    match c {
        Some(t) => match spec_parse_rfc3339(t) {
            Some(p) => Some(DateTimeUtc { secs: p.0, nanos: p.1 }),
            None => None,
        },
        None => None,
    }
}

/// A stored file size: the number the cell holds, read as `i64` (and
/// reinterpreted as unsigned) or as `u64` depending on the layout.
pub open spec fn size_cell(c: Option<Seq<char>>, layout: MaterialRowLayout) -> Option<u64> {
    match c {
        Some(t) => if layout == MaterialRowLayout::InCollection {
            spec_parse_u64(t)
        } else {
            match spec_parse_i64(t) {
                Some(x) => Some(x as u64),
                None => None,
            }
        },
        None => None,
    }
}

#[verifier::opaque]
/// The material that a row holds, once it passes `material_row_failure`.
pub open spec fn material_matches_row(m: ResearchMaterial, v: Seq<Option<String>>, layout: MaterialRowLayout) -> bool {
    &&& Some(m.id) == spec_parse_uuid(cell_of(v, 0)->0)
    &&& Some(m.project_id) == spec_parse_uuid(cell_of(v, 1)->0)
    &&& Some(m.material_type) == material_type_from_name(cell_of(v, 2)->0)
    &&& m.title@ == cell_of(v, 3)->0
    &&& opt_text(m.description) == cell_of(v, 4)
    &&& opt_text(m.file_path) == path_cell(cell_of(v, 5))
    &&& opt_text(m.url) == cell_of(v, 6)
    &&& opt_text(m.author) == cell_of(v, 7)
    &&& m.publication_date == date_cell(cell_of(v, 8))
    &&& m.accessed_date == date_cell(cell_of(v, 9))
    &&& m.tags@.map_values(|t: String| t@) == (match spec_json_string_list(cell_of(v, 10)->0) {
        Some(l) => l,
        None => Seq::<Seq<char>>::empty(),
    })
    &&& m.metadata@ == spec_json_normalized(cell_of(v, 11)->0)
    &&& Some(m.created_at) == date_cell(cell_of(v, 12))
    &&& Some(m.updated_at) == date_cell(cell_of(v, 13))
    &&& m.file_size == size_cell(cell_of(v, 14), layout)
    &&& opt_text(m.thumbnail_path) == path_cell(cell_of(v, 15))
    &&& opt_text(m.extracted_text) == cell_of(v, 16)
}

/// A service error with a given detail.
fn service_error(detail: &str) -> (e: DatabaseError)
    ensures
        e is Service,
        e->Service_0@ == detail@,
{
    DatabaseError::Service(to_owned_string(detail))
}

/// A service error whose detail is a prefix followed by a text.
fn service_error2(prefix: &str, detail: &str) -> (e: DatabaseError)
    ensures
        e is Service,
        e->Service_0@ == prefix@ + detail@,
{
    let mut v = chars_of(prefix);
    push_str(&mut v, detail);
    DatabaseError::Service(string_from_chars(&v))
}

/// A required cell: its text, or a service error with the given detail.
fn required_cell<'a>(row: &'a DatabaseRow, index: usize, missing: &str) -> (r: Result<&'a str, DatabaseError>)
    ensures
        match r {
            Ok(t) => row.cell(index as int) == Some(t@),
            Err(e) => row.cell(index as int) is None && e is Service && e->Service_0@ == missing@,
        },
{
    match row.get(index) {
        Some(t) => Ok(t),
        None => Err(service_error(missing)),
    }
}

/// An optional cell as an owned string.
fn optional_cell(row: &DatabaseRow, index: usize) -> (r: Option<String>)
    ensures
        opt_text(r) == row.cell(index as int),
{
    match row.get(index) {
        Some(t) => Some(to_owned_string(t)),
        None => None,
    }
}

/// An optional path cell: present when non-empty.
fn path_from_cell(row: &DatabaseRow, index: usize) -> (r: Option<String>)
    ensures
        opt_text(r) == path_cell(row.cell(index as int)),
{
    match row.get(index) {
        Some(t) => if t.unicode_len() == 0 {
            None
        } else {
            Some(to_owned_string(t))
        },
        None => None,
    }
}

/// An optional date-time cell: present when chrono accepts it.
fn date_from_cell(row: &DatabaseRow, index: usize) -> (r: Option<DateTimeUtc>)
    ensures
        r == date_cell(row.cell(index as int)),
{
    match row.get(index) {
        Some(t) => parse_rfc3339(t),
        None => None,
    }
}

/// A required date-time cell.
fn required_date(row: &DatabaseRow, index: usize, missing: &str) -> (r: Result<DateTimeUtc, DatabaseError>)
    ensures
        match r {
            Ok(d) => Some(d) == date_cell(row.cell(index as int)),
            Err(e) => e is Service && (
                (row.cell(index as int) is None && e->Service_0@ == missing@)
                || (row.cell(index as int) is Some && spec_parse_rfc3339(row.cell(index as int)->0) is None
                    && e->Service_0@ == "Failed to parse datetime: "@ + spec_rfc3339_error_text(row.cell(index as int)->0))),
        },
{
    let t = required_cell(row, index, missing)?;
    match parse_rfc3339_text(t) {
        Ok(d) => Ok(d),
        Err(msg) => Err(service_error2("Failed to parse datetime: ", msg.as_str())),
    }
}

/// A required UUID cell.
fn required_uuid(row: &DatabaseRow, index: usize, missing: &str) -> (r: Result<u128, DatabaseError>)
    ensures
        match r {
            Ok(u) => row.cell(index as int) is Some && Some(u) == spec_parse_uuid(row.cell(index as int)->0),
            Err(e) => e is Service && (
                (row.cell(index as int) is None && e->Service_0@ == missing@)
                || (row.cell(index as int) is Some && spec_parse_uuid(row.cell(index as int)->0) is None
                    && e->Service_0@ == "Failed to parse UUID: "@ + spec_uuid_error_text(row.cell(index as int)->0))),
        },
{
    let t = required_cell(row, index, missing)?;
    match parse_uuid_text(t) {
        Ok(u) => Ok(u),
        Err(msg) => Err(service_error2("Failed to parse UUID: ", msg.as_str())),
    }
}

/// Reads a research material from a stored row (columns in table order:
/// id, project, type, title, description, file path, URL, author, publication
/// and access dates, tags, metadata, creation and update times, file size,
/// thumbnail path, extracted text). Fails with the first problem that
/// `material_row_failure` names.
pub fn material_from_row(row: &DatabaseRow, layout: MaterialRowLayout) -> (r: Result<ResearchMaterial, DatabaseError>)
    ensures
        match r {
            Ok(m) => material_row_failure(row.value_cells(), layout) is None
                && material_matches_row(m, row.value_cells(), layout),
            Err(e) => match material_row_failure(row.value_cells(), layout) {
                Some(f) => row_error_is(e, f),
                None => false,
            },
        },
{
    reveal(material_row_failure);
    reveal(material_matches_row);
    let id = required_uuid(row, 0, "Failed to get ID")?;
    let project_id = required_uuid(row, 1, "Failed to get project ID")?;
    let type_text = required_cell(row, 2, "Failed to get material type")?;
    let material_type = match parse_material_type(type_text) {
        Ok(t) => t,
        Err(_) => {
            let mut v = chars_of("Unknown material type: ");
            push_str(&mut v, type_text);
            return Err(DatabaseError::ValidationError(string_from_chars(&v)));
        },
    };
    let title = to_owned_string(required_cell(row, 3, "Failed to get title")?);
    let description = match layout {
        MaterialRowLayout::ById => optional_cell(row, 4),
        _ => Some(to_owned_string(required_cell(row, 4, "Failed to get description")?)),
    };
    let file_path = path_from_cell(row, 5);
    let url = optional_cell(row, 6);
    let author = Some(to_owned_string(required_cell(row, 7, "Failed to get author")?));
    let publication_date = date_from_cell(row, 8);
    let accessed_date = date_from_cell(row, 9);
    let tags = parse_json_string_list(required_cell(row, 10, "Failed to get tags")?);
    let metadata = normalize_json(required_cell(row, 11, "Failed to get metadata")?);
    let created_at = required_date(row, 12, "Failed to get created_at")?;
    let updated_at = required_date(row, 13, "Failed to get updated_at")?;
    let file_size: Option<u64> = match row.get(14) {
        Some(t) => match layout {
            MaterialRowLayout::InCollection => parse_u64(t),
            _ => match parse_i64(t) {
                Some(x) => Some(x as u64),
                None => None,
            },
        },
        None => None,
    };
    let thumbnail_path = path_from_cell(row, 15);
    let extracted_text = optional_cell(row, 16);
    Ok(ResearchMaterial {
        id,
        project_id,
        material_type,
        title,
        description,
        file_path,
        url,
        author,
        publication_date,
        accessed_date,
        tags,
        metadata,
        created_at,
        updated_at,
        file_size,
        thumbnail_path,
        extracted_text,
    })
}

/// Reads every row of a query result as a material, failing on the first row
/// that cannot be read.
pub fn materials_from_rows(rows: &QueryResult, layout: MaterialRowLayout) -> (r: Result<Vec<ResearchMaterial>, DatabaseError>)
    ensures
        match r {
            Ok(ms) => ms@.len() == rows.rows@.len()
                && (forall|i: int| #![trigger rows.rows@[i]] 0 <= i < ms@.len() ==>
                    material_row_failure(rows.rows@[i].value_cells(), layout) is None)
                && (forall|i: int| #![trigger ms@[i]] 0 <= i < ms@.len() ==>
                    material_matches_row(ms@[i], rows.rows@[i].value_cells(), layout)),
            Err(e) => exists|i: int| #![trigger rows.rows@[i]] 0 <= i < rows.rows@.len()
                && material_row_failure(rows.rows@[i].value_cells(), layout) is Some
                && row_error_is(e, material_row_failure(rows.rows@[i].value_cells(), layout)->0)
                && (forall|j: int| #![trigger rows.rows@[j]] 0 <= j < i ==>
                    material_row_failure(rows.rows@[j].value_cells(), layout) is None),
        },
{
    let mut ms: Vec<ResearchMaterial> = Vec::new();
    let mut i: usize = 0;
    while i < rows.rows.len()
        invariant
            i <= rows.rows@.len(),
            ms@.len() == i,
            forall|j: int| #![trigger rows.rows@[j]] 0 <= j < i ==>
                material_row_failure(rows.rows@[j].value_cells(), layout) is None,
            forall|j: int| #![trigger ms@[j]] 0 <= j < i ==>
                material_matches_row(ms@[j], rows.rows@[j].value_cells(), layout),
        decreases rows.rows@.len() - i,
    {
        match material_from_row(&rows.rows[i], layout) {
            Ok(m) => ms.push(m),
            Err(e) => {
                assert(material_row_failure(rows.rows@[i as int].value_cells(), layout) is Some);
                return Err(e);
            },
        }
        i += 1;
    }
    Ok(ms)
}


/// Research collection for organizing materials.
#[derive(Debug, Clone)]
pub struct ResearchCollection {
    pub id: u128,
    pub project_id: u128,
    pub name: String,
    pub description: Option<String>,
    /// The identifiers of the collected materials, in the order they were added.
    pub materials: Vec<u128>,
    pub created_at: DateTimeUtc,
    pub updated_at: DateTimeUtc,
}

impl ResearchCollection {
    /// An empty collection of a project.
    pub fn new(project_id: u128, name: String) -> (c: Self)
        ensures
            c.project_id == project_id,
            c.name == name,
            c.description is None,
            c.materials@.len() == 0,
    {
        ResearchCollection {
            id: new_uuid(),
            project_id,
            name,
            description: None,
            materials: Vec::new(),
            created_at: utc_now(),
            updated_at: utc_now(),
        }
    }

    /// Adds a material unless it is already in the collection; the update time
    /// changes only when it is added.
    pub fn add_material(&mut self, material_id: u128)
        ensures
            old(self).materials@.contains(material_id) ==> *final(self) == *old(self),
            !old(self).materials@.contains(material_id) ==> final(self).materials@ == old(
                self,
            ).materials@.push(material_id),
            final(self).id == old(self).id && final(self).project_id == old(self).project_id,
            final(self).name == old(self).name && final(self).description == old(self).description,
            final(self).created_at == old(self).created_at,
            old(self).materials@.no_duplicates() ==> final(self).materials@.no_duplicates(),
    {
        let mut i: usize = 0;
        while i < self.materials.len()
            invariant
                i <= self.materials@.len(),
                forall|j: int| 0 <= j < i ==> self.materials@[j] != material_id,
            decreases self.materials@.len() - i,
        {
            if self.materials[i] == material_id {
                assert(self.materials@[i as int] == material_id);
                return;
            }
            i += 1;
        }
        proof {
            if self.materials@.contains(material_id) {
                let j = choose|j: int| 0 <= j < self.materials@.len() && self.materials@[j] == material_id;
            }
        }
        let ghost before = self.materials@;
        self.materials.push(material_id);
        self.updated_at = utc_now();
        proof {
            let after = self.materials@;
            if before.no_duplicates() {
                assert forall|a: int, b: int| 0 <= a < after.len() && 0 <= b < after.len() && a != b
                    implies after[a] != after[b] by {
                    if a == after.len() - 1 {
                        assert(before[b] == after[b]);
                    } else if b == after.len() - 1 {
                        assert(before[a] == after[a]);
                    }
                }
            }
        }
    }

    /// Removes the first occurrence of a material; the update time changes only
    /// when one is removed.
    pub fn remove_material(&mut self, material_id: u128)
        ensures
            !old(self).materials@.contains(material_id) ==> *final(self) == *old(self),
            old(self).materials@.contains(material_id) ==> exists|i: int|
                0 <= i < old(self).materials@.len() && old(self).materials@[i] == material_id
                && (forall|j: int| 0 <= j < i ==> old(self).materials@[j] != material_id)
                && final(self).materials@ == old(self).materials@.remove(i),
            final(self).id == old(self).id && final(self).project_id == old(self).project_id,
            final(self).name == old(self).name && final(self).description == old(self).description,
            final(self).created_at == old(self).created_at,
    {
        let mut i: usize = 0;
        while i < self.materials.len()
            invariant
                i <= self.materials@.len(),
                *self == *old(self),
                forall|j: int| 0 <= j < i ==> self.materials@[j] != material_id,
            decreases self.materials@.len() - i,
        {
            if self.materials[i] == material_id {
                let ghost before = self.materials@;
                self.materials.remove(i);
                self.updated_at = utc_now();
                assert(before[i as int] == material_id);
                assert(self.materials@ == before.remove(i as int));
                return;
            }
            i += 1;
        }
        proof {
            if self.materials@.contains(material_id) {
                let j = choose|j: int| 0 <= j < self.materials@.len() && self.materials@[j] == material_id;
            }
        }
    }
}

/// Citation reference for a bibliography.
#[derive(Debug, Clone)]
pub struct CitationReference {
    pub id: u128,
    pub material_id: u128,
    pub citation_style: CitationStyle,
    pub formatted_citation: String,
    pub bibliography_entry: String,
    pub in_text_citation: String,
    pub created_at: DateTimeUtc,
}

/// The in-text form of a citation.
pub open spec fn in_text_citation_text(m: ResearchMaterial, style: CitationStyle) -> Seq<char> {
    match style {
        CitationStyle::Apa => "("@ + citation_author(m) + " "@ + citation_year(m) + ")"@,
        CitationStyle::Mla => "("@ + citation_author(m) + ")"@,
        _ => "(citation)"@,
    }
}

impl CitationReference {
    /// The citation of a material in a style: the formatted citation, the
    /// bibliography entry (the citation, `. ` and the description) and the
    /// in-text form.
    pub fn new(material_id: u128, material: &ResearchMaterial, style: CitationStyle) -> (c: Self)
        ensures
            c.material_id == material_id,
            c.citation_style == style,
            c.formatted_citation@ == citation_text(*material, style),
            c.bibliography_entry@ == citation_text(*material, style) + ". "@ + (match material.description {
                Some(d) => d@,
                None => Seq::<char>::empty(),
            }),
            c.in_text_citation@ == in_text_citation_text(*material, style),
    {
        let formatted = material.format_citation(style);
        let mut b = chars_of(formatted.as_str());
        push_str(&mut b, ". ");
        match &material.description {
            Some(d) => push_str(&mut b, d.as_str()),
            None => {},
        }
        let author: Vec<char> = match &material.author {
            Some(a) => chars_of(a.as_str()),
            None => chars_of("Unknown"),
        };
        let mut t: Vec<char> = Vec::new();
        match style {
            CitationStyle::Apa => {
                push_str(&mut t, "(");
                push_all(&mut t, &author);
                push_str(&mut t, " ");
                match material.publication_date {
                    Some(d) => match year_of(d) {
                        Some(y) => push_signed_decimal(&mut t, y as i64),
                        None => push_str(&mut t, "n.d."),
                    },
                    None => push_str(&mut t, "n.d."),
                }
                push_str(&mut t, ")");
            },
            CitationStyle::Mla => {
                push_str(&mut t, "(");
                push_all(&mut t, &author);
                push_str(&mut t, ")");
            },
            _ => push_str(&mut t, "(citation)"),
        }
        assert(t@ =~= in_text_citation_text(*material, style));
        CitationReference {
            id: new_uuid(),
            material_id,
            citation_style: style,
            formatted_citation: formatted,
            bibliography_entry: string_from_chars(&b),
            in_text_citation: string_from_chars(&t),
            created_at: utc_now(),
        }
    }
}

/// The first rule, if any, that a material breaks: a blank title, a URL the
/// `url` crate rejects, or a file path that does not exist.
pub open spec fn material_validation_failure(m: ResearchMaterial, file_exists: bool) -> Option<Seq<char>> {
    if trim_seq(m.title@).len() == 0 {
        Some("Material title cannot be empty"@)
    } else if m.url is Some && !spec_url_parses(m.url->0@) {
        Some("Invalid URL: "@ + m.url->0@)
    } else if m.file_path is Some && !file_exists {
        Some("File does not exist: "@ + m.file_path->0@)
    } else {
        None
    }
}

/// Validates a material before it is stored; `file_exists` tells whether the
/// material's file path (if any) names an existing file.
pub fn validate_material(material: &ResearchMaterial, file_exists: bool) -> (r: Result<(), DatabaseError>)
    ensures
        match material_validation_failure(*material, file_exists) {
            Some(msg) => r matches Err(e) && e is ValidationError && e->ValidationError_0@ == msg,
            None => r is Ok,
        },
{
    if is_blank(&chars_of(material.title.as_str())) {
        return Err(DatabaseError::ValidationError(to_owned_string("Material title cannot be empty")));
    }
    match &material.url {
        Some(u) => if !url_is_valid(u.as_str()) {
            let mut v = chars_of("Invalid URL: ");
            push_str(&mut v, u.as_str());
            return Err(DatabaseError::ValidationError(string_from_chars(&v)));
        },
        None => {},
    }
    match &material.file_path {
        Some(p) => if !file_exists {
            let mut v = chars_of("File does not exist: ");
            push_str(&mut v, p.as_str());
            return Err(DatabaseError::ValidationError(string_from_chars(&v)));
        },
        None => {},
    }
    Ok(())
}

/// An optional text, or the empty text.
pub open spec fn text_or_empty(s: Option<String>) -> Seq<char> {
    match s {
        Some(t) => t@,
        None => Seq::empty(),
    }
}

/// An optional date-time as RFC 3339 text, or the empty text.
pub open spec fn date_text_or_empty(d: Option<DateTimeUtc>) -> Seq<char> {
    match d {
        Some(t) => spec_rfc3339_text(t.secs, t.nanos),
        None => Seq::empty(),
    }
}

/// The parameters with which a material is inserted, in column order.
pub open spec fn material_insert_texts(m: ResearchMaterial) -> Seq<Seq<char>> {
    seq![
        spec_uuid_text(m.id),
        spec_uuid_text(m.project_id),
        material_type_name(m.material_type),
        m.title@,
        text_or_empty(m.description),
        text_or_empty(m.file_path),
        text_or_empty(m.url),
        text_or_empty(m.author),
        date_text_or_empty(m.publication_date),
        date_text_or_empty(m.accessed_date),
        spec_json_encode_string_list(m.tags@.map_values(|t: String| t@)),
        m.metadata@,
        match m.file_size {
            Some(n) => signed_decimal_seq((n as i64) as int),
            None => Seq::empty(),
        },
        text_or_empty(m.thumbnail_path),
        text_or_empty(m.extracted_text),
    ]
}

fn owned_or_empty(s: &Option<String>) -> (r: String)
    ensures
        r@ == text_or_empty(*s),
{
    match s {
        Some(t) => t.clone(),
        None => String::new(),
    }
}

fn date_or_empty(d: Option<DateTimeUtc>) -> (r: String)
    ensures
        r@ == date_text_or_empty(d),
{
    match d {
        Some(t) => rfc3339_text(t),
        None => String::new(),
    }
}

/// The parameters of the statement that stores a new material.
pub fn material_insert_params(m: &ResearchMaterial) -> (p: Vec<String>)
    ensures
        p@.map_values(|t: String| t@) == material_insert_texts(*m),
{
    let mut p: Vec<String> = Vec::new();
    p.push(uuid_text(m.id));
    p.push(uuid_text(m.project_id));
    p.push(to_owned_string(m.material_type.storage_name()));
    p.push(m.title.clone());
    p.push(owned_or_empty(&m.description));
    p.push(owned_or_empty(&m.file_path));
    p.push(owned_or_empty(&m.url));
    p.push(owned_or_empty(&m.author));
    p.push(date_or_empty(m.publication_date));
    p.push(date_or_empty(m.accessed_date));
    p.push(encode_json_string_list(&m.tags));
    p.push(m.metadata.clone());
    let size_text = match m.file_size {
        Some(n) => {
            let mut v: Vec<char> = Vec::new();
            push_signed_decimal(&mut v, n as i64);
            string_from_chars(&v)
        },
        None => String::new(),
    };
    p.push(size_text);
    p.push(owned_or_empty(&m.thumbnail_path));
    p.push(owned_or_empty(&m.extracted_text));
    assert(p@.map_values(|t: String| t@) =~= material_insert_texts(*m));
    p
}

/// Research search parameters.
#[derive(Debug, Clone)]
pub struct ResearchSearch {
    pub query: String,
    pub material_types: Vec<ResearchMaterialType>,
    pub tags: Vec<String>,
    pub date_range: Option<(DateTimeUtc, DateTimeUtc)>,
    pub author: Option<String>,
    pub has_file: Option<bool>,
    pub has_url: Option<bool>,
    pub is_https: Option<bool>,
}

/// The parameters of a material search: the query, the type names and the tags
/// each joined by commas, a limit of 100 and an offset of 0.
pub open spec fn search_param_texts(search: ResearchSearch) -> Seq<Seq<char>> {
    seq![
        search.query@,
        join_seq(search.material_types@.map_values(|t: ResearchMaterialType| material_type_name(t)), ","@),
        join_seq(search.tags@.map_values(|t: String| t@), ","@),
        "100"@,
        "0"@,
    ]
}

/// The parameters with which a material search runs.
pub fn search_params(search: &ResearchSearch) -> (p: Vec<String>)
    ensures
        p@.map_values(|t: String| t@) == search_param_texts(*search),
{
    let mut names: Vec<String> = Vec::new();
    let mut i: usize = 0;
    while i < search.material_types.len()
        invariant
            i <= search.material_types@.len(),
            names@.len() == i,
            names@.map_values(|t: String| t@) == search.material_types@.subrange(0, i as int).map_values(
                |t: ResearchMaterialType| material_type_name(t),
            ),
        decreases search.material_types@.len() - i,
    {
        let name = to_owned_string(search.material_types[i].storage_name());
        let ghost before = names@;
        names.push(name);
        assert(names@ == before.push(name));
        i += 1;
        proof {
            let a = names@.map_values(|t: String| t@);
            let b = search.material_types@.subrange(0, i as int).map_values(
                |t: ResearchMaterialType| material_type_name(t),
            );
            let a0 = before.map_values(|t: String| t@);
            let b0 = search.material_types@.subrange(0, i - 1).map_values(
                |t: ResearchMaterialType| material_type_name(t),
            );
            assert forall|k: int| 0 <= k < i implies a[k] == b[k] by {
                if k < i - 1 {
                    assert(a0[k] == b0[k]);
                    assert(a[k] == a0[k]);
                    assert(b[k] == b0[k]);
                }
            }
            assert(a =~= b);
        }
    }
    assert(search.material_types@.subrange(0, i as int) =~= search.material_types@);
    let mut p: Vec<String> = Vec::new();
    p.push(search.query.clone());
    p.push(join_strings(&names, ","));
    p.push(join_strings(&search.tags, ","));
    p.push(to_owned_string("100"));
    p.push(to_owned_string("0"));
    assert(p@.map_values(|t: String| t@) =~= search_param_texts(*search));
    p
}

/// Research analytics and statistics.
#[derive(Debug, Clone)]
pub struct ResearchAnalytics {
    pub total_materials: usize,
    /// Count of materials per type, in the order the types are declared.
    pub materials_by_type: Vec<(ResearchMaterialType, usize)>,
    pub total_file_size: u64,
    pub average_access_date: Option<DateTimeUtc>,
    pub most_used_tags: Vec<(String, usize)>,
    pub citation_count: usize,
    pub https_links_count: usize,
    pub pdf_count: usize,
    pub image_count: usize,
}

/// The count a `COUNT(*)`/`SUM` query reports: the first column of its first
/// row read as `i64`, or zero when missing or unreadable.
pub open spec fn reported_count(q: QueryResult) -> i64 {
    if q.rows@.len() > 0 && q.rows@[0].cell(0) is Some {
        match spec_parse_i64(q.rows@[0].cell(0)->0) {
            Some(v) => v,
            None => 0,
        }
    } else {
        0
    }
}

/// Reads the count a query reports.
pub fn count_from_result(q: &QueryResult) -> (n: i64)
    ensures
        n == reported_count(*q),
{
    match q.first() {
        Some(row) => match row.get(0) {
            Some(t) => match parse_i64(t) {
                Some(v) => v,
                None => 0,
            },
            None => 0,
        },
        None => 0,
    }
}

/// The material type a grouped row names (its first column).
pub open spec fn row_type(row: DatabaseRow) -> Option<ResearchMaterialType> {
    material_type_from_name(match row.cell(0) {
        Some(t) => t,
        None => Seq::empty(),
    })
}

/// The count a grouped row gives (its second column as `usize`, zero when
/// missing or unreadable).
pub open spec fn row_count(row: DatabaseRow) -> usize {
    match spec_parse_usize(match row.cell(1) {
        Some(t) => t,
        None => "0"@,
    }) {
        Some(c) => c,
        None => 0,
    }
}

/// The count of the last grouped row that names a type.
pub open spec fn last_count(rows: Seq<DatabaseRow>, t: ResearchMaterialType) -> Option<usize>
    decreases rows.len(),
{
    if rows.len() == 0 {
        None
    } else if row_type(rows.last()) == Some(t) {
        Some(row_count(rows.last()))
    } else {
        last_count(rows.drop_last(), t)
    }
}

/// The counted types in declaration order.
pub open spec fn counted_types(rows: Seq<DatabaseRow>) -> Seq<(ResearchMaterialType, usize)> {
    type_entry(rows, ResearchMaterialType::Pdf) + type_entry(rows, ResearchMaterialType::Image)
        + type_entry(rows, ResearchMaterialType::WebLink) + type_entry(rows, ResearchMaterialType::Citation)
        + type_entry(rows, ResearchMaterialType::Note) + type_entry(rows, ResearchMaterialType::Audio)
        + type_entry(rows, ResearchMaterialType::Video)
}

/// The entry for one type, if any row counts it.
pub open spec fn type_entry(rows: Seq<DatabaseRow>, t: ResearchMaterialType) -> Seq<(ResearchMaterialType, usize)> {
    match last_count(rows, t) {
        Some(c) => seq![(t, c)],
        None => Seq::empty(),
    }
}

fn type_slot(t: ResearchMaterialType) -> (i: usize)
    ensures
        i < 7,
        i == slot_of(t),
{
    match t {
        ResearchMaterialType::Pdf => 0,
        ResearchMaterialType::Image => 1,
        ResearchMaterialType::WebLink => 2,
        ResearchMaterialType::Citation => 3,
        ResearchMaterialType::Note => 4,
        ResearchMaterialType::Audio => 5,
        ResearchMaterialType::Video => 6,
    }
}

/// Position of a type in declaration order.
pub open spec fn slot_of(t: ResearchMaterialType) -> nat {
    match t {
        ResearchMaterialType::Pdf => 0,
        ResearchMaterialType::Image => 1,
        ResearchMaterialType::WebLink => 2,
        ResearchMaterialType::Citation => 3,
        ResearchMaterialType::Note => 4,
        ResearchMaterialType::Audio => 5,
        ResearchMaterialType::Video => 6,
    }
}

fn push_entry(out: &mut Vec<(ResearchMaterialType, usize)>, slots: &Vec<Option<usize>>, t: ResearchMaterialType)
    requires
        slots@.len() == 7,
    ensures
        final(out)@ == old(out)@ + match slots@[slot_of(t) as int] {
            Some(c) => seq![(t, c)],
            None => Seq::<(ResearchMaterialType, usize)>::empty(),
        },
{
    match slots[type_slot(t)] {
        Some(c) => {
            out.push((t, c));
        },
        None => {
            assert(old(out)@ + Seq::<(ResearchMaterialType, usize)>::empty() =~= old(out)@);
        },
    }
}

/// Counts materials per type from the rows of a `GROUP BY material_type`
/// query; rows that name no known type are skipped, and a later row for a type
/// replaces an earlier one.
pub fn counts_by_type(rows: &QueryResult) -> (r: Vec<(ResearchMaterialType, usize)>)
    ensures
        r@ == counted_types(rows.rows@),
{
    let mut slots: Vec<Option<usize>> = Vec::new();
    let mut k: usize = 0;
    while k < 7
        invariant
            k <= 7,
            slots@.len() == k,
            forall|j: int| 0 <= j < k ==> slots@[j] is None,
        decreases 7 - k,
    {
        slots.push(None);
        k += 1;
    }
    let mut i: usize = 0;
    while i < rows.rows.len()
        invariant
            i <= rows.rows@.len(),
            slots@.len() == 7,
            forall|t: ResearchMaterialType| #[trigger] slots@[slot_of(t) as int] == last_count(rows.rows@.subrange(0, i as int), t),
        decreases rows.rows@.len() - i,
    {
        let row = &rows.rows[i];
        proof {
            reveal_strlit("");
        }
        let type_text: &str = match row.get(0) {
            Some(t) => t,
            None => {
                assert(""@ =~= Seq::<char>::empty());
                ""
            },
        };
        assert(type_text@ == (match row.cell(0) {
            Some(t) => t,
            None => Seq::<char>::empty(),
        }));
        let count: usize = match parse_usize(match row.get(1) {
            Some(t) => t,
            None => "0",
        }) {
            Some(c) => c,
            None => 0,
        };
        proof {
            reveal_strlit("");
        }
        let ghost pre = rows.rows@.subrange(0, i as int);
        let ghost next = rows.rows@.subrange(0, i + 1);
        assert(next.drop_last() =~= pre);
        assert(next.last() == *row);
        match parse_material_type(type_text) {
            Ok(t) => {
                assert(row_type(*row) == Some(t));
                assert(row_count(*row) == count);
                slots.set(type_slot(t), Some(count));
                assert forall|u: ResearchMaterialType| #[trigger] slots@[slot_of(u) as int] == last_count(next, u) by {
                    if u != t {
                        assert(slot_of(u) != slot_of(t));
                    }
                }
            },
            Err(_) => {
                assert(row_type(*row) is None);
                assert forall|u: ResearchMaterialType| #[trigger] slots@[slot_of(u) as int] == last_count(next, u) by {
                    assert(last_count(next, u) == last_count(pre, u));
                }
            },
        }
        i += 1;
    }
    assert(rows.rows@.subrange(0, i as int) =~= rows.rows@);
    let mut out: Vec<(ResearchMaterialType, usize)> = Vec::new();
    push_entry(&mut out, &slots, ResearchMaterialType::Pdf);
    push_entry(&mut out, &slots, ResearchMaterialType::Image);
    push_entry(&mut out, &slots, ResearchMaterialType::WebLink);
    push_entry(&mut out, &slots, ResearchMaterialType::Citation);
    push_entry(&mut out, &slots, ResearchMaterialType::Note);
    push_entry(&mut out, &slots, ResearchMaterialType::Audio);
    push_entry(&mut out, &slots, ResearchMaterialType::Video);
    assert(slots@[slot_of(ResearchMaterialType::Pdf) as int] == last_count(rows.rows@, ResearchMaterialType::Pdf));
    assert(slots@[slot_of(ResearchMaterialType::Image) as int] == last_count(rows.rows@, ResearchMaterialType::Image));
    assert(slots@[slot_of(ResearchMaterialType::WebLink) as int] == last_count(rows.rows@, ResearchMaterialType::WebLink));
    assert(slots@[slot_of(ResearchMaterialType::Citation) as int] == last_count(rows.rows@, ResearchMaterialType::Citation));
    assert(slots@[slot_of(ResearchMaterialType::Note) as int] == last_count(rows.rows@, ResearchMaterialType::Note));
    assert(slots@[slot_of(ResearchMaterialType::Audio) as int] == last_count(rows.rows@, ResearchMaterialType::Audio));
    assert(slots@[slot_of(ResearchMaterialType::Video) as int] == last_count(rows.rows@, ResearchMaterialType::Video));
    assert(out@ =~= counted_types(rows.rows@));
    out
}

/// The analytics of a project from the results of its counting queries: the
/// totals, HTTPS links, PDFs, images, citations, summed file size, and the
/// per-type counts. Counts are read as `i64` and reinterpreted as unsigned.
pub fn analytics_from_results(
    total: &QueryResult,
    https: &QueryResult,
    pdf: &QueryResult,
    image: &QueryResult,
    citation: &QueryResult,
    size: &QueryResult,
    by_type: &QueryResult,
) -> (a: ResearchAnalytics)
    ensures
        a.total_materials == reported_count(*total) as usize,
        a.https_links_count == reported_count(*https) as usize,
        a.pdf_count == reported_count(*pdf) as usize,
        a.image_count == reported_count(*image) as usize,
        a.citation_count == reported_count(*citation) as usize,
        a.total_file_size == reported_count(*size) as u64,
        a.materials_by_type@ == counted_types(by_type.rows@),
        a.average_access_date is None,
        a.most_used_tags@.len() == 0,
{
    ResearchAnalytics {
        total_materials: count_from_result(total) as usize,
        materials_by_type: counts_by_type(by_type),
        total_file_size: count_from_result(size) as u64,
        average_access_date: None,
        most_used_tags: Vec::new(),
        citation_count: count_from_result(citation) as usize,
        https_links_count: count_from_result(https) as usize,
        pdf_count: count_from_result(pdf) as usize,
        image_count: count_from_result(image) as usize,
    }
}
} // verus!

verus! {

/// A value put into a material's JSON metadata.
#[derive(Debug, Clone, PartialEq, Eq)]
pub enum MetadataValue {
    Bool(bool),
    Text(String),
}

/// A name for what `url::Url::parse` gives as the domain of a text: `None`
/// where the text does not parse, `Some(None)` where the URL has no domain
/// (an IP address, for instance).
pub uninterp spec fn spec_url_domain(text: Seq<char>) -> Option<Option<Seq<char>>>;

/// The domain of a URL, with `url::Url::parse` and `Url::domain`; what
/// counts as a domain is the crate's and is not restated. The result is
/// named by `spec_url_domain`; the URL parses exactly where `url_is_valid`
/// says it does.
#[verifier::external_body]
fn url_domain(text: &str) -> (r: Option<Option<String>>)
    ensures
        r is Some <==> spec_url_parses(text@),
        match r {
            Some(Some(d)) => spec_url_domain(text@) == Some(Some(d@)),
            Some(None) => spec_url_domain(text@) == Some(None::<Seq<char>>),
            None => spec_url_domain(text@) is None,
        },
{
    match url::Url::parse(text) {
        Ok(u) => Some(u.domain().map(|d| d.to_string())),
        Err(_) => None,
    }
}

/// The text after the last dot (all of it without a dot).
pub open spec fn last_label(s: Seq<char>) -> Seq<char>
    decreases s.len(),
{
    if s.len() == 0 {
        s
    } else if s.last() == '.' {
        Seq::empty()
    } else {
        last_label(s.drop_last()).push(s.last())
    }
}

/// The text after the last dot of a domain (`split('.').next_back()`).
pub fn top_level_label(domain: &str) -> (r: String)
    ensures
        r@ == last_label(domain@),
{
    let cs = crate::text::chars_of(domain);
    let mut start: usize = cs.len();
    assert(cs@.subrange(0, start as int) =~= cs@);
    assert(cs@.subrange(start as int, cs@.len() as int) =~= Seq::<char>::empty());
    assert(last_label(domain@) =~= last_label(cs@.subrange(0, start as int)) + cs@.subrange(start as int, cs@.len() as int));
    while start > 0 && cs[start - 1] != '.'
        invariant
            start <= cs@.len(),
            cs@ == domain@,
            last_label(domain@) == last_label(cs@.subrange(0, start as int)) + cs@.subrange(start as int, cs@.len() as int),
        decreases start,
    {
        let ghost pre = cs@.subrange(0, start as int);
        assert(pre.drop_last() =~= cs@.subrange(0, start - 1));
        assert(cs@.subrange(start - 1, cs@.len() as int) =~= seq![cs@[start - 1]] + cs@.subrange(start as int, cs@.len() as int));
        assert(last_label(pre) == last_label(pre.drop_last()).push(pre.last()));
        assert(last_label(pre.drop_last()).push(pre.last()) + cs@.subrange(start as int, cs@.len() as int)
            =~= last_label(cs@.subrange(0, start - 1)) + cs@.subrange(start - 1, cs@.len() as int));
        start = start - 1;
    }
    proof {
        let pre = cs@.subrange(0, start as int);
        if start > 0 {
            assert(pre.last() == '.');
        }
        assert(last_label(pre) =~= Seq::<char>::empty());
        assert(cs@.subrange(0, cs@.len() as int) =~= cs@);
    }
    let tail = crate::text::copy_chars(&cs, start, cs.len());
    crate::text::string_from_chars(&tail)
}

/// The view of a metadata entry.
pub open spec fn entry_view(e: (String, MetadataValue)) -> (Seq<char>, MetadataValue) {
    (e.0@, e.1)
}

/// The metadata a link adds: that it is secure when it uses HTTPS, its
/// domain and the domain's last label (both empty without a domain).
pub open spec fn url_entries_match(entries: Seq<(String, MetadataValue)>, url: Seq<char>) -> bool {
    let secure = crate::text::starts_with_seq(url, "https://"@);
    let domain = match spec_url_domain(url) {
        Some(Some(d)) => d,
        _ => Seq::empty(),
    };
    let base = if secure { 1int } else { 0int };
    &&& entries.len() == base + 2
    &&& secure ==> entries[0].0@ == "is_secure"@ && entries[0].1 == MetadataValue::Bool(true)
    &&& entries[base].0@ == "domain"@
    &&& (entries[base].1 matches MetadataValue::Text(t) && t@ == domain)
    &&& entries[base + 1].0@ == "tld"@
    &&& (entries[base + 1].1 matches MetadataValue::Text(t) && t@ == last_label(domain))
}

/// Checks a material's link and lists the metadata it adds; a link the URL
/// parser rejects is a validation error.
pub fn url_metadata(url: &str) -> (r: Result<Vec<(String, MetadataValue)>, DatabaseError>)
    ensures
        r is Ok <==> spec_url_parses(url@),
        r matches Ok(es) ==> url_entries_match(es@, url@),
        r matches Err(e) ==> e matches DatabaseError::ValidationError(m) && m@ == "Invalid URL: "@ + url@,
{
    if !url_is_valid(url) {
        return Err(DatabaseError::ValidationError(crate::text::str_concat("Invalid URL: ", url)));
    }
    let mut entries: Vec<(String, MetadataValue)> = Vec::new();
    let secure = crate::text::str_starts_with(url, "https://");
    if secure {
        entries.push(("is_secure".to_string(), MetadataValue::Bool(true)));
    }
    let domain: String = match url_domain(url) {
        Some(Some(d)) => d,
        _ => String::new(),
    };
    let tld = top_level_label(domain.as_str());
    entries.push(("domain".to_string(), MetadataValue::Text(domain)));
    entries.push(("tld".to_string(), MetadataValue::Text(tld)));
    Ok(entries)
}

/// What processing a file adds: the metadata entries and, for a PDF, the
/// extracted text.
pub open spec fn file_plan_matches(
    entries: Seq<(String, MetadataValue)>,
    text: Option<String>,
    t: ResearchMaterialType,
    shown_path: Seq<char>,
) -> bool {
    match t {
        ResearchMaterialType::Pdf => entries.len() == 1
            && entries[0].0@ == "pdf_processed"@ && entries[0].1 == MetadataValue::Bool(true)
            && (text matches Some(x) && x@ == "PDF content from: "@ + shown_path),
        ResearchMaterialType::Image => entries.len() == 2
            && entries[0].0@ == "image_processed"@ && entries[0].1 == MetadataValue::Bool(true)
            && entries[1].0@ == "thumbnail_generated"@ && entries[1].1 == MetadataValue::Bool(false)
            && text is None,
        _ => entries.len() == 1
            && entries[0].0@ == "file_type"@
            && (entries[0].1 matches MetadataValue::Text(g) && g@ == "generic"@)
            && text is None,
    }
}

/// The processing of a material's file, by its type; the path is given as
/// it is displayed.
pub fn file_processing_plan(t: ResearchMaterialType, shown_path: &str) -> (r: (Vec<(String, MetadataValue)>, Option<String>))
    ensures
        file_plan_matches(r.0@, r.1, t, shown_path@),
{
    let mut entries: Vec<(String, MetadataValue)> = Vec::new();
    match t {
        ResearchMaterialType::Pdf => {
            entries.push(("pdf_processed".to_string(), MetadataValue::Bool(true)));
            (entries, Some(crate::text::str_concat("PDF content from: ", shown_path)))
        },
        ResearchMaterialType::Image => {
            entries.push(("image_processed".to_string(), MetadataValue::Bool(true)));
            entries.push(("thumbnail_generated".to_string(), MetadataValue::Bool(false)));
            (entries, None)
        },
        _ => {
            entries.push(("file_type".to_string(), MetadataValue::Text("generic".to_string())));
            (entries, None)
        },
    }
}

} // verus!

verus! {

/// A material type stored under its name reads back as the same type.
pub proof fn law_material_type_round_trip(t: ResearchMaterialType)
    ensures
        material_type_from_name(material_type_name(t)) == Some(t),
{
    reveal_strlit("Pdf");
    assert("Pdf"@[0] == 'P');
    reveal_strlit("Image");
    assert("Image"@[0] == 'I');
    reveal_strlit("WebLink");
    assert("WebLink"@[0] == 'W');
    reveal_strlit("Citation");
    assert("Citation"@[0] == 'C');
    reveal_strlit("Note");
    assert("Note"@[0] == 'N');
    reveal_strlit("Audio");
    assert("Audio"@[0] == 'A');
    reveal_strlit("Video");
    assert("Video"@[0] == 'V');
}

/// Database query constants for research materials
pub const CREATE_RESEARCH_TABLES_SQL: &'static str = "\n-- Research Materials Table\nCREATE TABLE IF NOT EXISTS research_materials (\n    id UUID PRIMARY KEY DEFAULT gen_random_uuid(),\n    project_id UUID NOT NULL REFERENCES projects(id) ON DELETE CASCADE,\n    material_type TEXT NOT NULL,\n    title VARCHAR(255) NOT NULL,\n    description TEXT,\n    file_path TEXT,\n    url TEXT,\n    author VARCHAR(255),\n    publication_date TIMESTAMPTZ,\n    accessed_date TIMESTAMPTZ,\n    tags TEXT[], -- Array of tags\n    metadata JSONB DEFAULT '{}',\n    created_at TIMESTAMPTZ NOT NULL DEFAULT NOW(),\n    updated_at TIMESTAMPTZ NOT NULL DEFAULT NOW(),\n    file_size BIGINT,\n    thumbnail_path TEXT,\n    extracted_text TEXT,\n    \n    -- Indexes\n    INDEX idx_research_materials_project_id (project_id),\n    INDEX idx_research_materials_type (material_type),\n    INDEX idx_research_materials_author (author),\n    INDEX idx_research_materials_created_at (created_at),\n    INDEX idx_research_materials_tags USING GIN (tags)\n);\n\n-- Research Collections Table\nCREATE TABLE IF NOT EXISTS research_collections (\n    id UUID PRIMARY KEY DEFAULT gen_random_uuid(),\n    project_id UUID NOT NULL REFERENCES projects(id) ON DELETE CASCADE,\n    name VARCHAR(255) NOT NULL,\n    description TEXT,\n    created_at TIMESTAMPTZ NOT NULL DEFAULT NOW(),\n    updated_at TIMESTAMPTZ NOT NULL DEFAULT NOW(),\n    \n    -- Indexes\n    INDEX idx_research_collections_project_id (project_id)\n);\n\n-- Collection Materials Junction Table\nCREATE TABLE IF NOT EXISTS collection_materials (\n    collection_id UUID NOT NULL REFERENCES research_collections(id) ON DELETE CASCADE,\n    material_id UUID NOT NULL REFERENCES research_materials(id) ON DELETE CASCADE,\n    added_at TIMESTAMPTZ NOT NULL DEFAULT NOW(),\n    PRIMARY KEY (collection_id, material_id)\n);\n\n-- Citation References Table\nCREATE TABLE IF NOT EXISTS citation_references (\n    id UUID PRIMARY KEY DEFAULT gen_random_uuid(),\n    material_id UUID NOT NULL REFERENCES research_materials(id) ON DELETE CASCADE,\n    citation_style TEXT NOT NULL,\n    formatted_citation TEXT NOT NULL,\n    bibliography_entry TEXT NOT NULL,\n    in_text_citation TEXT NOT NULL,\n    created_at TIMESTAMPTZ NOT NULL DEFAULT NOW(),\n    \n    INDEX idx_citation_references_material_id (material_id)\n);\n\n-- Research Analytics View\nCREATE OR REPLACE VIEW research_analytics AS\nSELECT \n    rm.project_id,\n    COUNT(*) as total_materials,\n    COUNT(CASE WHEN rm.material_type = 'Pdf' THEN 1 END) as pdf_count,\n    COUNT(CASE WHEN rm.material_type = 'Image' THEN 1 END) as image_count,\n    COUNT(CASE WHEN rm.material_type = 'WebLink' THEN 1 END) as weblink_count,\n    COUNT(CASE WHEN rm.material_type = 'Citation' THEN 1 END) as citation_count,\n    COUNT(CASE WHEN rm.url LIKE 'https://%') as https_count,\n    COALESCE(SUM(rm.file_size), 0) as total_file_size,\n    AVG(rm.accessed_date) as avg_access_date\nFROM research_materials rm\nGROUP BY rm.project_id;\n";

/// Insert research material SQL
pub const INSERT_RESEARCH_MATERIAL_SQL: &'static str = "\nINSERT INTO research_materials (\n    id, project_id, material_type, title, description, file_path, url, \n    author, publication_date, accessed_date, tags, metadata, file_size, thumbnail_path, extracted_text\n) VALUES ($1, $2, $3, $4, $5, $6, $7, $8, $9, $10, $11, $12, $13, $14, $15)\nRETURNING *;\n";

/// Update research material SQL
pub const UPDATE_RESEARCH_MATERIAL_SQL: &'static str = "\nUPDATE research_materials \nSET title = $2, description = $3, file_path = $4, url = $5, \n    author = $6, publication_date = $7, accessed_date = $8, \n    tags = $9, metadata = $10, file_size = $11, thumbnail_path = $12, \n    extracted_text = $13, updated_at = NOW()\nWHERE id = $1\nRETURNING *;\n";

/// Get research material by ID SQL
pub const GET_RESEARCH_MATERIAL_SQL: &'static str = "\nSELECT * FROM research_materials WHERE id = $1;\n";

/// Get all research materials for project SQL
pub const GET_RESEARCH_MATERIALS_BY_PROJECT_SQL: &'static str = "\nSELECT * FROM research_materials \nWHERE project_id = $1 \nORDER BY created_at DESC\nLIMIT $2 OFFSET $3;\n";

/// Search research materials SQL
pub const SEARCH_RESEARCH_MATERIALS_SQL: &'static str = "\nSELECT * FROM research_materials \nWHERE project_id = $1 \nAND (\n    title ILIKE $4 \n    OR description ILIKE $4 \n    OR author ILIKE $4\n    OR $4 = ''\n)\nAND (material_type = ANY($2) OR $2 IS NULL)\nAND (tags && $3 OR $3 IS NULL)\nORDER BY created_at DESC\nLIMIT $5 OFFSET $6;\n";

/// Counts the research materials of a project.
pub const COUNT_PROJECT_MATERIALS_SQL: &'static str = "SELECT COUNT(*) FROM research_materials WHERE project_id = ?1";

/// Counts the materials of a project whose address is an `https` one.
pub const COUNT_HTTPS_MATERIALS_SQL: &'static str = "SELECT COUNT(*) FROM research_materials WHERE project_id = ?1 AND url LIKE 'https://%'";

/// Counts the PDF materials of a project.
pub const COUNT_PDF_MATERIALS_SQL: &'static str = "SELECT COUNT(*) FROM research_materials WHERE project_id = ?1 AND material_type = 'Pdf'";

/// Counts the image materials of a project.
pub const COUNT_IMAGE_MATERIALS_SQL: &'static str = "SELECT COUNT(*) FROM research_materials WHERE project_id = ?1 AND material_type = 'Image'";

/// Counts the citation references of a project's materials.
pub const COUNT_PROJECT_CITATIONS_SQL: &'static str = "SELECT COUNT(*) FROM citation_references cr\n             JOIN research_materials rm ON cr.material_id = rm.id\n             WHERE rm.project_id = ?1";

/// The total file size of a project's materials (zero for none).
pub const TOTAL_FILE_SIZE_SQL: &'static str = "SELECT COALESCE(SUM(file_size), 0) FROM research_materials WHERE project_id = ?1";

/// Counts a project's materials by their type.
pub const COUNT_MATERIALS_BY_TYPE_SQL: &'static str = "SELECT material_type, COUNT(*) FROM research_materials\n             WHERE project_id = ?1 GROUP BY material_type";

/// Inserts a research collection.
pub const INSERT_COLLECTION_SQL: &'static str = "INSERT INTO research_collections (id, project_id, name, description, created_at, updated_at)\n             VALUES (?1, ?2, ?3, ?4, ?5, ?6)";

/// Adds a material to a collection (once).
pub const ADD_COLLECTION_MATERIAL_SQL: &'static str = "INSERT OR IGNORE INTO collection_materials (collection_id, material_id, added_at)\n             VALUES (?1, ?2, ?3)";

/// Removes a material from a collection.
pub const REMOVE_COLLECTION_MATERIAL_SQL: &'static str = "DELETE FROM collection_materials WHERE collection_id = ?1 AND material_id = ?2";

/// The materials of a collection, most recently added first.
pub const GET_COLLECTION_MATERIALS_SQL: &'static str = "SELECT rm.* FROM research_materials rm\n             JOIN collection_materials cm ON rm.id = cm.material_id\n             WHERE cm.collection_id = ?1\n             ORDER BY cm.added_at DESC";

} // verus!
