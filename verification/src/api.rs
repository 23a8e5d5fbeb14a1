//! The request types of the integration API and the checks and choices its
//! endpoints make before handing work to the analysers and cloud services.

use vstd::prelude::*;

verus! {

/// Configuration of the API server.
#[derive(Debug, Clone)]
pub struct ApiConfig {
    pub host: String,
    pub port: u16,
    pub cors_enabled: bool,
    pub rate_limit_per_hour: u32,
    pub max_request_size_mb: u32,
    pub enable_webhooks: bool,
    pub api_version: String,
    pub enable_authentication: bool,
}

impl Default for ApiConfig {
    /// Listen on every interface at port 8080, CORS and webhooks on, 1000
    /// requests an hour, 10 MB per request, version 1.0.0, no
    /// authentication.
    fn default() -> (c: Self)
        ensures
            c.host@ == "0.0.0.0"@,
            c.port == 8080,
            c.cors_enabled,
            c.rate_limit_per_hour == 1000,
            c.max_request_size_mb == 10,
            c.enable_webhooks,
            c.api_version@ == "1.0.0"@,
            !c.enable_authentication,
    {
        ApiConfig {
            host: "0.0.0.0".to_string(),
            port: 8080,
            cors_enabled: true,
            rate_limit_per_hour: 1000,
            max_request_size_mb: 10,
            enable_webhooks: true,
            api_version: "1.0.0".to_string(),
            enable_authentication: false,
        }
    }
}

/// Cloud storage providers.
#[derive(Debug, Clone, Copy, PartialEq, Eq, Structural)]
pub enum CloudProvider {
    GoogleDrive,
    OneDrive,
    Dropbox,
    ICloud,
}

/// Operations on cloud storage.
#[derive(Debug, Clone, Copy, PartialEq, Eq, Structural)]
pub enum CloudOperation {
    ListFiles,
    UploadFile,
    DownloadFile,
    CreateFolder,
    DeleteFile,
    SyncProject,
    ShareFile,
}

/// Kinds of writing analysis.
#[derive(Debug, Clone, Copy, PartialEq, Eq, Structural)]
pub enum AnalysisType {
    Grammar,
    Style,
    Comprehensive,
    Readability,
    Engagement,
    Consistency,
    Sentiment,
}

impl AnalysisType {
    pub open spec fn spec_name(self) -> Seq<char> {
        match self {
            AnalysisType::Grammar => "Grammar"@,
            AnalysisType::Style => "Style"@,
            AnalysisType::Comprehensive => "Comprehensive"@,
            AnalysisType::Readability => "Readability"@,
            AnalysisType::Engagement => "Engagement"@,
            AnalysisType::Consistency => "Consistency"@,
            AnalysisType::Sentiment => "Sentiment"@,
        }
    }

    /// The variant's name, as its debug form prints it.
    pub fn name(&self) -> (r: &'static str)
        ensures
            r@ == self.spec_name(),
    {
        match self {
            AnalysisType::Grammar => "Grammar",
            AnalysisType::Style => "Style",
            AnalysisType::Comprehensive => "Comprehensive",
            AnalysisType::Readability => "Readability",
            AnalysisType::Engagement => "Engagement",
            AnalysisType::Consistency => "Consistency",
            AnalysisType::Sentiment => "Sentiment",
        }
    }
}

/// A request for a writing analysis.
#[derive(Debug, Clone)]
pub struct AnalysisRequest {
    pub text: String,
    pub analysis_type: AnalysisType,
    pub document_type: Option<String>,
    pub target_audience: Option<String>,
    pub analysis_depth: Option<String>,
}

/// A line and column in a document.
#[derive(Debug, Clone, Copy, PartialEq, Eq, Structural)]
pub struct TextPosition {
    pub line: u32,
    pub column: u32,
}

/// Operations of real-time collaboration.
#[derive(Debug, Clone, Copy, PartialEq, Eq, Structural)]
pub enum CollaborationOperation {
    JoinDocument,
    LeaveDocument,
    UpdateContent,
    InsertText,
    DeleteText,
    RequestSync,
    PushChanges,
}

/// A request of real-time collaboration.
#[derive(Debug, Clone)]
pub struct CollaborationRequest {
    pub document_id: String,
    pub operation: CollaborationOperation,
    pub content: Option<String>,
    pub position: Option<TextPosition>,
    pub user_id: String,
}

/// Events a webhook can be told of.
#[derive(Debug, Clone, Copy, PartialEq, Eq, Structural)]
pub enum WebhookEvent {
    GrammarCheckCompleted,
    StyleAnalysisCompleted,
    CloudSyncCompleted,
    CollaborationUpdate,
    DocumentShared,
    AnalysisCompleted,
}

/// Where and when to call a webhook.
#[derive(Debug, Clone)]
pub struct WebhookConfig {
    pub url: String,
    pub events: Vec<WebhookEvent>,
    pub secret: Option<String>,
    pub active: bool,
}

/// Why the API refuses a request.
#[derive(Debug, Clone)]
pub enum ApiRequestError {
    /// The request itself is not acceptable.
    ApiError(String),
    /// Authentication is required.
    Unauthorized,
    /// The session has no requests left.
    RateLimitExceeded,
}

/// The longest text, in bytes, that the analysers accept.
pub const MAX_TEXT_BYTES: usize = 100_000;

/// Whether a text is only white space.
pub open spec fn text_is_blank(text: Seq<char>) -> bool {
    crate::text::all_whitespace(text)
}

/// Checks the text of a grammar or style request: it must not be blank nor
/// longer than 100,000 bytes.
pub fn validate_request_text(text: &str) -> (r: Result<(), ApiRequestError>)
    ensures
        r is Ok <==> !text_is_blank(text@) && vstd::utf8::encode_utf8(text@).len() <= MAX_TEXT_BYTES,
        text_is_blank(text@) ==> (r matches Err(ApiRequestError::ApiError(m)) && m@ == "Text cannot be empty"@),
        !text_is_blank(text@) && vstd::utf8::encode_utf8(text@).len() > MAX_TEXT_BYTES ==>
            (r matches Err(ApiRequestError::ApiError(m)) && m@ == "Text too long (max 100,000 characters)"@),
{
    let chars = crate::text::chars_of(text);
    if crate::text::is_blank(&chars) {
        return Err(ApiRequestError::ApiError("Text cannot be empty".to_string()));
    }
    if text.as_bytes().len() > MAX_TEXT_BYTES {
        return Err(ApiRequestError::ApiError("Text too long (max 100,000 characters)".to_string()));
    }
    Ok(())
}

/// Which analysers an analysis request runs: grammar, style, and the name
/// the result is reported under.
pub open spec fn spec_analysis_plan(t: AnalysisType) -> Option<(bool, bool, Seq<char>)> {
    match t {
        AnalysisType::Grammar => Some((true, false, "grammar"@)),
        AnalysisType::Style => Some((false, true, "style"@)),
        AnalysisType::Comprehensive => Some((true, true, "comprehensive"@)),
        _ => None,
    }
}

/// The analysers an analysis request runs; the other kinds are refused as
/// not implemented.
pub fn analysis_plan(t: AnalysisType) -> (r: Result<(bool, bool, String), ApiRequestError>)
    ensures
        match spec_analysis_plan(t) {
            Some(p) => r matches Ok(q) && q.0 == p.0 && q.1 == p.1 && q.2@ == p.2,
            None => r matches Err(ApiRequestError::ApiError(m))
                && m@ == "Analysis type "@ + t.spec_name() + " not yet implemented"@,
        },
{
    match t {
        AnalysisType::Grammar => Ok((true, false, "grammar".to_string())),
        AnalysisType::Style => Ok((false, true, "style".to_string())),
        AnalysisType::Comprehensive => Ok((true, true, "comprehensive".to_string())),
        _ => {
            let mut v: Vec<char> = Vec::new();
            crate::text::push_str(&mut v, "Analysis type ");
            crate::text::push_str(&mut v, t.name());
            crate::text::push_str(&mut v, " not yet implemented");
            Err(ApiRequestError::ApiError(crate::text::string_from_chars(&v)))
        },
    }
}

/// The checks of a text analysis request, in the order the analysis endpoint
/// makes them: a blank text is refused, then the analysis type decides which
/// analysers run (or refuses the kinds not implemented).
pub fn analyze_text_plan(request: &AnalysisRequest) -> (r: Result<(bool, bool, String), ApiRequestError>)
    ensures
        text_is_blank(request.text@) ==> (r matches Err(ApiRequestError::ApiError(m)) && m@ == "Text cannot be empty"@),
        !text_is_blank(request.text@) ==> match spec_analysis_plan(request.analysis_type) {
            Some(p) => r matches Ok(q) && q.0 == p.0 && q.1 == p.1 && q.2@ == p.2,
            None => r matches Err(ApiRequestError::ApiError(m))
                && m@ == "Analysis type "@ + request.analysis_type.spec_name() + " not yet implemented"@,
        },
{
    let chars = crate::text::chars_of(request.text.as_str());
    if crate::text::is_blank(&chars) {
        return Err(ApiRequestError::ApiError("Text cannot be empty".to_string()));
    }
    analysis_plan(request.analysis_type)
}

/// Whether the cloud endpoint carries out an operation; deleting and
/// sharing files are refused as not implemented.
pub fn check_cloud_operation(op: CloudOperation) -> (r: Result<(), ApiRequestError>)
    ensures
        r is Ok <==> !(op == CloudOperation::DeleteFile || op == CloudOperation::ShareFile),
        r matches Err(e) ==> e matches ApiRequestError::ApiError(m) && m@ == "Operation not yet implemented"@,
{
    match op {
        CloudOperation::DeleteFile | CloudOperation::ShareFile =>
            Err(ApiRequestError::ApiError("Operation not yet implemented".to_string())),
        _ => Ok(()),
    }
}

/// The requests a session has left after one more, or the refusal when it
/// has none.
pub fn consume_rate_limit(remaining: u32) -> (r: Result<u32, ApiRequestError>)
    ensures
        remaining == 0 <==> r is Err,
        r matches Ok(n) ==> n == remaining - 1,
        r matches Err(e) ==> e matches ApiRequestError::RateLimitExceeded,
{
    if remaining == 0 {
        Err(ApiRequestError::RateLimitExceeded)
    } else {
        Ok(remaining - 1)
    }
}

/// Whether statistics may be read: only with authentication enabled and a
/// token presented.
pub fn check_statistics_access(enable_authentication: bool, has_token: bool) -> (r: Result<(), ApiRequestError>)
    ensures
        r is Ok <==> enable_authentication && has_token,
        r matches Err(e) ==> e matches ApiRequestError::Unauthorized,
{
    if !enable_authentication || !has_token {
        Err(ApiRequestError::Unauthorized)
    } else {
        Ok(())
    }
}

} // verus!
