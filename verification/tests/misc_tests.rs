use herding_cats_rust::api::{analyze_text_plan, AnalysisRequest, analysis_plan, check_cloud_operation, consume_rate_limit, validate_request_text, AnalysisType, ApiConfig, ApiRequestError, CloudOperation};
use herding_cats_rust::classify::classify_content;
use herding_cats_rust::file_ops::{check_content_size, check_markdown_extension, validate_path};
use herding_cats_rust::i18n::{language_key, DateTimeFormatter, LanguageManager, TranslationCache};
use herding_cats_rust::strmap::StrMap;
use herding_cats_rust::import::{import_stats, is_importable_extension, placement_for, FileOutcome, ImportPlacement, ImportStats};
use herding_cats_rust::ipc_bridge::{parse_app_action, trim_start_matches, AppAction};

#[test]
fn classification_by_words() {
    assert_eq!(classify_content("It was CHAPTER one", "a.txt"), "Chapter");
    assert_eq!(classify_content("nothing", "Scene-2.md"), "Scene");
    assert_eq!(classify_content("a story summary", "x.txt"), "Codex/Story Summary");
    assert_eq!(classify_content("plain", "summary.txt"), "Codex/Story Summary");
    assert_eq!(classify_content("plain", "cover.PNG"), "Images");
    assert_eq!(classify_content("plain", "draft.txt"), "Manuscript");
    assert_eq!(classify_content("the time machine", "chapter.txt"), "Chapter");
}

#[test]
fn paths_that_leave_the_project_are_refused() {
    assert!(validate_path("notes/ch1.md").is_ok());
    assert_eq!(validate_path("../secret").unwrap_err(), "Path traversal attempt detected: ../secret");
    assert!(validate_path("FILE://x").is_err());
    assert_eq!(validate_path("/etc/hosts").unwrap_err(), "Potentially dangerous path detected: /etc/hosts");
    assert!(validate_path("C:\\Windows\\System32\\x").is_err());
    assert!(check_content_size("small").is_ok());
    assert!(check_markdown_extension("MD").is_ok());
    assert_eq!(check_markdown_extension("txt").unwrap_err(), "Unsupported file extension: txt");
}

#[test]
fn app_actions_from_the_front_end() {
    assert_eq!(parse_app_action("exit"), Some(AppAction::Exit));
    assert_eq!(parse_app_action("open_tool:codex"), Some(AppAction::OpenTool { tool_id: "codex".to_string() }));
    assert_eq!(
        parse_app_action("open_document:open_document:7"),
        Some(AppAction::OpenDocument { document_id: "7".to_string() })
    );
    assert_eq!(parse_app_action("start_resize:north"), Some(AppAction::StartResize { direction: "north".to_string() }));
    assert_eq!(parse_app_action("drag_window"), Some(AppAction::DragWindow));
    assert_eq!(parse_app_action("jump"), None);
    assert_eq!(trim_start_matches("ababc", "ab"), "c");
    assert_eq!(trim_start_matches("abc", ""), "abc");
}

#[test]
fn import_decisions() {
    assert!(is_importable_extension("MD"));
    assert!(is_importable_extension("rst"));
    assert!(!is_importable_extension("png"));
    assert_eq!(placement_for("Chapter"), ImportPlacement::Chapter);
    assert_eq!(placement_for("Scene"), ImportPlacement::Unassigned);
    assert_eq!(placement_for("Manuscript"), ImportPlacement::Manuscript);
    assert!(!ImportPlacement::Manuscript.under_root());
    let mut stats = ImportStats::default();
    stats.record(FileOutcome::Created);
    stats.record(FileOutcome::ReadFailed);
    assert_eq!((stats.files_processed, stats.items_created, stats.errors), (2, 1, 1));
}

#[test]
fn api_request_checks() {
    let c = ApiConfig::default();
    assert_eq!(c.port, 8080);
    assert!(!c.enable_authentication);
    assert!(matches!(validate_request_text("  "), Err(ApiRequestError::ApiError(m)) if m == "Text cannot be empty"));
    let long = "a".repeat(100_001);
    assert!(matches!(validate_request_text(&long), Err(ApiRequestError::ApiError(m)) if m == "Text too long (max 100,000 characters)"));
    assert!(validate_request_text("fine").is_ok());
    let (g, s, name) = analysis_plan(AnalysisType::Comprehensive).unwrap();
    assert!(g && s);
    assert_eq!(name, "comprehensive");
    assert!(matches!(analysis_plan(AnalysisType::Sentiment), Err(ApiRequestError::ApiError(m)) if m == "Analysis type Sentiment not yet implemented"));
    assert!(check_cloud_operation(CloudOperation::ShareFile).is_err());
    assert!(check_cloud_operation(CloudOperation::ListFiles).is_ok());
    assert!(matches!(consume_rate_limit(1), Ok(0)));
    assert!(matches!(consume_rate_limit(0), Err(ApiRequestError::RateLimitExceeded)));
}

#[test]
fn locale_choices() {
    assert_eq!(language_key("en", &Some("US".to_string())), "en-US");
    assert_eq!(language_key("fr", &None), "fr");
    let f = DateTimeFormatter::new("en-US".to_string(), "+00:00".to_string());
    assert_eq!(f.date_pattern("medium"), Some("MMM dd, yyyy".to_string()));
    assert_eq!(f.time_pattern("short"), Some("HH:mm".to_string()));
    assert_eq!(f.date_pattern("weird"), None);
    assert_eq!(f.apply_currency_formatting("12.50", "USD"), "$12.50");
    assert_eq!(f.apply_number_formatting("1234"), "1234");
    let mut cache = TranslationCache::new(1);
    cache.store("a", "A".to_string());
    cache.store("b", "B".to_string());
    assert_eq!(cache.lookup("a"), Some("A".to_string()));
    assert_eq!(cache.lookup("b"), None);
}

#[test]
fn translations_fall_back_to_the_fallback_language_then_the_key() {
    let mut en: StrMap<String> = StrMap::new();
    en.insert("hello".to_string(), "Hello".to_string());
    en.insert("bye".to_string(), "Goodbye".to_string());
    let mut fr: StrMap<String> = StrMap::new();
    fr.insert("hello".to_string(), "Bonjour".to_string());
    let mut bundles: StrMap<StrMap<String>> = StrMap::new();
    bundles.insert("en-US".to_string(), en);
    bundles.insert("fr-FR".to_string(), fr);
    let mut m = LanguageManager {
        current_language_key: "fr-FR".to_string(),
        fallback_language_key: "en-US".to_string(),
        translation_bundles: bundles,
        translation_cache: TranslationCache::new(2),
    };
    assert_eq!(m.t("hello"), "Bonjour");
    assert_eq!(m.t("bye"), "Goodbye");
    assert_eq!(m.t("missing"), "missing");
    assert_eq!(m.translation_cache.cache.len(), 2);
    m.current_language_key = "en-US".to_string();
    assert_eq!(m.t("hello"), "Bonjour");
}

#[test]
fn analysis_requests_check_the_text_then_the_type() {
    let req = |text: &str, t: AnalysisType| AnalysisRequest {
        text: text.to_string(),
        analysis_type: t,
        document_type: None,
        target_audience: None,
        analysis_depth: None,
    };
    assert!(matches!(analyze_text_plan(&req("   ", AnalysisType::Readability)), Err(ApiRequestError::ApiError(m)) if m == "Text cannot be empty"));
    assert!(matches!(analyze_text_plan(&req("Some text", AnalysisType::Readability)), Err(ApiRequestError::ApiError(m)) if m == "Analysis type Readability not yet implemented"));
    let (grammar, style, name) = analyze_text_plan(&req("Some text", AnalysisType::Comprehensive)).unwrap();
    assert!(grammar && style);
    assert_eq!(name, "comprehensive");
}

#[test]
fn importing_counts_only_text_files() {
    let files = vec![
        (Some("MD".to_string()), FileOutcome::Created),
        (Some("png".to_string()), FileOutcome::Created),
        (None, FileOutcome::ReadFailed),
        (Some("txt".to_string()), FileOutcome::ReadFailed),
        (Some("rst".to_string()), FileOutcome::CreateFailed),
    ];
    let s = import_stats(&files);
    assert_eq!((s.files_processed, s.items_created, s.errors), (3, 1, 2));
}

#[test]
fn a_new_language_manager_gives_back_keys() {
    let mut m = LanguageManager::new();
    assert_eq!(m.current_language_key, "en-US");
    assert_eq!(m.fallback_language_key, "en-US");
    assert_eq!(m.t("menu.file"), "menu.file");
    assert_eq!(m.translation_cache.max_size, 1000);
}
