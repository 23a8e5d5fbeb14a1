use herding_cats_rust::database::search_service::{
    apply_sorting, build_fts_query, generate_cache_key, results_from_rows, split_words, SearchOptions, SearchResult,
    SearchRow, SearchService, SortField, SortOrder,
};
use herding_cats_rust::database::DatabaseError;

fn result(id: u128, title: &str, words: usize) -> SearchResult {
    SearchResult {
        document_id: id,
        title: title.to_string(),
        snippet: String::new(),
        rank_position: 0,
        project_id: 1,
        created_at: String::new(),
        updated_at: String::new(),
        document_type: "markdown".to_string(),
        word_count: words,
        metadata: None,
    }
}

fn ids(v: &[SearchResult]) -> Vec<u128> {
    v.iter().map(|r| r.document_id).collect()
}

#[test]
fn query_words_are_rewritten() {
    assert_eq!(build_fts_query("  rust AND search  ").unwrap(), "rust search");
    assert_eq!(build_fts_query("NOT slow").unwrap(), "-slow");
    assert!(matches!(build_fts_query("   "), Err(DatabaseError::Service(m)) if m == "Empty query"));
}

#[test]
fn sorting_is_stable() {
    let v = vec![result(1, "b", 5), result(2, "a", 5), result(3, "b", 1), result(4, "a", 9)];
    assert_eq!(ids(&apply_sorting(v.clone(), SortField::Title, SortOrder::Asc)), vec![2, 4, 1, 3]);
    assert_eq!(ids(&apply_sorting(v.clone(), SortField::Title, SortOrder::Desc)), vec![1, 3, 2, 4]);
    assert_eq!(ids(&apply_sorting(v.clone(), SortField::WordCount, SortOrder::Asc)), vec![3, 1, 2, 4]);
    assert_eq!(ids(&apply_sorting(v.clone(), SortField::Relevance, SortOrder::Asc)), vec![1, 2, 3, 4]);
}

#[test]
fn rows_become_results() {
    let row = SearchRow {
        id: "67e55044-10b1-426f-9247-bb680e5fe0c8".to_string(),
        title: "T".to_string(),
        snippet: "S".to_string(),
        project_id: "67e55044-10b1-426f-9247-bb680e5fe0c9".to_string(),
        created_at: "c".to_string(),
        updated_at: "u".to_string(),
        document_type: "markdown".to_string(),
        word_count: 12,
        metadata: None,
    };
    let r = results_from_rows(vec![row.clone()]).unwrap();
    assert_eq!(r[0].word_count, 12);
    assert_eq!(r[0].title, "T");
    let mut bad = row;
    bad.id = "nope".to_string();
    assert!(matches!(results_from_rows(vec![bad]), Err(DatabaseError::Service(m)) if m.starts_with("Invalid UUID: ")));
}

#[test]
fn completed_searches_are_cached_and_ranked() {
    let mut service = SearchService::new();
    let options = SearchOptions::default();
    assert!(service.cached_results("rust", &options).is_none());
    let row = SearchRow {
        id: "67e55044-10b1-426f-9247-bb680e5fe0c8".to_string(),
        title: "T".to_string(),
        snippet: "S".to_string(),
        project_id: "67e55044-10b1-426f-9247-bb680e5fe0c9".to_string(),
        created_at: "c".to_string(),
        updated_at: "u".to_string(),
        document_type: "markdown".to_string(),
        word_count: 3,
        metadata: None,
    };
    let done = service.complete_search("rust", &options, vec![row]).unwrap();
    assert_eq!(done[0].rank_position, 1);
    let cached = service.cached_results("rust", &options).unwrap();
    assert_eq!(ids(&cached), ids(&done));
    service.clear_cache();
    assert!(service.cached_results("rust", &options).is_none());
    assert!(generate_cache_key(false, "rust", &options).is_none());
}

#[test]
fn words_are_split_on_white_space() {
    assert_eq!(split_words("  a  bc\td\n"), vec!["a".to_string(), "bc".to_string(), "d".to_string()]);
    assert!(split_words("   ").is_empty());
}

#[test]
fn popular_terms_are_counted() {
    let mut service = SearchService::new();
    let options = SearchOptions::default();
    for q in ["rust verus", "rust", "verus rust"] {
        let _ = service.complete_search(q, &options, vec![]);
    }
    let terms = service.get_popular_terms(1);
    assert_eq!(terms, vec![("rust".to_string(), 3)]);
}

#[test]
fn the_project_filter_keeps_only_that_project() {
    let mut service = SearchService::new();
    let mut options = SearchOptions::default();
    options.project_filter = Some(0x67e55044_10b1_426f_9247_bb680e5fe0c9);
    let mk = |id: &str, project: &str, title: &str| SearchRow {
        id: id.to_string(),
        title: title.to_string(),
        snippet: String::new(),
        project_id: project.to_string(),
        created_at: "c".to_string(),
        updated_at: "u".to_string(),
        document_type: "markdown".to_string(),
        word_count: 1,
        metadata: None,
    };
    let rows = vec![
        mk("67e55044-10b1-426f-9247-bb680e5fe0c1", "67e55044-10b1-426f-9247-bb680e5fe0c9", "Database Design Patterns"),
        mk("67e55044-10b1-426f-9247-bb680e5fe0c2", "67e55044-10b1-426f-9247-bb680e5fe0c8", "Other Database"),
    ];
    let done = service.complete_search("database", &options, rows).unwrap();
    assert_eq!(done.len(), 1);
    assert_eq!(done[0].title, "Database Design Patterns");
    assert_eq!(done[0].rank_position, 1);
}
