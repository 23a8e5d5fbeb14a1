use herding_cats_rust::database::analysis_service::{analysis_summary, codex_field_type, fields_from_codex, generate_insights, new_analysis_field};
use herding_cats_rust::database::backup_service::{
    backup_filename, backup_type_from_json, backup_type_to_json, list_backups_query, metadata_from_row, metadata_params,
    restore_source, statistics_from_result, BackupType,
};
use herding_cats_rust::database::enhanced_database_sqlx::{DatabaseRow, QueryResult};
use herding_cats_rust::database::models::analysis::{Analysis, AnalysisFieldType, AnalysisWithFields, WritingType};
use herding_cats_rust::database::project_management::{project_from_row, settings_entries, settings_from_rows, ProjectSettings};
use herding_cats_rust::database::service_factory::{health_report, restart_target, RestartableService, ServiceHealth, ServiceHealthStatus};
use herding_cats_rust::database::vector_embedding::{chunk_document, embedding_dimension};
use herding_cats_rust::database::DatabaseError;
use herding_cats_rust::timeutil::DateTimeUtc;

fn row(values: Vec<Option<&str>>) -> DatabaseRow {
    let columns = values.iter().enumerate().map(|(i, _)| format!("c{}", i)).collect();
    DatabaseRow::new(columns, values.into_iter().map(|v| v.map(|s| s.to_string())).collect())
}

#[test]
fn overall_health_is_the_worst_service() {
    let mut s = ServiceHealthStatus::new();
    assert_eq!(s.overall_health, ServiceHealth::Unhealthy);
    s.add_service_health("a", ServiceHealth::Healthy);
    assert_eq!(s.overall_health, ServiceHealth::Healthy);
    s.add_service_health("b", ServiceHealth::Unhealthy);
    assert_eq!(s.overall_health, ServiceHealth::Unhealthy);
    s.add_service_health("c", ServiceHealth::Error);
    assert_eq!(s.overall_health, ServiceHealth::Error);
    s.add_service_health("c", ServiceHealth::Healthy);
    assert_eq!(s.overall_health, ServiceHealth::Unhealthy);
    assert_eq!(s.issues, vec!["Service 'b' is unhealthy".to_string(), "Service 'c' has errors".to_string()]);
    assert_eq!(s.get_service_health("c"), Some(&ServiceHealth::Healthy));
}

#[test]
fn health_report_marks_the_database() {
    let good = health_report(true);
    assert_eq!(good.overall_health, ServiceHealth::Healthy);
    assert!(good.issues.is_empty());
    let bad = health_report(false);
    assert_eq!(bad.overall_health, ServiceHealth::Unhealthy);
    assert_eq!(bad.issues, vec!["Service 'database' is unhealthy".to_string()]);
}

#[test]
fn only_known_services_restart() {
    assert!(matches!(restart_target("database"), Ok(RestartableService::Database)));
    assert!(matches!(restart_target("project_management"), Ok(RestartableService::ProjectManagement)));
    match restart_target("search") {
        Err(DatabaseError::Service(m)) => assert_eq!(m, "Unknown service: search"),
        _ => panic!("expected an error"),
    }
}

#[test]
fn insights_follow_field_counts() {
    let none = generate_insights(&vec![]);
    assert_eq!(none.len(), 6);
    assert_eq!(none[0], "Consider adding more characters to create richer interactions");
    let mut fields = Vec::new();
    for _ in 0..11 {
        fields.push(new_analysis_field(1, AnalysisFieldType::Character, "c".to_string()));
    }
    fields.push(new_analysis_field(1, AnalysisFieldType::Setting, "s".to_string()));
    for _ in 0..3 {
        fields.push(new_analysis_field(1, AnalysisFieldType::PlotPoint, "p".to_string()));
        fields.push(new_analysis_field(1, AnalysisFieldType::Evidence, "e".to_string()));
    }
    fields.push(new_analysis_field(1, AnalysisFieldType::Theme, "t".to_string()));
    fields.push(new_analysis_field(1, AnalysisFieldType::ThesisStatement, "x".to_string()));
    let some = generate_insights(&fields);
    assert_eq!(some, vec!["You have many characters - consider consolidating to avoid confusion".to_string()]);
}

#[test]
fn codex_entries_become_fields() {
    assert_eq!(codex_field_type("CharacterSheet"), AnalysisFieldType::Character);
    assert_eq!(codex_field_type("Place"), AnalysisFieldType::Setting);
    assert_eq!(codex_field_type("StorySummary"), AnalysisFieldType::Theme);
    assert_eq!(codex_field_type("Time"), AnalysisFieldType::Body);
    let fields = fields_from_codex(9, vec![("Place".to_string(), "Paris".to_string())]);
    assert_eq!(fields.len(), 1);
    assert_eq!(fields[0].analysis_id, 9);
    assert_eq!(fields[0].content, "Paris");
}

#[test]
fn analysis_summary_text() {
    assert!(matches!(analysis_summary(None), Err(DatabaseError::NotFound(m)) if m == "Analysis not found"));
    let mut analysis = Analysis::default();
    analysis.title = "T".to_string();
    analysis.description = "D".to_string();
    analysis.writing_type = WritingType::Essay;
    analysis.created_at = DateTimeUtc { secs: 0, nanos: 0 };
    let awf = AnalysisWithFields {
        analysis,
        fields: vec![new_analysis_field(1, AnalysisFieldType::Theme, "love".to_string())],
        insights: vec!["more".to_string()],
    };
    let s = analysis_summary(Some(awf)).unwrap();
    assert_eq!(
        s,
        "# Analysis Summary: T\n\n**Description:** D\n**Writing Type:** Essay\n**Created:** 1970-01-01 00:00:00\n\n## Analysis Fields\n\n### Theme - love\n\n## Generated Insights\n\n- more\n"
    );
}

#[test]
fn project_settings_round_trip() {
    let s = ProjectSettings {
        auto_save_enabled: false,
        auto_save_interval: 42,
        backup_enabled: true,
        search_enabled: false,
        theme: "dark".to_string(),
        font_size: 18,
    };
    let rows: Vec<(String, String, String)> =
        settings_entries(&s).into_iter().map(|(k, v)| (k, v, "string".to_string())).collect();
    let r = settings_from_rows(&rows).unwrap();
    assert!(!r.auto_save_enabled);
    assert_eq!(r.auto_save_interval, 42);
    assert!(r.backup_enabled);
    assert!(!r.search_enabled);
    assert_eq!(r.theme, "dark");
    assert_eq!(r.font_size, 18);
    assert!(settings_from_rows(&vec![]).is_none());
}

#[test]
fn project_settings_defaults_and_later_rows_win() {
    let rows = vec![
        ("font_size".to_string(), "12".to_string(), "string".to_string()),
        ("font_size".to_string(), "20".to_string(), "string".to_string()),
        ("backup_enabled".to_string(), "yes".to_string(), "string".to_string()),
    ];
    let r = settings_from_rows(&rows).unwrap();
    assert_eq!(r.font_size, 20);
    assert!(r.backup_enabled);
    assert!(r.auto_save_enabled);
    assert_eq!(r.auto_save_interval, 300);
    assert_eq!(r.theme, "default");
}

#[test]
fn project_rows_need_a_valid_identifier() {
    let now = DateTimeUtc { secs: 5, nanos: 0 };
    let good = (
        "67e55044-10b1-426f-9247-bb680e5fe0c8".to_string(),
        "Novel".to_string(),
        None,
        "not a date".to_string(),
        "2020-01-01T00:00:00Z".to_string(),
        false,
        true,
        None,
    );
    let p = project_from_row(good, now).unwrap();
    assert_eq!(p.name, "Novel");
    assert_eq!(p.created_at, now);
    assert_eq!(p.updated_at, DateTimeUtc { secs: 1_577_836_800, nanos: 0 });
    assert!(p.is_active);
    let bad = ("x".to_string(), "N".to_string(), None, String::new(), String::new(), false, false, None);
    assert!(matches!(project_from_row(bad, now), Err(DatabaseError::Service(m)) if m.starts_with("Invalid UUID: ")));
}

#[test]
fn chunks_overlap_and_skip_blank_pieces() {
    let chunks = chunk_document("abcdefghij", 4, 1);
    let got: Vec<(String, usize, usize, usize)> =
        chunks.iter().map(|c| (c.text.clone(), c.start_char, c.end_char, c.chunk_index)).collect();
    assert_eq!(
        got,
        vec![
            ("abcd".to_string(), 0, 4, 0),
            ("defg".to_string(), 3, 7, 1),
            ("ghij".to_string(), 6, 10, 2),
        ]
    );
    let spaced = chunk_document("ab      cd", 4, 0);
    let texts: Vec<String> = spaced.iter().map(|c| c.text.clone()).collect();
    assert_eq!(texts, vec!["ab  ".to_string(), "cd".to_string()]);
    assert_eq!(spaced[1].chunk_index, 1);
    assert!(chunk_document("", 4, 1).is_empty());
    assert_eq!(embedding_dimension("text-embedding-3-large"), 3072);
    assert_eq!(embedding_dimension("other"), 1536);
}

#[test]
fn backup_records_round_trip_through_rows() {
    assert_eq!(backup_type_to_json(BackupType::Automatic), "\"Automatic\"");
    assert_eq!(backup_type_from_json("\"Emergency\""), BackupType::Emergency);
    assert_eq!(backup_type_from_json("garbage"), BackupType::Manual);
    let name = backup_filename(1700000000, 0x67e55044_10b1_426f_9247_bb680e5fe0c8);
    assert_eq!(name, "1700000000_67e55044-10b1-426f-9247-bb680e5fe0c8.db");
    let r = row(vec![
        Some("id1"), Some("\"Automatic\""), Some("/b/x.db"), Some("123"), Some("abc"), Some("99"),
        Some("p"), None, Some("1"), None,
    ]);
    let m = metadata_from_row(&r);
    assert_eq!(m.backup_type, BackupType::Automatic);
    assert_eq!(m.file_size, 123);
    assert_eq!(m.created_at, 99);
    assert!(m.success);
    assert_eq!(m.description, None);
    let params = metadata_params(&m);
    assert_eq!(params[1], "\"Automatic\"");
    assert_eq!(params[8], "true");
    assert_eq!(params[7], "");
}

#[test]
fn backup_queries_and_statistics() {
    let (_, p) = list_backups_query(Some("proj"), None);
    assert_eq!(p, vec!["proj".to_string(), "50".to_string()]);
    let (_, p) = list_backups_query(None, Some(7));
    assert_eq!(p, vec!["7".to_string()]);
    let empty = QueryResult { rows: vec![], column_count: 0 };
    let s = statistics_from_result(&empty);
    assert_eq!(s.total_backups, 0);
    assert_eq!(s.last_backup, None);
    let q = QueryResult { rows: vec![row(vec![Some("3"), Some("300"), Some("77"), Some("2"), Some("1")])], column_count: 5 };
    let s = statistics_from_result(&q);
    assert_eq!((s.total_backups, s.total_size, s.last_backup, s.successful_backups, s.failed_backups), (3, 300, Some(77), 2, 1));
    assert!(matches!(restore_source(&empty), Err(DatabaseError::Service(m)) if m == "Backup file not found"));
}
