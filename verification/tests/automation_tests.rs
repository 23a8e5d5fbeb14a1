use herding_cats_rust::automation::{
    evaluate_condition, sandbox_dispatch, sandbox_limits, ActionType, ErrorAction, SandboxRun, ScriptLanguage,
    WorkflowAction, WorkflowRun, WorkflowStep, default_permissions,
};
use herding_cats_rust::strmap::StrMap;
use herding_cats_rust::timeutil::TimeSpan;

fn action(name: &str, condition: Option<&str>, on_error: ErrorAction) -> WorkflowAction {
    WorkflowAction {
        id: 1,
        action_type: ActionType::DeleteFile { path: "x".to_string() },
        name: name.to_string(),
        parameters: StrMap::new(),
        condition: condition.map(|c| c.to_string()),
        on_error,
        timeout: None,
    }
}

#[test]
fn conditions_read_true_or_a_variable() {
    let mut ctx: StrMap<serde_json::Value> = StrMap::new();
    ctx.insert("ready".to_string(), serde_json::Value::Bool(false));
    assert!(evaluate_condition("TRUE", &ctx));
    assert!(evaluate_condition("ready", &ctx));
    assert!(!evaluate_condition("other", &ctx));
}

#[test]
fn workflow_runs_actions_in_order_and_skips_unmet_conditions() {
    let ctx: StrMap<serde_json::Value> = StrMap::new();
    let actions = vec![
        action("first", None, ErrorAction::Stop),
        action("skipped", Some("missing"), ErrorAction::Stop),
        action("last", Some("true"), ErrorAction::Stop),
    ];
    let mut run = WorkflowRun::new();
    let t = TimeSpan::from_millis(5);
    assert!(matches!(run.advance(&actions, &ctx, t), WorkflowStep::RunAction(0)));
    assert!(run.record_outcome(&actions[0], true, None, t).is_none());
    assert!(matches!(run.advance(&actions, &ctx, t), WorkflowStep::RunAction(2)));
    assert!(run.record_outcome(&actions[2], true, None, t).is_none());
    match run.advance(&actions, &ctx, t) {
        WorkflowStep::Finished(res) => {
            assert!(res.success);
            assert_eq!(res.output, "Workflow completed successfully");
            assert_eq!(res.return_code, Some(0));
        }
        _ => panic!("expected the end of the run"),
    }
}

#[test]
fn a_failure_with_stop_ends_the_run() {
    let ctx: StrMap<serde_json::Value> = StrMap::new();
    let actions = vec![action("breaks", None, ErrorAction::Stop)];
    let mut run = WorkflowRun::new();
    let t = TimeSpan::from_millis(1);
    assert!(matches!(run.advance(&actions, &ctx, t), WorkflowStep::RunAction(0)));
    let res = run.record_outcome(&actions[0], false, Some("boom".to_string()), t).unwrap();
    assert!(!res.success);
    assert_eq!(res.output, "Workflow stopped at action 'breaks'");
    assert_eq!(res.error_message, Some("boom".to_string()));
    assert_eq!(res.return_code, Some(-1));
}

#[test]
fn a_failure_with_continue_goes_on() {
    let ctx: StrMap<serde_json::Value> = StrMap::new();
    let actions = vec![action("soft", None, ErrorAction::Continue)];
    let mut run = WorkflowRun::new();
    let t = TimeSpan::from_millis(1);
    let _ = run.advance(&actions, &ctx, t);
    assert!(run.record_outcome(&actions[0], false, None, t).is_none());
    assert!(matches!(run.advance(&actions, &ctx, t), WorkflowStep::Finished(_)));
}

#[test]
fn sandbox_choices() {
    let mut p = default_permissions();
    p.memory_limit = None;
    p.execution_timeout = None;
    let l = sandbox_limits(&p);
    assert_eq!(l.max_memory, 104_857_600);
    assert_eq!(l.max_cpu_time, TimeSpan::from_secs(30));
    assert_eq!(l.max_file_descriptors, 64);
    assert!(matches!(sandbox_dispatch(&ScriptLanguage::Rust), SandboxRun::CompileRust));
    match sandbox_dispatch(&ScriptLanguage::Custom("ruby".to_string())) {
        SandboxRun::Finished(r) => assert_eq!(r.output, "Custom script execution for language: Custom(\"ruby\")"),
        _ => panic!("expected an answer"),
    }
    match sandbox_dispatch(&ScriptLanguage::Lua) {
        SandboxRun::Finished(r) => {
            assert_eq!(r.output, "Lua execution not yet implemented");
            assert_eq!(r.execution_time, TimeSpan::from_millis(10));
        }
        _ => panic!("expected an answer"),
    }
}
