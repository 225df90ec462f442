use sapphillon_core::clock::RunStamp;
use sapphillon_core::engine::ScriptOutcome;
use sapphillon_core::interceptor::intercept_print;
use sapphillon_core::plugin::{CorePluginFunction, CorePluginPackage};
use sapphillon_core::proto::{Timestamp, WorkflowCode, WorkflowResultType};
use sapphillon_core::workflow::CoreWorkflowCode;

type Op = fn() -> u32;

fn forty_two() -> u32 {
    42
}

fn workflow_dummy_op() -> Op {
    forty_two
}

fn workflow_dummy_plugin_function() -> CorePluginFunction<Op> {
    CorePluginFunction::new(
        "fid".to_string(),
        "fname".to_string(),
        "desc".to_string(),
        workflow_dummy_op(),
    )
}

fn workflow_dummy_plugin_package() -> CorePluginPackage<Op> {
    CorePluginPackage::new(
        "pid".to_string(),
        "pname".to_string(),
        vec![workflow_dummy_plugin_function()],
    )
}

fn dummy_proto_workflow_code() -> WorkflowCode {
    WorkflowCode {
        id: "wid".to_string(),
        code: "console.log('hello');".to_string(),
        code_revision: 1,
        ..Default::default()
    }
}

fn start_of_run() -> RunStamp {
    RunStamp { secs: 1_700_000_000, subsec_nanos: 123_456_789 }
}

/// Stands in for the interpreter: a run in which the script printed
/// `prints`, in order, to the output channel and then completed.
fn completed_with(code: &CoreWorkflowCode<Op>, prints: &[&str]) -> ScriptOutcome {
    let mut state = code.fresh_state();
    for text in prints {
        intercept_print(&mut state, text, false);
    }
    ScriptOutcome::Completed(state)
}

#[test]
fn test_core_workflow_code_run_success() {
    let pkg = workflow_dummy_plugin_package();
    let mut code =
        CoreWorkflowCode::new("wid".to_string(), "console.log(1 + 1);".to_string(), vec![pkg], 1);
    let outcome = completed_with(&code, &["2\n"]);
    code.run(start_of_run(), outcome);
    assert_eq!(code.result.len(), 1);
    let res = &code.result[0];
    assert_eq!(res.exit_code, 0);
    assert_eq!(res.result_type, WorkflowResultType::SuccessUnspecified as i32);
    assert_eq!(res.result, "2\n");
}

#[test]
fn test_core_workflow_code_run_failure() {
    let pkg = workflow_dummy_plugin_package();
    let mut code = CoreWorkflowCode::new(
        "wid".to_string(),
        "throw new Error('fail');".to_string(),
        vec![pkg],
        1,
    );
    code.run(start_of_run(), ScriptOutcome::Failed("Uncaught Error: fail".to_string()));
    assert_eq!(code.result.len(), 1);
    let res = &code.result[0];
    assert_eq!(res.exit_code, 1);
    assert_eq!(res.result_type, WorkflowResultType::Failure as i32);
    assert!(res.result.contains("fail"));
}

#[test]
fn test_core_workflow_code_new() {
    let pkg = workflow_dummy_plugin_package();
    let code = CoreWorkflowCode::new(
        "wid".to_string(),
        "console.log('test');".to_string(),
        vec![pkg],
        2,
    );
    assert_eq!(code.id, "wid");
    assert_eq!(code.code, "console.log('test');");
    assert_eq!(code.plugin_packages.len(), 1);
    assert_eq!(code.code_revision, 2);
    assert!(code.result.is_empty());
}

#[test]
fn test_core_workflow_code_new_from_proto() {
    let proto = dummy_proto_workflow_code();
    let pkg = workflow_dummy_plugin_package();
    let code = CoreWorkflowCode::new_from_proto(&proto, vec![pkg]);
    assert_eq!(code.id, proto.id);
    assert_eq!(code.code, proto.code);
    assert_eq!(code.plugin_packages.len(), 1);
    assert_eq!(code.code_revision, proto.code_revision);
    assert!(code.result.is_empty());
}

#[test]
fn test_workflow_result_initial_state() {
    let pkg = workflow_dummy_plugin_package();
    let code = CoreWorkflowCode::new(
        "wid".to_string(),
        "console.log('test');".to_string(),
        vec![pkg],
        1,
    );
    assert!(code.result.is_empty(), "Initial results should be empty");
}

#[test]
fn silent_script_yields_empty_success() {
    let mut code: CoreWorkflowCode<Op> =
        CoreWorkflowCode::new("wid".to_string(), "1+1;".to_string(), vec![], 1);
    let outcome = completed_with(&code, &[]);
    code.run(start_of_run(), outcome);
    let res = &code.result[0];
    assert_eq!(res.result, "");
    assert_eq!(res.exit_code, 0);
    assert_eq!(res.result_type, 0);
    assert_eq!(res.description, "Success");
}

#[test]
fn printed_text_is_the_result_in_call_order() {
    let mut code: CoreWorkflowCode<Op> =
        CoreWorkflowCode::new("wid".to_string(), "print('hello')".to_string(), vec![], 1);
    let outcome = completed_with(&code, &["hello"]);
    code.run(start_of_run(), outcome);
    assert_eq!(code.result[0].result, "hello");
    let outcome = completed_with(&code, &["a", "", "b\n", "c"]);
    code.run(start_of_run(), outcome);
    assert_eq!(code.result[1].result, "ab\nc");
}

#[test]
fn failure_is_recorded_not_raised() {
    let mut code: CoreWorkflowCode<Op> =
        CoreWorkflowCode::new("wid".to_string(), "throw 1".to_string(), vec![], 1);
    code.run(start_of_run(), ScriptOutcome::Failed("fail".to_string()));
    let res = &code.result[0];
    assert_eq!(res.description, "Error: fail");
    assert_eq!(res.result, "fail");
    assert_eq!(res.result_type, 1);
    assert_eq!(res.exit_code, 1);
    assert_eq!(res.workflow_result_revision, 1);
}

#[test]
fn result_identity_derives_from_the_start_of_the_run() {
    let mut code: CoreWorkflowCode<Op> =
        CoreWorkflowCode::new("wid".to_string(), "1+1;".to_string(), vec![], 1);
    let outcome = completed_with(&code, &[]);
    code.run(start_of_run(), outcome);
    let res = &code.result[0];
    assert_eq!(res.id, "wid-1700000000123456789");
    assert_eq!(res.display_name, "Run 1700000000");
    assert_eq!(res.ran_at, Some(Timestamp { seconds: 1_700_000_000, nanos: 123_456_789 }));
}

#[test]
fn result_identity_at_the_epoch() {
    let mut code: CoreWorkflowCode<Op> =
        CoreWorkflowCode::new("".to_string(), "".to_string(), vec![], 0);
    code.run(RunStamp { secs: 0, subsec_nanos: 0 }, ScriptOutcome::Failed("".to_string()));
    let res = &code.result[0];
    assert_eq!(res.id, "-0");
    assert_eq!(res.display_name, "Run 0");
    assert_eq!(res.description, "Error: ");
    assert_eq!(res.result, "");
    assert_eq!(res.ran_at, Some(Timestamp { seconds: 0, nanos: 0 }));
}

#[test]
fn revisions_count_up_from_one_without_gaps() {
    let mut code: CoreWorkflowCode<Op> =
        CoreWorkflowCode::new("wid".to_string(), "1+1;".to_string(), vec![], 7);
    let mut run = 0;
    while run < 25 {
        assert!(code.can_run());
        let outcome = if run % 3 == 1 {
            ScriptOutcome::Failed("fail".to_string())
        } else {
            completed_with(&code, &["x"])
        };
        code.run(RunStamp { secs: run, subsec_nanos: 0 }, outcome);
        run += 1;
    }
    assert_eq!(code.result.len(), 25);
    for (i, res) in code.result.iter().enumerate() {
        assert_eq!(res.workflow_result_revision, i as i32 + 1);
    }
    assert_eq!(code.code_revision, 7);
}

#[test]
fn run_leaves_earlier_results_and_the_workflow_alone() {
    let mut code = CoreWorkflowCode::new(
        "wid".to_string(),
        "1+1;".to_string(),
        vec![workflow_dummy_plugin_package()],
        3,
    );
    let outcome = completed_with(&code, &["first"]);
    code.run(RunStamp { secs: 10, subsec_nanos: 1 }, outcome);
    let first = code.result[0].clone();
    code.run(RunStamp { secs: 11, subsec_nanos: 2 }, ScriptOutcome::Failed("fail".to_string()));
    assert_eq!(code.result[0], first);
    assert_eq!(code.result[1].id, "wid-11000000002");
    assert_eq!(code.id, "wid");
    assert_eq!(code.code, "1+1;");
    assert_eq!(code.code_revision, 3);
    assert_eq!(code.plugin_packages.len(), 1);
}

#[test]
fn run_continues_from_the_last_revision() {
    let mut code: CoreWorkflowCode<Op> =
        CoreWorkflowCode::new("wid".to_string(), "1+1;".to_string(), vec![], 1);
    code.run(start_of_run(), ScriptOutcome::Failed("fail".to_string()));
    code.result[0].workflow_result_revision = 40;
    assert!(code.can_run());
    code.run(start_of_run(), ScriptOutcome::Failed("fail".to_string()));
    assert_eq!(code.result[1].workflow_result_revision, 41);
}

#[test]
fn can_run_stops_at_the_last_revision() {
    let mut code: CoreWorkflowCode<Op> =
        CoreWorkflowCode::new("wid".to_string(), "1+1;".to_string(), vec![], 1);
    assert!(code.can_run());
    code.run(start_of_run(), ScriptOutcome::Failed("fail".to_string()));
    code.result[0].workflow_result_revision = i32::MAX - 1;
    assert!(code.can_run());
    code.run(start_of_run(), ScriptOutcome::Failed("fail".to_string()));
    assert_eq!(code.result[1].workflow_result_revision, i32::MAX);
    assert!(!code.can_run());
}

#[test]
fn fresh_state_captures_for_this_workflow() {
    let code: CoreWorkflowCode<Op> =
        CoreWorkflowCode::new("wid".to_string(), "1+1;".to_string(), vec![], 1);
    let state = code.fresh_state();
    assert_eq!(state.get_workflow_id(), "wid");
    assert!(state.is_capture_stdout());
    assert!(state.get_results().is_empty());
}

#[test]
fn host_functions_are_the_flattened_packages() {
    let code = CoreWorkflowCode::new(
        "wid".to_string(),
        "1+1;".to_string(),
        vec![workflow_dummy_plugin_package(), workflow_dummy_plugin_package()],
        1,
    );
    let host = code.host_functions();
    assert_eq!(host.len(), 2);
    assert_eq!(host[0].id, "fid");
    assert_eq!(host[1].name, "fname");
    assert_eq!((host[1].func)(), 42);
}

#[test]
fn interleaved_workflows_keep_their_own_histories() {
    let mut left: CoreWorkflowCode<Op> =
        CoreWorkflowCode::new("left".to_string(), "1;".to_string(), vec![], 1);
    let mut right: CoreWorkflowCode<Op> =
        CoreWorkflowCode::new("right".to_string(), "2;".to_string(), vec![], 1);
    let left_outcome = completed_with(&left, &["L1"]);
    let right_outcome = completed_with(&right, &["R1"]);
    right.run(RunStamp { secs: 1, subsec_nanos: 0 }, right_outcome);
    left.run(RunStamp { secs: 2, subsec_nanos: 0 }, left_outcome);
    let right_outcome = completed_with(&right, &["R2"]);
    right.run(RunStamp { secs: 3, subsec_nanos: 0 }, right_outcome);
    assert_eq!(left.result.len(), 1);
    assert_eq!(right.result.len(), 2);
    assert_eq!(left.result[0].result, "L1");
    assert_eq!(left.result[0].workflow_result_revision, 1);
    assert_eq!(left.result[0].id, "left-2000000000");
    assert_eq!(right.result[0].result, "R1");
    assert_eq!(right.result[1].result, "R2");
    assert_eq!(right.result[1].workflow_result_revision, 2);
}

#[test]
fn prepared_run_hands_over_script_functions_and_fresh_state() {
    let code = CoreWorkflowCode::new(
        "wid".to_string(),
        "console.log(1 + 1);".to_string(),
        vec![workflow_dummy_plugin_package()],
        1,
    );
    let request = code.prepare_run();
    assert_eq!(request.script, "console.log(1 + 1);");
    assert_eq!(request.host_functions.len(), 1);
    assert_eq!(request.host_functions[0].name, "fname");
    assert_eq!(request.state.get_workflow_id(), "wid");
    assert!(request.state.is_capture_stdout());
    assert!(request.state.get_results().is_empty());
}
