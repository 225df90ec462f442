use sapphillon_core::runtime::{OpStateWorkflowData, WorkflowStdout};

#[test]
fn new_state_is_empty() {
    let data = OpStateWorkflowData::new("test_id_123", false);
    assert_eq!(data.get_workflow_id(), "test_id_123");
    assert!(!data.is_capture_stdout());
    assert!(data.get_results().is_empty());
    let capturing = OpStateWorkflowData::new("", true);
    assert_eq!(capturing.get_workflow_id(), "");
    assert!(capturing.is_capture_stdout());
    assert!(capturing.get_results().is_empty());
}

#[test]
fn add_result_appends_under_capture() {
    let mut data = OpStateWorkflowData::new("test_id_123", true);
    data.add_result(WorkflowStdout::Stdout("Initial stdout".to_string()));
    data.add_result(WorkflowStdout::Stdout("Test stdout".to_string()));
    let expected = vec![
        WorkflowStdout::Stdout("Initial stdout".to_string()),
        WorkflowStdout::Stdout("Test stdout".to_string()),
    ];
    assert_eq!(data.get_results(), &expected, "Results should match expected output");
    assert_eq!(data.get_workflow_id(), "test_id_123");
    assert!(data.is_capture_stdout());
}

#[test]
fn add_result_is_a_no_op_without_capture() {
    let mut data = OpStateWorkflowData::new("test_id_123", false);
    data.add_result(WorkflowStdout::Stdout("Test stdout".to_string()));
    data.add_result(WorkflowStdout::Stderr("Test stderr".to_string()));
    assert!(data.get_results().is_empty());
    assert!(!data.is_capture_stdout());
    assert_eq!(data.get_workflow_id(), "test_id_123");
}

#[test]
fn stdout_to_string_joins_without_separator() {
    let mut data = OpStateWorkflowData::new("w", true);
    assert_eq!(data.stdout_to_string(), "");
    data.add_result(WorkflowStdout::Stdout("Initial stdout\n".to_string()));
    data.add_result(WorkflowStdout::Stderr("oops".to_string()));
    data.add_result(WorkflowStdout::Stdout("".to_string()));
    data.add_result(WorkflowStdout::Stdout("Test stdout\n".to_string()));
    assert_eq!(data.stdout_to_string(), "Initial stdout\noopsTest stdout\n");
    assert_eq!(data.get_results().len(), 4);
}

#[test]
fn a_cloned_state_is_independent() {
    let mut data = OpStateWorkflowData::new("w", true);
    data.add_result(WorkflowStdout::Stdout("a".to_string()));
    let copy = data.clone();
    data.add_result(WorkflowStdout::Stdout("b".to_string()));
    assert_eq!(copy.stdout_to_string(), "a");
    assert_eq!(data.stdout_to_string(), "ab");
}
