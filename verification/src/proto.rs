//! Wire-level records exchanged with the host: the descriptors a workflow
//! and its plugins are built from, and the result record a run produces.

use vstd::prelude::*;

verus! {

/// A point in time: seconds since the Unix epoch and nanoseconds within
/// the second.
#[derive(Clone, Copy, Debug, PartialEq, Eq, Default)]
pub struct Timestamp {
    pub seconds: i64,
    pub nanos: i32,
}

/// Descriptor of one plugin function. It carries metadata only; the
/// callable body is supplied separately by the host.
#[derive(Clone, Debug, PartialEq, Default)]
pub struct PluginFunction {
    pub function_id: String,
    pub function_name: String,
    pub description: String,
    pub permissions: Vec<String>,
}

/// Descriptor of one plugin package.
#[derive(Clone, Debug, PartialEq, Default)]
pub struct PluginPackage {
    pub package_id: String,
    pub package_name: String,
    pub package_version: String,
    pub description: String,
    pub functions: Vec<PluginFunction>,
    pub plugin_store_url: String,
    pub internal_plugin: Option<bool>,
    pub verified: Option<bool>,
    pub deprecated: Option<bool>,
    pub installed_at: Option<Timestamp>,
    pub updated_at: Option<Timestamp>,
}

/// Descriptor of a workflow's code.
#[derive(Clone, Debug, PartialEq, Default)]
pub struct WorkflowCode {
    pub id: String,
    pub code: String,
    pub code_revision: i32,
    pub created_at: Option<Timestamp>,
}

/// How a run ended.
#[derive(Clone, Copy, Debug, PartialEq, Eq)]
pub enum WorkflowResultType {
    /// The script ran to completion.
    SuccessUnspecified,
    /// The script raised or could not be parsed.
    Failure,
}

impl WorkflowResultType {
    /// The number that stands for the variant on the wire.
    pub open spec fn wire(self) -> i32 {
        match self {
            WorkflowResultType::SuccessUnspecified => 0,
            WorkflowResultType::Failure => 1,
        }
    }

    /// The number that stands for the variant on the wire.
    pub fn code(self) -> (code: i32)
        ensures
            code == self.wire(),
    {
        match self {
            WorkflowResultType::SuccessUnspecified => 0,
            WorkflowResultType::Failure => 1,
        }
    }

    /// The variant a wire number stands for, if any.
    pub fn from_code(code: i32) -> (kind: Option<WorkflowResultType>)
        ensures
            kind == if code == 0 {
                Some(WorkflowResultType::SuccessUnspecified)
            } else if code == 1 {
                Some(WorkflowResultType::Failure)
            } else {
                None
            },
    {
        if code == 0 {
            Some(WorkflowResultType::SuccessUnspecified)
        } else if code == 1 {
            Some(WorkflowResultType::Failure)
        } else {
            None
        }
    }
}

/// The record of one run. Once appended to a workflow's history it is
/// never changed.
#[derive(Clone, Debug, PartialEq)]
pub struct WorkflowResult {
    pub id: String,
    pub display_name: String,
    pub description: String,
    pub result: String,
    pub ran_at: Option<Timestamp>,
    pub result_type: i32,
    pub exit_code: i32,
    pub workflow_result_revision: i32,
}

/// Mathematical value of a [`WorkflowResult`].
pub struct WorkflowResultView {
    pub id: Seq<char>,
    pub display_name: Seq<char>,
    pub description: Seq<char>,
    pub result: Seq<char>,
    pub ran_at: Option<Timestamp>,
    pub result_type: i32,
    pub exit_code: i32,
    pub workflow_result_revision: i32,
}

impl View for WorkflowResult {
    type V = WorkflowResultView;

    open spec fn view(&self) -> WorkflowResultView {
        WorkflowResultView {
            id: self.id@,
            display_name: self.display_name@,
            description: self.description@,
            result: self.result@,
            ran_at: self.ran_at,
            result_type: self.result_type,
            exit_code: self.exit_code,
            workflow_result_revision: self.workflow_result_revision,
        }
    }
}

} // verus!
