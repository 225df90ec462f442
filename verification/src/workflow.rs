//! The workflow run controller: a versioned script, the plugin packages it
//! may call, and the append-only history of its runs.

use vstd::prelude::*;
use vstd::string::*;

use crate::clock::RunStamp;
use crate::decimal::{append_decimal, decimal_digits, lemma_decimal_digits_injective};
use crate::engine::{ExecutionRequest, OutcomeView, ScriptOutcome};
use crate::plugin::{flatten_packages, flattened, referents, CorePluginFunction, CorePluginPackage};
use crate::proto::{WorkflowCode, WorkflowResult, WorkflowResultType, WorkflowResultView};
use crate::runtime::{joined_text, OpStateWorkflowData, StdoutView, WorkflowDataView};

verus! {

/// The results of a history, each taken by its view.
pub open spec fn result_views(results: Seq<WorkflowResult>) -> Seq<WorkflowResultView> {
    results.map_values(|r: WorkflowResult| r@)
}

/// The revision the next result of `history` gets: one more than the last
/// result's, or 1 for the first result.
pub open spec fn next_revision(history: Seq<WorkflowResultView>) -> int {
    if history.len() == 0 {
        1
    } else {
        history.last().workflow_result_revision + 1
    }
}

/// Result revisions count up from 1 without a gap: the result at index `i`
/// has revision `i + 1`.
pub open spec fn revisions_contiguous(history: Seq<WorkflowResultView>) -> bool {
    forall|i: int| 0 <= i < history.len() ==> (#[trigger] history[i]).workflow_result_revision == i + 1
}

/// Identifier of the result of a run of `workflow_id` started at `stamp`:
/// the workflow's identifier, a hyphen, and the nanoseconds since the
/// epoch in decimal.
pub open spec fn result_id(workflow_id: Seq<char>, stamp: RunStamp) -> Seq<char> {
    workflow_id + seq!['-'] + decimal_digits(stamp.nanos())
}

/// Display name of the result of a run started at `stamp`.
pub open spec fn result_display_name(stamp: RunStamp) -> Seq<char> {
    "Run "@ + decimal_digits(stamp.secs as nat)
}

/// Description of a result, by outcome.
pub open spec fn result_description(outcome: OutcomeView) -> Seq<char> {
    match outcome {
        OutcomeView::Completed(_) => "Success"@,
        OutcomeView::Failed(message) => "Error: "@ + message,
    }
}

/// Text of a result, by outcome: what the script printed, joined in print
/// order, or the failure's message.
pub open spec fn result_text(outcome: OutcomeView) -> Seq<char> {
    match outcome {
        OutcomeView::Completed(state) => joined_text(state.result),
        OutcomeView::Failed(message) => message,
    }
}

/// Kind of a result, by outcome.
pub open spec fn result_kind(outcome: OutcomeView) -> WorkflowResultType {
    match outcome {
        OutcomeView::Completed(_) => WorkflowResultType::SuccessUnspecified,
        OutcomeView::Failed(_) => WorkflowResultType::Failure,
    }
}

/// Exit code of a result, by outcome: 0 for success, 1 for failure.
pub open spec fn result_exit_code(outcome: OutcomeView) -> i32 {
    match outcome {
        OutcomeView::Completed(_) => 0,
        OutcomeView::Failed(_) => 1,
    }
}

/// The result that a run of `workflow_id` started at `stamp` and ended
/// with `outcome` adds to `history`.
pub open spec fn recorded_result(
    workflow_id: Seq<char>,
    history: Seq<WorkflowResultView>,
    stamp: RunStamp,
    outcome: OutcomeView,
) -> WorkflowResultView {
    WorkflowResultView {
        id: result_id(workflow_id, stamp),
        display_name: result_display_name(stamp),
        description: result_description(outcome),
        result: result_text(outcome),
        ran_at: Some(stamp.timestamp()),
        result_type: result_kind(outcome).wire(),
        exit_code: result_exit_code(outcome),
        workflow_result_revision: next_revision(history) as i32,
    }
}

/// The history of `workflow_id` after `runs` more runs, each given by its
/// start and its outcome, oldest first.
pub open spec fn history_after(
    workflow_id: Seq<char>,
    history: Seq<WorkflowResultView>,
    runs: Seq<(RunStamp, OutcomeView)>,
) -> Seq<WorkflowResultView>
    decreases runs.len(),
{
    if runs.len() == 0 {
        history
    } else {
        let earlier = history_after(workflow_id, history, runs.drop_last());
        earlier.push(recorded_result(workflow_id, earlier, runs.last().0, runs.last().1))
    }
}

/// A workflow: script text under a revision, the plugin packages the
/// script may call, and the results of its runs so far.
pub struct CoreWorkflowCode<F> {
    /// Identifier of the workflow.
    pub id: String,
    /// The script text.
    pub code: String,
    /// The plugin packages whose functions the script may call.
    pub plugin_packages: Vec<CorePluginPackage<F>>,
    /// Revision of the script text.
    pub code_revision: i32,
    /// Results of the runs so far, oldest first.
    pub result: Vec<WorkflowResult>,
}

impl<F> CoreWorkflowCode<F> {
    /// The results so far, by their views.
    pub open spec fn history(&self) -> Seq<WorkflowResultView> {
        result_views(self.result@)
    }

    /// A workflow made of the given parts, with no run recorded.
    pub fn new(
        id: String,
        code: String,
        plugin_packages: Vec<CorePluginPackage<F>>,
        code_revision: i32,
    ) -> (workflow: Self)
        ensures
            workflow.id == id,
            workflow.code == code,
            workflow.plugin_packages == plugin_packages,
            workflow.code_revision == code_revision,
            workflow.result@ == Seq::<WorkflowResult>::empty(),
            revisions_contiguous(workflow.history()),
    {
        Self { id, code, plugin_packages, code_revision, result: Vec::new() }
    }

    /// A workflow whose identifier, script text and revision are those of
    /// `workflow_code`, with no run recorded.
    pub fn new_from_proto(
        workflow_code: &WorkflowCode,
        plugin_packages: Vec<CorePluginPackage<F>>,
    ) -> (workflow: Self)
        ensures
            workflow.id == workflow_code.id,
            workflow.code == workflow_code.code,
            workflow.plugin_packages == plugin_packages,
            workflow.code_revision == workflow_code.code_revision,
            workflow.result@ == Seq::<WorkflowResult>::empty(),
            revisions_contiguous(workflow.history()),
    {
        Self {
            id: workflow_code.id.clone(),
            code: workflow_code.code.clone(),
            plugin_packages,
            code_revision: workflow_code.code_revision,
            result: Vec::new(),
        }
    }

    /// The host functions a run of this workflow offers to the script: all
    /// functions of all packages, in package order and then function
    /// order.
    pub fn host_functions(&self) -> (list: Vec<&CorePluginFunction<F>>)
        ensures
            referents(list@) == flattened(self.plugin_packages@),
    {
        flatten_packages(&self.plugin_packages)
    }

    /// The state a run of this workflow starts with: the workflow's
    /// identifier, capture on, nothing captured.
    pub fn fresh_state(&self) -> (state: OpStateWorkflowData)
        ensures
            state@ == (WorkflowDataView {
                workflow_id: self.id@,
                result: Seq::<StdoutView>::empty(),
                capture_stdout: true,
            }),
    {
        OpStateWorkflowData::new(self.id.as_str(), true)
    }

    /// The execution a run of this workflow asks of the interpreter: the
    /// workflow's script, its host functions, and a fresh capturing state.
    pub fn prepare_run(&self) -> (request: ExecutionRequest<'_, F>)
        ensures
            request.script@ == self.code@,
            referents(request.host_functions@) == flattened(self.plugin_packages@),
            request.state@ == (WorkflowDataView {
                workflow_id: self.id@,
                result: Seq::<StdoutView>::empty(),
                capture_stdout: true,
            }),
    {
        ExecutionRequest {
            script: self.code.as_str(),
            host_functions: self.host_functions(),
            state: self.fresh_state(),
        }
    }

    /// Whether one more result can be recorded: the next revision still
    /// fits the revision's type.
    pub fn can_run(&self) -> (fits: bool)
        ensures
            fits == (next_revision(self.history()) <= i32::MAX),
    {
        let n = self.result.len();
        n == 0 || self.result[n - 1].workflow_result_revision < i32::MAX
    }

    /// Records one run, started at `stamp` and ended with `outcome`, as the
    /// next result of the history. Nothing else of the workflow changes,
    /// and no earlier result is touched.
    pub fn run(&mut self, stamp: RunStamp, outcome: ScriptOutcome)
        requires
            next_revision(old(self).history()) <= i32::MAX,
        ensures
            final(self).id == old(self).id,
            final(self).code == old(self).code,
            final(self).plugin_packages == old(self).plugin_packages,
            final(self).code_revision == old(self).code_revision,
            final(self).result@.len() == old(self).result@.len() + 1,
            final(self).result@.drop_last() == old(self).result@,
            final(self).history() == old(self).history().push(
                recorded_result(old(self).id@, old(self).history(), stamp, outcome@),
            ),
            revisions_contiguous(old(self).history()) ==> revisions_contiguous(
                final(self).history(),
            ),
    {
        let mut id = self.id.clone();
        id.append("-");
        append_decimal(&mut id, stamp.epoch_nanos());
        let mut display_name = String::from_str("Run ");
        append_decimal(&mut display_name, stamp.secs as u128);
        let n = self.result.len();
        let workflow_result_revision: i32 = if n == 0 {
            1
        } else {
            self.result[n - 1].workflow_result_revision + 1
        };
        let (description, result, kind, exit_code) = match outcome {
            ScriptOutcome::Completed(state) => (
                String::from_str("Success"),
                state.stdout_to_string(),
                WorkflowResultType::SuccessUnspecified,
                0i32,
            ),
            ScriptOutcome::Failed(message) => {
                let mut description = String::from_str("Error: ");
                description.append(message.as_str());
                (description, message, WorkflowResultType::Failure, 1i32)
            },
        };
        let recorded = WorkflowResult {
            id,
            display_name,
            description,
            result,
            ran_at: Some(stamp.to_timestamp()),
            result_type: kind.code(),
            exit_code,
            workflow_result_revision,
        };
        proof {
            reveal_strlit("-");
            assert("-"@ =~= seq!['-']);
            assert(recorded@.id =~= result_id(old(self).id@, stamp));
            assert(recorded@ == recorded_result(old(self).id@, old(self).history(), stamp, outcome@));
        }
        self.result.push(recorded);
        proof {
            assert(self.result@.drop_last() =~= old(self).result@);
            assert(self.history() =~= old(self).history().push(recorded@));
        }
    }
}

/// Revisions are gap-free whatever runs are recorded: a history whose
/// result at index `i` has revision `i + 1`, the empty one among them,
/// keeps that shape through any sequence of further runs, and grows by one
/// result per run.
pub proof fn lemma_revisions_contiguous(
    workflow_id: Seq<char>,
    history: Seq<WorkflowResultView>,
    runs: Seq<(RunStamp, OutcomeView)>,
)
    requires
        revisions_contiguous(history),
        history.len() + runs.len() <= i32::MAX,
    ensures
        history_after(workflow_id, history, runs).len() == history.len() + runs.len(),
        revisions_contiguous(history_after(workflow_id, history, runs)),
    decreases runs.len(),
{
    if runs.len() > 0 {
        lemma_revisions_contiguous(workflow_id, history, runs.drop_last());
    }
}

/// Runs of one workflow that start at different nanoseconds get different
/// result identifiers.
pub proof fn lemma_result_ids_distinct(workflow_id: Seq<char>, a: RunStamp, b: RunStamp)
    requires
        a.nanos() != b.nanos(),
    ensures
        result_id(workflow_id, a) != result_id(workflow_id, b),
{
    let prefix = workflow_id + seq!['-'];
    let id_a = result_id(workflow_id, a);
    let id_b = result_id(workflow_id, b);
    if id_a == id_b {
        assert(id_a.subrange(prefix.len() as int, id_a.len() as int) =~= decimal_digits(a.nanos()));
        assert(id_b.subrange(prefix.len() as int, id_b.len() as int) =~= decimal_digits(b.nanos()));
        lemma_decimal_digits_injective(a.nanos(), b.nanos());
    }
}

} // verus!
