//! Per-run execution state: the data that host functions read and extend
//! while one script runs.

use vstd::prelude::*;
use vstd::string::*;

verus! {

/// One piece of text a script emitted while output capture was on.
#[derive(Debug, Clone, PartialEq, Eq)]
pub enum WorkflowStdout {
    /// Text recorded from the output channel.
    Stdout(String),
    /// Text recorded from the error channel.
    Stderr(String),
}

/// Mathematical value of a [`WorkflowStdout`].
pub enum StdoutView {
    Stdout(Seq<char>),
    Stderr(Seq<char>),
}

impl StdoutView {
    /// The characters carried by the record, whatever its channel.
    pub open spec fn text(self) -> Seq<char> {
        match self {
            StdoutView::Stdout(t) => t,
            StdoutView::Stderr(t) => t,
        }
    }
}

impl View for WorkflowStdout {
    type V = StdoutView;

    open spec fn view(&self) -> StdoutView {
        match self {
            WorkflowStdout::Stdout(t) => StdoutView::Stdout(t@),
            WorkflowStdout::Stderr(t) => StdoutView::Stderr(t@),
        }
    }
}

/// The records of a buffer, each taken by its view.
pub open spec fn record_views(records: Seq<WorkflowStdout>) -> Seq<StdoutView> {
    records.map_values(|r: WorkflowStdout| r@)
}

/// The records' texts joined in order, with nothing between them.
pub open spec fn joined_text(records: Seq<StdoutView>) -> Seq<char> {
    records.map_values(|r: StdoutView| r.text()).flatten()
}

/// State shared by the host functions of one run: whose run it is, whether
/// printed text is captured, and the text captured so far.
#[derive(Debug, Clone)]
pub struct OpStateWorkflowData {
    workflow_id: String,
    result: Vec<WorkflowStdout>,
    capture_stdout: bool,
}

/// Mathematical value of an [`OpStateWorkflowData`].
pub struct WorkflowDataView {
    pub workflow_id: Seq<char>,
    pub result: Seq<StdoutView>,
    pub capture_stdout: bool,
}

impl View for OpStateWorkflowData {
    type V = WorkflowDataView;

    closed spec fn view(&self) -> WorkflowDataView {
        WorkflowDataView {
            workflow_id: self.workflow_id@,
            result: record_views(self.result@),
            capture_stdout: self.capture_stdout,
        }
    }
}

impl OpStateWorkflowData {
    /// State for a run of `workflow_id`, with nothing captured yet.
    pub fn new(workflow_id: &str, capture_stdout: bool) -> (state: Self)
        ensures
            state@.workflow_id == workflow_id@,
            state@.result == Seq::<StdoutView>::empty(),
            state@.capture_stdout == capture_stdout,
    {
        let state = Self {
            workflow_id: workflow_id.to_owned(),
            result: Vec::new(),
            capture_stdout,
        };
        assert(record_views(state.result@) =~= Seq::<StdoutView>::empty());
        state
    }

    /// The workflow this state belongs to.
    pub fn get_workflow_id(&self) -> (id: &str)
        ensures
            id@ == self@.workflow_id,
    {
        self.workflow_id.as_str()
    }

    /// Appends `stdout` to the buffer when capture is on; otherwise leaves
    /// the state as it was.
    pub fn add_result(&mut self, stdout: WorkflowStdout)
        ensures
            final(self)@.workflow_id == old(self)@.workflow_id,
            final(self)@.capture_stdout == old(self)@.capture_stdout,
            final(self)@.result == if old(self)@.capture_stdout {
                old(self)@.result.push(stdout@)
            } else {
                old(self)@.result
            },
    {
        if self.capture_stdout {
            self.result.push(stdout);
            assert(record_views(self.result@) =~= record_views(old(self).result@).push(stdout@));
        }
    }

    /// The captured records, oldest first.
    pub fn get_results(&self) -> (records: &Vec<WorkflowStdout>)
        ensures
            record_views(records@) == self@.result,
    {
        &self.result
    }

    /// Whether printed text is captured rather than passed through.
    pub fn is_capture_stdout(&self) -> (capture: bool)
        ensures
            capture == self@.capture_stdout,
    {
        self.capture_stdout
    }

    /// The captured text as one string: every record's text, oldest first,
    /// with no separator added.
    pub fn stdout_to_string(&self) -> (text: String)
        ensures
            text@ == joined_text(self@.result),
    {
        let mut text = String::new();
        let mut i: usize = 0;
        while i < self.result.len()
            invariant
                i <= self.result.len(),
                text@ == joined_text(record_views(self.result@.take(i as int))),
            decreases self.result.len() - i,
        {
            let ghost before = record_views(self.result@.take(i as int));
            match &self.result[i] {
                WorkflowStdout::Stdout(t) => text.append(t.as_str()),
                WorkflowStdout::Stderr(t) => text.append(t.as_str()),
            }
            proof {
                let record = self.result@[i as int]@;
                let after = record_views(self.result@.take(i + 1));
                assert(after =~= before.push(record));
                let texts = before.map_values(|r: StdoutView| r.text());
                assert(after.map_values(|r: StdoutView| r.text()) =~= texts.push(record.text()));
                texts.lemma_flatten_push(record.text());
            }
            i += 1;
        }
        assert(self.result@.take(i as int) =~= self.result@);
        text
    }
}

} // verus!
