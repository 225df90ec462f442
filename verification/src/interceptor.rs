//! The output interceptor: the policy every print call of a script goes
//! through. Printed text is either recorded in the run's state or handed
//! to one of the process's real channels, never both.

use vstd::prelude::*;
use vstd::string::*;

use crate::runtime::{
    joined_text, OpStateWorkflowData, StdoutView, WorkflowDataView, WorkflowStdout,
};

verus! {

/// What is to be done with a printed text.
#[derive(Clone, Copy, Debug, PartialEq, Eq)]
pub enum PrintAction {
    /// The text was recorded in the run's state; nothing is to be written.
    Captured,
    /// The text is to be written to the real output channel, which is then
    /// flushed at once.
    WriteStdout,
    /// The text is to be written to the real error channel, which is then
    /// flushed at once.
    WriteStderr,
}

/// The action for a print call, by capture mode and channel.
pub open spec fn print_action(capture: bool, is_err: bool) -> PrintAction {
    if capture {
        PrintAction::Captured
    } else if is_err {
        PrintAction::WriteStderr
    } else {
        PrintAction::WriteStdout
    }
}

/// The state a print call leaves behind: under capture the text joins the
/// buffer as an output-channel record, whichever channel it was printed
/// to; without capture the state stays as it was.
pub open spec fn state_after_print(state: WorkflowDataView, msg: Seq<char>) -> WorkflowDataView {
    if state.capture_stdout {
        WorkflowDataView {
            workflow_id: state.workflow_id,
            result: state.result.push(StdoutView::Stdout(msg)),
            capture_stdout: true,
        }
    } else {
        state
    }
}

/// The state after a series of print calls, given by their texts in call
/// order.
pub open spec fn state_after_prints(state: WorkflowDataView, msgs: Seq<Seq<char>>) -> WorkflowDataView
    decreases msgs.len(),
{
    if msgs.len() == 0 {
        state
    } else {
        state_after_print(state_after_prints(state, msgs.drop_last()), msgs.last())
    }
}

/// Captured text reads back exactly as printed: after any series of print
/// calls under capture, the buffer's joined text is what it was before
/// followed by the printed texts in call order, with nothing added between
/// them. Without capture the buffer does not change. Neither mode changes
/// the workflow identifier or the capture flag.
pub proof fn lemma_prints_join_in_call_order(state: WorkflowDataView, msgs: Seq<Seq<char>>)
    ensures
        state_after_prints(state, msgs).workflow_id == state.workflow_id,
        state_after_prints(state, msgs).capture_stdout == state.capture_stdout,
        state.capture_stdout ==> joined_text(state_after_prints(state, msgs).result)
            == joined_text(state.result) + msgs.flatten(),
        !state.capture_stdout ==> state_after_prints(state, msgs).result == state.result,
    decreases msgs.len(),
{
    if msgs.len() == 0 {
        assert(msgs.flatten() =~= Seq::<char>::empty());
        assert(joined_text(state.result) + msgs.flatten() =~= joined_text(state.result));
    } else {
        let earlier = state_after_prints(state, msgs.drop_last());
        lemma_prints_join_in_call_order(state, msgs.drop_last());
        if state.capture_stdout {
            let texts = earlier.result.map_values(|r: StdoutView| r.text());
            let record = StdoutView::Stdout(msgs.last());
            assert(earlier.result.push(record).map_values(|r: StdoutView| r.text()) =~= texts.push(
                msgs.last(),
            ));
            texts.lemma_flatten_push(msgs.last());
            assert(msgs.drop_last().push(msgs.last()) =~= msgs);
            msgs.drop_last().lemma_flatten_push(msgs.last());
            assert(joined_text(state.result) + msgs.drop_last().flatten() + msgs.last()
                =~= joined_text(state.result) + (msgs.drop_last().flatten() + msgs.last()));
        }
    }
}

/// Routes one print call. With capture on, `msg` is appended to the
/// state's buffer and nothing is left to write; with capture off, the
/// state is untouched and the caller is told which real channel to write
/// `msg` to.
pub fn intercept_print(state: &mut OpStateWorkflowData, msg: &str, is_err: bool) -> (action:
    PrintAction)
    ensures
        action == print_action(old(state)@.capture_stdout, is_err),
        final(state)@ == state_after_print(old(state)@, msg@),
{
    if is_err {
        if state.is_capture_stdout() {
            state.add_result(WorkflowStdout::Stdout(msg.to_owned()));
            PrintAction::Captured
        } else {
            PrintAction::WriteStderr
        }
    } else if state.is_capture_stdout() {
        state.add_result(WorkflowStdout::Stdout(msg.to_owned()));
        PrintAction::Captured
    } else {
        PrintAction::WriteStdout
    }
}

} // verus!
