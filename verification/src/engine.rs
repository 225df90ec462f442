//! The boundary with the script interpreter: which callable each name is
//! bound to for one execution, the state an execution falls back on, and
//! the outcome an execution ends with. The interpreter itself is the
//! host's; nothing here runs a script.

use vstd::prelude::*;
use vstd::string::*;

use crate::plugin::{referents, CorePluginFunction};
use crate::runtime::{OpStateWorkflowData, StdoutView, WorkflowDataView};

verus! {

/// The reserved name under which every script reaches the output
/// interceptor.
pub open spec fn print_binding() -> Seq<char> {
    "print"@
}

/// The workflow identifier of the state used when the caller supplies none.
pub open spec fn default_workflow_id() -> Seq<char> {
    "default_workflow"@
}

/// The reserved name under which every script reaches the output
/// interceptor.
pub fn print_binding_name() -> (name: &'static str)
    ensures
        name@ == print_binding(),
{
    "print"
}

/// Whether `name` is the reserved print binding.
pub fn is_print_binding(name: &str) -> (reserved: bool)
    ensures
        reserved == (name@ == print_binding()),
{
    let given = name.to_owned();
    let reserved = "print".to_owned();
    given == reserved
}

/// The body in effect under `name` once the interceptor is installed: the
/// interceptor for the reserved name, the registered body for any other.
pub open spec fn bound_body<F>(name: Seq<char>, body: F, interceptor: F) -> F {
    if name == print_binding() {
        interceptor
    } else {
        body
    }
}

/// Decides the body that `name` is bound to: `interceptor` takes the place
/// of whatever was registered under the reserved print name, and every
/// other registration is kept.
pub fn bind_host_function<F>(name: &str, body: F, interceptor: F) -> (bound: F)
    ensures
        bound == bound_body(name@, body, interceptor),
{
    if is_print_binding(name) {
        interceptor
    } else {
        body
    }
}

/// One entry of an execution's binding table.
pub struct Binding<'a, F> {
    /// The name scripts call.
    pub name: &'a str,
    /// The body that answers the call.
    pub body: &'a F,
}

/// Mathematical value of a binding table: names paired with bodies.
pub open spec fn binding_views<'a, F>(table: Seq<Binding<'a, F>>) -> Seq<(Seq<char>, F)> {
    table.map_values(|b: Binding<'a, F>| (b.name@, *b.body))
}

/// The binding table of one execution: every host function in list order,
/// each under its own name and with the interceptor in place of its body
/// where that name is the reserved one, followed by the interceptor itself
/// under the reserved name.
pub open spec fn bindings_of<F>(host_functions: Seq<CorePluginFunction<F>>, interceptor: F) -> Seq<
    (Seq<char>, F),
> {
    host_functions.map_values(
        |f: CorePluginFunction<F>| (f.name@, bound_body(f.name@, f.func, interceptor)),
    ).push((print_binding(), interceptor))
}

/// Builds the binding table of one execution from the flattened host
/// functions and the interceptor.
pub fn materialize_bindings<'a, F>(
    host_functions: &Vec<&'a CorePluginFunction<F>>,
    interceptor: &'a F,
) -> (table: Vec<Binding<'a, F>>)
    ensures
        binding_views(table@) == bindings_of(referents(host_functions@), *interceptor),
{
    let mut table: Vec<Binding<'a, F>> = Vec::new();
    let ghost entry = |f: CorePluginFunction<F>| (f.name@, bound_body(f.name@, f.func, *interceptor));
    let mut i: usize = 0;
    assert(binding_views(table@) =~= referents(host_functions@.take(0)).map_values(entry));
    while i < host_functions.len()
        invariant
            i <= host_functions.len(),
            entry == |f: CorePluginFunction<F>| (f.name@, bound_body(f.name@, f.func, *interceptor)),
            binding_views(table@) == referents(host_functions@.take(i as int)).map_values(entry),
        decreases host_functions.len() - i,
    {
        let function = host_functions[i];
        let ghost before = binding_views(table@);
        let body = if is_print_binding(function.name.as_str()) {
            interceptor
        } else {
            &function.func
        };
        table.push(Binding { name: function.name.as_str(), body });
        assert(binding_views(table@) =~= before.push(entry(*function)));
        assert(referents(host_functions@.take(i + 1)) =~= referents(
            host_functions@.take(i as int),
        ).push(*function));
        assert(binding_views(table@) =~= referents(host_functions@.take(i + 1)).map_values(entry));
        i += 1;
    }
    assert(host_functions@.take(i as int) =~= host_functions@);
    let ghost before = binding_views(table@);
    table.push(Binding { name: print_binding_name(), body: interceptor });
    assert(binding_views(table@) =~= before.push((print_binding(), *interceptor)));
    table
}

/// The interceptor answers the reserved name whatever the host functions
/// are called: the table always holds an entry under the reserved name,
/// every entry under that name carries the interceptor, and a host
/// function registered under any other name keeps its place, its name and
/// its body.
pub proof fn lemma_print_binding_takes_precedence<F>(
    host_functions: Seq<CorePluginFunction<F>>,
    interceptor: F,
)
    ensures
        bindings_of(host_functions, interceptor).len() == host_functions.len() + 1,
        bindings_of(host_functions, interceptor).last() == (print_binding(), interceptor),
        forall|i: int|
            0 <= i < bindings_of(host_functions, interceptor).len() && (#[trigger] bindings_of(
                host_functions,
                interceptor,
            )[i]).0 == print_binding() ==> bindings_of(host_functions, interceptor)[i].1
                == interceptor,
        forall|i: int|
            0 <= i < host_functions.len() ==> (#[trigger] bindings_of(
                host_functions,
                interceptor,
            )[i]).0 == host_functions[i].name@,
        forall|i: int|
            0 <= i < host_functions.len() && host_functions[i].name@ != print_binding()
                ==> (#[trigger] bindings_of(host_functions, interceptor)[i]).1
                == host_functions[i].func,
{
}

/// State for an execution whose caller supplied none: the workflow is
/// `default_workflow`, output passes through, and nothing is captured.
pub fn default_workflow_data() -> (state: OpStateWorkflowData)
    ensures
        state@ == (WorkflowDataView {
            workflow_id: default_workflow_id(),
            result: Seq::<StdoutView>::empty(),
            capture_stdout: false,
        }),
{
    OpStateWorkflowData::new("default_workflow", false)
}

/// What the interpreter is asked to execute: the script, the host
/// functions it may call, and the state those functions see.
pub struct ExecutionRequest<'a, F> {
    /// The script text.
    pub script: &'a str,
    /// The host functions offered to the script, in registration order.
    pub host_functions: Vec<&'a CorePluginFunction<F>>,
    /// The state of the run at its start.
    pub state: OpStateWorkflowData,
}

/// How one execution of a script ended.
#[derive(Debug, Clone)]
pub enum ScriptOutcome {
    /// The script ran to completion; the state is the run's state as the
    /// script left it.
    Completed(OpStateWorkflowData),
    /// The script raised or could not be parsed; the text is the
    /// interpreter's message.
    Failed(String),
}

/// Mathematical value of a [`ScriptOutcome`].
pub enum OutcomeView {
    Completed(WorkflowDataView),
    Failed(Seq<char>),
}

impl View for ScriptOutcome {
    type V = OutcomeView;

    open spec fn view(&self) -> OutcomeView {
        match self {
            ScriptOutcome::Completed(state) => OutcomeView::Completed(state@),
            ScriptOutcome::Failed(message) => OutcomeView::Failed(message@),
        }
    }
}

} // verus!
