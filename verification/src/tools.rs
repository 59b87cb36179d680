//! Tools: functions that the model may ask to have called.

use vstd::prelude::*;
use crate::error::{ToolError, ToolErrorView, ToolSetError, ToolSetErrorView};
use crate::json::{Json, JsonView};
use crate::message::{calls_view, responses_view, ToolCall, ToolCallView, ToolResponse, ToolResponseView};
use crate::schema::tool_declaration;
use crate::state::StateStore;
use crate::text::str_eq;

verus! {

/// What a batch of tool calls does when one of them fails.
#[derive(Debug, Clone, Copy, PartialEq, Eq)]
pub enum ExecutionStrategy {
    /// The first failure ends the batch and is returned; the results
    /// gathered so far are dropped.
    FailEarly,
    /// Every call is made; failures are dropped without a trace and the
    /// results of the other calls are returned.
    BestEffort,
}

/// One parameter of a tool: its name, what it means, and the JSON schema of
/// its values.
#[derive(Debug, PartialEq, Eq)]
pub struct ToolArg {
    pub name: String,
    pub description: String,
    pub schema: Json,
}

/// The model of a [`ToolArg`].
pub struct ToolArgView {
    pub name: Seq<char>,
    pub description: Seq<char>,
    pub schema: JsonView,
}

impl View for ToolArg {
    type V = ToolArgView;

    open spec fn view(&self) -> ToolArgView {
        ToolArgView { name: self.name@, description: self.description@, schema: self.schema@ }
    }
}

/// The models of a list of parameters.
pub open spec fn args_view(args: Seq<ToolArg>) -> Seq<ToolArgView> {
    Seq::new(args.len(), |i: int| args[i]@)
}

impl ToolArg {
    /// The parameter's name.
    pub fn name(&self) -> (r: &str)
        ensures
            r@ == self@.name,
    {
        self.name.as_str()
    }

    /// What the parameter means.
    pub fn description(&self) -> (r: &str)
        ensures
            r@ == self@.description,
    {
        self.description.as_str()
    }

    /// The schema of the parameter's values.
    pub fn schema(&self) -> (r: &Json)
        ensures
            r@ == self@.schema,
    {
        &self.schema
    }
}

/// A function that the model may ask to have called, with JSON arguments
/// and read access to the shared state. The library promises nothing of an
/// implementation: what a tool reports and returns is taken as it comes.
pub trait Tool<V: Send + Sync + 'static>: Send + Sync {
    /// The name under which the model calls the tool.
    fn name(&self) -> &str;

    /// What the tool does.
    fn description(&self) -> &str;

    /// The tool's parameters.
    fn args(&self) -> &[ToolArg];

    /// Runs the tool on arguments given as JSON text.
    fn call(&self, args: &str, states: &StateStore<V>) -> Result<Json, ToolError>;

    /// The schema of the tool's result, where it declares one.
    fn output_schema(&self) -> Option<Json> {
        None
    }

    /// The declaration of the tool as it is sent to a backend, made by
    /// [`tool_declaration`] of what the tool reports of itself.
    fn default_serializer(&self) -> Json {
        tool_declaration(self.name(), self.description(), self.args())
    }
}

/// The tools on offer, in the order in which they are searched, and what a
/// batch does on a failure.
#[verifier::reject_recursive_types(V)]
pub struct ToolSet<V: Send + Sync + 'static>(pub Vec<Box<dyn Tool<V>>>, pub ExecutionStrategy);

/// The model of the result of one tool.
pub open spec fn outcome_view(outcome: Result<Json, ToolError>) -> Result<JsonView, ToolErrorView> {
    match outcome {
        Ok(v) => Ok(v@),
        Err(e) => Err(e@),
    }
}

/// The model of the result of one dispatched call.
pub open spec fn response_view(response: Result<ToolResponse, ToolSetError>) -> Result<
    ToolResponseView,
    ToolSetErrorView,
> {
    match response {
        Ok(v) => Ok(v@),
        Err(e) => Err(e@),
    }
}

/// The model of the result of a batch.
pub open spec fn batch_view(batch: Result<Vec<ToolResponse>, ToolSetError>) -> Result<
    Seq<ToolResponseView>,
    ToolSetErrorView,
> {
    match batch {
        Ok(v) => Ok(responses_view(v@)),
        Err(e) => Err(e@),
    }
}

/// The result of a call with the call's `id` and `name` on it; a tool's
/// failure is passed on.
pub open spec fn spec_stamp(
    id: Seq<char>,
    name: Seq<char>,
    outcome: Result<JsonView, ToolErrorView>,
) -> Result<ToolResponseView, ToolSetErrorView> {
    match outcome {
        Ok(content) => Ok(ToolResponseView { id, name, content }),
        Err(e) => Err(ToolSetErrorView::ToolError(e)),
    }
}

/// Puts the `id` and `name` of a call on what the tool returned.
pub fn stamp(id: &str, name: &str, outcome: Result<Json, ToolError>) -> (r: Result<
    ToolResponse,
    ToolSetError,
>)
    ensures
        response_view(r) == spec_stamp(id@, name@, outcome_view(outcome)),
{
    match outcome {
        Ok(content) => Ok(
            ToolResponse { id: String::from_str(id), name: String::from_str(name), content },
        ),
        Err(e) => Err(ToolSetError::ToolError(e)),
    }
}

/// The index of the first of `names` that equals `name`.
pub open spec fn spec_first(names: Seq<Seq<char>>, name: Seq<char>) -> Option<int>
    decreases names.len(),
{
    if names.len() == 0 {
        None
    } else if names[0] == name {
        Some(0)
    } else {
        match spec_first(names.drop_first(), name) {
            Some(i) => Some(i + 1),
            None => None,
        }
    }
}

/// `spec_first` finds the least index with the name, and none exactly when
/// the name does not occur.
pub proof fn lemma_first(names: Seq<Seq<char>>, name: Seq<char>)
    ensures
        match spec_first(names, name) {
            Some(i) => 0 <= i < names.len() && names[i] == name && forall|j: int|
                0 <= j < i ==> names[j] != name,
            None => forall|j: int| 0 <= j < names.len() ==> names[j] != name,
        },
    decreases names.len(),
{
    if names.len() > 0 && names[0] != name {
        let rest = names.drop_first();
        lemma_first(rest, name);
        match spec_first(rest, name) {
            Some(i) => {
                assert forall|j: int| 0 <= j < i + 1 implies names[j] != name by {
                    if j > 0 {
                        assert(names[j] == rest[j - 1]);
                    }
                }
            },
            None => {
                assert forall|j: int| 0 <= j < names.len() implies names[j] != name by {
                    if j > 0 {
                        assert(names[j] == rest[j - 1]);
                    }
                }
            },
        }
    }
}

/// What one call may come back with from a set of `tools` tools: a failed
/// lookup, or the result or failure of one of the tools, with the call's
/// `id` and `name`. A set without tools fails every lookup.
pub open spec fn admissible(
    tools: nat,
    call: ToolCallView,
    outcome: Result<ToolResponseView, ToolSetErrorView>,
) -> bool {
    match outcome {
        Ok(response) => tools > 0 && response.id == call.id && response.name == call.name,
        Err(e) => e is ToolNotFound || (tools > 0 && e is ToolError),
    }
}

/// What a lookup of `name` gives among tools that report `names`: the index
/// of the first tool with that name, or `ToolNotFound` where there is none.
pub open spec fn spec_lookup(names: Seq<Seq<char>>, name: Seq<char>) -> Result<
    int,
    ToolSetErrorView,
> {
    match spec_first(names, name) {
        Some(i) => Ok(i),
        None => Err(ToolSetErrorView::ToolNotFound),
    }
}

/// The result of a batch, from the results of its calls in order. Under
/// `FailEarly` it is the first failure, or all results if there is none;
/// under `BestEffort` it is the results of the calls that succeeded.
pub open spec fn spec_collect(
    strategy: ExecutionStrategy,
    outcomes: Seq<Result<ToolResponseView, ToolSetErrorView>>,
) -> Result<Seq<ToolResponseView>, ToolSetErrorView>
    decreases outcomes.len(),
{
    if outcomes.len() == 0 {
        Ok(Seq::empty())
    } else {
        spec_absorb(strategy, spec_collect(strategy, outcomes.drop_last()), outcomes.last())
    }
}

/// One step of a batch: what the batch's result becomes with one more
/// call's result.
pub open spec fn spec_absorb(
    strategy: ExecutionStrategy,
    so_far: Result<Seq<ToolResponseView>, ToolSetErrorView>,
    outcome: Result<ToolResponseView, ToolSetErrorView>,
) -> Result<Seq<ToolResponseView>, ToolSetErrorView> {
    match so_far {
        Err(e) => Err(e),
        Ok(responses) => match outcome {
            Ok(response) => Ok(responses.push(response)),
            Err(e) => match strategy {
                ExecutionStrategy::FailEarly => Err(e),
                ExecutionStrategy::BestEffort => Ok(responses),
            },
        },
    }
}

/// The calls of a batch that were made, with what came back: each result is
/// one that its call may come back with, and calls are left out only behind
/// a failure under `FailEarly`.
pub open spec fn dispatched(
    tools: nat,
    strategy: ExecutionStrategy,
    calls: Seq<ToolCallView>,
    outcomes: Seq<Result<ToolResponseView, ToolSetErrorView>>,
) -> bool {
    &&& outcomes.len() <= calls.len()
    &&& forall|i: int| 0 <= i < outcomes.len() ==> admissible(tools, calls[i], #[trigger] outcomes[i])
    &&& forall|i: int| 0 <= i < outcomes.len() - 1 ==> strategy is FailEarly ==> (
    #[trigger] outcomes[i]) is Ok
    &&& outcomes.len() < calls.len() ==> strategy is FailEarly && outcomes.len() > 0
        && outcomes.last() is Err
}

/// Takes one more call's result into the result of a batch.
pub fn absorb(
    strategy: ExecutionStrategy,
    so_far: Result<Vec<ToolResponse>, ToolSetError>,
    outcome: Result<ToolResponse, ToolSetError>,
) -> (r: Result<Vec<ToolResponse>, ToolSetError>)
    ensures
        batch_view(r) == spec_absorb(strategy, batch_view(so_far), response_view(outcome)),
{
    match so_far {
        Err(e) => Err(e),
        Ok(mut responses) => match outcome {
            Ok(response) => {
                let ghost before = responses_view(responses@);
                responses.push(response);
                assert(responses_view(responses@) =~= before.push(response@));
                Ok(responses)
            },
            Err(e) => match strategy {
                ExecutionStrategy::FailEarly => Err(e),
                ExecutionStrategy::BestEffort => Ok(responses),
            },
        },
    }
}

/// The result of a batch from the results of all its calls.
pub fn collect(strategy: ExecutionStrategy, outcomes: Vec<Result<ToolResponse, ToolSetError>>) -> (r:
    Result<Vec<ToolResponse>, ToolSetError>)
    ensures
        batch_view(r) == spec_collect(strategy, outcomes_view(outcomes@)),
{
    let ghost all = outcomes_view(outcomes@);
    let mut so_far: Result<Vec<ToolResponse>, ToolSetError> = Ok(Vec::new());
    let mut rest = outcomes;
    assert(responses_view(Seq::<ToolResponse>::empty()) =~= Seq::<ToolResponseView>::empty());
    assert(all.take(0) =~= Seq::empty());
    let ghost mut n: int = 0;
    while rest.len() > 0
        invariant
            all.len() == n + rest@.len(),
            forall|j: int|
                0 <= j < rest@.len() ==> response_view(#[trigger] rest@[j]) == all[n + j],
            0 <= n,
            batch_view(so_far) == spec_collect(strategy, all.take(n)),
        decreases rest@.len(),
    {
        let outcome = rest.remove(0);
        proof {
            assert(all.take(n + 1).drop_last() =~= all.take(n));
            assert(all.take(n + 1).last() == all[n]);
        }
        so_far = absorb(strategy, so_far, outcome);
        proof {
            n = n + 1;
        }
    }
    assert(all.take(n) =~= all);
    so_far
}

/// The models of a list of call results.
pub open spec fn outcomes_view(outcomes: Seq<Result<ToolResponse, ToolSetError>>) -> Seq<
    Result<ToolResponseView, ToolSetErrorView>,
> {
    Seq::new(outcomes.len(), |i: int| response_view(outcomes[i]))
}

/// The index of the first of `names` that equals `name`; names are compared
/// exactly.
pub fn first_match(names: &Vec<String>, name: &str) -> (r: Option<usize>)
    ensures
        match r {
            Some(i) => spec_first(names_view(names@), name@) == Some(i as int) && i < names@.len(),
            None => spec_first(names_view(names@), name@) is None,
        },
{
    let ghost all = names_view(names@);
    let mut i: usize = 0;
    while i < names.len()
        invariant
            i <= names@.len(),
            all == names_view(names@),
            forall|j: int| 0 <= j < i ==> all[j] != name@,
        decreases names@.len() - i,
    {
        if str_eq(names[i].as_str(), name) {
            proof {
                lemma_first(all, name@);
                assert(all[i as int] == name@);
            }
            return Some(i);
        }
        i += 1;
    }
    proof {
        lemma_first(all, name@);
    }
    None
}

/// The texts of a list of strings.
pub open spec fn names_view(names: Seq<String>) -> Seq<Seq<char>> {
    Seq::new(names.len(), |i: int| names[i]@)
}

impl<V: Send + Sync + 'static> ToolSet<V> {
    /// The names that the tools report, in the order of the tools.
    pub fn names(&self) -> (r: Vec<String>)
        ensures
            r@.len() == self.0@.len(),
    {
        let mut names: Vec<String> = Vec::new();
        let mut i: usize = 0;
        while i < self.0.len()
            invariant
                i <= self.0@.len(),
                names@.len() == i,
            decreases self.0@.len() - i,
        {
            names.push(String::from_str(self.0[i].name()));
            i += 1;
        }
        names
    }

    /// The first tool that reports the name `name`. Whatever the tools
    /// report, the result is that of `spec_lookup` on their names: the first
    /// match, or `ToolNotFound` where no name matches.
    pub fn find_tool(&self, name: &str) -> (r: Result<&Box<dyn Tool<V>>, ToolSetError>)
        ensures
            exists|names: Seq<Seq<char>>|
                names.len() == self.0@.len() && match spec_lookup(names, name@) {
                    Ok(i) => r is Ok && *r->Ok_0 == self.0@[i],
                    Err(e) => r is Err && r->Err_0@ == e,
                },
            self.0@.len() == 0 ==> r is Err,
            r matches Err(e) ==> e is ToolNotFound,
    {
        let names = self.names();
        proof {
            lemma_first(names_view(names@), name@);
        }
        match first_match(&names, name) {
            Some(i) => Ok(&self.0[i]),
            None => {
                assert(spec_lookup(names_view(names@), name@) is Err);
                Err(ToolSetError::ToolNotFound)
            },
        }
    }

    /// Adds a tool behind the others.
    pub fn add_tool(&mut self, tool: Box<dyn Tool<V>>)
        ensures
            final(self).0@ == old(self).0@.push(tool),
            final(self).1 == old(self).1,
    {
        self.0.push(tool);
    }

    /// Removes the first tool that reports the name `name`. Whatever the
    /// tools report, the result is that of `spec_lookup` on their names: the
    /// first match leaves the set, or the call fails with `ToolNotFound` and
    /// the set stays as it was.
    pub fn remove_tool(&mut self, name: &str) -> (r: Result<(), ToolSetError>)
        ensures
            final(self).1 == old(self).1,
            exists|names: Seq<Seq<char>>|
                names.len() == old(self).0@.len() && match spec_lookup(names, name@) {
                    Ok(i) => r is Ok && final(self).0@ == old(self).0@.remove(i),
                    Err(e) => r is Err && r->Err_0@ == e && final(self).0@ == old(self).0@,
                },
    {
        let names = self.names();
        proof {
            lemma_first(names_view(names@), name@);
        }
        match first_match(&names, name) {
            Some(pos) => {
                self.0.remove(pos);
                Ok(())
            },
            None => {
                assert(spec_lookup(names_view(names@), name@) is Err);
                Err(ToolSetError::ToolNotFound)
            },
        }
    }

    /// Runs the first tool that reports the name `name` on `args`, and puts
    /// `id` and `name` on its result. A failed lookup and a failure of the
    /// tool are passed on.
    pub fn call(&self, id: &str, name: &str, args: &str, states: &StateStore<V>) -> (r: Result<
        ToolResponse,
        ToolSetError,
    >)
        ensures
            admissible(
                self.0@.len(),
                ToolCallView { id: id@, name: name@, arguments: args@ },
                response_view(r),
            ),
    {
        match self.find_tool(name) {
            Err(e) => Err(e),
            Ok(tool) => {
                let outcome = tool.call(args, states);
                stamp(id, name, outcome)
            },
        }
    }

    /// Runs a batch of calls, one after the other and in order. The result
    /// is that of `spec_collect` on what the calls came back with.
    pub fn run(&self, calls: &[ToolCall], states: &StateStore<V>) -> (r: Result<
        Vec<ToolResponse>,
        ToolSetError,
    >)
        ensures
            exists|outcomes: Seq<Result<ToolResponseView, ToolSetErrorView>>|
                dispatched(self.0@.len(), self.1, calls_view(calls@), outcomes) && batch_view(r)
                    == spec_collect(self.1, outcomes),
    {
        let ghost tools = self.0@.len();
        let ghost mut outcomes: Seq<Result<ToolResponseView, ToolSetErrorView>> = Seq::empty();
        let mut so_far: Result<Vec<ToolResponse>, ToolSetError> = Ok(Vec::new());
        assert(responses_view(Seq::<ToolResponse>::empty()) =~= Seq::<ToolResponseView>::empty());
        let mut i: usize = 0;
        while i < calls.len() && so_far.is_ok()
            invariant
                i <= calls@.len(),
                tools == self.0@.len(),
                outcomes.len() == i,
                forall|j: int|
                    0 <= j < i ==> admissible(tools, calls_view(calls@)[j], #[trigger] outcomes[j]),
                forall|j: int|
                    0 <= j < i - 1 ==> self.1 is FailEarly ==> (#[trigger] outcomes[j]) is Ok,
                batch_view(so_far) == spec_collect(self.1, outcomes),
                so_far is Err ==> self.1 is FailEarly && i > 0 && outcomes.last() is Err,
                so_far is Ok && self.1 is FailEarly ==> forall|j: int|
                    0 <= j < i ==> (#[trigger] outcomes[j]) is Ok,
            decreases calls@.len() - i,
        {
            let call = &calls[i];
            let outcome = self.call(
                call.id.as_str(),
                call.name.as_str(),
                call.arguments.as_str(),
                states,
            );
            proof {
                let before = outcomes;
                outcomes = outcomes.push(response_view(outcome));
                assert(outcomes.drop_last() =~= before);
            }
            so_far = absorb(self.1, so_far, outcome);
            i += 1;
        }
        proof {
            assert(dispatched(tools, self.1, calls_view(calls@), outcomes));
        }
        so_far
    }
}

/// Under `FailEarly` a batch fails with the first failure among its calls.
pub proof fn lemma_fail_early_first_failure(
    outcomes: Seq<Result<ToolResponseView, ToolSetErrorView>>,
    first: int,
)
    requires
        0 <= first < outcomes.len(),
        outcomes[first] is Err,
        forall|j: int| 0 <= j < first ==> outcomes[j] is Ok,
    ensures
        spec_collect(ExecutionStrategy::FailEarly, outcomes) == Err::<
            Seq<ToolResponseView>,
            ToolSetErrorView,
        >(outcomes[first]->Err_0),
    decreases outcomes.len(),
{
    let shorter = outcomes.drop_last();
    if first == outcomes.len() - 1 {
        lemma_fail_early_all_succeed(shorter);
    } else {
        lemma_fail_early_first_failure(shorter, first);
    }
}

/// Under `FailEarly` a batch without a failure returns every result, in the
/// order of the calls.
pub proof fn lemma_fail_early_all_succeed(
    outcomes: Seq<Result<ToolResponseView, ToolSetErrorView>>,
)
    requires
        forall|j: int| 0 <= j < outcomes.len() ==> outcomes[j] is Ok,
    ensures
        spec_collect(ExecutionStrategy::FailEarly, outcomes) == Ok::<
            Seq<ToolResponseView>,
            ToolSetErrorView,
        >(Seq::new(outcomes.len(), |j: int| outcomes[j]->Ok_0)),
    decreases outcomes.len(),
{
    let all = Seq::new(outcomes.len(), |j: int| outcomes[j]->Ok_0);
    if outcomes.len() == 0 {
        assert(all =~= Seq::empty());
    } else {
        let shorter = outcomes.drop_last();
        lemma_fail_early_all_succeed(shorter);
        let fewer = Seq::new(shorter.len(), |j: int| shorter[j]->Ok_0);
        assert(all =~= fewer.push(outcomes.last()->Ok_0));
    }
}

/// The results of the calls that succeeded, in the order of the calls.
pub open spec fn successes(outcomes: Seq<Result<ToolResponseView, ToolSetErrorView>>) -> Seq<
    ToolResponseView,
> {
    outcomes.filter(|o: Result<ToolResponseView, ToolSetErrorView>| o is Ok).map_values(
        |o: Result<ToolResponseView, ToolSetErrorView>| o->Ok_0,
    )
}

/// Under `BestEffort` a batch never fails, and returns exactly the results
/// of the calls that succeeded, in the order of the calls.
pub proof fn lemma_best_effort_keeps_successes(
    outcomes: Seq<Result<ToolResponseView, ToolSetErrorView>>,
)
    ensures
        spec_collect(ExecutionStrategy::BestEffort, outcomes) == Ok::<
            Seq<ToolResponseView>,
            ToolSetErrorView,
        >(successes(outcomes)),
    decreases outcomes.len(),
{
    let keep = |o: Result<ToolResponseView, ToolSetErrorView>| o is Ok;
    let value = |o: Result<ToolResponseView, ToolSetErrorView>| o->Ok_0;
    if outcomes.len() == 0 {
        crate::text::lemma_filter_empty(keep);
        assert(successes(outcomes) =~= Seq::empty());
    } else {
        let shorter = outcomes.drop_last();
        lemma_best_effort_keeps_successes(shorter);
        assert(outcomes =~= shorter.push(outcomes.last()));
        crate::text::lemma_filter_push(shorter, keep, outcomes.last());
        if outcomes.last() is Ok {
            assert(shorter.filter(keep).push(outcomes.last()).map_values(value) =~= shorter.filter(
                keep,
            ).map_values(value).push(outcomes.last()->Ok_0));
        }
    }
}

} // verus!
