//! The substitute models that reshape the probabilities of the outgoing
//! edges of a state of the Markov chain: the plain Markov model, the models
//! that replay a recorded path or a chosen state, and the model that steers
//! away from call nodes once the call stack grows.
//!
//! The probabilities themselves are floating-point log-probabilities; here
//! stand the decisions the models take about them: which outgoing nodes
//! keep their probability, and how much each one is penalised.

use vstd::prelude::*;
use vstd::string::StringExecFns;
use crate::value_choosers::PathNode;

verus! {

/// Why a model cannot reshape the probabilities.
#[derive(Debug, PartialEq)]
pub enum StateGenerationError {
    /// The state to go to, and the names of the outgoing nodes, among
    /// which it is not.
    NodeNotFound { node_name: String, outgoing: Vec<String> },
}

/// The text that `Debug` writes for a string: the string in double quotes,
/// with quotes, backslashes and control characters escaped.
pub uninterp spec fn string_debug(text: Seq<char>) -> Seq<char>;

/// Calls `format!("{:?}", ..)` on a `String`. Trusted: the text depends on
/// the string alone (`string_debug`).
#[verifier::external_body]
fn debug_text(text: &String) -> (res: String)
    ensures
        res@ == string_debug(text@),
{
    format!("{:?}", text)
}

/// The names as `Debug` writes each, separated by `, `.
pub open spec fn quoted_names(names: Seq<String>) -> Seq<char>
    decreases names.len(),
{
    if names.len() == 0 {
        seq![]
    } else if names.len() == 1 {
        string_debug(names[0]@)
    } else {
        quoted_names(names.drop_last()) + ", "@ + string_debug(names.last()@)
    }
}

/// The message of an error of a model.
pub open spec fn generation_error_message(e: StateGenerationError) -> Seq<char> {
    match e {
        StateGenerationError::NodeNotFound { node_name, outgoing } =>
            "Did not find "@ + node_name@ + " among ["@ + quoted_names(outgoing@) + "]"@,
    }
}

impl StateGenerationError {
    /// The message of this error (see `generation_error_message`).
    pub fn message(&self) -> (res: String)
        ensures
            res@ == generation_error_message(*self),
    {
        match self {
            StateGenerationError::NodeNotFound { node_name, outgoing } => {
                let mut res = String::new();
                res.append("Did not find ");
                res.append(node_name.as_str());
                res.append(" among [");
                let mut list = String::new();
                let mut i: usize = 0;
                while i < outgoing.len()
                    invariant
                        i <= outgoing.len(),
                        list@ == quoted_names(outgoing@.take(i as int)),
                    decreases outgoing.len() - i,
                {
                    assert(outgoing@.take(i + 1).drop_last() =~= outgoing@.take(i as int));
                    if i > 0 {
                        list.append(", ");
                    }
                    let item = debug_text(&outgoing[i]);
                    list.append(item.as_str());
                    proof {
                        if i == 0 {
                            assert(list@ =~= string_debug(outgoing@[0]@));
                        } else {
                            assert(list@ =~= quoted_names(outgoing@.take(i as int)) + ", "@ + string_debug(outgoing@[i as int]@));
                        }
                    }
                    i = i + 1;
                }
                assert(outgoing@.take(outgoing.len() as int) =~= outgoing@);
                res.append(list.as_str());
                res.append("]");
                res
            },
        }
    }
}

/// Keeps the probabilities as the graph records them.
pub struct MarkovModel {}

impl MarkovModel {
    pub fn new() -> (res: MarkovModel) {
        MarkovModel {}
    }

    /// Leaves the outgoing nodes (with their probabilities) as they are.
    pub fn trasform_log_probabilities<T>(&mut self, node_outgoing: Vec<T>) -> (res: Result<Vec<T>, StateGenerationError>)
        ensures
            res == Ok::<Vec<T>, StateGenerationError>(node_outgoing),
    {
        Ok(node_outgoing)
    }
}

/// For each outgoing node, whether it is the one named `node_name`: that
/// one keeps probability one, the others get probability zero.
pub open spec fn selection(outgoing: Seq<String>, node_name: Seq<char>) -> Seq<bool> {
    outgoing.map_values(|n: String| n@ == node_name)
}

/// Whether one of the outgoing nodes is named `node_name`.
pub open spec fn is_among(outgoing: Seq<String>, node_name: Seq<char>) -> bool {
    exists|i: int| 0 <= i < outgoing.len() && outgoing[i]@ == node_name
}

/// The selection keeps one entry per outgoing node: probability one
/// exactly for the nodes named `node_name`; some node keeps it exactly
/// where `node_name` is among the outgoing nodes.
pub proof fn lemma_selection(outgoing: Seq<String>, node_name: Seq<char>)
    ensures
        selection(outgoing, node_name).len() == outgoing.len(),
        forall|i: int| 0 <= i < outgoing.len() ==> (#[trigger] selection(outgoing, node_name)[i] <==> outgoing[i]@ == node_name),
        is_among(outgoing, node_name) <==> selection(outgoing, node_name).contains(true),
{
    if is_among(outgoing, node_name) {
        let i = choose|i: int| 0 <= i < outgoing.len() && outgoing[i]@ == node_name;
        assert(selection(outgoing, node_name)[i]);
    }
}

/// Selects the outgoing node named `node_name` (see `selection`), or
/// fails where there is none.
fn select_node(outgoing: &Vec<String>, node_name: &String) -> (res: Result<Vec<bool>, StateGenerationError>)
    ensures
        is_among(outgoing@, node_name@) ==> (res matches Ok(v) && v@ == selection(outgoing@, node_name@)),
        !is_among(outgoing@, node_name@) ==> (res matches Err(StateGenerationError::NodeNotFound { node_name: n, outgoing: o })
            && n@ == node_name@ && o@ == outgoing@),
{
    let mut chosen: Vec<bool> = Vec::new();
    let mut found = false;
    let mut i: usize = 0;
    while i < outgoing.len()
        invariant
            i <= outgoing.len(),
            chosen@ == selection(outgoing@.take(i as int), node_name@),
            found <==> exists|j: int| 0 <= j < i && outgoing@[j]@ == node_name@,
        decreases outgoing.len() - i,
    {
        let same = outgoing[i] == *node_name;
        chosen.push(same);
        if same {
            found = true;
        }
        assert(selection(outgoing@.take(i + 1), node_name@) =~= selection(outgoing@.take(i as int), node_name@).push(same));
        i = i + 1;
    }
    assert(outgoing@.take(outgoing.len() as int) =~= outgoing@);
    if !found {
        return Err(StateGenerationError::NodeNotFound { node_name: node_name.clone(), outgoing: outgoing.clone() });
    }
    Ok(chosen)
}

/// The states of a recorded path, in order.
pub open spec fn path_states(path: Seq<PathNode>) -> Seq<String>
    decreases path.len(),
{
    if path.len() == 0 {
        seq![]
    } else {
        match path.last() {
            PathNode::State(s) => path_states(path.drop_last()).push(s),
            _ => path_states(path.drop_last()),
        }
    }
}

/// The states of two paths one after the other are those of the first,
/// then those of the second; a single node gives its state, or none where
/// it records a value.
pub proof fn lemma_path_states_concat(p: Seq<PathNode>, q: Seq<PathNode>)
    ensures
        path_states(p + q) == path_states(p) + path_states(q),
        path_states(seq![q.first()]) == (if let PathNode::State(s) = q.first() {
            seq![s]
        } else {
            Seq::<String>::empty()
        }),
    decreases q.len(),
{
    let e = Seq::<PathNode>::empty();
    assert(seq![q.first()].drop_last() =~= e);
    assert(path_states(e) == Seq::<String>::empty());
    if q.len() == 0 {
        assert(p + q =~= p);
    } else {
        lemma_path_states_concat(p, q.drop_last());
        assert((p + q).drop_last() =~= p + q.drop_last());
        assert((p + q).last() == q.last());
    }
}

/// Replays a recorded path of states.
pub struct PathModel {
    path: Vec<String>,
    index: usize,
}

impl PathModel {
    /// The states still to replay.
    pub closed spec fn path(&self) -> Seq<String> {
        self.path@
    }

    /// How many states were replayed.
    pub closed spec fn index(&self) -> int {
        self.index as int
    }

    /// A model with nothing to replay.
    pub fn new() -> (res: PathModel)
        ensures
            res.path() == Seq::<String>::empty(),
            res.index() == 0,
    {
        PathModel { path: Vec::new(), index: 0 }
    }

    /// A model that replays the states of `path`.
    pub fn from_path_nodes(path: &Vec<PathNode>) -> (res: PathModel)
        ensures
            res.path() == path_states(path@),
            res.index() == 0,
    {
        let mut states: Vec<String> = Vec::new();
        let mut i: usize = 0;
        while i < path.len()
            invariant
                i <= path.len(),
                states@ == path_states(path@.take(i as int)),
            decreases path.len() - i,
        {
            assert(path@.take(i + 1).drop_last() =~= path@.take(i as int));
            match &path[i] {
                PathNode::State(state) => {
                    states.push(state.clone());
                },
                _ => {},
            }
            i = i + 1;
        }
        assert(path@.take(path.len() as int) =~= path@);
        PathModel { path: states, index: 0 }
    }

    /// Whether every state of the path was replayed.
    pub fn is_exhausted(&self) -> (res: bool)
        ensures
            res == (self.index() >= self.path().len()),
    {
        self.index >= self.path.len()
    }

    /// Goes to the next state of the path: of the outgoing nodes (given by
    /// name) it keeps the one with that name (see `selection`), or fails
    /// where there is none. The path must not be exhausted.
    pub fn trasform_log_probabilities(&mut self, node_outgoing: &Vec<String>) -> (res: Result<Vec<bool>, StateGenerationError>)
        requires
            old(self).index() < old(self).path().len(),
        ensures
            final(self).path() == old(self).path(),
            final(self).index() == old(self).index() + 1,
            ({
                let node_name = old(self).path()[old(self).index()]@;
                &&& is_among(node_outgoing@, node_name) ==> (res matches Ok(v) && v@ == selection(node_outgoing@, node_name))
                &&& !is_among(node_outgoing@, node_name) ==> (res matches Err(StateGenerationError::NodeNotFound { node_name: n, outgoing: o })
                    && n@ == node_name && o@ == node_outgoing@)
            }),
    {
        let i = self.index;
        let n = self.path.len();
        assert(i < n);
        self.index = i + 1;
        select_node(node_outgoing, &self.path[i])
    }
}

/// Goes to a state chosen beforehand.
pub struct DeterministicModel {
    state_to_choose: Option<String>,
}

impl DeterministicModel {
    /// The state chosen to go to next.
    pub closed spec fn state_to_choose(&self) -> Option<Seq<char>> {
        match self.state_to_choose {
            Some(s) => Some(s@),
            None => None,
        }
    }

    /// A model with no state chosen.
    pub fn new() -> (res: DeterministicModel)
        ensures
            res.state_to_choose() is None,
    {
        DeterministicModel { state_to_choose: None }
    }

    /// Chooses the state to go to next.
    pub fn set_state(&mut self, state: String)
        ensures
            final(self).state_to_choose() == Some(state@),
    {
        self.state_to_choose = Some(state);
    }

    /// Whether a state is chosen.
    pub fn has_state(&self) -> (res: bool)
        ensures
            res == self.state_to_choose() is Some,
    {
        self.state_to_choose.is_some()
    }

    /// Goes to the chosen state, which is then forgotten: of the outgoing
    /// nodes it keeps the one with that name (see `selection`), or fails
    /// where there is none. A state must have been chosen.
    pub fn trasform_log_probabilities(&mut self, node_outgoing: &Vec<String>) -> (res: Result<Vec<bool>, StateGenerationError>)
        requires
            old(self).state_to_choose() is Some,
        ensures
            final(self).state_to_choose() is None,
            ({
                let node_name = old(self).state_to_choose()->0;
                &&& is_among(node_outgoing@, node_name) ==> (res matches Ok(v) && v@ == selection(node_outgoing@, node_name))
                &&& !is_among(node_outgoing@, node_name) ==> (res matches Err(StateGenerationError::NodeNotFound { node_name: n, outgoing: o })
                    && n@ == node_name && o@ == node_outgoing@)
            }),
    {
        let node_name = self.state_to_choose.take().unwrap();
        select_node(node_outgoing, &node_name)
    }
}

/// Statistics of the query being generated.
#[derive(Debug, PartialEq)]
pub struct QueryStats {
    /// The level of nesting of subqueries.
    pub current_nest_level: u32,
    /// How many states the path has gone through.
    pub current_state_num: u32,
    /// The length of the stack of function calls of the graph.
    pub current_stack_length: usize,
}

impl QueryStats {
    /// Statistics at the start of a query.
    pub fn new() -> (res: QueryStats)
        ensures
            res.current_nest_level == 0,
            res.current_state_num == 0,
            res.current_stack_length == 0,
    {
        QueryStats { current_nest_level: 0, current_state_num: 0, current_stack_length: 0 }
    }
}

/// The statistics once a subquery has started.
pub open spec fn stats_after_begin(s: QueryStats) -> QueryStats {
    QueryStats {
        current_nest_level: (s.current_nest_level + 1) as u32,
        current_state_num: s.current_state_num,
        current_stack_length: s.current_stack_length,
    }
}

/// The statistics once a subquery has ended.
pub open spec fn stats_after_end(s: QueryStats) -> QueryStats {
    QueryStats {
        current_nest_level: (s.current_nest_level - 1) as u32,
        current_state_num: s.current_state_num,
        current_stack_length: s.current_stack_length,
    }
}

/// A subquery that starts and ends leaves the statistics as they were.
pub proof fn lemma_subquery_begin_end(s: QueryStats)
    requires
        s.current_nest_level < u32::MAX,
    ensures
        stats_after_end(stats_after_begin(s)) == s,
{
}

/// The stack length above which call nodes are penalised.
pub open spec fn stack_length_threshold() -> int {
    10
}

/// What each call node still to pass before the function exits costs in
/// log-probability, at a given stack length.
pub open spec fn penalty_multiplier(stack_length: int) -> int {
    if stack_length > stack_length_threshold() { 100 } else { 0 }
}

/// Makes call nodes less likely once the call stack is longer than
/// `stack_length_threshold`, the more so the more calls a node is from the
/// exit of its function.
pub struct AntiCallModel {
    pub stats: QueryStats,
}

impl AntiCallModel {
    pub fn new() -> (res: AntiCallModel)
        ensures
            res.stats.current_nest_level == 0,
            res.stats.current_state_num == 0,
            res.stats.current_stack_length == 0,
    {
        AntiCallModel { stats: QueryStats::new() }
    }

    /// For each outgoing node, given by the least number of calls until
    /// its function exits, what is taken from its log-probability: that
    /// number times `penalty_multiplier` of the current stack length.
    pub fn trasform_log_probabilities(&mut self, min_calls_until_function_exit: &Vec<u64>) -> (res: Vec<u128>)
        ensures
            res@.len() == min_calls_until_function_exit@.len(),
            forall|i: int| 0 <= i < res@.len() ==> res@[i] == min_calls_until_function_exit@[i]
                * penalty_multiplier(old(self).stats.current_stack_length as int),
            final(self).stats == old(self).stats,
    {
        let prob_multiplier: u128 = if self.stats.current_stack_length > 10 { 100 } else { 0 };
        let mut penalties: Vec<u128> = Vec::new();
        let mut i: usize = 0;
        while i < min_calls_until_function_exit.len()
            invariant
                i <= min_calls_until_function_exit.len(),
                prob_multiplier == penalty_multiplier(self.stats.current_stack_length as int),
                penalties@.len() == i,
                forall|j: int| 0 <= j < i ==> penalties@[j] == min_calls_until_function_exit@[j] * prob_multiplier,
            decreases min_calls_until_function_exit.len() - i,
        {
            let calls = min_calls_until_function_exit[i] as u128;
            assert(calls * prob_multiplier <= 0xffff_ffff_ffff_ffffu128 * 100) by (nonlinear_arith)
                requires
                    calls <= 0xffff_ffff_ffff_ffffu128,
                    prob_multiplier <= 100,
            ;
            penalties.push(calls * prob_multiplier);
            i = i + 1;
        }
        penalties
    }

    /// A subquery starts: one level of nesting more.
    pub fn notify_subquery_creation_begin(&mut self)
        requires
            old(self).stats.current_nest_level < u32::MAX,
        ensures
            final(self).stats == stats_after_begin(old(self).stats),
    {
        self.stats.current_nest_level += 1;
    }

    /// A subquery ends: one level of nesting less.
    pub fn notify_subquery_creation_end(&mut self)
        requires
            old(self).stats.current_nest_level > 0,
        ensures
            final(self).stats == stats_after_end(old(self).stats),
    {
        self.stats.current_nest_level -= 1;
    }

    /// A new state is reached: one state more.
    pub fn update_current_state(&mut self, _node_name: &String)
        requires
            old(self).stats.current_state_num < u32::MAX,
        ensures
            final(self).stats.current_state_num == old(self).stats.current_state_num + 1,
            final(self).stats.current_nest_level == old(self).stats.current_nest_level,
            final(self).stats.current_stack_length == old(self).stats.current_stack_length,
    {
        self.stats.current_state_num += 1;
    }

    /// The call stack has a new length.
    pub fn notify_call_stack_length(&mut self, stack_len: usize)
        ensures
            final(self).stats.current_stack_length == stack_len,
            final(self).stats.current_nest_level == old(self).stats.current_nest_level,
            final(self).stats.current_state_num == old(self).stats.current_state_num,
    {
        self.stats.current_stack_length = stack_len;
    }
}

} // verus!
