//! Training: turning the queries of a training set into the paths of
//! states that the Markov chain goes through to generate them.

use vstd::prelude::*;
use vstd::string::StringExecFns;
use crate::sql_ast::{SqlQuery, SetExpr, Select, SelectItem, TableWithJoins, TableFactor};
use crate::text::{strings_view, string_is};
use toml::Value;

verus! {

broadcast use vstd::string::group_string_axioms;

/// Where the training set and its schema are.
#[derive(Debug, PartialEq)]
pub struct TrainingConfig {
    pub training_db_path: String,
    pub training_schema: String,
}

#[verifier::external_type_specification]
#[verifier::external_body]
pub struct ExTomlValue(Value);

/// The entry `key` of a TOML table, or `None` where the value is not a
/// table or has no such entry.
pub uninterp spec fn toml_entry(value: Value, key: Seq<char>) -> Option<Value>;

/// Calls `toml::Value::get` with a string key. Trusted: the entry depends
/// on the value and the key alone (`toml_entry`).
#[verifier::external_body]
fn toml_get<'a>(value: &'a Value, key: &str) -> (res: Option<&'a Value>)
    ensures
        match toml_entry(*value, key@) {
            None => res is None,
            Some(v) => res matches Some(r) && *r == v,
        },
{
    value.get(key)
}

/// The text of a TOML string, or `None` where the value is not a string.
pub uninterp spec fn toml_text(value: Value) -> Option<Seq<char>>;

/// Calls `toml::Value::as_str`. Trusted: the text depends on the value
/// alone (`toml_text`).
#[verifier::external_body]
fn toml_as_string(value: &Value) -> (res: Option<String>)
    ensures
        match toml_text(*value) {
            None => res is None,
            Some(t) => res matches Some(r) && r@ == t,
        },
{
    value.as_str().map(|text| text.to_string())
}

/// The text of the string entry `key` of the `training` section.
pub open spec fn training_entry(toml_config: Value, key: Seq<char>) -> Option<Seq<char>> {
    match toml_entry(toml_config, "training"@) {
        None => None,
        Some(section) => match toml_entry(section, key) {
            None => None,
            Some(v) => toml_text(v),
        },
    }
}

/// The text of the string entry `key` of the `training` section of a TOML
/// configuration, or `None`.
fn training_string(toml_config: &Value, key: &str) -> (res: Option<String>)
    ensures
        match training_entry(*toml_config, key@) {
            None => res is None,
            Some(t) => res matches Some(r) && r@ == t,
        },
{
    let section = match toml_get(toml_config, "training") {
        Some(section) => section,
        None => return None,
    };
    match toml_get(section, key) {
        Some(v) => toml_as_string(v),
        None => None,
    }
}

impl TrainingConfig {
    pub fn new(training_db_path: String, training_schema: String) -> (res: TrainingConfig)
        ensures
            res.training_db_path == training_db_path,
            res.training_schema == training_schema,
    {
        TrainingConfig { training_db_path, training_schema }
    }

    /// Reads the paths from the `training` section of a TOML
    /// configuration: its string entries `training_db_path` and
    /// `training_schema`; `None` where one is missing or is not a string.
    pub fn from_toml(toml_config: &Value) -> (res: Option<TrainingConfig>)
        ensures
            match (training_entry(*toml_config, "training_db_path"@), training_entry(*toml_config, "training_schema"@)) {
                (Some(db), Some(schema)) => res matches Some(c) && c.training_db_path@ == db
                    && c.training_schema@ == schema,
                _ => res is None,
            },
    {
        let db = match training_string(toml_config, "training_db_path") {
            Some(db) => db,
            None => return None,
        };
        let schema = match training_string(toml_config, "training_schema") {
            Some(schema) => schema,
            None => return None,
        };
        Some(TrainingConfig { training_db_path: db, training_schema: schema })
    }
}

/// Why a query cannot be turned into a path.
#[derive(Debug, PartialEq)]
pub struct ConvertionError {
    reason: String,
}

impl ConvertionError {
    /// The reason.
    pub closed spec fn reason(&self) -> Seq<char> {
        self.reason@
    }

    pub fn new(reason: String) -> (res: ConvertionError)
        ensures
            res.reason() == reason@,
    {
        ConvertionError { reason }
    }

    /// The message: the reason, after what kind of error it is.
    pub fn message(&self) -> (res: String)
        ensures
            res@ == "AST to path convertion error: "@ + self.reason(),
    {
        let mut res = String::new();
        res.append("AST to path convertion error: ");
        res.append(self.reason.as_str());
        res
    }
}

/// The states pushed while reading a query, and the reason where the
/// reading stopped on an error.
pub struct PathOutcome {
    pub states: Seq<Seq<char>>,
    pub error: Option<Seq<char>>,
}

pub open spec fn types_not_implemented() -> Seq<char> {
    "subgraph def_types not yet implemented"@
}

/// The reasons below name the kind of part that stops the reading; they
/// carry no dump of that part, since the tree is the caller's model and
/// its payload need not be printable.
pub open spec fn unexpected_relation() -> Seq<char> {
    "Unexpected expression: a relation that is neither a table nor a subquery"@
}

pub open spec fn multiple_columns() -> Seq<char> {
    "single column modifier is ON but the projection contains multiple columns"@
}

pub open spec fn wildcard_in_single_column() -> Seq<char> {
    "Wildcards are currently not allowed where single column is required"@
}

pub open spec fn single_row() -> Seq<char> {
    "single row"@
}

pub open spec fn single_column() -> Seq<char> {
    "single column"@
}

/// The states pushed for the relations of a FROM clause from index `i`
/// on (`sub`: the modifiers of the call that generates a subquery);
/// `None` where a subquery is not a SELECT.
pub open spec fn from_path<X>(from: Seq<TableWithJoins<X>>, i: int, sub: Seq<Seq<char>>) -> Option<PathOutcome>
    decreases from, from.len() - i,
{
    if i < 0 || i >= from.len() {
        Some(PathOutcome { states: seq![], error: None })
    } else {
        match from[i].relation {
            TableFactor::Table { .. } => match from_path(from, i + 1, sub) {
                None => None,
                Some(rest) => Some(PathOutcome {
                    states: seq!["Table"@, "FROM_multiple_relations"@] + rest.states,
                    error: rest.error,
                }),
            },
            TableFactor::Derived { subquery, .. } => match query_path(*subquery, sub.contains(single_row()), sub.contains(single_column()), sub) {
                None => None,
                Some(q) => if q.error is Some {
                    Some(PathOutcome { states: seq!["call0_Query"@] + q.states, error: q.error })
                } else {
                    match from_path(from, i + 1, sub) {
                        None => None,
                        Some(rest) => Some(PathOutcome {
                            states: seq!["call0_Query"@] + q.states + seq!["FROM_multiple_relations"@] + rest.states,
                            error: rest.error,
                        }),
                    }
                },
            },
            TableFactor::Other(_) => Some(PathOutcome { states: seq![], error: Some(unexpected_relation()) }),
        }
    }
}

/// What a relation of a FROM clause contributes does not depend on where
/// the clause is read from: reading from index `i` gives what reading the
/// clause cut to its relations from `i` on gives from its start.
pub proof fn lemma_from_path_shift<X>(from: Seq<TableWithJoins<X>>, i: int, sub: Seq<Seq<char>>)
    requires
        0 <= i <= from.len(),
    ensures
        from_path(from, i, sub) == from_path(from.subrange(i, from.len() as int), 0, sub),
    decreases from.len() - i,
{
    let rest = from.subrange(i, from.len() as int);
    if i < from.len() {
        lemma_from_path_shift(from, i + 1, sub);
        lemma_from_path_shift(rest, 1, sub);
        assert(rest.subrange(1, rest.len() as int) =~= from.subrange(i + 1, from.len() as int));
        assert(rest[0] == from[i]);
    }
}

/// Whether the `k`-th pair of `states` is `Table`, `FROM_multiple_relations`.
pub open spec fn table_pair_at(states: Seq<Seq<char>>, k: int) -> bool {
    &&& states[2 * k] == "Table"@
    &&& states[2 * k + 1] == "FROM_multiple_relations"@
}

/// A FROM clause of tables only reads without error, each table giving the
/// states `Table`, `FROM_multiple_relations` in turn: as many pairs as
/// there are tables.
pub proof fn lemma_from_path_tables<X>(from: Seq<TableWithJoins<X>>, i: int, sub: Seq<Seq<char>>)
    requires
        0 <= i <= from.len(),
        forall|k: int| i <= k < from.len() ==> (#[trigger] from[k]).relation is Table,
    ensures
        from_path(from, i, sub) matches Some(o) && o.error is None && o.states.len() == 2 * (from.len() - i)
            && forall|k: int| 0 <= k < from.len() - i ==> #[trigger] table_pair_at(o.states, k),
    decreases from.len() - i,
{
    if i < from.len() {
        lemma_from_path_tables(from, i + 1, sub);
        assert(from[i].relation is Table);
        let rest = from_path(from, i + 1, sub)->0;
        let o = from_path(from, i, sub)->0;
        assert(o.states == seq!["Table"@, "FROM_multiple_relations"@] + rest.states);
        assert forall|k: int| 0 <= k < from.len() - i implies #[trigger] table_pair_at(o.states, k) by {
            if k > 0 {
                assert(table_pair_at(rest.states, k - 1));
                assert(o.states[2 * k] == rest.states[2 * (k - 1)]);
                assert(o.states[2 * k + 1] == rest.states[2 * (k - 1) + 1]);
            }
        }
    }
}

/// The states pushed for the items of a SELECT list from index `i` on.
pub open spec fn projection_path<X>(items: Seq<SelectItem<X>>, i: int, single_column_mod: bool) -> PathOutcome
    decreases items.len() - i,
{
    if i < 0 || i >= items.len() {
        PathOutcome { states: seq![], error: None }
    } else if i > 0 && single_column_mod {
        PathOutcome { states: seq!["SELECT_list"@], error: Some(multiple_columns()) }
    } else {
        let head = if i > 0 {
            seq!["SELECT_list"@, "SELECT_list_multiple_values"@]
        } else {
            seq!["SELECT_list"@]
        };
        match items[i] {
            SelectItem::UnnamedExpr(_) => PathOutcome {
                states: head + seq!["SELECT_unnamed_expr"@, "call54_types"@],
                error: Some(types_not_implemented()),
            },
            SelectItem::ExprWithAlias { .. } => PathOutcome {
                states: head + seq!["SELECT_expr_with_alias"@, "call54_types"@],
                error: Some(types_not_implemented()),
            },
            SelectItem::QualifiedWildcard(..) => if single_column_mod {
                PathOutcome { states: head, error: Some(wildcard_in_single_column()) }
            } else {
                let rest = projection_path(items, i + 1, single_column_mod);
                PathOutcome { states: head + seq!["SELECT_qualified_wildcard"@] + rest.states, error: rest.error }
            },
            SelectItem::Wildcard(..) => if single_column_mod {
                PathOutcome { states: head, error: Some(wildcard_in_single_column()) }
            } else {
                let rest = projection_path(items, i + 1, single_column_mod);
                PathOutcome { states: head + seq!["SELECT_wildcard"@] + rest.states, error: rest.error }
            },
        }
    }
}

/// Whether the `k`-th triple of `states` is `SELECT_list`,
/// `SELECT_list_multiple_values`, `SELECT_wildcard`.
pub open spec fn wildcard_triple_at(states: Seq<Seq<char>>, k: int) -> bool {
    &&& states[3 * k] == "SELECT_list"@
    &&& states[3 * k + 1] == "SELECT_list_multiple_values"@
    &&& states[3 * k + 2] == "SELECT_wildcard"@
}

/// A SELECT list of wildcards only (without the `single column` modifier)
/// reads without error: the first item gives `SELECT_list`,
/// `SELECT_wildcard`, and each later one `SELECT_list`,
/// `SELECT_list_multiple_values`, `SELECT_wildcard`.
pub proof fn lemma_projection_wildcards<X>(items: Seq<SelectItem<X>>, i: int)
    requires
        0 <= i <= items.len(),
        forall|k: int| i <= k < items.len() ==> #[trigger] items[k] is Wildcard,
    ensures
        projection_path(items, i, false).error is None,
        i > 0 ==> projection_path(items, i, false).states.len() == 3 * (items.len() - i)
            && forall|k: int| 0 <= k < items.len() - i ==> #[trigger] wildcard_triple_at(projection_path(items, i, false).states, k),
        i == 0 < items.len() ==> projection_path(items, 0, false).states
            == seq!["SELECT_list"@, "SELECT_wildcard"@] + projection_path(items, 1, false).states,
    decreases items.len() - i,
{
    if i < items.len() {
        lemma_projection_wildcards(items, i + 1);
        assert(items[i] is Wildcard);
        if i > 0 {
            let rest = projection_path(items, i + 1, false).states;
            let o = projection_path(items, i, false).states;
            assert(o == seq!["SELECT_list"@, "SELECT_list_multiple_values"@] + seq!["SELECT_wildcard"@] + rest);
            assert forall|k: int| 0 <= k < items.len() - i implies #[trigger] wildcard_triple_at(o, k) by {
                if k > 0 {
                    assert(wildcard_triple_at(rest, k - 1));
                    assert(o[3 * k] == rest[3 * (k - 1)]);
                    assert(o[3 * k + 1] == rest[3 * (k - 1) + 1]);
                    assert(o[3 * k + 2] == rest[3 * (k - 1) + 2]);
                }
            }
        } else {
            assert(seq!["SELECT_list"@] + seq!["SELECT_wildcard"@] =~= seq!["SELECT_list"@, "SELECT_wildcard"@]);
        }
    }
}

/// With the `single column` modifier, a SELECT list of more than one item
/// stops the reading with an error, at the latest at its second item.
pub proof fn lemma_single_column_refuses_many<X>(items: Seq<SelectItem<X>>)
    requires
        items.len() > 1,
    ensures
        projection_path(items, 1, true).error == Some(multiple_columns()),
        projection_path(items, 0, true).error is Some,
{
}

/// The states pushed for the body of a SELECT, from its FROM clause on
/// (`sub`: the modifiers of the call that generates a subquery of its
/// FROM clause); `None` where a subquery of its FROM clause is not a
/// SELECT.
pub open spec fn select_path<X>(select: Select<X>, single_column_mod: bool, sub: Seq<Seq<char>>) -> Option<PathOutcome>
    decreases select, 0int,
{
    match from_path(select.from@, 0, sub) {
        None => None,
        Some(f) => if f.error is Some {
            Some(f)
        } else if select.selection is Some {
            Some(PathOutcome {
                states: f.states + seq!["EXIT_FROM"@, "WHERE"@, "call53_types"@],
                error: Some(types_not_implemented()),
            })
        } else {
            let p = projection_path(select.projection@, 0, single_column_mod);
            Some(PathOutcome {
                states: f.states + seq!["EXIT_FROM"@, "EXIT_WHERE"@, "SELECT"@]
                    + (if select.distinct { seq!["SELECT_DISTINCT"@] } else { seq![] })
                    + seq!["SELECT_distinct_end"@, "SELECT_projection"@] + p.states
                    + (if p.error is None { seq!["EXIT_SELECT"@] } else { seq![] }),
                error: p.error,
            })
        },
    }
}

/// The states pushed for a query generated by a call whose modifiers
/// hold `single row` (`single_value`) and `single column`
/// (`single_column_mod`) or not (`sub`: the modifiers of the call that
/// generates a subquery of its FROM clause); `None` where the query, or a
/// subquery of its FROM clause, is not a SELECT. The type subgraph is not
/// supported: a LIMIT (without the `single row` modifier), a WHERE clause
/// or an expression in the SELECT list stops the reading with an error.
pub open spec fn query_path<X>(q: SqlQuery<X>, single_value: bool, single_column_mod: bool, sub: Seq<Seq<char>>)
    -> Option<PathOutcome>
    decreases q, 0int,
{
    if !single_value && q.limit is Some {
        Some(PathOutcome {
            states: seq!["Query"@, "single_value_false"@, "limit"@, "call52_types"@],
            error: Some(types_not_implemented()),
        })
    } else {
        match q.body {
            SetExpr::Other(_) => None,
            SetExpr::Select(select) => match select_path(*select, single_column_mod, sub) {
                None => None,
                Some(o) => Some(PathOutcome {
                    states: seq!["Query"@, if single_value { "single_value_true"@ } else { "single_value_false"@ }, "FROM"@]
                        + o.states + (if o.error is None { seq!["EXIT_Query"@] } else { seq![] }),
                    error: o.error,
                }),
            },
        }
    }
}

/// A query turned into a path without error: the path starts with the
/// state `Query` and ends with `EXIT_Query`.
pub proof fn lemma_query_path_brackets<X>(q: SqlQuery<X>, single_value: bool, single_column_mod: bool, sub: Seq<Seq<char>>)
    requires
        query_path(q, single_value, single_column_mod, sub) matches Some(o) && o.error is None,
    ensures
        ({
            let o = query_path(q, single_value, single_column_mod, sub)->0;
            &&& o.states.len() >= 2
            &&& o.states[0] == "Query"@
            &&& o.states.last() == "EXIT_Query"@
        }),
{
}

/// Turns queries into the paths of states that generate them.
pub struct PathGenerator {
    current_path: Vec<String>,
    subquery_modifiers: Vec<String>,
}

/// Whether `word` is one of the modifiers `mods`.
fn has_modifier(mods: &Vec<String>, word: &str) -> (res: bool)
    ensures
        res == strings_view(mods@).contains(word@),
{
    let w = word.to_string();
    let mut i: usize = 0;
    while i < mods.len()
        invariant
            i <= mods.len(),
            w@ == word@,
            forall|j: int| 0 <= j < i ==> strings_view(mods@)[j] != word@,
        decreases mods.len() - i,
    {
        if mods[i] == w {
            assert(strings_view(mods@)[i as int] == word@);
            return true;
        }
        i = i + 1;
    }
    false
}

impl PathGenerator {
    /// The states pushed so far.
    pub closed spec fn current_path(&self) -> Seq<Seq<char>> {
        strings_view(self.current_path@)
    }

    /// The modifiers of the call that generates a subquery of a FROM
    /// clause.
    pub closed spec fn subquery_modifiers(&self) -> Seq<Seq<char>> {
        strings_view(self.subquery_modifiers@)
    }

    /// A generator with an empty path; `subquery_modifiers` are the
    /// modifiers of the call that generates a subquery of a FROM clause.
    pub fn new(subquery_modifiers: Vec<String>) -> (res: PathGenerator)
        ensures
            res.current_path() == Seq::<Seq<char>>::empty(),
            res.subquery_modifiers() == strings_view(subquery_modifiers@),
    {
        let res = PathGenerator { current_path: Vec::new(), subquery_modifiers };
        assert(res.current_path() =~= Seq::<Seq<char>>::empty());
        res
    }

    /// Appends a state to the path.
    fn push_state(&mut self, state: &str)
        ensures
            final(self).current_path() == old(self).current_path().push(state@),
            final(self).subquery_modifiers() == old(self).subquery_modifiers(),
    {
        let ghost before = self.current_path();
        self.current_path.push(state.to_string());
        assert(self.current_path() =~= before.push(state@));
    }

    /// The type subgraph: not supported yet.
    fn handle_types(&mut self) -> (res: Result<(), ConvertionError>)
        ensures
            res matches Err(e) && e.reason() == types_not_implemented(),
            final(self).current_path() == old(self).current_path(),
            final(self).subquery_modifiers() == old(self).subquery_modifiers(),
    {
        Err(ConvertionError::new("subgraph def_types not yet implemented".to_string()))
    }

    /// Pushes the states of the relations of a FROM clause (see
    /// `from_path`); `None` where a subquery is not a SELECT.
    fn handle_from<X>(&mut self, from: &Vec<TableWithJoins<X>>) -> (res: Option<Result<(), ConvertionError>>)
        ensures
            match from_path(from@, 0, old(self).subquery_modifiers()) {
                None => res is None,
                Some(o) => final(self).current_path() == old(self).current_path() + o.states && match o.error {
                    None => res matches Some(Ok(_)),
                    Some(r) => res matches Some(Err(e)) && e.reason() == r,
                },
            },
            final(self).subquery_modifiers() == old(self).subquery_modifiers(),
        decreases from, 0int,
    {
        let ghost sub = self.subquery_modifiers();
        let ghost start = self.current_path();
        let ghost whole = from_path(from@, 0, sub);
        let ghost mut done: Seq<Seq<char>> = seq![];
        assert(self.current_path() =~= start + done);
        proof {
            if let Some(w) = whole {
                assert(w.states =~= done + w.states);
            }
        }
        let mut i: usize = 0;
        while i < from.len()
            invariant
                i <= from.len(),
                sub == self.subquery_modifiers(),
                sub == old(self).subquery_modifiers(),
                start == old(self).current_path(),
                whole == from_path(from@, 0, sub),
                self.current_path() == start + done,
                match from_path(from@, i as int, sub) {
                    None => whole is None,
                    Some(rest) => whole matches Some(w) && w.error == rest.error && w.states == done + rest.states,
                },
            decreases from.len() - i,
        {
            let ghost rest = from_path(from@, i as int, sub);
            match &from[i].relation {
                TableFactor::Table { .. } => {
                    self.push_state("Table");
                    self.push_state("FROM_multiple_relations");
                    proof {
                        let d2 = done + seq!["Table"@, "FROM_multiple_relations"@];
                        assert(self.current_path() =~= start + d2);
                        if let Some(next) = from_path(from@, i + 1, sub) {
                            assert(whole->0.states =~= d2 + next.states);
                        }
                        done = d2;
                    }
                },
                TableFactor::Derived { subquery, .. } => {
                    self.push_state("call0_Query");
                    let single_value = has_modifier(&self.subquery_modifiers, "single row");
                    let single_column_mod = has_modifier(&self.subquery_modifiers, "single column");
                    let ghost q = query_path(**subquery, single_value, single_column_mod, sub);
                    let r = match self.handle_query(subquery, single_value, single_column_mod) {
                        Some(r) => r,
                        None => {
                            return None;
                        },
                    };
                    if let Err(e) = r {
                        proof {
                            assert(self.current_path() =~= start + (done + (seq!["call0_Query"@] + q->0.states)));
                            assert(whole->0.states =~= done + (seq!["call0_Query"@] + q->0.states));
                        }
                        return Some(Err(e));
                    }
                    self.push_state("FROM_multiple_relations");
                    proof {
                        let d2 = done + seq!["call0_Query"@] + q->0.states + seq!["FROM_multiple_relations"@];
                        assert(self.current_path() =~= start + d2);
                        if let Some(next) = from_path(from@, i + 1, sub) {
                            assert(whole->0.states =~= d2 + next.states);
                        }
                        done = d2;
                    }
                },
                TableFactor::Other(_) => {
                    proof {
                        assert(self.current_path() =~= start + done);
                        assert(whole->0.states =~= done);
                    }
                    return Some(Err(ConvertionError::new(
                        "Unexpected expression: a relation that is neither a table nor a subquery".to_string(),
                    )));
                },
            }
            i = i + 1;
        }
        assert(whole->0.states =~= done);
        Some(Ok(()))
    }

    /// Pushes the states of the items of a SELECT list (see
    /// `projection_path`).
    fn handle_projection<X>(&mut self, items: &Vec<SelectItem<X>>, single_column_mod: bool) -> (res: Result<(), ConvertionError>)
        ensures
            ({
                let o = projection_path(items@, 0, single_column_mod);
                &&& final(self).current_path() == old(self).current_path() + o.states
                &&& match o.error {
                    None => res is Ok,
                    Some(r) => res matches Err(e) && e.reason() == r,
                }
            }),
            final(self).subquery_modifiers() == old(self).subquery_modifiers(),
    {
        let ghost start = self.current_path();
        let ghost whole = projection_path(items@, 0, single_column_mod);
        let ghost mut done: Seq<Seq<char>> = seq![];
        assert(self.current_path() =~= start + done);
        assert(whole.states =~= done + whole.states);
        let mut i: usize = 0;
        while i < items.len()
            invariant
                i <= items.len(),
                start == old(self).current_path(),
                self.subquery_modifiers() == old(self).subquery_modifiers(),
                whole == projection_path(items@, 0, single_column_mod),
                self.current_path() == start + done,
                ({
                    let rest = projection_path(items@, i as int, single_column_mod);
                    &&& whole.error == rest.error
                    &&& whole.states == done + rest.states
                }),
            decreases items.len() - i,
        {
            let ghost rest = projection_path(items@, i as int, single_column_mod);
            self.push_state("SELECT_list");
            if i > 0 {
                if single_column_mod {
                    proof {
                        assert(self.current_path() =~= start + (done + seq!["SELECT_list"@]));
                    }
                    return Err(ConvertionError::new(
                        "single column modifier is ON but the projection contains multiple columns".to_string(),
                    ));
                } else {
                    self.push_state("SELECT_list_multiple_values");
                }
            }
            let ghost head = if i > 0 {
                seq!["SELECT_list"@, "SELECT_list_multiple_values"@]
            } else {
                seq!["SELECT_list"@]
            };
            assert(self.current_path() =~= start + (done + head));
            match &items[i] {
                SelectItem::UnnamedExpr(_) => {
                    self.push_state("SELECT_unnamed_expr");
                    self.push_state("call54_types");
                    assert(self.current_path() =~= start + (done + (head + seq!["SELECT_unnamed_expr"@, "call54_types"@])));
                    return self.handle_types();
                },
                SelectItem::ExprWithAlias { .. } => {
                    self.push_state("SELECT_expr_with_alias");
                    self.push_state("call54_types");
                    assert(self.current_path() =~= start + (done + (head + seq!["SELECT_expr_with_alias"@, "call54_types"@])));
                    return self.handle_types();
                },
                SelectItem::QualifiedWildcard(..) => {
                    if single_column_mod {
                        return Err(ConvertionError::new(
                            "Wildcards are currently not allowed where single column is required".to_string(),
                        ));
                    }
                    self.push_state("SELECT_qualified_wildcard");
                    proof {
                        let next = projection_path(items@, i + 1, single_column_mod);
                        let d2 = done + head + seq!["SELECT_qualified_wildcard"@];
                        assert(self.current_path() =~= start + d2);
                        assert(whole.states =~= d2 + next.states);
                        done = d2;
                    }
                },
                SelectItem::Wildcard(..) => {
                    if single_column_mod {
                        return Err(ConvertionError::new(
                            "Wildcards are currently not allowed where single column is required".to_string(),
                        ));
                    }
                    self.push_state("SELECT_wildcard");
                    proof {
                        let next = projection_path(items@, i + 1, single_column_mod);
                        let d2 = done + head + seq!["SELECT_wildcard"@];
                        assert(self.current_path() =~= start + d2);
                        assert(whole.states =~= d2 + next.states);
                        done = d2;
                    }
                },
            }
            i = i + 1;
        }
        assert(whole.states =~= done);
        Ok(())
    }

    /// Pushes the states of the body of a SELECT, from its FROM clause on
    /// (see `select_path`); `None` where a subquery of its FROM clause is
    /// not a SELECT.
    fn handle_select<X>(&mut self, select_body: &Select<X>, single_column_mod: bool)
        -> (res: Option<Result<(), ConvertionError>>)
        ensures
            match select_path(*select_body, single_column_mod, old(self).subquery_modifiers()) {
                None => res is None,
                Some(o) => final(self).current_path() == old(self).current_path() + o.states && match o.error {
                    None => res matches Some(Ok(_)),
                    Some(r) => res matches Some(Err(e)) && e.reason() == r,
                },
            },
            final(self).subquery_modifiers() == old(self).subquery_modifiers(),
        decreases select_body, 0int,
    {
        let ghost start = self.current_path();
        let ghost sub = self.subquery_modifiers();
        let ghost f = from_path(select_body.from@, 0, sub);
        let r = match self.handle_from(&select_body.from) {
            Some(r) => r,
            None => {
                return None;
            },
        };
        if let Err(e) = r {
            return Some(Err(e));
        }
        self.push_state("EXIT_FROM");
        if let Some(_) = &select_body.selection {
            self.push_state("WHERE");
            self.push_state("call53_types");
            assert(self.current_path() =~= start + (f->0.states + seq!["EXIT_FROM"@, "WHERE"@, "call53_types"@]));
            return Some(self.handle_types());
        }
        self.push_state("EXIT_WHERE");
        self.push_state("SELECT");
        if select_body.distinct {
            self.push_state("SELECT_DISTINCT");
        }
        self.push_state("SELECT_distinct_end");
        self.push_state("SELECT_projection");
        let ghost select_head = f->0.states + seq!["EXIT_FROM"@, "EXIT_WHERE"@, "SELECT"@]
            + (if select_body.distinct { seq!["SELECT_DISTINCT"@] } else { seq![] })
            + seq!["SELECT_distinct_end"@, "SELECT_projection"@];
        assert(self.current_path() =~= start + select_head);
        let ghost p = projection_path(select_body.projection@, 0, single_column_mod);
        let r = self.handle_projection(&select_body.projection, single_column_mod);
        if let Err(e) = r {
            assert(self.current_path() =~= start + (select_head + p.states + seq![]));
            return Some(Err(e));
        }
        self.push_state("EXIT_SELECT");
        assert(self.current_path() =~= start + (select_head + p.states + seq!["EXIT_SELECT"@]));
        Some(Ok(()))
    }

    /// Pushes the states of a query generated by a call whose modifiers
    /// hold `single row` (`single_value`) and `single column`
    /// (`single_column_mod`) or not (see `query_path`); `None` where the
    /// query, or a subquery of its FROM clause, is not a SELECT.
    fn handle_query<X>(&mut self, query: &SqlQuery<X>, single_value: bool, single_column_mod: bool)
        -> (res: Option<Result<(), ConvertionError>>)
        ensures
            match query_path(*query, single_value, single_column_mod, old(self).subquery_modifiers()) {
                None => res is None,
                Some(o) => final(self).current_path() == old(self).current_path() + o.states && match o.error {
                    None => res matches Some(Ok(_)),
                    Some(r) => res matches Some(Err(e)) && e.reason() == r,
                },
            },
            final(self).subquery_modifiers() == old(self).subquery_modifiers(),
        decreases query, 0int,
    {
        let ghost start = self.current_path();
        let ghost sub = self.subquery_modifiers();
        self.push_state("Query");
        if single_value {
            self.push_state("single_value_true");
        } else {
            self.push_state("single_value_false");
            if let Some(_) = &query.limit {
                self.push_state("limit");
                self.push_state("call52_types");
                assert(self.current_path() =~= start + seq!["Query"@, "single_value_false"@, "limit"@, "call52_types"@]);
                return Some(self.handle_types());
            }
        }
        self.push_state("FROM");
        let ghost head = seq!["Query"@, if single_value { "single_value_true"@ } else { "single_value_false"@ }, "FROM"@];
        assert(self.current_path() =~= start + head);
        let select_body = match &query.body {
            SetExpr::Select(select) => select,
            SetExpr::Other(_) => {
                return None;
            },
        };
        let ghost o = select_path(**select_body, single_column_mod, sub);
        let r = match self.handle_select(select_body, single_column_mod) {
            Some(r) => r,
            None => {
                return None;
            },
        };
        if let Err(e) = r {
            assert(self.current_path() =~= start + (head + o->0.states + seq![]));
            return Some(Err(e));
        }
        self.push_state("EXIT_Query");
        assert(self.current_path() =~= start + (head + o->0.states + seq!["EXIT_Query"@]));
        Some(Ok(()))
    }

    /// The path of states of a query, after those pushed before; the path
    /// is then emptied. Fails on the first part of the query that cannot be
    /// turned into states, leaving the states pushed until then; `None`
    /// where the query, or a subquery of its FROM clause, is not a SELECT.
    pub fn get_query_path<X>(&mut self, query: &SqlQuery<X>) -> (res: Option<Result<Vec<String>, ConvertionError>>)
        ensures
            match query_path(*query, false, false, old(self).subquery_modifiers()) {
                None => res is None,
                Some(o) => match o.error {
                    None => res matches Some(Ok(p)) && strings_view(p@) == old(self).current_path() + o.states
                        && final(self).current_path() == Seq::<Seq<char>>::empty(),
                    Some(r) => res matches Some(Err(e)) && e.reason() == r
                        && final(self).current_path() == old(self).current_path() + o.states,
                },
            },
            final(self).subquery_modifiers() == old(self).subquery_modifiers(),
    {
        match self.handle_query(query, false, false) {
            None => {
                return None;
            },
            Some(Err(e)) => {
                return Some(Err(e));
            },
            Some(Ok(())) => {},
        }
        let mut path: Vec<String> = Vec::new();
        std::mem::swap(&mut path, &mut self.current_path);
        assert(self.current_path() =~= Seq::<Seq<char>>::empty());
        Some(Ok(path))
    }
}

/// The paths of a sequence of queries, one after another, from a
/// generator whose path holds `prefix` (the states left over from an
/// earlier reading, which come before those of the first query); or the
/// first reason for which a query cannot be turned into a path; `None`
/// where a query met before any error, or a subquery of its FROM clause,
/// is not a SELECT.
pub open spec fn train_paths<X>(queries: Seq<SqlQuery<X>>, sub: Seq<Seq<char>>, prefix: Seq<Seq<char>>)
    -> Option<Result<Seq<Seq<Seq<char>>>, Seq<char>>>
    decreases queries.len(),
{
    if queries.len() == 0 {
        Some(Ok(seq![]))
    } else {
        match train_paths(queries.drop_last(), sub, prefix) {
            None => None,
            Some(Err(r)) => Some(Err(r)),
            Some(Ok(paths)) => match query_path(queries.last(), false, false, sub) {
                None => None,
                Some(o) => match o.error {
                    None => Some(Ok(paths.push(
                        (if queries.len() == 1 { prefix } else { Seq::<Seq<char>>::empty() }) + o.states,
                    ))),
                    Some(r) => Some(Err(r)),
                },
            },
        }
    }
}

/// Turns the queries of a training set into paths of states.
#[verifier::reject_recursive_types(X)]
pub struct SQLTrainer<X> {
    query_asts: Vec<SqlQuery<X>>,
    path_generator: PathGenerator,
}

impl<X> SQLTrainer<X> {
    pub closed spec fn queries(&self) -> Seq<SqlQuery<X>> {
        self.query_asts@
    }

    /// The modifiers of the call that generates a subquery of a FROM
    /// clause.
    pub closed spec fn subquery_modifiers(&self) -> Seq<Seq<char>> {
        self.path_generator.subquery_modifiers()
    }

    /// Whether the path generator holds no states left over.
    pub closed spec fn is_fresh(&self) -> bool {
        self.path_generator.current_path() == Seq::<Seq<char>>::empty()
    }

    /// A trainer for the queries of a training set; `subquery_modifiers`
    /// are the modifiers of the call that generates a subquery of a FROM
    /// clause.
    pub fn new(query_asts: Vec<SqlQuery<X>>, subquery_modifiers: Vec<String>) -> (res: SQLTrainer<X>)
        ensures
            res.queries() == query_asts@,
            res.subquery_modifiers() == strings_view(subquery_modifiers@),
            res.is_fresh(),
    {
        SQLTrainer { query_asts, path_generator: PathGenerator::new(subquery_modifiers) }
    }

    /// The states left over in the path generator from an earlier reading
    /// that stopped on an error.
    pub closed spec fn leftover_path(&self) -> Seq<Seq<char>> {
        self.path_generator.current_path()
    }

    /// The paths of states of all the queries, in order (see
    /// `train_paths`); the states left over from an earlier training that
    /// stopped on an error come first in the path of the first query.
    /// After a training of at least one query without error, nothing is
    /// left over.
    pub fn train(&mut self) -> (res: Option<Result<Vec<Vec<String>>, ConvertionError>>)
        ensures
            match train_paths(old(self).queries(), old(self).subquery_modifiers(), old(self).leftover_path()) {
                None => res is None,
                Some(Ok(paths)) => res matches Some(Ok(p)) && p@.map_values(|v: Vec<String>| strings_view(v@)) == paths
                    && final(self).leftover_path() == (if old(self).queries().len() == 0 {
                        old(self).leftover_path()
                    } else {
                        Seq::<Seq<char>>::empty()
                    }),
                Some(Err(r)) => res matches Some(Err(e)) && e.reason() == r,
            },
            final(self).queries() == old(self).queries(),
            final(self).subquery_modifiers() == old(self).subquery_modifiers(),
    {
        let ghost prefix = self.leftover_path();
        let ghost sub = self.subquery_modifiers();
        let ghost queries = self.queries();
        let mut paths: Vec<Vec<String>> = Vec::new();
        let mut i: usize = 0;
        assert(queries.take(0) =~= Seq::<SqlQuery<X>>::empty());
        assert(paths@.map_values(|v: Vec<String>| strings_view(v@)) =~= Seq::<Seq<Seq<char>>>::empty());
        while i < self.query_asts.len()
            invariant
                i <= self.query_asts.len(),
                queries == self.queries(),
                queries == old(self).queries(),
                sub == self.subquery_modifiers(),
                sub == old(self).subquery_modifiers(),
                prefix == old(self).leftover_path(),
                self.leftover_path() == (if i == 0 { prefix } else { Seq::<Seq<char>>::empty() }),
                train_paths(queries.take(i as int), sub, prefix) == Some(Ok::<Seq<Seq<Seq<char>>>, Seq<char>>(
                    paths@.map_values(|v: Vec<String>| strings_view(v@)),
                )),
            decreases self.query_asts.len() - i,
        {
            assert(queries.take(i + 1).drop_last() =~= queries.take(i as int));
            assert(queries.take(i + 1).last() == queries[i as int]);
            let ghost before = paths@.map_values(|v: Vec<String>| strings_view(v@));
            let path = match self.path_generator.get_query_path(&self.query_asts[i]) {
                Some(Ok(path)) => path,
                Some(Err(e)) => {
                    proof {
                        lemma_train_paths_stops(queries, sub, prefix, i as int);
                    }
                    return Some(Err(e));
                },
                None => {
                    proof {
                        lemma_train_paths_stops(queries, sub, prefix, i as int);
                    }
                    return None;
                },
            };
            paths.push(path);
            assert(paths@.map_values(|v: Vec<String>| strings_view(v@)) =~= before.push(strings_view(path@)));
            assert(queries.take(i + 1).len() == i + 1);
            i = i + 1;
        }
        assert(queries.take(i as int) =~= queries);
        Some(Ok(paths))
    }
}

/// Once a query cannot be turned into a path (with an error, or because
/// it is not a SELECT), the sequence of queries it belongs to ends the
/// same way.
pub proof fn lemma_train_paths_stops<X>(queries: Seq<SqlQuery<X>>, sub: Seq<Seq<char>>, prefix: Seq<Seq<char>>, i: int)
    requires
        0 <= i < queries.len(),
        train_paths(queries.take(i), sub, prefix) matches Some(Ok(_)),
        !(query_path(queries[i], false, false, sub) matches Some(o) && o.error is None),
    ensures
        train_paths(queries, sub, prefix) == train_paths(queries.take(i + 1), sub, prefix),
        train_paths(queries.take(i + 1), sub, prefix) == match query_path(queries[i], false, false, sub) {
            None => None,
            Some(o) => Some(Err::<Seq<Seq<Seq<char>>>, Seq<char>>(o.error->0)),
        },
{
    assert(queries.take(i + 1).drop_last() =~= queries.take(i));
    assert(queries.take(i + 1).last() == queries[i]);
    lemma_train_paths_stop_extends(queries, sub, prefix, i + 1);
}

/// Where a prefix of the queries stops (with an error or `None`), so do
/// all of them.
pub proof fn lemma_train_paths_stop_extends<X>(queries: Seq<SqlQuery<X>>, sub: Seq<Seq<char>>, prefix: Seq<Seq<char>>, k: int)
    requires
        0 <= k <= queries.len(),
        !(train_paths(queries.take(k), sub, prefix) matches Some(Ok(_))),
    ensures
        train_paths(queries, sub, prefix) == train_paths(queries.take(k), sub, prefix),
    decreases queries.len() - k,
{
    if k == queries.len() {
        assert(queries.take(k) =~= queries);
    } else {
        assert(queries.take(k + 1).drop_last() =~= queries.take(k));
        lemma_train_paths_stop_extends(queries, sub, prefix, k + 1);
    }
}

} // verus!
