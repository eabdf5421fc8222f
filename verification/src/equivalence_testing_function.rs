//! Whether the WHERE clause of a query can be told apart from its
//! NULL-safe rewriting: a conservative syntactic check over the model of
//! the syntax tree.

use vstd::prelude::*;
use sqlparser::ast::{Query, Statement};
use sqlparser::dialect::PostgreSqlDialect;
use sqlparser::parser::{Parser, ParserError};
use crate::sql_ast::{BinaryOperator, Ident, SqlExpr, SqlQuery, SetExpr, UnaryOperator};
use crate::text::{chars_of, upper_char};

verus! {

#[verifier::external_type_specification]
#[verifier::external_body]
pub struct ExQuery(Query);

#[verifier::external_type_specification]
#[verifier::external_body]
pub struct ExStatement(Statement);

#[verifier::external_type_specification]
#[verifier::external_body]
pub struct ExParserError(ParserError);

/// What `sqlparser` reads in `input` in the PostgreSQL dialect: the
/// statements, in order, or the error with which it rejects the input.
pub uninterp spec fn postgres_parse(input: Seq<char>) -> Result<Seq<Statement>, ParserError>;

/// Whether `c` may continue a word in the PostgreSQL dialect of `sqlparser`
/// (`[A-Za-z0-9$_]`).
pub open spec fn is_sql_word_char(c: char) -> bool {
    ||| 'a' <= c <= 'z'
    ||| 'A' <= c <= 'Z'
    ||| '0' <= c <= '9'
    ||| c == '$'
    ||| c == '_'
}

/// Whether `word` (in upper case) stands in `s` at index `i`, in any case,
/// and is not followed by a character that would continue the word.
pub open spec fn keyword_at(s: Seq<char>, i: int, word: Seq<char>) -> bool {
    &&& 0 <= i
    &&& i + word.len() <= s.len()
    &&& forall|k: int| 0 <= k < word.len() ==> #[trigger] upper_char(s[i + k]) == word[k]
    &&& (i + word.len() == s.len() || !is_sql_word_char(s[i + word.len()]))
}

/// Whether `word` stands somewhere in `s` as a keyword could.
pub open spec fn has_keyword(s: Seq<char>, word: Seq<char>) -> bool {
    exists|i: int| keyword_at(s, i, word)
}

pub open spec fn granted_word() -> Seq<char> {
    seq!['G', 'R', 'A', 'N', 'T', 'E', 'D']
}

pub open spec fn grant_word() -> Seq<char> {
    seq!['G', 'R', 'A', 'N', 'T']
}

pub open spec fn revoke_word() -> Seq<char> {
    seq!['R', 'E', 'V', 'O', 'K', 'E']
}

/// Whether `input` may hold a `GRANT` or `REVOKE` statement with
/// `GRANTED BY`: `sqlparser` 0.31 panics (it unwraps the grantor it reads
/// after `GRANTED BY`) where no identifier follows, so such text is not
/// handed to it. Every text on which it panics there holds the keywords
/// `GRANTED` and `GRANT` or `REVOKE`; some other texts do too.
pub open spec fn may_hold_granted_by(input: Seq<char>) -> bool {
    &&& has_keyword(input, granted_word())
    &&& (has_keyword(input, grant_word()) || has_keyword(input, revoke_word()))
}

/// Whether `word` (upper case) stands in `s` at index `i` (see `keyword_at`).
fn keyword_at_index(s: &Vec<char>, i: usize, word: &Vec<char>) -> (res: bool)
    ensures
        res == keyword_at(s@, i as int, word@),
{
    if word.len() > s.len() || i > s.len() - word.len() {
        return false;
    }
    let mut k: usize = 0;
    while k < word.len()
        invariant
            i + word.len() <= s.len(),
            k <= word.len(),
            forall|j: int| 0 <= j < k ==> #[trigger] upper_char(s@[i + j]) == word@[j],
        decreases word.len() - k,
    {
        let c = s[i + k];
        let v = c as u32;
        let u = if 97 <= v && v <= 122 {
            ((v - 32) as u8) as char
        } else {
            c
        };
        assert(u == upper_char(c));
        if u != word[k] {
            return false;
        }
        k = k + 1;
    }
    let end = i + word.len();
    if end == s.len() {
        return true;
    }
    let c = s[end];
    !(('a' <= c && c <= 'z') || ('A' <= c && c <= 'Z') || ('0' <= c && c <= '9') || c == '$' || c == '_')
}

/// Whether `word` (upper case) stands somewhere in `s` as a keyword could.
fn find_keyword(s: &Vec<char>, word: &Vec<char>) -> (res: bool)
    ensures
        res == has_keyword(s@, word@),
{
    let mut i: usize = 0;
    while i < s.len()
        invariant
            i <= s.len(),
            forall|j: int| 0 <= j < i ==> !keyword_at(s@, j, word@),
        decreases s.len() - i,
    {
        if keyword_at_index(s, i, word) {
            return true;
        }
        i = i + 1;
    }
    if keyword_at_index(s, i, word) {
        return true;
    }
    assert forall|j: int| !keyword_at(s@, j, word@) by {
        if 0 <= j <= i {
        } else if j > i {
            assert(j > s.len());
        }
    }
    false
}

/// Whether `input` may hold a `GRANT` or `REVOKE` statement with
/// `GRANTED BY` (see `may_hold_granted_by`).
pub fn holds_granted_by(input: &str) -> (res: bool)
    ensures
        res == may_hold_granted_by(input@),
{
    let chars = chars_of(input);
    find_keyword(&chars, &vec!['G', 'R', 'A', 'N', 'T', 'E', 'D'])
        && (find_keyword(&chars, &vec!['G', 'R', 'A', 'N', 'T']) || find_keyword(&chars, &vec!['R', 'E', 'V', 'O', 'K', 'E']))
}

/// Calls `sqlparser::parser::Parser::parse_sql` with the PostgreSQL
/// dialect, on text that holds no `GRANTED BY` of a `GRANT` or `REVOKE`
/// (see `may_hold_granted_by`). Trusted: the statements it reads, or the error with which it
/// rejects the input, depend on the input alone (`postgres_parse`).
#[verifier::external_body]
fn parse_sql_postgres(input: &str) -> (res: Result<Vec<Statement>, ParserError>)
    requires
        !may_hold_granted_by(input@),
    ensures
        match postgres_parse(input@) {
            Ok(s) => res matches Ok(v) && v@ == s,
            Err(e) => res matches Err(r) && r == e,
        },
{
    Parser::parse_sql(&PostgreSqlDialect {}, input)
}

/// The query that a statement holds, where it is a
/// `sqlparser::ast::Statement::Query`, or `None`.
pub uninterp spec fn statement_query(statement: Statement) -> Option<Box<Query>>;

/// Tells a `sqlparser::ast::Statement::Query` apart from the other
/// statements. Trusted: the result is `statement_query` of the statement.
#[verifier::external_body]
fn statement_into_query(statement: Statement) -> (res: Option<Box<Query>>)
    ensures
        res == statement_query(statement),
{
    match statement {
        Statement::Query(query) => Some(query),
        _ => None,
    }
}

/// The text that `Display` writes for a `sqlparser::parser::ParserError`.
pub uninterp spec fn parser_error_message(err: ParserError) -> Seq<char>;

/// The text of a `sqlparser::parser::ParserError` (its `Display`).
/// Trusted: the text depends on the error alone (`parser_error_message`).
#[verifier::external_body]
fn parser_error_text(err: &ParserError) -> (res: String)
    ensures
        res@ == parser_error_message(*err),
{
    err.to_string()
}

/// Why a text is not a single query.
#[derive(Debug, PartialEq)]
pub enum QueryInputError {
    /// The parser rejected the text; its message.
    Parse(String),
    /// The text holds no statement.
    NoStatement,
    /// The first statement is not a query.
    NotAQuery,
    /// The text may hold a `GRANT` or `REVOKE` with `GRANTED BY` (see
    /// `may_hold_granted_by`), which the parser is not trusted to read.
    GrantedBy,
}

/// Reads the first statement of `input` as a query, in the PostgreSQL
/// dialect: the parser's error where it rejects the text, `NoStatement`
/// where it reads no statement, `NotAQuery` where the first statement is
/// not a query, and otherwise the query of the first statement.
pub fn string_to_query(input: &str) -> (res: Result<Box<Query>, QueryInputError>)
    ensures
        may_hold_granted_by(input@) ==> res matches Err(QueryInputError::GrantedBy),
        !may_hold_granted_by(input@) ==> match postgres_parse(input@) {
            Err(e) => res matches Err(QueryInputError::Parse(m)) && m@ == parser_error_message(e),
            Ok(s) => if s.len() == 0 {
                res matches Err(QueryInputError::NoStatement)
            } else {
                match statement_query(s[0]) {
                    Some(q) => res matches Ok(r) && r == q,
                    None => res matches Err(QueryInputError::NotAQuery),
                }
            },
        },
{
    if holds_granted_by(input) {
        return Err(QueryInputError::GrantedBy);
    }
    let mut ast = match parse_sql_postgres(input) {
        Ok(ast) => ast,
        Err(err) => return Err(QueryInputError::Parse(parser_error_text(&err))),
    };
    if ast.len() == 0 {
        return Err(QueryInputError::NoStatement);
    }
    match statement_into_query(ast.swap_remove(0)) {
        Some(query) => Ok(query),
        None => Err(QueryInputError::NotAQuery),
    }
}

/// The queries among `statements`, in order.
pub open spec fn queries_of(statements: Seq<Statement>) -> Seq<Box<Query>>
    decreases statements.len(),
{
    if statements.len() == 0 {
        Seq::empty()
    } else {
        match statement_query(statements.last()) {
            Some(q) => queries_of(statements.drop_last()).push(q),
            None => queries_of(statements.drop_last()),
        }
    }
}

/// Reads every statement of `input`, in the PostgreSQL dialect, and keeps
/// the queries among them, in the order in which they come. Fails, with
/// the parser's message, exactly where the parser rejects the input.
pub fn parse_queries(input: &str) -> (res: Result<Vec<Box<Query>>, QueryInputError>)
    ensures
        may_hold_granted_by(input@) ==> res matches Err(QueryInputError::GrantedBy),
        !may_hold_granted_by(input@) ==> match postgres_parse(input@) {
            Err(e) => res matches Err(QueryInputError::Parse(m)) && m@ == parser_error_message(e),
            Ok(s) => res matches Ok(v) && v@ == queries_of(s),
        },
{
    if holds_granted_by(input) {
        return Err(QueryInputError::GrantedBy);
    }
    let mut rest = match parse_sql_postgres(input) {
        Ok(statements) => statements,
        Err(err) => return Err(QueryInputError::Parse(parser_error_text(&err))),
    };
    let ghost s = rest@;
    let ghost mut k: int = 0;
    let mut queries: Vec<Box<Query>> = Vec::new();
    assert(s.take(0) =~= Seq::<Statement>::empty());
    while rest.len() > 0
        invariant
            0 <= k <= s.len(),
            rest@ == s.subrange(k, s.len() as int),
            queries@ == queries_of(s.take(k)),
        decreases rest.len(),
    {
        let statement = rest.remove(0);
        assert(statement == s[k]);
        assert(s.take(k + 1).drop_last() =~= s.take(k));
        match statement_into_query(statement) {
            Some(query) => queries.push(query),
            None => {},
        }
        proof {
            k = k + 1;
        }
        assert(rest@ =~= s.subrange(k, s.len() as int));
    }
    assert(s.take(k) =~= s);
    Ok(queries)
}

/// Short-circuit conjunction of two checks that may fail (`None`): the
/// second one is only reached when the first one holds.
pub open spec fn and_then(first: Option<bool>, second: Option<bool>) -> Option<bool> {
    match first {
        None => None,
        Some(false) => Some(false),
        Some(true) => second,
    }
}

/// Conjunction of two checks that are both evaluated.
pub open spec fn both(first: Option<bool>, second: Option<bool>) -> Option<bool> {
    match (first, second) {
        (Some(a), Some(b)) => Some(a && b),
        _ => None,
    }
}

/// The name `COUNT`, unquoted, as a one-part object name.
pub open spec fn is_count_name(name: Seq<Ident>) -> bool {
    &&& name.len() == 1
    &&& name[0].value@ == "COUNT"@
    &&& name[0].quote_style is None
}

/// What checking an expression gives: `Some(b)` is the answer `b`, `None`
/// that the check meets an expression it does not support (an `ARRAY_AGG`
/// or an `ARRAY(subquery)`) on the way to its answer.
pub open spec fn expr_check_outcome<X>(e: SqlExpr<X>) -> Option<bool>
    decreases e, 0int,
{
    match e {
        SqlExpr::Identifier(_) => Some(false),
        SqlExpr::CompoundIdentifier(_) => Some(false),
        SqlExpr::CompositeAccess { expr, .. } => expr_check_outcome(*expr),
        SqlExpr::IsFalse(_) => Some(true),
        SqlExpr::IsNotFalse(_) => Some(true),
        SqlExpr::IsUnknown(_) => Some(true),
        SqlExpr::IsNotUnknown(_) => Some(true),
        SqlExpr::IsTrue(_) => Some(true),
        SqlExpr::IsNotTrue(_) => Some(true),
        SqlExpr::IsNull(_) => Some(true),
        SqlExpr::IsNotNull(_) => Some(true),
        SqlExpr::IsDistinctFrom(_, _) => Some(true),
        SqlExpr::IsNotDistinctFrom(_, _) => Some(true),
        SqlExpr::InList { expr, list, negated } => if negated {
            and_then(expr_check_outcome(*expr), all_check_outcome(list@, 0))
        } else {
            Some(true)
        },
        SqlExpr::InSubquery { expr, subquery, negated } => if negated {
            and_then(expr_check_outcome(*expr), query_check_outcome(*subquery))
        } else {
            Some(true)
        },
        SqlExpr::InUnnest { expr, array_expr, negated } => if negated {
            and_then(expr_check_outcome(*expr), expr_check_outcome(*array_expr))
        } else {
            Some(true)
        },
        SqlExpr::Value(_) => Some(true),
        SqlExpr::Between { expr, negated, low, high } => if negated {
            and_then(
                and_then(expr_check_outcome(*low), expr_check_outcome(*high)),
                expr_check_outcome(*expr),
            )
        } else {
            Some(true)
        },
        SqlExpr::BinaryOp { left, right, .. } => and_then(
            expr_check_outcome(*left),
            expr_check_outcome(*right),
        ),
        SqlExpr::Like { negated, expr, pattern, .. } => and_then(
            and_then(expr_check_outcome(*expr), expr_check_outcome(*pattern)),
            Some(negated),
        ),
        SqlExpr::ILike { negated, expr, pattern, .. } => and_then(
            and_then(expr_check_outcome(*expr), expr_check_outcome(*pattern)),
            Some(negated),
        ),
        SqlExpr::SimilarTo { expr, pattern, .. } => and_then(
            expr_check_outcome(*expr),
            expr_check_outcome(*pattern),
        ),
        SqlExpr::AnyOp(expr) => expr_check_outcome(*expr),
        SqlExpr::AllOp(expr) => expr_check_outcome(*expr),
        SqlExpr::UnaryOp { op, expr } => if op is Not {
            expr_check_outcome(*expr)
        } else {
            Some(true)
        },
        SqlExpr::Cast { expr, .. } => expr_check_outcome(*expr),
        SqlExpr::TryCast { expr, .. } => expr_check_outcome(*expr),
        SqlExpr::SafeCast { expr, .. } => expr_check_outcome(*expr),
        SqlExpr::AtTimeZone { timestamp, .. } => expr_check_outcome(*timestamp),
        SqlExpr::Extract { expr, .. } => expr_check_outcome(*expr),
        SqlExpr::Ceil { expr, .. } => expr_check_outcome(*expr),
        SqlExpr::Floor { expr, .. } => expr_check_outcome(*expr),
        SqlExpr::Position { expr, in_expr } => and_then(
            expr_check_outcome(*expr),
            expr_check_outcome(*in_expr),
        ),
        SqlExpr::Substring { expr, substring_from, substring_for } => both(
            both(
                expr_check_outcome(*expr),
                match substring_from {
                    Some(x) => expr_check_outcome(*x),
                    None => Some(true),
                },
            ),
            match substring_for {
                Some(x) => expr_check_outcome(*x),
                None => Some(true),
            },
        ),
        SqlExpr::Trim { trim_what, .. } => match trim_what {
            Some(x) => expr_check_outcome(*x),
            None => Some(true),
        },
        SqlExpr::Overlay { expr, overlay_what, overlay_from, overlay_for } => {
            let cond = match overlay_for {
                Some(x) => expr_check_outcome(*x),
                None => Some(true),
            };
            match cond {
                None => None,
                Some(c) => and_then(
                    and_then(and_then(expr_check_outcome(*expr), Some(c)), expr_check_outcome(*overlay_from)),
                    expr_check_outcome(*overlay_what),
                ),
            }
        },
        SqlExpr::Collate { expr, .. } => expr_check_outcome(*expr),
        SqlExpr::IntroducedString { .. } => Some(true),
        SqlExpr::TypedString { .. } => Some(true),
        SqlExpr::MapAccess { column, keys } => and_then(
            all_check_outcome(keys@, 0),
            expr_check_outcome(*column),
        ),
        SqlExpr::Function { name, .. } => Some(is_count_name(name@)),
        SqlExpr::AggregateExpressionWithFilter { expr, filter } => and_then(
            expr_check_outcome(*expr),
            expr_check_outcome(*filter),
        ),
        SqlExpr::Case { operand, conditions, results, else_result } => {
            let first = match operand {
                Some(x) => expr_check_outcome(*x),
                None => Some(true),
            };
            let last = match else_result {
                Some(x) => expr_check_outcome(*x),
                None => Some(true),
            };
            and_then(
                and_then(both(first, last), all_check_outcome(conditions@, 0)),
                all_check_outcome(results@, 0),
            )
        },
        SqlExpr::Nested(expr) => expr_check_outcome(*expr),
        SqlExpr::Exists { subquery, negated } => if negated {
            query_check_outcome(*subquery)
        } else {
            Some(true)
        },
        SqlExpr::Subquery(subquery) => query_check_outcome(*subquery),
        SqlExpr::Array { elem, .. } => all_check_outcome(elem@, 0),
        SqlExpr::ListAgg { expr, separator, .. } => both(
            expr_check_outcome(*expr),
            match separator {
                Some(x) => expr_check_outcome(*x),
                None => Some(true),
            },
        ),
        SqlExpr::GroupingSets(sets) => all_sets_check_outcome(sets@, 0),
        SqlExpr::Cube(sets) => all_sets_check_outcome(sets@, 0),
        SqlExpr::Rollup(sets) => all_sets_check_outcome(sets@, 0),
        SqlExpr::Tuple(list) => all_check_outcome(list@, 0),
        SqlExpr::ArrayIndex { obj, indexes } => and_then(
            expr_check_outcome(*obj),
            all_check_outcome(indexes@, 0),
        ),
        SqlExpr::Interval { value, .. } => expr_check_outcome(*value),
        SqlExpr::JsonAccess { left, right, .. } => and_then(
            expr_check_outcome(*left),
            expr_check_outcome(*right),
        ),
        SqlExpr::MatchAgainst(_) => Some(true),
        SqlExpr::ArraySubquery(_) => None,
        SqlExpr::ArrayAgg(_) => None,
    }
}

/// Checking the expressions of `list` from index `i` on, in order,
/// stopping at the first that does not hold.
pub open spec fn all_check_outcome<X>(list: Seq<SqlExpr<X>>, i: int) -> Option<bool>
    decreases list, list.len() - i,
{
    if 0 <= i < list.len() {
        and_then(expr_check_outcome(list[i]), all_check_outcome(list, i + 1))
    } else {
        Some(true)
    }
}

/// Checking every expression of every set from index `i` on, in order,
/// stopping at the first that does not hold.
pub open spec fn all_sets_check_outcome<X>(sets: Seq<Vec<SqlExpr<X>>>, i: int) -> Option<bool>
    decreases sets, sets.len() - i,
{
    if 0 <= i < sets.len() {
        and_then(all_check_outcome(sets[i]@, 0), all_sets_check_outcome(sets, i + 1))
    } else {
        Some(true)
    }
}

/// What checking the WHERE clause of a query gives; `None` where the query
/// is not a SELECT or the check of its WHERE clause meets an unsupported
/// expression.
pub open spec fn query_check_outcome<X>(q: SqlQuery<X>) -> Option<bool>
    decreases q, 0int,
{
    match q.body {
        SetExpr::Select(select) => match select.selection {
            Some(w) => expr_check_outcome(w),
            None => Some(true),
        },
        SetExpr::Other(_) => None,
    }
}

/// The `IS` tests (`IS [NOT] NULL`, `IS [NOT] TRUE`, `IS [NOT] FALSE`,
/// `IS [NOT] UNKNOWN`, `IS [NOT] DISTINCT FROM`) never yield NULL, whatever
/// their operands, and so always pass.
pub proof fn lemma_is_tests_pass<X>(x: SqlExpr<X>, y: SqlExpr<X>)
    ensures
        expr_check_outcome(SqlExpr::IsNull(Box::new(x))) == Some(true),
        expr_check_outcome(SqlExpr::IsNotNull(Box::new(x))) == Some(true),
        expr_check_outcome(SqlExpr::IsTrue(Box::new(x))) == Some(true),
        expr_check_outcome(SqlExpr::IsNotTrue(Box::new(x))) == Some(true),
        expr_check_outcome(SqlExpr::IsFalse(Box::new(x))) == Some(true),
        expr_check_outcome(SqlExpr::IsNotFalse(Box::new(x))) == Some(true),
        expr_check_outcome(SqlExpr::IsUnknown(Box::new(x))) == Some(true),
        expr_check_outcome(SqlExpr::IsNotUnknown(Box::new(x))) == Some(true),
        expr_check_outcome(SqlExpr::IsDistinctFrom(Box::new(x), Box::new(y))) == Some(true),
        expr_check_outcome(SqlExpr::IsNotDistinctFrom(Box::new(x), Box::new(y))) == Some(true),
{
}

/// A column may be NULL, so a bare column reference fails; a literal, a
/// typed or introduced string passes; a function call passes only where it
/// is an unquoted `COUNT`, which never yields NULL; `ARRAY_AGG` and
/// `ARRAY(subquery)` are not supported.
pub proof fn lemma_leaf_checks<X>(i: Ident, name: Vec<Ident>, v: X, t: String)
    ensures
        expr_check_outcome(SqlExpr::<X>::Identifier(i)) == Some(false),
        expr_check_outcome(SqlExpr::<X>::CompoundIdentifier(name)) == Some(false),
        expr_check_outcome(SqlExpr::Value(v)) == Some(true),
        expr_check_outcome(SqlExpr::TypedString { data_type: v, value: t }) == Some(true),
        expr_check_outcome(SqlExpr::IntroducedString { introducer: t, value: v }) == Some(true),
        expr_check_outcome(SqlExpr::Function { name, call: v }) == Some(
            name@.len() == 1 && name@[0].value@ == "COUNT"@ && name@[0].quote_style is None,
        ),
        expr_check_outcome(SqlExpr::ArrayAgg(v)) is None,
        expr_check_outcome(SqlExpr::<X>::ArraySubquery(Box::new(SqlQuery { body: SetExpr::Other(v), limit: None, details: v }))) is None,
{
}

/// A `LIKE` or `ILIKE` passes only where it is negated and its operands
/// pass; a plain `LIKE` never passes.
pub proof fn lemma_like_checks<X>(x: SqlExpr<X>, pattern: SqlExpr<X>, negated: bool, escape_char: Option<char>)
    ensures
        expr_check_outcome(SqlExpr::Like { negated, expr: Box::new(x), pattern: Box::new(pattern), escape_char })
            == and_then(and_then(expr_check_outcome(x), expr_check_outcome(pattern)), Some(negated)),
        expr_check_outcome(SqlExpr::ILike { negated, expr: Box::new(x), pattern: Box::new(pattern), escape_char })
            == and_then(and_then(expr_check_outcome(x), expr_check_outcome(pattern)), Some(negated)),
        !negated ==> expr_check_outcome(
            SqlExpr::Like { negated, expr: Box::new(x), pattern: Box::new(pattern), escape_char },
        ) != Some(true),
{
}

/// Field access, `AT TIME ZONE`, `EXTRACT`, `CEIL`, `FLOOR` and `INTERVAL`
/// give what their operand gives; `SIMILAR TO`, `POSITION`, JSON access
/// and an aggregate with a filter pass exactly where both their parts pass
/// (whether or not `SIMILAR TO` is negated); a tuple or an array passes
/// exactly where all its members pass, an index where the indexed value
/// and then all the indexes pass.
pub proof fn lemma_compound_checks<X>(x: SqlExpr<X>, y: SqlExpr<X>, list: Vec<SqlExpr<X>>, key: Ident, v: X, t: String, negated: bool, named: bool)
    ensures
        expr_check_outcome(SqlExpr::CompositeAccess { expr: Box::new(x), key }) == expr_check_outcome(x),
        expr_check_outcome(SqlExpr::AtTimeZone { timestamp: Box::new(x), time_zone: t }) == expr_check_outcome(x),
        expr_check_outcome(SqlExpr::Extract { field: v, expr: Box::new(x) }) == expr_check_outcome(x),
        expr_check_outcome(SqlExpr::Ceil { expr: Box::new(x), field: v }) == expr_check_outcome(x),
        expr_check_outcome(SqlExpr::Floor { expr: Box::new(x), field: v }) == expr_check_outcome(x),
        expr_check_outcome(SqlExpr::Interval { value: Box::new(x), details: v }) == expr_check_outcome(x),
        expr_check_outcome(SqlExpr::SimilarTo { negated, expr: Box::new(x), pattern: Box::new(y), escape_char: None })
            == and_then(expr_check_outcome(x), expr_check_outcome(y)),
        expr_check_outcome(SqlExpr::Position { expr: Box::new(x), in_expr: Box::new(y) })
            == and_then(expr_check_outcome(x), expr_check_outcome(y)),
        expr_check_outcome(SqlExpr::JsonAccess { left: Box::new(x), operator: v, right: Box::new(y) })
            == and_then(expr_check_outcome(x), expr_check_outcome(y)),
        expr_check_outcome(SqlExpr::AggregateExpressionWithFilter { expr: Box::new(x), filter: Box::new(y) })
            == and_then(expr_check_outcome(x), expr_check_outcome(y)),
        expr_check_outcome(SqlExpr::Tuple(list)) == all_check_outcome(list@, 0),
        expr_check_outcome(SqlExpr::Array { elem: list, named }) == all_check_outcome(list@, 0),
        expr_check_outcome(SqlExpr::ArrayIndex { obj: Box::new(x), indexes: list })
            == and_then(expr_check_outcome(x), all_check_outcome(list@, 0)),
{
}

/// A binary operation passes exactly where both operands pass; the right
/// operand is not looked at where the left one fails.
pub proof fn lemma_binary_op_check<X>(l: SqlExpr<X>, op: BinaryOperator, r: SqlExpr<X>)
    ensures
        expr_check_outcome(SqlExpr::BinaryOp { left: Box::new(l), op, right: Box::new(r) })
            == and_then(expr_check_outcome(l), expr_check_outcome(r)),
        expr_check_outcome(l) == Some(false) ==> expr_check_outcome(
            SqlExpr::BinaryOp { left: Box::new(l), op, right: Box::new(r) },
        ) == Some(false),
        (expr_check_outcome(l) is Some && expr_check_outcome(r) is Some) ==> expr_check_outcome(
            SqlExpr::BinaryOp { left: Box::new(l), op, right: Box::new(r) },
        ) == Some(expr_check_outcome(l)->0 && expr_check_outcome(r)->0),
{
}

/// Parentheses, casts, `COLLATE`, `ANY`, `ALL` and `NOT` give what their
/// operand gives; any other unary operator passes.
pub proof fn lemma_pass_through_check<X>(x: SqlExpr<X>, t: X, op: UnaryOperator)
    ensures
        expr_check_outcome(SqlExpr::Nested(Box::new(x))) == expr_check_outcome(x),
        expr_check_outcome(SqlExpr::Cast { expr: Box::new(x), data_type: t }) == expr_check_outcome(x),
        expr_check_outcome(SqlExpr::TryCast { expr: Box::new(x), data_type: t }) == expr_check_outcome(x),
        expr_check_outcome(SqlExpr::SafeCast { expr: Box::new(x), data_type: t }) == expr_check_outcome(x),
        expr_check_outcome(SqlExpr::Collate { expr: Box::new(x), collation: t }) == expr_check_outcome(x),
        expr_check_outcome(SqlExpr::AnyOp(Box::new(x))) == expr_check_outcome(x),
        expr_check_outcome(SqlExpr::AllOp(Box::new(x))) == expr_check_outcome(x),
        expr_check_outcome(SqlExpr::UnaryOp { op, expr: Box::new(x) }) == (if op is Not {
            expr_check_outcome(x)
        } else {
            Some(true)
        }),
{
}

/// Where the check meets no unsupported expression in a list, the list
/// passes exactly where every member from index `i` on passes.
pub proof fn lemma_all_check<X>(list: Seq<SqlExpr<X>>, i: int)
    requires
        0 <= i <= list.len(),
        forall|k: int| i <= k < list.len() ==> (#[trigger] expr_check_outcome(list[k])) is Some,
    ensures
        all_check_outcome(list, i) == Some(
            forall|k: int| i <= k < list.len() ==> #[trigger] expr_check_outcome(list[k]) == Some(true),
        ),
    decreases list.len() - i,
{
    if i < list.len() {
        lemma_all_check(list, i + 1);
        assert(expr_check_outcome(list[i]) is Some);
    }
}

/// A negated `IN` list, `IN UNNEST` or `BETWEEN` passes exactly where all
/// its parts pass (checked in the order given); without `NOT` it passes.
pub proof fn lemma_membership_check<X>(
    x: SqlExpr<X>,
    list: Vec<SqlExpr<X>>,
    array_expr: SqlExpr<X>,
    low: SqlExpr<X>,
    high: SqlExpr<X>,
    negated: bool,
)
    ensures
        expr_check_outcome(SqlExpr::InList { expr: Box::new(x), list, negated }) == (if negated {
            and_then(expr_check_outcome(x), all_check_outcome(list@, 0))
        } else {
            Some(true)
        }),
        expr_check_outcome(SqlExpr::InUnnest { expr: Box::new(x), array_expr: Box::new(array_expr), negated }) == (
        if negated {
            and_then(expr_check_outcome(x), expr_check_outcome(array_expr))
        } else {
            Some(true)
        }),
        expr_check_outcome(SqlExpr::Between { expr: Box::new(x), negated, low: Box::new(low), high: Box::new(high) })
            == (if negated {
            and_then(and_then(expr_check_outcome(low), expr_check_outcome(high)), expr_check_outcome(x))
        } else {
            Some(true)
        }),
{
}

/// A negated `EXISTS`, a subquery, and a negated `IN (subquery)` give
/// what the subquery's WHERE clause gives (after the tested expression);
/// a plain `EXISTS` or `IN (subquery)` passes.
pub proof fn lemma_subquery_check<X>(q: SqlQuery<X>, x: SqlExpr<X>, negated: bool)
    ensures
        expr_check_outcome(SqlExpr::Exists { subquery: Box::new(q), negated }) == (if negated {
            query_check_outcome(q)
        } else {
            Some(true)
        }),
        expr_check_outcome(SqlExpr::Subquery(Box::new(q))) == query_check_outcome(q),
        expr_check_outcome(SqlExpr::InSubquery { expr: Box::new(x), subquery: Box::new(q), negated }) == (if negated {
            and_then(expr_check_outcome(x), query_check_outcome(q))
        } else {
            Some(true)
        }),
{
}

/// A SELECT query gives what its WHERE clause gives (it passes without
/// one); any other query body is not supported.
pub proof fn lemma_query_check<X>(q: SqlQuery<X>)
    ensures
        q.body matches SetExpr::Select(select) ==> query_check_outcome(q) == match select.selection {
            Some(w) => expr_check_outcome(w),
            None => Some(true),
        },
        q.body is Other ==> query_check_outcome(q) is None,
{
}

/// Checks the WHERE clause of a SELECT query (`true` where it has none).
/// The query must be a SELECT, and the check must meet no unsupported
/// expression (see `query_check_outcome`).
pub fn check_query<X>(query: &SqlQuery<X>) -> (res: bool)
    requires
        query_check_outcome(*query) is Some,
    ensures
        query_check_outcome(*query) == Some(res),
{
    match query_outcome(query) {
        Some(b) => b,
        None => false,
    }
}

/// Checks an optional WHERE clause; an absent one passes. The check must
/// meet no unsupported expression.
pub fn check_where<X>(where_opt: &Option<SqlExpr<X>>) -> (res: bool)
    requires
        *where_opt matches Some(w) ==> expr_check_outcome(w) is Some,
    ensures
        res == match *where_opt {
            Some(w) => expr_check_outcome(w) == Some(true),
            None => true,
        },
{
    match where_opt {
        Some(w) => check_expr(w),
        None => true,
    }
}

/// Checks an expression (see `expr_check_outcome`), which must not lead
/// the check to an unsupported expression.
pub fn check_expr<X>(expr: &SqlExpr<X>) -> (res: bool)
    requires
        expr_check_outcome(*expr) is Some,
    ensures
        expr_check_outcome(*expr) == Some(res),
{
    match expr_outcome(expr) {
        Some(b) => b,
        None => false,
    }
}

/// What checking the WHERE clause of a query gives: `None` where the
/// query is not a SELECT or the check meets an unsupported expression.
pub fn query_outcome<X>(query: &SqlQuery<X>) -> (res: Option<bool>)
    ensures
        res == query_check_outcome(*query),
    decreases query, 0int,
{
    match &query.body {
        SetExpr::Select(select) => match &select.selection {
            Some(w) => expr_outcome(w),
            None => Some(true),
        },
        SetExpr::Other(_) => None,
    }
}

/// Checks the expressions of a list in order, stopping at the first that
/// does not hold.
fn all_outcome<X>(list: &Vec<SqlExpr<X>>) -> (res: Option<bool>)
    ensures
        res == all_check_outcome(list@, 0),
    decreases list, 0int,
{
    let mut i: usize = 0;
    while i < list.len()
        invariant
            i <= list.len(),
            all_check_outcome(list@, 0) == all_check_outcome(list@, i as int),
        decreases list.len() - i,
    {
        assert(all_check_outcome(list@, i as int) == and_then(
            expr_check_outcome(list@[i as int]),
            all_check_outcome(list@, i + 1),
        ));
        match expr_outcome(&list[i]) {
            Some(true) => {},
            other => {
                return other;
            },
        }
        i = i + 1;
    }
    Some(true)
}

/// Checks the expressions of a list of lists in order, stopping at the
/// first that does not hold.
fn all_sets_outcome<X>(sets: &Vec<Vec<SqlExpr<X>>>) -> (res: Option<bool>)
    ensures
        res == all_sets_check_outcome(sets@, 0),
    decreases sets, 0int,
{
    let mut i: usize = 0;
    while i < sets.len()
        invariant
            i <= sets.len(),
            all_sets_check_outcome(sets@, 0) == all_sets_check_outcome(sets@, i as int),
        decreases sets.len() - i,
    {
        assert(all_sets_check_outcome(sets@, i as int) == and_then(
            all_check_outcome(sets@[i as int]@, 0),
            all_sets_check_outcome(sets@, i + 1),
        ));
        match all_outcome(&sets[i]) {
            Some(true) => {},
            other => {
                return other;
            },
        }
        i = i + 1;
    }
    Some(true)
}

/// Checks an optional operand; an absent one passes.
fn opt_outcome<X>(e: &Option<Box<SqlExpr<X>>>) -> (res: Option<bool>)
    ensures
        res == match *e {
            Some(x) => expr_check_outcome(*x),
            None => Some(true),
        },
    decreases e, 0int,
{
    match e {
        Some(x) => expr_outcome(x),
        None => Some(true),
    }
}

/// Whether a function name is the unquoted name `COUNT`.
fn is_count(name: &Vec<Ident>) -> (res: bool)
    ensures
        res == is_count_name(name@),
{
    if name.len() != 1 {
        return false;
    }
    let count = "COUNT".to_string();
    name[0].quote_style.is_none() && name[0].value == count
}

/// The short-circuit conjunction: the second check is only made where the
/// first one holds.
fn then_check(first: Option<bool>, second: Option<bool>) -> (res: Option<bool>)
    ensures
        res == and_then(first, second),
{
    match first {
        Some(true) => second,
        other => other,
    }
}

/// The conjunction of two checks both made.
fn both_checks(first: Option<bool>, second: Option<bool>) -> (res: Option<bool>)
    ensures
        res == both(first, second),
{
    match (first, second) {
        (Some(a), Some(b)) => Some(a && b),
        _ => None,
    }
}

/// What checking an expression gives (see `expr_check_outcome`): whether
/// it cannot be NULL where the WHERE clause relies on it, or `None` where
/// the check meets an unsupported expression. Operands are checked in
/// order, and a conjunction stops at its first operand that fails.
pub fn expr_outcome<X>(expr: &SqlExpr<X>) -> (res: Option<bool>)
    ensures
        res == expr_check_outcome(*expr),
    decreases expr, 0int,
{
    match expr {
        SqlExpr::Identifier(_) => Some(false),
        SqlExpr::CompoundIdentifier(_) => Some(false),
        SqlExpr::CompositeAccess { expr, .. } => expr_outcome(expr),
        SqlExpr::IsFalse(_) => Some(true),
        SqlExpr::IsNotFalse(_) => Some(true),
        SqlExpr::IsUnknown(_) => Some(true),
        SqlExpr::IsNotUnknown(_) => Some(true),
        SqlExpr::IsTrue(_) => Some(true),
        SqlExpr::IsNotTrue(_) => Some(true),
        SqlExpr::IsNull(_) => Some(true),
        SqlExpr::IsNotNull(_) => Some(true),
        SqlExpr::IsDistinctFrom(_, _) => Some(true),
        SqlExpr::IsNotDistinctFrom(_, _) => Some(true),
        SqlExpr::InList { expr, list, negated } => {
            if *negated {
                match expr_outcome(expr) {
                    Some(true) => all_outcome(list),
                    other => other,
                }
            } else {
                Some(true)
            }
        },
        SqlExpr::InSubquery { expr, subquery, negated } => {
            if *negated {
                match expr_outcome(expr) {
                    Some(true) => query_outcome(subquery),
                    other => other,
                }
            } else {
                Some(true)
            }
        },
        SqlExpr::InUnnest { expr, array_expr, negated } => {
            if *negated {
                match expr_outcome(expr) {
                    Some(true) => expr_outcome(array_expr),
                    other => other,
                }
            } else {
                Some(true)
            }
        },
        SqlExpr::Value(_) => Some(true),
        SqlExpr::Between { expr, negated, low, high } => {
            if *negated {
                let low_high = match expr_outcome(low) {
                    Some(true) => expr_outcome(high),
                    other => other,
                };
                match low_high {
                    Some(true) => expr_outcome(expr),
                    other => other,
                }
            } else {
                Some(true)
            }
        },
        SqlExpr::BinaryOp { left, right, .. } => match expr_outcome(left) {
            Some(true) => expr_outcome(right),
            other => other,
        },
        SqlExpr::Like { negated, expr, pattern, .. } => {
            let operands = match expr_outcome(expr) {
                Some(true) => expr_outcome(pattern),
                other => other,
            };
            then_check(operands, Some(*negated))
        },
        SqlExpr::ILike { negated, expr, pattern, .. } => {
            let operands = match expr_outcome(expr) {
                Some(true) => expr_outcome(pattern),
                other => other,
            };
            then_check(operands, Some(*negated))
        },
        SqlExpr::SimilarTo { expr, pattern, .. } => match expr_outcome(expr) {
            Some(true) => expr_outcome(pattern),
            other => other,
        },
        SqlExpr::AnyOp(expr) => expr_outcome(expr),
        SqlExpr::AllOp(expr) => expr_outcome(expr),
        SqlExpr::UnaryOp { op, expr } => {
            if let UnaryOperator::Not = op {
                expr_outcome(expr)
            } else {
                Some(true)
            }
        },
        SqlExpr::Cast { expr, .. } => expr_outcome(expr),
        SqlExpr::TryCast { expr, .. } => expr_outcome(expr),
        SqlExpr::SafeCast { expr, .. } => expr_outcome(expr),
        SqlExpr::AtTimeZone { timestamp, .. } => expr_outcome(timestamp),
        SqlExpr::Extract { expr, .. } => expr_outcome(expr),
        SqlExpr::Ceil { expr, .. } => expr_outcome(expr),
        SqlExpr::Floor { expr, .. } => expr_outcome(expr),
        SqlExpr::Position { expr, in_expr } => match expr_outcome(expr) {
            Some(true) => expr_outcome(in_expr),
            other => other,
        },
        SqlExpr::Substring { expr, substring_from, substring_for } => {
            let condition_1 = expr_outcome(expr);
            let condition_2 = opt_outcome(substring_from);
            let condition_3 = opt_outcome(substring_for);
            both_checks(both_checks(condition_1, condition_2), condition_3)
        },
        SqlExpr::Trim { trim_what, .. } => opt_outcome(trim_what),
        SqlExpr::Overlay { expr, overlay_what, overlay_from, overlay_for } => {
            let cond = opt_outcome(overlay_for);
            match cond {
                None => None,
                Some(c) => {
                    let first = then_check(expr_outcome(expr), Some(c));
                    let second = match first {
                        Some(true) => expr_outcome(overlay_from),
                        other => other,
                    };
                    match second {
                        Some(true) => expr_outcome(overlay_what),
                        other => other,
                    }
                },
            }
        },
        SqlExpr::Collate { expr, .. } => expr_outcome(expr),
        SqlExpr::IntroducedString { .. } => Some(true),
        SqlExpr::TypedString { .. } => Some(true),
        SqlExpr::MapAccess { column, keys } => match all_outcome(keys) {
            Some(true) => expr_outcome(column),
            other => other,
        },
        SqlExpr::Function { name, .. } => Some(is_count(name)),
        SqlExpr::AggregateExpressionWithFilter { expr, filter } => match expr_outcome(expr) {
            Some(true) => expr_outcome(filter),
            other => other,
        },
        SqlExpr::Case { operand, conditions, results, else_result } => {
            let first = opt_outcome(operand);
            let last = opt_outcome(else_result);
            let ends = both_checks(first, last);
            let with_conditions = match ends {
                Some(true) => all_outcome(conditions),
                other => other,
            };
            match with_conditions {
                Some(true) => all_outcome(results),
                other => other,
            }
        },
        SqlExpr::Nested(expr) => expr_outcome(expr),
        SqlExpr::Exists { subquery, negated } => {
            if *negated {
                query_outcome(subquery)
            } else {
                Some(true)
            }
        },
        SqlExpr::Subquery(subquery) => query_outcome(subquery),
        SqlExpr::Array { elem, .. } => all_outcome(elem),
        SqlExpr::ListAgg { expr, separator, .. } => {
            let condition_1 = expr_outcome(expr);
            let condition_2 = opt_outcome(separator);
            both_checks(condition_1, condition_2)
        },
        SqlExpr::GroupingSets(sets) => all_sets_outcome(sets),
        SqlExpr::Cube(sets) => all_sets_outcome(sets),
        SqlExpr::Rollup(sets) => all_sets_outcome(sets),
        SqlExpr::Tuple(list) => all_outcome(list),
        SqlExpr::ArrayIndex { obj, indexes } => match expr_outcome(obj) {
            Some(true) => all_outcome(indexes),
            other => other,
        },
        SqlExpr::Interval { value, .. } => expr_outcome(value),
        SqlExpr::JsonAccess { left, right, .. } => match expr_outcome(left) {
            Some(true) => expr_outcome(right),
            other => other,
        },
        SqlExpr::MatchAgainst(_) => Some(true),
        SqlExpr::ArraySubquery(_) => None,
        SqlExpr::ArrayAgg(_) => None,
    }
}

} // verus!
