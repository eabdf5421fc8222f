use equivalence_testing::equivalence_testing_function::{
    check_expr, check_query, check_where, parse_queries, string_to_query, QueryInputError,
};
use equivalence_testing::sql_ast::{
    BinaryOperator, Ident, Select, SelectItem, SetExpr, SqlExpr, SqlQuery, TableFactor, TableWithJoins, UnaryOperator,
};

type E = SqlExpr<()>;

fn ident(name: &str) -> E {
    SqlExpr::Identifier(Ident { value: name.to_string(), quote_style: None })
}

fn value() -> E {
    SqlExpr::Value(())
}

fn bin(l: E, op: BinaryOperator, r: E) -> E {
    SqlExpr::BinaryOp { left: Box::new(l), op, right: Box::new(r) }
}

fn func(name: &str, quote: Option<char>) -> E {
    SqlExpr::Function { name: vec![Ident { value: name.to_string(), quote_style: quote }], call: () }
}

fn query(selection: Option<E>) -> SqlQuery<()> {
    SqlQuery {
        body: SetExpr::Select(Box::new(Select {
            distinct: false,
            projection: vec![SelectItem::Wildcard(())],
            from: vec![TableWithJoins {
                relation: TableFactor::Table { name: vec![Ident { value: "t".to_string(), quote_style: None }], details: () },
                joins: (),
            }],
            selection,
            details: (),
        })),
        limit: None,
        details: (),
    }
}

#[test]
fn identifiers_fail_and_values_pass() {
    assert!(!check_expr(&ident("a")));
    assert!(!check_expr(&SqlExpr::<()>::CompoundIdentifier(vec![])));
    assert!(check_expr(&value()));
    assert!(check_expr(&SqlExpr::IsNull(Box::new(ident("a")))));
    assert!(check_expr(&SqlExpr::IsDistinctFrom(Box::new(ident("a")), Box::new(ident("b")))));
}

#[test]
fn binary_operations_need_both_operands() {
    assert!(check_expr(&bin(value(), BinaryOperator::Eq, value())));
    assert!(!check_expr(&bin(value(), BinaryOperator::Eq, ident("a"))));
    assert!(!check_expr(&bin(ident("a"), BinaryOperator::And, value())));
}

#[test]
fn only_count_is_accepted_among_functions() {
    assert!(check_expr(&func("COUNT", None)));
    assert!(!check_expr(&func("count", None)));
    assert!(!check_expr(&func("COUNT", Some('"'))));
    assert!(!check_expr(&func("SUM", None)));
}

#[test]
fn like_needs_negation() {
    let like = |negated| SqlExpr::Like { negated, expr: Box::new(value()), pattern: Box::new(value()), escape_char: None };
    assert!(check_expr(&like(true)));
    assert!(!check_expr(&like(false)));
    let similar = SqlExpr::SimilarTo { negated: false, expr: Box::new(value()), pattern: Box::new(value()), escape_char: None };
    assert!(check_expr(&similar));
}

#[test]
fn negated_membership_checks_its_operands() {
    let in_list = |negated| SqlExpr::InList { expr: Box::new(value()), list: vec![value(), ident("a")], negated };
    assert!(check_expr(&in_list(false)));
    assert!(!check_expr(&in_list(true)));
    let between = SqlExpr::Between { expr: Box::new(value()), negated: true, low: Box::new(value()), high: Box::new(value()) };
    assert!(check_expr(&between));
}

#[test]
fn unary_not_looks_through_other_operators_do_not() {
    assert!(!check_expr(&SqlExpr::UnaryOp { op: UnaryOperator::Not, expr: Box::new(ident("a")) }));
    assert!(check_expr(&SqlExpr::UnaryOp { op: UnaryOperator::Minus, expr: Box::new(ident("a")) }));
}

#[test]
fn case_checks_all_parts() {
    let case = |else_result: Option<Box<E>>| SqlExpr::Case {
        operand: None,
        conditions: vec![value()],
        results: vec![value()],
        else_result,
    };
    assert!(check_expr(&case(None)));
    assert!(check_expr(&case(Some(Box::new(value())))));
    assert!(!check_expr(&case(Some(Box::new(ident("a"))))));
}

#[test]
fn substring_and_trim() {
    let substring = SqlExpr::Substring { expr: Box::new(value()), substring_from: Some(Box::new(ident("a"))), substring_for: None };
    assert!(!check_expr(&substring));
    // TRIM only checks what is trimmed
    let trim = SqlExpr::Trim { expr: Box::new(ident("a")), trim_where: (), trim_what: None };
    assert!(check_expr(&trim));
}

#[test]
fn grouping_sets_check_every_member() {
    assert!(check_expr(&SqlExpr::<()>::GroupingSets(vec![vec![value()], vec![]])));
    assert!(!check_expr(&SqlExpr::GroupingSets(vec![vec![value()], vec![ident("a")]])));
}

#[test]
fn exists_and_subqueries() {
    let exists = |negated| SqlExpr::Exists { subquery: Box::new(query(Some(ident("a")))), negated };
    assert!(check_expr(&exists(false)));
    assert!(!check_expr(&exists(true)));
    assert!(check_expr(&SqlExpr::Subquery(Box::new(query(None)))));
}

#[test]
fn queries_and_where_clauses() {
    assert!(check_query(&query(None)));
    assert!(check_query(&query(Some(value()))));
    assert!(!check_query(&query(Some(ident("a")))));
    assert!(check_where::<()>(&None));
    assert!(!check_where(&Some(ident("a"))));
}

#[test]
fn string_to_query_reads_the_first_query() {
    assert!(string_to_query("SELECT a FROM t WHERE a IS NULL").is_ok());
    assert!(matches!(string_to_query("SELEC"), Err(QueryInputError::Parse(_))));
    assert!(matches!(string_to_query(""), Err(QueryInputError::NoStatement)));
    assert!(matches!(string_to_query("INSERT INTO t VALUES (1)"), Err(QueryInputError::NotAQuery)));
}

#[test]
fn parse_queries_keeps_the_queries_in_order() {
    let queries = parse_queries("SELECT a FROM t; INSERT INTO t VALUES (1); SELECT b FROM u").unwrap();
    assert_eq!(queries.len(), 2);
    assert_eq!(queries[0].to_string(), "SELECT a FROM t");
    assert_eq!(queries[1].to_string(), "SELECT b FROM u");
    assert_eq!(parse_queries("").unwrap().len(), 0);
    assert!(matches!(parse_queries("SELEC"), Err(QueryInputError::Parse(_))));
}

#[test]
fn string_to_query_takes_the_first_statement() {
    let first = string_to_query("SELECT 1; SELECT 2").unwrap();
    assert_eq!(first, string_to_query("SELECT 1").unwrap());
    assert_eq!(string_to_query("SELECT a FROM t").unwrap().to_string(), "SELECT a FROM t");
    assert!(matches!(string_to_query("INSERT INTO t VALUES (1); SELECT 1"), Err(QueryInputError::NotAQuery)));
}

#[test]
fn parse_errors_carry_the_parser_message() {
    let expected = sqlparser::parser::Parser::parse_sql(&sqlparser::dialect::PostgreSqlDialect {}, "SELEC")
        .unwrap_err()
        .to_string();
    assert_eq!(string_to_query("SELEC"), Err(QueryInputError::Parse(expected.clone())));
    assert!(matches!(parse_queries("SELEC"), Err(QueryInputError::Parse(m)) if m == expected));
}

#[test]
fn granted_by_is_not_handed_to_the_parser() {
    assert_eq!(string_to_query("GRANT SELECT ON t TO u GRANTED BY"), Err(QueryInputError::GrantedBy));
    assert_eq!(string_to_query("revoke select on t from u granted by 1"), Err(QueryInputError::GrantedBy));
    assert!(matches!(parse_queries("SELECT 1; GRANT SELECT ON t TO u GRANTED BY"), Err(QueryInputError::GrantedBy)));
    // the words alone, or as parts of longer words, are read as usual
    assert!(string_to_query("SELECT granted FROM t").is_ok());
    assert!(string_to_query("SELECT granted, grant_x FROM t").is_ok());
    assert!(matches!(string_to_query("GRANT SELECT ON t TO u"), Err(QueryInputError::NotAQuery)));
}
