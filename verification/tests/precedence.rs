use equivalence_testing::sql_ast::{BinaryOperator, Ident, SqlExpr, SqlQuery, SetExpr, UnaryOperator};
use equivalence_testing::equivalence_testing_function::check_expr;

type E = SqlExpr<()>;

fn ident(name: &str) -> E {
    SqlExpr::Identifier(Ident { value: name.to_string(), quote_style: None })
}

fn bin(l: E, op: BinaryOperator, r: E) -> E {
    SqlExpr::BinaryOp { left: Box::new(l), op, right: Box::new(r) }
}

fn nested(e: E) -> E {
    SqlExpr::Nested(Box::new(e))
}

fn exists_query(negated: bool) -> E {
    SqlExpr::Exists {
        subquery: Box::new(SqlQuery { body: SetExpr::Other(()), limit: None, details: () }),
        negated,
    }
}

#[test]
fn priorities() {
    assert_eq!(ident("a").get_priority(), -1);
    assert_eq!(bin(ident("a"), BinaryOperator::Multiply, ident("b")).get_priority(), 5);
    assert_eq!(bin(ident("a"), BinaryOperator::Plus, ident("b")).get_priority(), 6);
    assert_eq!(bin(ident("a"), BinaryOperator::Eq, ident("b")).get_priority(), 9);
    assert_eq!(bin(ident("a"), BinaryOperator::And, ident("b")).get_priority(), 12);
    assert_eq!(bin(ident("a"), BinaryOperator::Or, ident("b")).get_priority(), 13);
    assert_eq!(SqlExpr::UnaryOp { op: UnaryOperator::Not, expr: Box::new(ident("a")) }.get_priority(), 11);
    assert_eq!(exists_query(true).get_priority(), 11);
    assert_eq!(exists_query(false).get_priority(), -1);
    assert_eq!(SqlExpr::<()>::IsNull(Box::new(ident("a"))).get_priority(), 10);
}

#[test]
fn left_operand_nested_when_looser_right_when_not_tighter() {
    let sum = bin(ident("a"), BinaryOperator::Plus, ident("b"));
    let e = bin(sum, BinaryOperator::Multiply, ident("c"));
    assert_eq!(
        e.nest_children_if_needed(),
        bin(nested(bin(ident("a"), BinaryOperator::Plus, ident("b"))), BinaryOperator::Multiply, ident("c"))
    );
    // a - (b - c): same priority on the right is nested, on the left it is not
    let e = bin(
        bin(ident("a"), BinaryOperator::Minus, ident("b")),
        BinaryOperator::Minus,
        bin(ident("c"), BinaryOperator::Minus, ident("d")),
    );
    assert_eq!(
        e.nest_children_if_needed(),
        bin(
            bin(ident("a"), BinaryOperator::Minus, ident("b")),
            BinaryOperator::Minus,
            nested(bin(ident("c"), BinaryOperator::Minus, ident("d"))),
        )
    );
}

#[test]
fn p_nest_l_and_r() {
    let sum = || bin(ident("a"), BinaryOperator::Plus, ident("b"));
    assert_eq!(sum().p_nest_l(6), sum());
    assert_eq!(sum().p_nest_r(6), nested(sum()));
    assert_eq!(sum().p_nest_l(5), nested(sum()));
    assert_eq!(sum().p_nest_r(7), sum());
}

#[test]
fn not_exists_and_double_minus_are_nested() {
    let e = SqlExpr::UnaryOp { op: UnaryOperator::Not, expr: Box::new(exists_query(false)) };
    assert_eq!(
        e.nest_children_if_needed(),
        SqlExpr::UnaryOp { op: UnaryOperator::Not, expr: Box::new(nested(exists_query(false))) }
    );
    let minus = |e: E| SqlExpr::UnaryOp { op: UnaryOperator::Minus, expr: Box::new(e) };
    assert_eq!(minus(minus(ident("a"))).nest_children_if_needed(), minus(nested(minus(ident("a")))));
}

#[test]
fn expressions_that_never_nest_are_left_alone() {
    let f = SqlExpr::Function { name: vec![], call: () };
    assert_eq!(SqlExpr::<()>::Nested(Box::new(f)).nest_children_if_needed(), nested(SqlExpr::Function { name: vec![], call: () }));
}

#[test]
fn nesting_twice_is_nesting_once() {
    let e = || bin(
        bin(ident("a"), BinaryOperator::Or, ident("b")),
        BinaryOperator::And,
        bin(ident("c"), BinaryOperator::And, ident("d")),
    );
    let once = e().nest_children_if_needed();
    let twice = e().nest_children_if_needed().nest_children_if_needed();
    assert_eq!(once, twice);
    assert_eq!(once.get_priority(), e().get_priority());
}

#[test]
fn nesting_keeps_the_where_check() {
    let e = || bin(
        bin(SqlExpr::Value(()), BinaryOperator::Or, ident("b")),
        BinaryOperator::And,
        SqlExpr::Value(()),
    );
    assert_eq!(check_expr(&e().nest_children_if_needed()), check_expr(&e()));
}
