//! Operator precedence of SQL expressions, and the parentheses that keep
//! the printed form of a generated tree parsing back to the same tree.

use vstd::prelude::*;
use crate::sql_ast::{Ident, SqlExpr, SqlQuery, UnaryOperator, BinaryOperator};
use crate::equivalence_testing_function::expr_check_outcome;

verus! {

/// The binding priority of a unary operator: a lower number binds tighter.
pub open spec fn unary_priority(op: UnaryOperator) -> int {
    match op {
        UnaryOperator::Plus => 3,
        UnaryOperator::Minus => 3,
        UnaryOperator::PGBitwiseNot => 7,
        UnaryOperator::PGSquareRoot => 7,
        UnaryOperator::PGCubeRoot => 7,
        UnaryOperator::PGPostfixFactorial => 7,
        UnaryOperator::PGPrefixFactorial => 7,
        UnaryOperator::PGAbs => 7,
        UnaryOperator::Not => 11,
    }
}

/// The binding priority of a binary operator: a lower number binds tighter.
pub open spec fn binary_priority(op: BinaryOperator) -> int {
    match op {
        BinaryOperator::PGExp => 4,
        BinaryOperator::Multiply => 5,
        BinaryOperator::Divide => 5,
        BinaryOperator::Modulo => 5,
        BinaryOperator::Plus => 6,
        BinaryOperator::Minus => 6,
        BinaryOperator::StringConcat => 7,
        BinaryOperator::Spaceship => 7,
        BinaryOperator::Xor => 7,
        BinaryOperator::BitwiseOr => 7,
        BinaryOperator::BitwiseAnd => 7,
        BinaryOperator::BitwiseXor => 7,
        BinaryOperator::PGBitwiseXor => 7,
        BinaryOperator::PGBitwiseShiftLeft => 7,
        BinaryOperator::PGBitwiseShiftRight => 7,
        BinaryOperator::PGRegexMatch => 7,
        BinaryOperator::PGRegexIMatch => 7,
        BinaryOperator::PGRegexNotMatch => 7,
        BinaryOperator::PGRegexNotIMatch => 7,
        BinaryOperator::PGCustomBinaryOperator(_) => 7,
        BinaryOperator::Gt => 9,
        BinaryOperator::Lt => 9,
        BinaryOperator::GtEq => 9,
        BinaryOperator::LtEq => 9,
        BinaryOperator::Eq => 9,
        BinaryOperator::NotEq => 9,
        BinaryOperator::And => 12,
        BinaryOperator::Or => 13,
    }
}

/// The binding priority of an expression: `-1` for an expression that
/// never needs parentheses, nor do its operands; otherwise a lower number
/// binds tighter.
pub open spec fn priority<X>(e: SqlExpr<X>) -> int {
    match e {
        SqlExpr::Function { .. } => -1,
        SqlExpr::Nested(..) => -1,
        SqlExpr::Value(..) => -1,
        SqlExpr::Identifier(..) => -1,
        SqlExpr::AnyOp(..) => -1,
        SqlExpr::AllOp(..) => -1,
        SqlExpr::Extract { .. } => -1,
        SqlExpr::Position { .. } => -1,
        SqlExpr::Substring { .. } => -1,
        SqlExpr::Trim { .. } => -1,
        SqlExpr::TryCast { .. } => -1,
        SqlExpr::SafeCast { .. } => -1,
        SqlExpr::Subquery(..) => -1,
        SqlExpr::ListAgg { .. } => -1,
        SqlExpr::Tuple(..) => -1,
        SqlExpr::Array { .. } => -1,
        SqlExpr::Ceil { .. } => -1,
        SqlExpr::Floor { .. } => -1,
        SqlExpr::Overlay { .. } => -1,
        SqlExpr::ArrayAgg(..) => -1,
        SqlExpr::ArraySubquery(..) => -1,
        SqlExpr::MatchAgainst(..) => -1,
        SqlExpr::Case { .. } => -1,
        SqlExpr::GroupingSets(..) => -1,
        SqlExpr::Cube(..) => -1,
        SqlExpr::Rollup(..) => -1,
        SqlExpr::AggregateExpressionWithFilter { .. } => -1,
        SqlExpr::CompoundIdentifier(..) => 0,
        SqlExpr::CompositeAccess { .. } => 0,
        SqlExpr::Cast { .. } => 1,
        SqlExpr::ArrayIndex { .. } => 2,
        SqlExpr::MapAccess { .. } => 2,
        SqlExpr::UnaryOp { op, .. } => unary_priority(op),
        SqlExpr::BinaryOp { op, .. } => binary_priority(op),
        SqlExpr::Like { .. } => 8,
        SqlExpr::ILike { .. } => 8,
        SqlExpr::Between { .. } => 8,
        SqlExpr::InList { .. } => 8,
        SqlExpr::InSubquery { .. } => 8,
        SqlExpr::InUnnest { .. } => 8,
        SqlExpr::SimilarTo { .. } => 8,
        SqlExpr::IsFalse(..) => 10,
        SqlExpr::IsTrue(..) => 10,
        SqlExpr::IsNull(..) => 10,
        SqlExpr::IsNotNull(..) => 10,
        SqlExpr::IsDistinctFrom(..) => 10,
        SqlExpr::IsNotDistinctFrom(..) => 10,
        SqlExpr::IsNotFalse(..) => 10,
        SqlExpr::IsNotTrue(..) => 10,
        SqlExpr::IsUnknown(..) => 10,
        SqlExpr::IsNotUnknown(..) => 10,
        SqlExpr::Exists { negated, .. } => if negated { 11 } else { -1 },
        SqlExpr::JsonAccess { .. } => 7,
        SqlExpr::Collate { .. } => 7,
        SqlExpr::TypedString { .. } => 7,
        SqlExpr::AtTimeZone { .. } => 7,
        SqlExpr::IntroducedString { .. } => 7,
        SqlExpr::Interval { .. } => 7,
    }
}

/// An operand on the left of (or after) an operator of priority `parent`:
/// put in parentheses where it binds more loosely than the operator.
pub open spec fn nest_left<X>(e: SqlExpr<X>, parent: int) -> SqlExpr<X> {
    if priority(e) > parent {
        SqlExpr::Nested(Box::new(e))
    } else {
        e
    }
}

/// An operand on the right of (or after a prefix) operator of priority
/// `parent`: put in parentheses where it binds no tighter than the operator.
pub open spec fn nest_right<X>(e: SqlExpr<X>, parent: int) -> SqlExpr<X> {
    if priority(e) >= parent {
        SqlExpr::Nested(Box::new(e))
    } else {
        e
    }
}

/// The expression with parentheses added around those of its direct
/// operands that need them under its own priority.
pub open spec fn nested_children<X>(e: SqlExpr<X>) -> SqlExpr<X> {
    let p = priority(e);
    if p == -1 {
        e
    } else {
        match e {
            SqlExpr::CompositeAccess { expr, key } =>
                SqlExpr::CompositeAccess { expr: Box::new(nest_left(*expr, p)), key },
            SqlExpr::Cast { expr, data_type } =>
                SqlExpr::Cast { expr: Box::new(nest_left(*expr, p)), data_type },
            SqlExpr::ArrayIndex { obj, indexes } =>
                SqlExpr::ArrayIndex { obj: Box::new(nest_left(*obj, p)), indexes },
            SqlExpr::MapAccess { column, keys } =>
                SqlExpr::MapAccess { column: Box::new(nest_left(*column, p)), keys },
            SqlExpr::UnaryOp { op, expr } =>
                if (op is Not && (*expr is Exists)) || (op is Minus && (*expr matches SqlExpr::UnaryOp { op: op2, .. } && op2 is Minus)) {
                    SqlExpr::UnaryOp { op, expr: Box::new(SqlExpr::Nested(expr)) }
                } else {
                    SqlExpr::UnaryOp { op, expr: Box::new(nest_right(*expr, p)) }
                },
            SqlExpr::BinaryOp { left, op, right } =>
                SqlExpr::BinaryOp { left: Box::new(nest_left(*left, p)), op, right: Box::new(nest_right(*right, p)) },
            SqlExpr::Like { negated, expr, pattern, escape_char } =>
                SqlExpr::Like { negated, expr: Box::new(nest_left(*expr, p)), pattern: Box::new(nest_right(*pattern, p)), escape_char },
            SqlExpr::ILike { negated, expr, pattern, escape_char } =>
                SqlExpr::ILike { negated, expr: Box::new(nest_left(*expr, p)), pattern: Box::new(nest_right(*pattern, p)), escape_char },
            SqlExpr::Between { expr, negated, low, high } =>
                SqlExpr::Between { expr: Box::new(nest_left(*expr, p)), negated, low: Box::new(nest_right(*low, p)), high: Box::new(nest_right(*high, p)) },
            SqlExpr::InList { expr, list, negated } =>
                SqlExpr::InList { expr: Box::new(nest_left(*expr, p)), list, negated },
            SqlExpr::InSubquery { expr, subquery, negated } =>
                SqlExpr::InSubquery { expr: Box::new(nest_left(*expr, p)), subquery, negated },
            SqlExpr::InUnnest { expr, array_expr, negated } =>
                SqlExpr::InUnnest { expr: Box::new(nest_left(*expr, p)), array_expr, negated },
            SqlExpr::SimilarTo { negated, expr, pattern, escape_char } =>
                SqlExpr::SimilarTo { negated, expr: Box::new(nest_left(*expr, p)), pattern: Box::new(nest_right(*pattern, p)), escape_char },
            SqlExpr::IsFalse(expr) => SqlExpr::IsFalse(Box::new(nest_left(*expr, p))),
            SqlExpr::IsTrue(expr) => SqlExpr::IsTrue(Box::new(nest_left(*expr, p))),
            SqlExpr::IsNull(expr) => SqlExpr::IsNull(Box::new(nest_left(*expr, p))),
            SqlExpr::IsNotNull(expr) => SqlExpr::IsNotNull(Box::new(nest_left(*expr, p))),
            SqlExpr::IsDistinctFrom(a, b) =>
                SqlExpr::IsDistinctFrom(Box::new(nest_left(*a, p)), Box::new(nest_right(*b, p))),
            SqlExpr::IsNotDistinctFrom(a, b) =>
                SqlExpr::IsNotDistinctFrom(Box::new(nest_left(*a, p)), Box::new(nest_right(*b, p))),
            SqlExpr::IsNotFalse(expr) => SqlExpr::IsNotFalse(Box::new(nest_left(*expr, p))),
            SqlExpr::IsNotTrue(expr) => SqlExpr::IsNotTrue(Box::new(nest_left(*expr, p))),
            SqlExpr::IsUnknown(expr) => SqlExpr::IsUnknown(Box::new(nest_left(*expr, p))),
            SqlExpr::IsNotUnknown(expr) => SqlExpr::IsNotUnknown(Box::new(nest_left(*expr, p))),
            SqlExpr::JsonAccess { left, operator, right } =>
                SqlExpr::JsonAccess { left: Box::new(nest_left(*left, p)), operator, right: Box::new(nest_right(*right, p)) },
            SqlExpr::Collate { expr, collation } =>
                SqlExpr::Collate { expr: Box::new(nest_left(*expr, p)), collation },
            SqlExpr::AtTimeZone { timestamp, time_zone } =>
                SqlExpr::AtTimeZone { timestamp: Box::new(nest_left(*timestamp, p)), time_zone },
            SqlExpr::Interval { value, details } =>
                SqlExpr::Interval { value: Box::new(nest_left(*value, p)), details },
            other => other,
        }
    }
}

impl<X> SqlExpr<X> {
    /// The binding priority of this expression (see `priority`).
    pub fn get_priority(&self) -> (res: i32)
        ensures
            res == priority(*self),
            -1 <= res <= 13,
    {
        match self {
            SqlExpr::Function { .. } => -1,
            SqlExpr::Nested(..) => -1,
            SqlExpr::Value(..) => -1,
            SqlExpr::Identifier(..) => -1,
            SqlExpr::AnyOp(..) => -1,
            SqlExpr::AllOp(..) => -1,
            SqlExpr::Extract { .. } => -1,
            SqlExpr::Position { .. } => -1,
            SqlExpr::Substring { .. } => -1,
            SqlExpr::Trim { .. } => -1,
            SqlExpr::TryCast { .. } => -1,
            SqlExpr::SafeCast { .. } => -1,
            SqlExpr::Subquery(..) => -1,
            SqlExpr::ListAgg { .. } => -1,
            SqlExpr::Tuple(..) => -1,
            SqlExpr::Array { .. } => -1,
            SqlExpr::Ceil { .. } => -1,
            SqlExpr::Floor { .. } => -1,
            SqlExpr::Overlay { .. } => -1,
            SqlExpr::ArrayAgg(..) => -1,
            SqlExpr::ArraySubquery(..) => -1,
            SqlExpr::MatchAgainst(..) => -1,
            SqlExpr::Case { .. } => -1,
            SqlExpr::GroupingSets(..) => -1,
            SqlExpr::Cube(..) => -1,
            SqlExpr::Rollup(..) => -1,
            SqlExpr::AggregateExpressionWithFilter { .. } => -1,
            SqlExpr::CompoundIdentifier(..) => 0,
            SqlExpr::CompositeAccess { .. } => 0,
            SqlExpr::Cast { .. } => 1,
            SqlExpr::ArrayIndex { .. } => 2,
            SqlExpr::MapAccess { .. } => 2,
            SqlExpr::UnaryOp { op, .. } => {
                match op {
                    UnaryOperator::Plus => 3,
                    UnaryOperator::Minus => 3,
                    UnaryOperator::PGBitwiseNot => 7,
                    UnaryOperator::PGSquareRoot => 7,
                    UnaryOperator::PGCubeRoot => 7,
                    UnaryOperator::PGPostfixFactorial => 7,
                    UnaryOperator::PGPrefixFactorial => 7,
                    UnaryOperator::PGAbs => 7,
                    UnaryOperator::Not => 11,
                }
            },
            SqlExpr::BinaryOp { op, .. } => {
                match op {
                    BinaryOperator::PGExp => 4,
                    BinaryOperator::Multiply => 5,
                    BinaryOperator::Divide => 5,
                    BinaryOperator::Modulo => 5,
                    BinaryOperator::Plus => 6,
                    BinaryOperator::Minus => 6,
                    BinaryOperator::StringConcat => 7,
                    BinaryOperator::Spaceship => 7,
                    BinaryOperator::Xor => 7,
                    BinaryOperator::BitwiseOr => 7,
                    BinaryOperator::BitwiseAnd => 7,
                    BinaryOperator::BitwiseXor => 7,
                    BinaryOperator::PGBitwiseXor => 7,
                    BinaryOperator::PGBitwiseShiftLeft => 7,
                    BinaryOperator::PGBitwiseShiftRight => 7,
                    BinaryOperator::PGRegexMatch => 7,
                    BinaryOperator::PGRegexIMatch => 7,
                    BinaryOperator::PGRegexNotMatch => 7,
                    BinaryOperator::PGRegexNotIMatch => 7,
                    BinaryOperator::PGCustomBinaryOperator(..) => 7,
                    BinaryOperator::Gt => 9,
                    BinaryOperator::Lt => 9,
                    BinaryOperator::GtEq => 9,
                    BinaryOperator::LtEq => 9,
                    BinaryOperator::Eq => 9,
                    BinaryOperator::NotEq => 9,
                    BinaryOperator::And => 12,
                    BinaryOperator::Or => 13,
                }
            },
            SqlExpr::Like { .. } => 8,
            SqlExpr::ILike { .. } => 8,
            SqlExpr::Between { .. } => 8,
            SqlExpr::InList { .. } => 8,
            SqlExpr::InSubquery { .. } => 8,
            SqlExpr::InUnnest { .. } => 8,
            SqlExpr::SimilarTo { .. } => 8,
            SqlExpr::IsFalse(..) => 10,
            SqlExpr::IsTrue(..) => 10,
            SqlExpr::IsNull(..) => 10,
            SqlExpr::IsNotNull(..) => 10,
            SqlExpr::IsDistinctFrom(_, _) => 10,
            SqlExpr::IsNotDistinctFrom(_, _) => 10,
            SqlExpr::IsNotFalse(..) => 10,
            SqlExpr::IsNotTrue(..) => 10,
            SqlExpr::IsUnknown(..) => 10,
            SqlExpr::IsNotUnknown(..) => 10,
            SqlExpr::Exists { negated, .. } => if *negated { 11 } else { -1 },
            SqlExpr::JsonAccess { .. } => 7,
            SqlExpr::Collate { .. } => 7,
            SqlExpr::TypedString { .. } => 7,
            SqlExpr::AtTimeZone { .. } => 7,
            SqlExpr::IntroducedString { .. } => 7,
            SqlExpr::Interval { .. } => 7,
        }
    }

    /// Nests this expression, as a left operand of an operator of priority
    /// `parent_priority`, where it needs it.
    pub fn p_nest_l(self, parent_priority: i32) -> (res: SqlExpr<X>)
        ensures
            res == nest_left(self, parent_priority as int),
    {
        if self.get_priority() > parent_priority {
            SqlExpr::Nested(Box::new(self))
        } else {
            self
        }
    }

    /// Nests this expression, as a right operand of an operator of priority
    /// `parent_priority`, where it needs it.
    pub fn p_nest_r(self, parent_priority: i32) -> (res: SqlExpr<X>)
        ensures
            res == nest_right(self, parent_priority as int),
    {
        if self.get_priority() >= parent_priority {
            SqlExpr::Nested(Box::new(self))
        } else {
            self
        }
    }

    /// Adds parentheses around the direct operands that need them.
    pub fn nest_children_if_needed(self) -> (res: SqlExpr<X>)
        ensures
            res == nested_children(self),
    {
        let parent_priority = self.get_priority();
        if parent_priority == -1 {
            return self;
        }
        match self {
            SqlExpr::CompoundIdentifier(ident_vec) => SqlExpr::CompoundIdentifier(ident_vec),
            SqlExpr::CompositeAccess { expr, key } =>
                SqlExpr::CompositeAccess { expr: nest_box_l(expr, parent_priority), key },
            SqlExpr::Cast { expr, data_type } =>
                SqlExpr::Cast { expr: nest_box_l(expr, parent_priority), data_type },
            SqlExpr::ArrayIndex { obj, indexes } =>
                SqlExpr::ArrayIndex { obj: nest_box_l(obj, parent_priority), indexes },
            SqlExpr::MapAccess { column, keys } =>
                SqlExpr::MapAccess { column: nest_box_l(column, parent_priority), keys },
            SqlExpr::UnaryOp { op, expr } => {
                if let UnaryOperator::Not = op {
                    if let SqlExpr::Exists { .. } = &*expr {
                        // a NOT before EXISTS is otherwise read back as NOT EXISTS
                        return SqlExpr::UnaryOp { op, expr: Box::new(SqlExpr::Nested(expr)) };
                    }
                }
                if let UnaryOperator::Minus = op {
                    if let SqlExpr::UnaryOp { op: UnaryOperator::Minus, .. } = &*expr {
                        // `--` starts a comment in SQL
                        return SqlExpr::UnaryOp { op, expr: Box::new(SqlExpr::Nested(expr)) };
                    }
                }
                // a unary operator is a prefix one: its operand is on its right
                SqlExpr::UnaryOp { op, expr: nest_box_r(expr, parent_priority) }
            },
            SqlExpr::BinaryOp { left, op, right } => SqlExpr::BinaryOp {
                left: nest_box_l(left, parent_priority),
                op,
                right: nest_box_r(right, parent_priority),
            },
            SqlExpr::Like { negated, expr, pattern, escape_char } => SqlExpr::Like {
                negated,
                expr: nest_box_l(expr, parent_priority),
                pattern: nest_box_r(pattern, parent_priority),
                escape_char,
            },
            SqlExpr::ILike { negated, expr, pattern, escape_char } => SqlExpr::ILike {
                negated,
                expr: nest_box_l(expr, parent_priority),
                pattern: nest_box_r(pattern, parent_priority),
                escape_char,
            },
            SqlExpr::Between { expr, negated, low, high } => SqlExpr::Between {
                expr: nest_box_l(expr, parent_priority),
                negated,
                low: nest_box_r(low, parent_priority),
                high: nest_box_r(high, parent_priority),
            },
            SqlExpr::InList { expr, list, negated } =>
                SqlExpr::InList { expr: nest_box_l(expr, parent_priority), list, negated },
            SqlExpr::InSubquery { expr, subquery, negated } =>
                SqlExpr::InSubquery { expr: nest_box_l(expr, parent_priority), subquery, negated },
            SqlExpr::InUnnest { expr, array_expr, negated } =>
                SqlExpr::InUnnest { expr: nest_box_l(expr, parent_priority), array_expr, negated },
            SqlExpr::SimilarTo { negated, expr, pattern, escape_char } => SqlExpr::SimilarTo {
                negated,
                expr: nest_box_l(expr, parent_priority),
                pattern: nest_box_r(pattern, parent_priority),
                escape_char,
            },
            SqlExpr::IsFalse(expr) => SqlExpr::IsFalse(nest_box_l(expr, parent_priority)),
            SqlExpr::IsTrue(expr) => SqlExpr::IsTrue(nest_box_l(expr, parent_priority)),
            SqlExpr::IsNull(expr) => SqlExpr::IsNull(nest_box_l(expr, parent_priority)),
            SqlExpr::IsNotNull(expr) => SqlExpr::IsNotNull(nest_box_l(expr, parent_priority)),
            SqlExpr::IsDistinctFrom(expr1, expr2) => SqlExpr::IsDistinctFrom(
                nest_box_l(expr1, parent_priority),
                nest_box_r(expr2, parent_priority),
            ),
            SqlExpr::IsNotDistinctFrom(expr1, expr2) => SqlExpr::IsNotDistinctFrom(
                nest_box_l(expr1, parent_priority),
                nest_box_r(expr2, parent_priority),
            ),
            SqlExpr::IsNotFalse(expr) => SqlExpr::IsNotFalse(nest_box_l(expr, parent_priority)),
            SqlExpr::IsNotTrue(expr) => SqlExpr::IsNotTrue(nest_box_l(expr, parent_priority)),
            SqlExpr::IsUnknown(expr) => SqlExpr::IsUnknown(nest_box_l(expr, parent_priority)),
            SqlExpr::IsNotUnknown(expr) => SqlExpr::IsNotUnknown(nest_box_l(expr, parent_priority)),
            SqlExpr::JsonAccess { left, operator, right } => SqlExpr::JsonAccess {
                left: nest_box_l(left, parent_priority),
                operator,
                right: nest_box_r(right, parent_priority),
            },
            SqlExpr::Collate { expr, collation } =>
                SqlExpr::Collate { expr: nest_box_l(expr, parent_priority), collation },
            SqlExpr::TypedString { data_type, value } => SqlExpr::TypedString { data_type, value },
            SqlExpr::AtTimeZone { timestamp, time_zone } =>
                SqlExpr::AtTimeZone { timestamp: nest_box_l(timestamp, parent_priority), time_zone },
            SqlExpr::IntroducedString { introducer, value } =>
                SqlExpr::IntroducedString { introducer, value },
            SqlExpr::Interval { value, details } =>
                SqlExpr::Interval { value: nest_box_l(value, parent_priority), details },
            any => any,
        }
    }
}

/// `p_nest_l` on a boxed operand.
fn nest_box_l<X>(e: Box<SqlExpr<X>>, parent_priority: i32) -> (res: Box<SqlExpr<X>>)
    ensures
        *res == nest_left(*e, parent_priority as int),
{
    Box::new((*e).p_nest_l(parent_priority))
}

/// `p_nest_r` on a boxed operand.
fn nest_box_r<X>(e: Box<SqlExpr<X>>, parent_priority: i32) -> (res: Box<SqlExpr<X>>)
    ensures
        *res == nest_right(*e, parent_priority as int),
{
    Box::new((*e).p_nest_r(parent_priority))
}

/// Whether `op` multiplies, divides or takes a remainder.
pub open spec fn is_multiplicative(op: BinaryOperator) -> bool {
    op is Multiply || op is Divide || op is Modulo
}

/// Whether `op` adds or subtracts.
pub open spec fn is_additive(op: BinaryOperator) -> bool {
    op is Plus || op is Minus
}

/// Whether `op` compares two values.
pub open spec fn is_comparison(op: BinaryOperator) -> bool {
    op is Eq || op is NotEq || op is Lt || op is Gt || op is LtEq || op is GtEq
}

/// The order of SQL operator precedence (a smaller priority binds more
/// tightly): a sign binds tighter than exponentiation, which binds tighter
/// than multiplication, division and remainder (all alike), which bind
/// tighter than addition and subtraction (alike), then the other operators
/// (string concatenation, bitwise and regex operators, all alike), then
/// `LIKE`/`BETWEEN`/`IN`, then the comparisons (all alike), then the `IS`
/// tests, then `NOT`, then `AND`, and `OR` binds loosest of all.
pub proof fn lemma_operator_precedence_order(a: BinaryOperator, b: BinaryOperator)
    ensures
        is_multiplicative(a) && is_multiplicative(b) ==> binary_priority(a) == binary_priority(b),
        is_additive(a) && is_additive(b) ==> binary_priority(a) == binary_priority(b),
        is_comparison(a) && is_comparison(b) ==> binary_priority(a) == binary_priority(b),
        unary_priority(UnaryOperator::Minus) == unary_priority(UnaryOperator::Plus),
        unary_priority(UnaryOperator::Minus) < binary_priority(BinaryOperator::PGExp),
        is_multiplicative(a) ==> binary_priority(BinaryOperator::PGExp) < binary_priority(a),
        is_multiplicative(a) && is_additive(b) ==> binary_priority(a) < binary_priority(b),
        is_additive(a) ==> binary_priority(a) < binary_priority(BinaryOperator::StringConcat),
        binary_priority(BinaryOperator::StringConcat) == binary_priority(BinaryOperator::BitwiseAnd),
        binary_priority(BinaryOperator::StringConcat) == binary_priority(BinaryOperator::PGRegexMatch),
        is_comparison(a) ==> binary_priority(BinaryOperator::StringConcat) < binary_priority(a),
        is_comparison(a) ==> binary_priority(a) < unary_priority(UnaryOperator::Not),
        unary_priority(UnaryOperator::Not) < binary_priority(BinaryOperator::And),
        binary_priority(BinaryOperator::And) < binary_priority(BinaryOperator::Or),
{
}

/// Where the other kinds of expression stand in that order: identifiers,
/// literals, calls, parentheses and subqueries never need parentheses
/// (priority `-1`); then qualified names, then casts, then indexing (alike
/// for arrays and maps), all tighter than a sign; `LIKE`, `ILIKE`,
/// `SIMILAR TO`, `BETWEEN` and `IN` are alike, looser than the bitwise and
/// string operators and tighter than the comparisons; the `IS` tests are
/// alike, looser than the comparisons and tighter than `NOT`.
pub proof fn lemma_expression_priorities<X>(x: SqlExpr<X>, y: SqlExpr<X>, i: Ident, v: X, name: Vec<Ident>, list: Vec<SqlExpr<X>>, q: SqlQuery<X>, negated: bool)
    ensures
        priority(SqlExpr::<X>::Identifier(i)) == -1,
        priority(SqlExpr::Value(v)) == -1,
        priority(SqlExpr::Function { name, call: v }) == -1,
        priority(SqlExpr::Nested(Box::new(x))) == -1,
        priority(SqlExpr::Subquery(Box::new(q))) == -1,
        priority(SqlExpr::<X>::CompoundIdentifier(name)) == 0,
        priority(SqlExpr::Cast { expr: Box::new(x), data_type: v }) == 1,
        priority(SqlExpr::ArrayIndex { obj: Box::new(x), indexes: list }) == 2,
        priority(SqlExpr::MapAccess { column: Box::new(x), keys: list }) == 2,
        2 < unary_priority(UnaryOperator::Minus),
        priority(SqlExpr::Like { negated, expr: Box::new(x), pattern: Box::new(y), escape_char: None })
            == priority(SqlExpr::Between { expr: Box::new(x), negated, low: Box::new(y), high: Box::new(y) }),
        priority(SqlExpr::ILike { negated, expr: Box::new(x), pattern: Box::new(y), escape_char: None })
            == priority(SqlExpr::InList { expr: Box::new(x), list, negated }),
        priority(SqlExpr::SimilarTo { negated, expr: Box::new(x), pattern: Box::new(y), escape_char: None })
            == priority(SqlExpr::InSubquery { expr: Box::new(x), subquery: Box::new(q), negated }),
        binary_priority(BinaryOperator::StringConcat) < priority(SqlExpr::InList { expr: Box::new(x), list, negated }),
        priority(SqlExpr::InList { expr: Box::new(x), list, negated }) < binary_priority(BinaryOperator::Eq),
        priority(SqlExpr::IsNull(Box::new(x))) == priority(SqlExpr::IsNotNull(Box::new(x))),
        priority(SqlExpr::IsNull(Box::new(x))) == priority(SqlExpr::IsDistinctFrom(Box::new(x), Box::new(y))),
        priority(SqlExpr::IsTrue(Box::new(x))) == priority(SqlExpr::IsNotFalse(Box::new(x))),
        binary_priority(BinaryOperator::Eq) < priority(SqlExpr::IsNull(Box::new(x))),
        priority(SqlExpr::IsNull(Box::new(x))) < unary_priority(UnaryOperator::Not),
{
}

/// The binary operation `l op r`.
pub open spec fn binop<X>(l: SqlExpr<X>, op: BinaryOperator, r: SqlExpr<X>) -> SqlExpr<X> {
    SqlExpr::BinaryOp { left: Box::new(l), op, right: Box::new(r) }
}

/// `e` in parentheses.
pub open spec fn paren<X>(e: SqlExpr<X>) -> SqlExpr<X> {
    SqlExpr::Nested(Box::new(e))
}

/// The operands of a binary operation are put in parentheses exactly where
/// precedence calls for it: the left one where it binds more loosely than
/// the operator, the right one where it binds no more tightly.
pub proof fn lemma_binary_operands_nesting<X>(l: SqlExpr<X>, op: BinaryOperator, r: SqlExpr<X>)
    ensures
        nested_children(binop(l, op, r)) == binop(
            if priority(l) > binary_priority(op) { paren(l) } else { l },
            op,
            if priority(r) >= binary_priority(op) { paren(r) } else { r },
        ),
{
}

/// A sum or difference under a product, quotient or remainder is put in
/// parentheses, on either side (`(a + b) / c`, `c * (a - b)`); a product
/// under a sum is not (`a * b + c`).
pub proof fn lemma_arithmetic_nesting<X>(a: SqlExpr<X>, b: SqlExpr<X>, c: SqlExpr<X>, add: BinaryOperator, mul: BinaryOperator)
    requires
        is_additive(add),
        is_multiplicative(mul),
    ensures
        nested_children(binop(binop(a, add, b), mul, c))->BinaryOp_left == Box::new(paren(binop(a, add, b))),
        nested_children(binop(c, mul, binop(a, add, b)))->BinaryOp_right == Box::new(paren(binop(a, add, b))),
        nested_children(binop(binop(a, mul, b), add, c))->BinaryOp_left == Box::new(binop(a, mul, b)),
{
}

/// The right operand of a subtraction that is itself a subtraction is put
/// in parentheses (`a - (b - c)`); `OR` under `AND` is (`(a OR b) AND c`),
/// `AND` under `OR` is not (`a AND b OR c`).
pub proof fn lemma_logic_nesting<X>(a: SqlExpr<X>, b: SqlExpr<X>, c: SqlExpr<X>)
    ensures
        nested_children(binop(a, BinaryOperator::Minus, binop(b, BinaryOperator::Minus, c)))->BinaryOp_right
            == Box::new(paren(binop(b, BinaryOperator::Minus, c))),
        nested_children(binop(binop(a, BinaryOperator::Or, b), BinaryOperator::And, c))->BinaryOp_left
            == Box::new(paren(binop(a, BinaryOperator::Or, b))),
        nested_children(binop(binop(a, BinaryOperator::And, b), BinaryOperator::Or, c))->BinaryOp_left
            == Box::new(binop(a, BinaryOperator::And, b)),
{
}

/// Priorities lie between `-1` (binds tightest, never nested) and `13`
/// (`OR`). They depend on the kind of expression alone, and for an
/// operator on the operator alone, never on the operands: a negated
/// `EXISTS` has the priority of `NOT`, and a plain `EXISTS` never needs
/// parentheses.
pub proof fn lemma_priority_range<X>(e: SqlExpr<X>)
    ensures
        -1 <= priority(e) <= 13,
        e matches SqlExpr::BinaryOp { op, .. } ==> priority(e) == binary_priority(op),
        e matches SqlExpr::UnaryOp { op, .. } ==> priority(e) == unary_priority(op),
        e matches SqlExpr::Exists { negated, .. } ==> priority(e) == (if negated {
            unary_priority(UnaryOperator::Not)
        } else {
            -1
        }),
{
}

/// Two operations with the same operator have the same priority, whatever
/// their operands.
pub proof fn lemma_priority_ignores_operands<X>(op: BinaryOperator, l1: SqlExpr<X>, r1: SqlExpr<X>, l2: SqlExpr<X>, r2: SqlExpr<X>)
    ensures
        priority(SqlExpr::BinaryOp { left: Box::new(l1), op, right: Box::new(r1) })
            == priority(SqlExpr::BinaryOp { left: Box::new(l2), op, right: Box::new(r2) }),
{
}

/// A left operand, after `p_nest_l` under an operator of priority
/// `parent` (at least `-1`), binds at least as tightly as the operator.
pub proof fn lemma_nest_left_binds_tighter<X>(e: SqlExpr<X>, parent: int)
    requires
        parent >= -1,
    ensures
        priority(nest_left(e, parent)) <= parent,
{
}

/// A right operand, after `p_nest_r` under an operator of priority
/// `parent` (at least `0`), binds strictly more tightly than the operator.
pub proof fn lemma_nest_right_binds_tighter<X>(e: SqlExpr<X>, parent: int)
    requires
        parent >= 0,
    ensures
        priority(nest_right(e, parent)) < parent,
{
}

/// Adding parentheses to the operands keeps the expression's own priority.
pub proof fn lemma_nesting_keeps_priority<X>(e: SqlExpr<X>)
    ensures
        priority(nested_children(e)) == priority(e),
{
}

/// Adding parentheses to the operands twice adds nothing the second time.
pub proof fn lemma_nesting_idempotent<X>(e: SqlExpr<X>)
    ensures
        nested_children(nested_children(e)) == nested_children(e),
{
}

/// Parentheses do not change what the WHERE check gives.
pub proof fn lemma_nesting_keeps_check<X>(e: SqlExpr<X>)
    ensures
        expr_check_outcome(nested_children(e)) == expr_check_outcome(e),
{
    assert forall|c: SqlExpr<X>, p: int|
        #![trigger nest_left(c, p)]
        expr_check_outcome(nest_left(c, p)) == expr_check_outcome(c) by {
        reveal_with_fuel(expr_check_outcome, 2);
    }
    assert forall|c: SqlExpr<X>, p: int|
        #![trigger nest_right(c, p)]
        expr_check_outcome(nest_right(c, p)) == expr_check_outcome(c) by {
        reveal_with_fuel(expr_check_outcome, 2);
    }
    if let SqlExpr::UnaryOp { op, expr } = e {
        assert(expr_check_outcome(SqlExpr::<X>::Nested(expr)) == expr_check_outcome(*expr));
    }
}

} // verus!
