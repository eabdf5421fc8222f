//! A model of the SQL syntax tree, holding as plain values what the
//! checks and the precedence rules of this crate read.
//!
//! Every node that carries data which no rule of this crate reads keeps it
//! in a payload of the caller's type `X` (a data type, a literal value,
//! the rest of a function call, ...), so that a tree can be rebuilt after
//! a transformation.

use vstd::prelude::*;

verus! {

/// An identifier, e.g. a table or a column name, with its opening quote.
#[derive(Debug, PartialEq)]
pub struct Ident {
    pub value: String,
    pub quote_style: Option<char>,
}

/// Unary operators.
#[derive(Debug, PartialEq)]
pub enum UnaryOperator {
    Plus,
    Minus,
    Not,
    PGBitwiseNot,
    PGSquareRoot,
    PGCubeRoot,
    PGPostfixFactorial,
    PGPrefixFactorial,
    PGAbs,
}

/// Binary operators.
#[derive(Debug, PartialEq)]
pub enum BinaryOperator {
    Plus,
    Minus,
    Multiply,
    Divide,
    Modulo,
    StringConcat,
    Gt,
    Lt,
    GtEq,
    LtEq,
    Spaceship,
    Eq,
    NotEq,
    And,
    Or,
    Xor,
    BitwiseOr,
    BitwiseAnd,
    BitwiseXor,
    PGBitwiseXor,
    PGBitwiseShiftLeft,
    PGBitwiseShiftRight,
    PGExp,
    PGRegexMatch,
    PGRegexIMatch,
    PGRegexNotMatch,
    PGRegexNotIMatch,
    PGCustomBinaryOperator(Vec<String>),
}

/// A SQL expression.
#[verifier::reject_recursive_types(X)]
#[allow(inconsistent_fields)]
#[derive(Debug, PartialEq)]
pub enum SqlExpr<X> {
    Identifier(Ident),
    CompoundIdentifier(Vec<Ident>),
    JsonAccess { left: Box<SqlExpr<X>>, operator: X, right: Box<SqlExpr<X>> },
    CompositeAccess { expr: Box<SqlExpr<X>>, key: Ident },
    IsFalse(Box<SqlExpr<X>>),
    IsNotFalse(Box<SqlExpr<X>>),
    IsTrue(Box<SqlExpr<X>>),
    IsNotTrue(Box<SqlExpr<X>>),
    IsNull(Box<SqlExpr<X>>),
    IsNotNull(Box<SqlExpr<X>>),
    IsUnknown(Box<SqlExpr<X>>),
    IsNotUnknown(Box<SqlExpr<X>>),
    IsDistinctFrom(Box<SqlExpr<X>>, Box<SqlExpr<X>>),
    IsNotDistinctFrom(Box<SqlExpr<X>>, Box<SqlExpr<X>>),
    InList { expr: Box<SqlExpr<X>>, list: Vec<SqlExpr<X>>, negated: bool },
    InSubquery { expr: Box<SqlExpr<X>>, subquery: Box<SqlQuery<X>>, negated: bool },
    InUnnest { expr: Box<SqlExpr<X>>, array_expr: Box<SqlExpr<X>>, negated: bool },
    Between { expr: Box<SqlExpr<X>>, negated: bool, low: Box<SqlExpr<X>>, high: Box<SqlExpr<X>> },
    BinaryOp { left: Box<SqlExpr<X>>, op: BinaryOperator, right: Box<SqlExpr<X>> },
    Like { negated: bool, expr: Box<SqlExpr<X>>, pattern: Box<SqlExpr<X>>, escape_char: Option<char> },
    ILike { negated: bool, expr: Box<SqlExpr<X>>, pattern: Box<SqlExpr<X>>, escape_char: Option<char> },
    SimilarTo { negated: bool, expr: Box<SqlExpr<X>>, pattern: Box<SqlExpr<X>>, escape_char: Option<char> },
    AnyOp(Box<SqlExpr<X>>),
    AllOp(Box<SqlExpr<X>>),
    UnaryOp { op: UnaryOperator, expr: Box<SqlExpr<X>> },
    Cast { expr: Box<SqlExpr<X>>, data_type: X },
    TryCast { expr: Box<SqlExpr<X>>, data_type: X },
    SafeCast { expr: Box<SqlExpr<X>>, data_type: X },
    AtTimeZone { timestamp: Box<SqlExpr<X>>, time_zone: String },
    Extract { field: X, expr: Box<SqlExpr<X>> },
    Ceil { expr: Box<SqlExpr<X>>, field: X },
    Floor { expr: Box<SqlExpr<X>>, field: X },
    /// `POSITION(<expr> IN <in_expr>)`
    Position { expr: Box<SqlExpr<X>>, in_expr: Box<SqlExpr<X>> },
    Substring {
        expr: Box<SqlExpr<X>>,
        substring_from: Option<Box<SqlExpr<X>>>,
        substring_for: Option<Box<SqlExpr<X>>>,
    },
    Trim { expr: Box<SqlExpr<X>>, trim_where: X, trim_what: Option<Box<SqlExpr<X>>> },
    Overlay {
        expr: Box<SqlExpr<X>>,
        overlay_what: Box<SqlExpr<X>>,
        overlay_from: Box<SqlExpr<X>>,
        overlay_for: Option<Box<SqlExpr<X>>>,
    },
    Collate { expr: Box<SqlExpr<X>>, collation: X },
    Nested(Box<SqlExpr<X>>),
    Value(X),
    IntroducedString { introducer: String, value: X },
    TypedString { data_type: X, value: String },
    MapAccess { column: Box<SqlExpr<X>>, keys: Vec<SqlExpr<X>> },
    /// A function call: its name, and the rest of the call (arguments,
    /// window, ...) as a payload.
    Function { name: Vec<Ident>, call: X },
    AggregateExpressionWithFilter { expr: Box<SqlExpr<X>>, filter: Box<SqlExpr<X>> },
    Case {
        operand: Option<Box<SqlExpr<X>>>,
        conditions: Vec<SqlExpr<X>>,
        results: Vec<SqlExpr<X>>,
        else_result: Option<Box<SqlExpr<X>>>,
    },
    Exists { subquery: Box<SqlQuery<X>>, negated: bool },
    Subquery(Box<SqlQuery<X>>),
    ArraySubquery(Box<SqlQuery<X>>),
    ListAgg { expr: Box<SqlExpr<X>>, separator: Option<Box<SqlExpr<X>>>, details: X },
    ArrayAgg(X),
    GroupingSets(Vec<Vec<SqlExpr<X>>>),
    Cube(Vec<Vec<SqlExpr<X>>>),
    Rollup(Vec<Vec<SqlExpr<X>>>),
    Tuple(Vec<SqlExpr<X>>),
    ArrayIndex { obj: Box<SqlExpr<X>>, indexes: Vec<SqlExpr<X>> },
    Array { elem: Vec<SqlExpr<X>>, named: bool },
    Interval { value: Box<SqlExpr<X>>, details: X },
    MatchAgainst(X),
}

/// A query: its body, its LIMIT, and the rest (WITH, ORDER BY, ...).
#[verifier::reject_recursive_types(X)]
#[derive(Debug, PartialEq)]
pub struct SqlQuery<X> {
    pub body: SetExpr<X>,
    pub limit: Option<SqlExpr<X>>,
    pub details: X,
}

/// The body of a query: a SELECT, or another set expression.
#[verifier::reject_recursive_types(X)]
#[derive(Debug, PartialEq)]
pub enum SetExpr<X> {
    Select(Box<Select<X>>),
    Other(X),
}

/// A SELECT: what the rules of this crate read of it, and the rest.
#[verifier::reject_recursive_types(X)]
#[derive(Debug, PartialEq)]
pub struct Select<X> {
    pub distinct: bool,
    pub projection: Vec<SelectItem<X>>,
    pub from: Vec<TableWithJoins<X>>,
    pub selection: Option<SqlExpr<X>>,
    pub details: X,
}

/// One item of a SELECT list.
#[verifier::reject_recursive_types(X)]
#[derive(Debug, PartialEq)]
pub enum SelectItem<X> {
    UnnamedExpr(SqlExpr<X>),
    ExprWithAlias { expr: SqlExpr<X>, alias: Ident },
    QualifiedWildcard(Vec<Ident>, X),
    Wildcard(X),
}

/// One relation of a FROM clause, with its joins kept in the payload.
#[verifier::reject_recursive_types(X)]
#[derive(Debug, PartialEq)]
pub struct TableWithJoins<X> {
    pub relation: TableFactor<X>,
    pub joins: X,
}

/// A relation in a FROM clause.
#[verifier::reject_recursive_types(X)]
#[derive(Debug, PartialEq)]
pub enum TableFactor<X> {
    Table { name: Vec<Ident>, details: X },
    Derived { subquery: Box<SqlQuery<X>>, details: X },
    Other(X),
}

} // verus!
