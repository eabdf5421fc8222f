//! Building blocks of a SQL query generator and equivalence checker:
//! a model of the SQL syntax tree, the nullability check of WHERE clauses,
//! operator precedence and parenthesisation, the reader of the Markov-chain
//! graph description (a DOT dialect), the substitute probability models and
//! the value choosers that replay a recorded path.

pub mod sql_ast;
pub mod text;
pub mod equivalence_testing_function;
pub mod expr_precedence;
pub mod dot_lexer;
pub mod dot_parser;
pub mod substitute_models;
pub mod value_choosers;
pub mod ast_to_path;
