use equivalence_testing::ast_to_path::{ConvertionError, PathGenerator, SQLTrainer, TrainingConfig};
use equivalence_testing::sql_ast::{Ident, Select, SelectItem, SetExpr, SqlExpr, SqlQuery, TableFactor, TableWithJoins};

fn s(x: &str) -> String {
    x.to_string()
}

fn table(name: &str) -> TableWithJoins<()> {
    TableWithJoins { relation: TableFactor::Table { name: vec![Ident { value: s(name), quote_style: None }], details: () }, joins: () }
}

fn select(from: Vec<TableWithJoins<()>>, projection: Vec<SelectItem<()>>, selection: Option<SqlExpr<()>>, distinct: bool) -> SqlQuery<()> {
    SqlQuery {
        body: SetExpr::Select(Box::new(Select { distinct, projection, from, selection, details: () })),
        limit: None,
        details: (),
    }
}

fn strings(v: &[&str]) -> Vec<String> {
    v.iter().map(|x| s(x)).collect()
}

#[test]
fn path_of_a_wildcard_query() {
    let q = select(vec![table("t")], vec![SelectItem::Wildcard(())], None, true);
    let mut g = PathGenerator::new(vec![]);
    assert_eq!(
        g.get_query_path(&q).unwrap().ok().unwrap(),
        strings(&[
            "Query", "single_value_false", "FROM", "Table", "FROM_multiple_relations", "EXIT_FROM", "EXIT_WHERE",
            "SELECT", "SELECT_DISTINCT", "SELECT_distinct_end", "SELECT_projection", "SELECT_list", "SELECT_wildcard",
            "EXIT_SELECT", "EXIT_Query",
        ])
    );
}

#[test]
fn path_of_a_query_with_a_subquery() {
    let inner = select(vec![table("u")], vec![SelectItem::Wildcard(())], None, false);
    let q = select(
        vec![TableWithJoins { relation: TableFactor::Derived { subquery: Box::new(inner), details: () }, joins: () }],
        vec![SelectItem::QualifiedWildcard(vec![], ()), SelectItem::Wildcard(())],
        None,
        false,
    );
    let mut g = PathGenerator::new(strings(&["single row"]));
    assert_eq!(
        g.get_query_path(&q).unwrap().ok().unwrap(),
        strings(&[
            "Query", "single_value_false", "FROM", "call0_Query",
            "Query", "single_value_true", "FROM", "Table", "FROM_multiple_relations", "EXIT_FROM", "EXIT_WHERE",
            "SELECT", "SELECT_distinct_end", "SELECT_projection", "SELECT_list", "SELECT_wildcard", "EXIT_SELECT",
            "EXIT_Query",
            "FROM_multiple_relations", "EXIT_FROM", "EXIT_WHERE", "SELECT", "SELECT_distinct_end",
            "SELECT_projection", "SELECT_list", "SELECT_qualified_wildcard", "SELECT_list",
            "SELECT_list_multiple_values", "SELECT_wildcard", "EXIT_SELECT", "EXIT_Query",
        ])
    );
}

#[test]
fn type_subgraph_is_not_supported() {
    let q = select(vec![table("t")], vec![SelectItem::Wildcard(())], Some(SqlExpr::Value(())), false);
    let mut g = PathGenerator::new(vec![]);
    let err = g.get_query_path(&q).unwrap().err().unwrap();
    assert_eq!(err.message(), s("AST to path convertion error: subgraph def_types not yet implemented"));
    let q = select(vec![table("t")], vec![SelectItem::UnnamedExpr(SqlExpr::Value(()))], None, false);
    assert!(PathGenerator::new(vec![]).get_query_path(&q).unwrap().is_err());
}

#[test]
fn trainer_stops_at_the_first_error() {
    let good = select(vec![table("t")], vec![SelectItem::Wildcard(())], None, false);
    let bad = select(vec![table("t")], vec![SelectItem::Wildcard(())], Some(SqlExpr::Value(())), false);
    let mut trainer = SQLTrainer::new(vec![good], vec![]);
    assert_eq!(trainer.train().unwrap().ok().unwrap().len(), 1);
    let good = select(vec![table("t")], vec![SelectItem::Wildcard(())], None, false);
    let mut trainer = SQLTrainer::new(vec![good, bad], vec![]);
    assert!(trainer.train().unwrap().is_err());
    // a second training, with the states left over, stops on the same error
    let err = trainer.train().unwrap().err().unwrap();
    assert_eq!(err.message(), s("AST to path convertion error: subgraph def_types not yet implemented"));
}

#[test]
fn convertion_error_message() {
    assert_eq!(ConvertionError::new(s("x")).message(), s("AST to path convertion error: x"));
    let c = TrainingConfig::new(s("a.sql"), s("b.sql"));
    assert_eq!(c.training_db_path, s("a.sql"));
}

#[test]
fn queries_that_are_not_selects_have_no_path() {
    let q: SqlQuery<()> = SqlQuery { body: SetExpr::Other(()), limit: None, details: () };
    assert!(PathGenerator::new(vec![]).get_query_path(&q).is_none());
    // a LIMIT stops the reading before the body is looked at
    let q: SqlQuery<()> = SqlQuery { body: SetExpr::Other(()), limit: Some(SqlExpr::Value(())), details: () };
    assert!(PathGenerator::new(vec![]).get_query_path(&q).unwrap().is_err());
}

#[test]
fn training_config_from_toml() {
    let v: toml::Value = "[training]\ntraining_db_path = \"db.sql\"\ntraining_schema = \"schema.sql\"\n".parse().unwrap();
    let c = TrainingConfig::from_toml(&v).unwrap();
    assert_eq!(c, TrainingConfig::new(s("db.sql"), s("schema.sql")));
    let missing: toml::Value = "[training]\ntraining_db_path = \"db.sql\"\n".parse().unwrap();
    assert!(TrainingConfig::from_toml(&missing).is_none());
    let not_a_string: toml::Value = "[training]\ntraining_db_path = 1\ntraining_schema = \"s\"\n".parse().unwrap();
    assert!(TrainingConfig::from_toml(&not_a_string).is_none());
    let no_section: toml::Value = "x = 1\n".parse().unwrap();
    assert!(TrainingConfig::from_toml(&no_section).is_none());
}
