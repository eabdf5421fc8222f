use equivalence_testing::sql_ast::Ident;
use equivalence_testing::substitute_models::{
    AntiCallModel, DeterministicModel, MarkovModel, PathModel, QueryStats, StateGenerationError,
};
use equivalence_testing::value_choosers::{
    decimal_string, DeterministicValueChooser, PathNode, QueryValueChooser, RandomValueChooser,
};
use rand::{Rng, SeedableRng};

fn s(x: &str) -> String {
    x.to_string()
}

fn id(x: &str) -> Ident {
    Ident { value: s(x), quote_style: None }
}

#[test]
fn markov_model_keeps_everything() {
    let mut m = MarkovModel::new();
    assert_eq!(m.trasform_log_probabilities(vec![1, 2, 3]), Ok(vec![1, 2, 3]));
}

#[test]
fn path_model_replays_states() {
    let path = vec![PathNode::State(s("Query")), PathNode::IntegerValue(s("3")), PathNode::State(s("FROM"))];
    let mut m = PathModel::from_path_nodes(&path);
    assert!(!m.is_exhausted());
    assert_eq!(m.trasform_log_probabilities(&vec![s("WHERE"), s("Query")]), Ok(vec![false, true]));
    assert_eq!(
        m.trasform_log_probabilities(&vec![s("WHERE")]),
        Err(StateGenerationError::NodeNotFound { node_name: s("FROM"), outgoing: vec![s("WHERE")] })
    );
    assert!(m.is_exhausted());
    assert!(PathModel::new().is_exhausted());
}

#[test]
fn deterministic_model_goes_to_the_chosen_state() {
    let mut m = DeterministicModel::new();
    assert!(!m.has_state());
    m.set_state(s("b"));
    assert!(m.has_state());
    assert_eq!(m.trasform_log_probabilities(&vec![s("a"), s("b"), s("b")]), Ok(vec![false, true, true]));
    m.set_state(s("c"));
    assert!(m.trasform_log_probabilities(&vec![s("a")]).is_err());
}

#[test]
fn anti_call_model_penalises_calls_on_long_stacks() {
    let mut m = AntiCallModel::new();
    assert_eq!(m.trasform_log_probabilities(&vec![0, 2, 5]), vec![0, 0, 0]);
    m.notify_call_stack_length(10);
    assert_eq!(m.trasform_log_probabilities(&vec![0, 2, 5]), vec![0, 0, 0]);
    m.notify_call_stack_length(11);
    assert_eq!(m.trasform_log_probabilities(&vec![0, 2, 5]), vec![0, 200, 500]);
}

#[test]
fn anti_call_model_statistics() {
    let stats = QueryStats::new();
    assert_eq!(stats, QueryStats { current_nest_level: 0, current_state_num: 0, current_stack_length: 0 });
    let mut m = AntiCallModel::new();
    m.notify_subquery_creation_begin();
    m.notify_subquery_creation_begin();
    m.update_current_state(&s("x"));
    assert_eq!(m.stats.current_nest_level, 2);
    m.notify_subquery_creation_end();
    assert_eq!(m.stats, QueryStats { current_nest_level: 1, current_state_num: 1, current_stack_length: 0 });
}

#[test]
fn deterministic_value_chooser_replays_each_kind_in_order() {
    let path = vec![
        PathNode::IntegerValue(s("1")),
        PathNode::State(s("x")),
        PathNode::NumericValue(s("2.5")),
        PathNode::IntegerValue(s("7")),
        PathNode::SelectedTableName(vec![id("t")]),
        PathNode::SelectedColumnName(vec![id("t"), id("c")]),
        PathNode::QualifiedWildcardSelectedRelation(id("r")),
    ];
    let mut c = DeterministicValueChooser::from_path_nodes(&path);
    assert_eq!(c.choose_integer(), s("1"));
    assert_eq!(c.choose_numeric(), s("2.5"));
    assert_eq!(c.choose_integer(), s("7"));
    assert_eq!(c.choose_table(), vec![id("t")]);
    assert_eq!(c.choose_column(true), vec![id("t"), id("c")]);
    assert_eq!(c.choose_qualified_wildcard_relation(), id("r"));
}

#[test]
fn random_value_chooser_draws_small_integers() {
    let mut c = RandomValueChooser::new();
    for _ in 0..50 {
        let v: u32 = c.choose_integer().parse().unwrap();
        assert!(v <= 10);
    }
}

#[test]
fn model_error_message() {
    let e = StateGenerationError::NodeNotFound { node_name: s("FROM"), outgoing: vec![s("a"), s("b")] };
    assert_eq!(e.message(), s("Did not find FROM among [\"a\", \"b\"]"));
    let e = StateGenerationError::NodeNotFound { node_name: s("x"), outgoing: vec![] };
    assert_eq!(e.message(), s("Did not find x among []"));
}

#[test]
fn random_value_chooser_follows_the_generator_seeded_with_one() {
    let mut c = RandomValueChooser::new();
    let mut rng = rand_chacha::ChaCha8Rng::seed_from_u64(1);
    for _ in 0..50 {
        let expected: i32 = rng.gen_range(0..=10);
        assert_eq!(c.choose_integer(), expected.to_string());
    }
}

#[test]
fn decimal_strings() {
    assert_eq!(decimal_string(0), "0");
    assert_eq!(decimal_string(7), "7");
    assert_eq!(decimal_string(10), "10");
    assert_eq!(decimal_string(1203), "1203");
    assert_eq!(decimal_string(u64::MAX), u64::MAX.to_string());
}

fn two_integers<C: QueryValueChooser>(c: &mut C) -> (String, String) {
    let a = c.choose_integer();
    let b = c.choose_integer();
    (a, b)
}

#[test]
fn choosers_share_the_value_chooser_trait() {
    let path = vec![PathNode::IntegerValue(s("4")), PathNode::IntegerValue(s("9"))];
    let mut d = DeterministicValueChooser::from_path_nodes(&path);
    assert_eq!(two_integers(&mut d), (s("4"), s("9")));
    let mut r = <RandomValueChooser as QueryValueChooser>::new();
    let mut rng = rand_chacha::ChaCha8Rng::seed_from_u64(1);
    let a: i32 = rng.gen_range(0..=10);
    let b: i32 = rng.gen_range(0..=10);
    assert_eq!(two_integers(&mut r), (a.to_string(), b.to_string()));
}

#[test]
fn model_error_message_escapes_names_as_debug_does() {
    let outgoing = vec![s("a\"b"), s("c\\d\n")];
    let e = StateGenerationError::NodeNotFound { node_name: s("x\"y"), outgoing: outgoing.clone() };
    assert_eq!(e.message(), format!("Did not find x\"y among {:?}", outgoing));
}
