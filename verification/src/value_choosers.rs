//! The choosers of the values that a generated query holds: one that
//! draws them at random, and one that replays those of a recorded path.

use vstd::prelude::*;
use rand::{Rng, SeedableRng};
use rand_chacha::ChaCha8Rng;
use crate::sql_ast::Ident;
use crate::text::push_char;

verus! {

/// A step of a recorded path through the Markov chain: a state, or a
/// value chosen on the way.
#[derive(Debug, PartialEq)]
pub enum PathNode {
    State(String),
    IntegerValue(String),
    NumericValue(String),
    /// The name of a table, in parts.
    SelectedTableName(Vec<Ident>),
    /// The name of a column, in parts.
    SelectedColumnName(Vec<Ident>),
    QualifiedWildcardSelectedRelation(Ident),
}

/// A copy of an identifier.
pub fn copy_ident(ident: &Ident) -> (res: Ident)
    ensures
        res == *ident,
{
    Ident { value: ident.value.clone(), quote_style: ident.quote_style }
}

/// A copy of a multi-part name.
pub fn copy_name(name: &Vec<Ident>) -> (res: Vec<Ident>)
    ensures
        res@ == name@,
{
    let mut res: Vec<Ident> = Vec::new();
    let mut i: usize = 0;
    while i < name.len()
        invariant
            i <= name.len(),
            res@ == name@.take(i as int),
        decreases name.len() - i,
    {
        res.push(copy_ident(&name[i]));
        assert(name@.take(i + 1) =~= name@.take(i as int).push(name@[i as int]));
        i = i + 1;
    }
    assert(name@.take(name.len() as int) =~= name@);
    res
}

/// The parts of each of a sequence of names.
pub open spec fn names_view(names: Seq<Vec<Ident>>) -> Seq<Seq<Ident>> {
    names.map_values(|v: Vec<Ident>| v@)
}

/// The integers chosen along a path, in order.
pub open spec fn path_integers(path: Seq<PathNode>) -> Seq<String>
    decreases path.len(),
{
    if path.len() == 0 {
        seq![]
    } else {
        match path.last() {
            PathNode::IntegerValue(v) => path_integers(path.drop_last()).push(v),
            _ => path_integers(path.drop_last()),
        }
    }
}

/// The numerics chosen along a path, in order.
pub open spec fn path_numerics(path: Seq<PathNode>) -> Seq<String>
    decreases path.len(),
{
    if path.len() == 0 {
        seq![]
    } else {
        match path.last() {
            PathNode::NumericValue(v) => path_numerics(path.drop_last()).push(v),
            _ => path_numerics(path.drop_last()),
        }
    }
}

/// The tables chosen along a path, in order.
pub open spec fn path_tables(path: Seq<PathNode>) -> Seq<Seq<Ident>>
    decreases path.len(),
{
    if path.len() == 0 {
        seq![]
    } else {
        match path.last() {
            PathNode::SelectedTableName(v) => path_tables(path.drop_last()).push(v@),
            _ => path_tables(path.drop_last()),
        }
    }
}

/// The columns chosen along a path, in order.
pub open spec fn path_columns(path: Seq<PathNode>) -> Seq<Seq<Ident>>
    decreases path.len(),
{
    if path.len() == 0 {
        seq![]
    } else {
        match path.last() {
            PathNode::SelectedColumnName(v) => path_columns(path.drop_last()).push(v@),
            _ => path_columns(path.drop_last()),
        }
    }
}

/// The relations of qualified wildcards chosen along a path, in order.
pub open spec fn path_wildcard_relations(path: Seq<PathNode>) -> Seq<Ident>
    decreases path.len(),
{
    if path.len() == 0 {
        seq![]
    } else {
        match path.last() {
            PathNode::QualifiedWildcardSelectedRelation(v) => path_wildcard_relations(path.drop_last()).push(v),
            _ => path_wildcard_relations(path.drop_last()),
        }
    }
}

/// The values recorded along two paths one after the other are those of
/// the first, then those of the second, each kind in the order met.
pub proof fn lemma_path_values_concat(p: Seq<PathNode>, q: Seq<PathNode>)
    ensures
        path_integers(p + q) == path_integers(p) + path_integers(q),
        path_numerics(p + q) == path_numerics(p) + path_numerics(q),
        path_tables(p + q) == path_tables(p) + path_tables(q),
        path_columns(p + q) == path_columns(p) + path_columns(q),
        path_wildcard_relations(p + q) == path_wildcard_relations(p) + path_wildcard_relations(q),
    decreases q.len(),
{
    if q.len() == 0 {
        assert(p + q =~= p);
    } else {
        lemma_path_values_concat(p, q.drop_last());
        assert((p + q).drop_last() =~= p + q.drop_last());
        assert((p + q).last() == q.last());
    }
}

/// A single node of a path records one value of its own kind and none of
/// the others; a state records no value.
pub proof fn lemma_path_values_single(n: PathNode)
    ensures
        path_integers(seq![n]) == (if let PathNode::IntegerValue(v) = n { seq![v] } else { Seq::<String>::empty() }),
        path_numerics(seq![n]) == (if let PathNode::NumericValue(v) = n { seq![v] } else { Seq::<String>::empty() }),
        path_tables(seq![n]) == (if let PathNode::SelectedTableName(v) = n { seq![v@] } else { Seq::<Seq<Ident>>::empty() }),
        path_columns(seq![n]) == (if let PathNode::SelectedColumnName(v) = n { seq![v@] } else { Seq::<Seq<Ident>>::empty() }),
        path_wildcard_relations(seq![n]) == (if let PathNode::QualifiedWildcardSelectedRelation(v) = n {
            seq![v]
        } else {
            Seq::<Ident>::empty()
        }),
{
    let e = Seq::<PathNode>::empty();
    assert(seq![n].drop_last() =~= e);
    assert(seq![n].last() == n);
    assert(path_integers(e) == Seq::<String>::empty());
    assert(path_numerics(e) == Seq::<String>::empty());
    assert(path_tables(e) == Seq::<Seq<Ident>>::empty());
    assert(path_columns(e) == Seq::<Seq<Ident>>::empty());
    assert(path_wildcard_relations(e) == Seq::<Ident>::empty());
}

/// Replays the values chosen along a recorded path: each kind of value in
/// its own queue, each with the number of values taken from it.
pub struct DeterministicValueChooser {
    chosen_integers: (Vec<String>, usize),
    chosen_numerics: (Vec<String>, usize),
    chosen_tables: (Vec<Vec<Ident>>, usize),
    chosen_columns: (Vec<Vec<Ident>>, usize),
    chosen_qualified_wildcard_tables: (Vec<Ident>, usize),
}

impl DeterministicValueChooser {
    pub closed spec fn integers(&self) -> Seq<String> {
        self.chosen_integers.0@
    }

    pub closed spec fn integers_taken(&self) -> int {
        self.chosen_integers.1 as int
    }

    pub closed spec fn numerics(&self) -> Seq<String> {
        self.chosen_numerics.0@
    }

    pub closed spec fn numerics_taken(&self) -> int {
        self.chosen_numerics.1 as int
    }

    pub closed spec fn tables(&self) -> Seq<Seq<Ident>> {
        names_view(self.chosen_tables.0@)
    }

    pub closed spec fn tables_taken(&self) -> int {
        self.chosen_tables.1 as int
    }

    pub closed spec fn columns(&self) -> Seq<Seq<Ident>> {
        names_view(self.chosen_columns.0@)
    }

    pub closed spec fn columns_taken(&self) -> int {
        self.chosen_columns.1 as int
    }

    pub closed spec fn wildcard_relations(&self) -> Seq<Ident> {
        self.chosen_qualified_wildcard_tables.0@
    }

    pub closed spec fn wildcard_relations_taken(&self) -> int {
        self.chosen_qualified_wildcard_tables.1 as int
    }

    /// A chooser with nothing to replay.
    pub fn new() -> (res: DeterministicValueChooser)
        ensures
            res.integers() == Seq::<String>::empty() && res.integers_taken() == 0,
            res.numerics() == Seq::<String>::empty() && res.numerics_taken() == 0,
            res.tables() == Seq::<Seq<Ident>>::empty() && res.tables_taken() == 0,
            res.columns() == Seq::<Seq<Ident>>::empty() && res.columns_taken() == 0,
            res.wildcard_relations() == Seq::<Ident>::empty() && res.wildcard_relations_taken() == 0,
    {
        DeterministicValueChooser {
            chosen_integers: (Vec::new(), 0),
            chosen_numerics: (Vec::new(), 0),
            chosen_tables: (Vec::new(), 0),
            chosen_columns: (Vec::new(), 0),
            chosen_qualified_wildcard_tables: (Vec::new(), 0),
        }
    }

    /// A chooser that replays the values chosen along `path`, each kind
    /// in the order met.
    pub fn from_path_nodes(path: &Vec<PathNode>) -> (res: DeterministicValueChooser)
        ensures
            res.integers() == path_integers(path@) && res.integers_taken() == 0,
            res.numerics() == path_numerics(path@) && res.numerics_taken() == 0,
            res.tables() == path_tables(path@) && res.tables_taken() == 0,
            res.columns() == path_columns(path@) && res.columns_taken() == 0,
            res.wildcard_relations() == path_wildcard_relations(path@) && res.wildcard_relations_taken() == 0,
    {
        let mut integers: Vec<String> = Vec::new();
        let mut numerics: Vec<String> = Vec::new();
        let mut tables: Vec<Vec<Ident>> = Vec::new();
        let mut columns: Vec<Vec<Ident>> = Vec::new();
        let mut relations: Vec<Ident> = Vec::new();
        let mut i: usize = 0;
        while i < path.len()
            invariant
                i <= path.len(),
                integers@ == path_integers(path@.take(i as int)),
                numerics@ == path_numerics(path@.take(i as int)),
                names_view(tables@) == path_tables(path@.take(i as int)),
                names_view(columns@) == path_columns(path@.take(i as int)),
                relations@ == path_wildcard_relations(path@.take(i as int)),
            decreases path.len() - i,
        {
            assert(path@.take(i + 1).drop_last() =~= path@.take(i as int));
            let ghost tables0 = names_view(tables@);
            let ghost columns0 = names_view(columns@);
            match &path[i] {
                PathNode::IntegerValue(value) => integers.push(value.clone()),
                PathNode::NumericValue(value) => numerics.push(value.clone()),
                PathNode::SelectedTableName(name) => {
                    tables.push(copy_name(name));
                    assert(names_view(tables@) =~= tables0.push(name@));
                },
                PathNode::SelectedColumnName(ident_components) => {
                    columns.push(copy_name(ident_components));
                    assert(names_view(columns@) =~= columns0.push(ident_components@));
                },
                PathNode::QualifiedWildcardSelectedRelation(ident) => relations.push(copy_ident(ident)),
                PathNode::State(_) => {},
            }
            i = i + 1;
        }
        assert(path@.take(path.len() as int) =~= path@);
        DeterministicValueChooser {
            chosen_integers: (integers, 0),
            chosen_numerics: (numerics, 0),
            chosen_tables: (tables, 0),
            chosen_columns: (columns, 0),
            chosen_qualified_wildcard_tables: (relations, 0),
        }
    }

    /// The next table name to replay.
    pub fn choose_table(&mut self) -> (res: Vec<Ident>)
        requires
            old(self).tables_taken() < old(self).tables().len(),
        ensures
            res@ == old(self).tables()[old(self).tables_taken()],
            final(self).tables_taken() == old(self).tables_taken() + 1,
            final(self).tables() == old(self).tables(),
            final(self).integers() == old(self).integers() && final(self).integers_taken() == old(self).integers_taken(),
            final(self).numerics() == old(self).numerics() && final(self).numerics_taken() == old(self).numerics_taken(),
            final(self).columns() == old(self).columns() && final(self).columns_taken() == old(self).columns_taken(),
            final(self).wildcard_relations() == old(self).wildcard_relations()
                && final(self).wildcard_relations_taken() == old(self).wildcard_relations_taken(),
    {
        let i = self.chosen_tables.1;
        let n = self.chosen_tables.0.len();
        assert(i < n);
        let new_table_name = copy_name(&self.chosen_tables.0[i]);
        self.chosen_tables.1 = i + 1;
        new_table_name
    }

    /// The next column to replay, in parts: two where it is qualified by
    /// its relation, one otherwise.
    pub fn choose_column(&mut self, qualified: bool) -> (res: Vec<Ident>)
        requires
            old(self).columns_taken() < old(self).columns().len(),
            old(self).columns()[old(self).columns_taken()].len() == (if qualified { 2int } else { 1int }),
        ensures
            res@ == old(self).columns()[old(self).columns_taken()],
            final(self).columns_taken() == old(self).columns_taken() + 1,
            final(self).columns() == old(self).columns(),
            final(self).integers() == old(self).integers() && final(self).integers_taken() == old(self).integers_taken(),
            final(self).numerics() == old(self).numerics() && final(self).numerics_taken() == old(self).numerics_taken(),
            final(self).tables() == old(self).tables() && final(self).tables_taken() == old(self).tables_taken(),
            final(self).wildcard_relations() == old(self).wildcard_relations()
                && final(self).wildcard_relations_taken() == old(self).wildcard_relations_taken(),
    {
        let i = self.chosen_columns.1;
        let n = self.chosen_columns.0.len();
        assert(i < n);
        let ident_components = copy_name(&self.chosen_columns.0[i]);
        self.chosen_columns.1 = i + 1;
        ident_components
    }

    /// The next integer to replay.
    pub fn choose_integer(&mut self) -> (res: String)
        requires
            old(self).integers_taken() < old(self).integers().len(),
        ensures
            res == old(self).integers()[old(self).integers_taken()],
            final(self).integers_taken() == old(self).integers_taken() + 1,
            final(self).integers() == old(self).integers(),
            final(self).numerics() == old(self).numerics() && final(self).numerics_taken() == old(self).numerics_taken(),
            final(self).tables() == old(self).tables() && final(self).tables_taken() == old(self).tables_taken(),
            final(self).columns() == old(self).columns() && final(self).columns_taken() == old(self).columns_taken(),
            final(self).wildcard_relations() == old(self).wildcard_relations()
                && final(self).wildcard_relations_taken() == old(self).wildcard_relations_taken(),
    {
        let i = self.chosen_integers.1;
        let n = self.chosen_integers.0.len();
        assert(i < n);
        let value = self.chosen_integers.0[i].clone();
        self.chosen_integers.1 = i + 1;
        value
    }

    /// The next numeric to replay.
    pub fn choose_numeric(&mut self) -> (res: String)
        requires
            old(self).numerics_taken() < old(self).numerics().len(),
        ensures
            res == old(self).numerics()[old(self).numerics_taken()],
            final(self).numerics_taken() == old(self).numerics_taken() + 1,
            final(self).numerics() == old(self).numerics(),
            final(self).integers() == old(self).integers() && final(self).integers_taken() == old(self).integers_taken(),
            final(self).tables() == old(self).tables() && final(self).tables_taken() == old(self).tables_taken(),
            final(self).columns() == old(self).columns() && final(self).columns_taken() == old(self).columns_taken(),
            final(self).wildcard_relations() == old(self).wildcard_relations()
                && final(self).wildcard_relations_taken() == old(self).wildcard_relations_taken(),
    {
        let i = self.chosen_numerics.1;
        let n = self.chosen_numerics.0.len();
        assert(i < n);
        let value = self.chosen_numerics.0[i].clone();
        self.chosen_numerics.1 = i + 1;
        value
    }

    /// The alias of the next relation of a qualified wildcard to replay.
    pub fn choose_qualified_wildcard_relation(&mut self) -> (res: Ident)
        requires
            old(self).wildcard_relations_taken() < old(self).wildcard_relations().len(),
        ensures
            res == old(self).wildcard_relations()[old(self).wildcard_relations_taken()],
            final(self).wildcard_relations_taken() == old(self).wildcard_relations_taken() + 1,
            final(self).wildcard_relations() == old(self).wildcard_relations(),
            final(self).integers() == old(self).integers() && final(self).integers_taken() == old(self).integers_taken(),
            final(self).numerics() == old(self).numerics() && final(self).numerics_taken() == old(self).numerics_taken(),
            final(self).tables() == old(self).tables() && final(self).tables_taken() == old(self).tables_taken(),
            final(self).columns() == old(self).columns() && final(self).columns_taken() == old(self).columns_taken(),
    {
        let i = self.chosen_qualified_wildcard_tables.1;
        let n = self.chosen_qualified_wildcard_tables.0.len();
        assert(i < n);
        let alias = copy_ident(&self.chosen_qualified_wildcard_tables.0[i]);
        self.chosen_qualified_wildcard_tables.1 = i + 1;
        alias
    }
}

#[verifier::external_type_specification]
#[verifier::external_body]
pub struct ExChaCha8Rng(ChaCha8Rng);

/// The generator that `rand::SeedableRng::seed_from_u64` makes for
/// `rand_chacha::ChaCha8Rng` from `seed`.
pub uninterp spec fn chacha8_from_seed(seed: u64) -> ChaCha8Rng;

/// Calls `rand::SeedableRng::seed_from_u64` for `rand_chacha::ChaCha8Rng`.
/// Trusted: the generator depends on the seed alone
/// (`chacha8_from_seed`), as seeded generators are reproducible.
#[verifier::external_body]
fn chacha8_seeded(seed: u64) -> (res: ChaCha8Rng)
    ensures
        res == chacha8_from_seed(seed),
{
    ChaCha8Rng::seed_from_u64(seed)
}

/// What `rand::Rng::gen_range` draws from a `rand_chacha::ChaCha8Rng` in
/// the state `rng` on the inclusive range `low..=high` of `i32`: the value,
/// and the state of the generator after the draw.
pub uninterp spec fn chacha8_draw_i32(rng: ChaCha8Rng, low: i32, high: i32) -> (i32, ChaCha8Rng);

/// Calls `rand::Rng::gen_range` on an inclusive range of `i32`. Trusted:
/// the value drawn lies in the range (which must not be empty; the call
/// panics on an empty one), and the value and the new state of the
/// generator depend on its old state and the bounds alone
/// (`chacha8_draw_i32`).
#[verifier::external_body]
fn gen_range_inclusive(rng: &mut ChaCha8Rng, low: i32, high: i32) -> (res: i32)
    requires
        low <= high,
    ensures
        low <= res <= high,
        res == chacha8_draw_i32(*old(rng), low, high).0,
        *final(rng) == chacha8_draw_i32(*old(rng), low, high).1,
{
    rng.gen_range(low..=high)
}

/// The decimal digit `d` (`0 <= d < 10`) as a character.
pub open spec fn digit_char(d: nat) -> char {
    ('0' as u32 + d) as char
}

/// The decimal representation of `n`, without leading zeros.
pub open spec fn decimal(n: nat) -> Seq<char>
    decreases n,
{
    if n < 10 {
        seq![digit_char(n)]
    } else {
        decimal(n / 10).push(digit_char(n % 10))
    }
}

/// The digit `d` as a character.
fn digit(d: u64) -> (res: char)
    requires
        d < 10,
    ensures
        res == digit_char(d as nat),
{
    let b: u8 = 48u8 + (d as u8);
    b as char
}

/// `n` written in decimal, as `Display` for integers writes it.
pub fn decimal_string(n: u64) -> (res: String)
    ensures
        res@ == decimal(n as nat),
    decreases n,
{
    if n < 10 {
        let mut s = String::new();
        push_char(&mut s, digit(n));
        s
    } else {
        let mut s = decimal_string(n / 10);
        push_char(&mut s, digit(n % 10));
        s
    }
}

/// Draws the values at random, from a generator seeded with a fixed seed.
pub struct RandomValueChooser {
    pub rng: ChaCha8Rng,
}

impl RandomValueChooser {
    /// A chooser whose generator is seeded with `1`.
    pub fn new() -> (res: RandomValueChooser)
        ensures
            res.rng == chacha8_from_seed(1),
    {
        RandomValueChooser { rng: chacha8_seeded(1) }
    }

    /// An integer from `0` to `10`, in decimal: the one the generator
    /// draws next (`chacha8_draw_i32`), which moves it on.
    pub fn choose_integer(&mut self) -> (res: String)
        ensures
            0 <= chacha8_draw_i32(old(self).rng, 0, 10).0 <= 10,
            res@ == decimal(chacha8_draw_i32(old(self).rng, 0, 10).0 as nat),
            final(self).rng == chacha8_draw_i32(old(self).rng, 0, 10).1,
    {
        let n = gen_range_inclusive(&mut self.rng, 0, 10);
        decimal_string(n as u64)
    }
}

/// Chooses the values that a generated query holds: the random chooser
/// draws them, the deterministic one replays those of a recorded path.
pub trait QueryValueChooser: Sized {
    /// Whether an integer can be chosen now.
    spec fn integer_available(&self) -> bool;

    fn new() -> Self;

    /// An integer, in decimal.
    fn choose_integer(&mut self) -> (res: String)
        requires
            old(self).integer_available(),
    ;
}

impl QueryValueChooser for RandomValueChooser {
    /// A random chooser can always draw.
    open spec fn integer_available(&self) -> bool {
        true
    }

    fn new() -> (res: RandomValueChooser)
        ensures
            res.rng == chacha8_from_seed(1),
    {
        RandomValueChooser::new()
    }

    fn choose_integer(&mut self) -> (res: String)
        ensures
            0 <= chacha8_draw_i32(old(self).rng, 0, 10).0 <= 10,
            res@ == decimal(chacha8_draw_i32(old(self).rng, 0, 10).0 as nat),
            final(self).rng == chacha8_draw_i32(old(self).rng, 0, 10).1,
    {
        RandomValueChooser::choose_integer(self)
    }
}

impl QueryValueChooser for DeterministicValueChooser {
    /// Integers are left to replay.
    open spec fn integer_available(&self) -> bool {
        self.integers_taken() < self.integers().len()
    }

    fn new() -> (res: DeterministicValueChooser)
        ensures
            res.integers() == Seq::<String>::empty() && res.integers_taken() == 0,
            res.numerics() == Seq::<String>::empty() && res.numerics_taken() == 0,
            res.tables() == Seq::<Seq<Ident>>::empty() && res.tables_taken() == 0,
            res.columns() == Seq::<Seq<Ident>>::empty() && res.columns_taken() == 0,
            res.wildcard_relations() == Seq::<Ident>::empty() && res.wildcard_relations_taken() == 0,
    {
        DeterministicValueChooser::new()
    }

    fn choose_integer(&mut self) -> (res: String)
        ensures
            res == old(self).integers()[old(self).integers_taken()],
            final(self).integers_taken() == old(self).integers_taken() + 1,
            final(self).integers() == old(self).integers(),
            final(self).numerics() == old(self).numerics() && final(self).numerics_taken() == old(self).numerics_taken(),
            final(self).tables() == old(self).tables() && final(self).tables_taken() == old(self).tables_taken(),
            final(self).columns() == old(self).columns() && final(self).columns_taken() == old(self).columns_taken(),
            final(self).wildcard_relations() == old(self).wildcard_relations()
                && final(self).wildcard_relations_taken() == old(self).wildcard_relations_taken(),
    {
        DeterministicValueChooser::choose_integer(self)
    }
}

} // verus!
