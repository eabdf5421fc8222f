//! The reader of the graph description: it turns the tokens of a DOT
//! dialect into code units (function definitions, node definitions, call
//! nodes, edges and the ends of function definitions).

use vstd::prelude::*;
use vstd::string::StringExecFns;
use crate::dot_lexer::{DotLexer, DotToken, DotTokenView, lex_token, lemma_lex_progress, is_ident_char, is_ident_start, ident_char, ident_start};
use crate::text::{find_char, find_char_from, lemma_find_char_bounds, chars_of, split_names, identifier_names, strings_view, string_from_range, string_is, chars_equal, keep_non_empty, non_empty, starts_with, has_prefix, suffix_from, ascii_upper, upper_chars};

verus! {

/// What a function accepts (in a function definition), or what types a
/// call may produce (in a call node).
#[derive(Debug, PartialEq)]
pub enum FunctionInputsType {
    Any,
    NoInputs,
    Known,
    Compatible,
    TypeName(String),
    TypeNameList(Vec<String>),
    TypeNameVariants(Vec<String>),
}

pub enum FunctionInputsTypeView {
    Any,
    NoInputs,
    Known,
    Compatible,
    TypeName(Seq<char>),
    TypeNameList(Seq<Seq<char>>),
    TypeNameVariants(Seq<Seq<char>>),
}

impl View for FunctionInputsType {
    type V = FunctionInputsTypeView;

    open spec fn view(&self) -> FunctionInputsTypeView {
        match self {
            FunctionInputsType::Any => FunctionInputsTypeView::Any,
            FunctionInputsType::NoInputs => FunctionInputsTypeView::NoInputs,
            FunctionInputsType::Known => FunctionInputsTypeView::Known,
            FunctionInputsType::Compatible => FunctionInputsTypeView::Compatible,
            FunctionInputsType::TypeName(s) => FunctionInputsTypeView::TypeName(s@),
            FunctionInputsType::TypeNameList(v) => FunctionInputsTypeView::TypeNameList(strings_view(v@)),
            FunctionInputsType::TypeNameVariants(v) => FunctionInputsTypeView::TypeNameVariants(strings_view(v@)),
        }
    }
}

/// The texts of optional modifiers.
pub open spec fn modifiers_view(m: Option<Vec<String>>) -> Option<Seq<Seq<char>>> {
    match m {
        Some(v) => Some(strings_view(v@)),
        None => None,
    }
}

/// The texts of an optional string.
pub open spec fn opt_string_view(s: Option<String>) -> Option<Seq<char>> {
    match s {
        Some(x) => Some(x@),
        None => None,
    }
}

/// A function definition: its source and exit nodes, its inputs and
/// modifiers.
#[derive(Debug, PartialEq)]
pub struct Function {
    pub source_node_name: String,
    pub exit_node_name: String,
    pub input_type: FunctionInputsType,
    pub modifiers: Option<Vec<String>>,
}

pub struct FunctionView {
    pub source_node_name: Seq<char>,
    pub exit_node_name: Seq<char>,
    pub input_type: FunctionInputsTypeView,
    pub modifiers: Option<Seq<Seq<char>>>,
}

impl View for Function {
    type V = FunctionView;

    open spec fn view(&self) -> FunctionView {
        FunctionView {
            source_node_name: self.source_node_name@,
            exit_node_name: self.exit_node_name@,
            input_type: self.input_type@,
            modifiers: modifiers_view(self.modifiers),
        }
    }
}

/// A distinct command of the graph description.
#[derive(Debug, PartialEq)]
pub enum CodeUnit {
    Function(Function),
    NodeDef {
        name: String,
        option_name: Option<String>,
        literal: bool,
        trigger: Option<(String, bool)>,
    },
    Call {
        node_name: String,
        func_name: String,
        inputs: FunctionInputsType,
        modifiers: Option<Vec<String>>,
        option_name: Option<String>,
    },
    Edge {
        node_name_from: String,
        node_name_to: String,
    },
    CloseDeclaration,
}

pub enum CodeUnitView {
    Function(FunctionView),
    NodeDef {
        name: Seq<char>,
        option_name: Option<Seq<char>>,
        literal: bool,
        trigger: Option<(Seq<char>, bool)>,
    },
    Call {
        node_name: Seq<char>,
        func_name: Seq<char>,
        inputs: FunctionInputsTypeView,
        modifiers: Option<Seq<Seq<char>>>,
        option_name: Option<Seq<char>>,
    },
    Edge {
        node_name_from: Seq<char>,
        node_name_to: Seq<char>,
    },
    CloseDeclaration,
}

impl View for CodeUnit {
    type V = CodeUnitView;

    open spec fn view(&self) -> CodeUnitView {
        match self {
            CodeUnit::Function(f) => CodeUnitView::Function(f@),
            CodeUnit::NodeDef { name, option_name, literal, trigger } => CodeUnitView::NodeDef {
                name: name@,
                option_name: opt_string_view(*option_name),
                literal: *literal,
                trigger: match trigger {
                    Some((t, on)) => Some((t@, *on)),
                    None => None,
                },
            },
            CodeUnit::Call { node_name, func_name, inputs, modifiers, option_name } => CodeUnitView::Call {
                node_name: node_name@,
                func_name: func_name@,
                inputs: inputs@,
                modifiers: modifiers_view(*modifiers),
                option_name: opt_string_view(*option_name),
            },
            CodeUnit::Edge { node_name_from, node_name_to } => CodeUnitView::Edge {
                node_name_from: node_name_from@,
                node_name_to: node_name_to@,
            },
            CodeUnit::CloseDeclaration => CodeUnitView::CloseDeclaration,
        }
    }
}

/// Why a graph description cannot be read.
#[derive(Debug, PartialEq)]
pub enum SyntaxError {
    NestedBracesInSubgraph,
    MultipleDigraphs,
    NestedFunctionDefinitions,
    /// The text of the token where a subgraph body should start.
    ExpectedSubgraphBody(String),
    /// The trigger name.
    MissingTriggerMode(String),
    /// The call node's name.
    LiteralCallNode(String),
    /// The node's name.
    ExpectedIdentifierAfterArrow(String),
    /// The node's name.
    ExpectedNodeOrEdge(String),
    /// The quoted text.
    QuotedIdentifierNotSupported(String),
    /// The token, and its text.
    UnexpectedToken(DotToken, String),
    ExpectedDigraphBody,
    ExpectedDigraphIdentifierOrBody,
    /// The function's name.
    SourceNodeMismatch(String),
    ExpectedSourceNodeDefinition,
    ExpectedFunctionBody,
    ExpectedSubgraphIdentifierOrBody,
    /// The node's name.
    CallTypeTakesOneParameter(String),
    /// The node's name.
    TypeNotUnbracketed(String),
    /// The node's name.
    TypesNotBracketed(String),
    /// The node's name.
    ModNotBracketed(String),
    /// The source node's name.
    ExpectedExitNode(String),
    /// The node's name.
    ExpectedNodeProperties(String),
    /// The node's name.
    ExpectedPropertyValue(String),
}

pub enum SyntaxErrorView {
    NestedBracesInSubgraph,
    MultipleDigraphs,
    NestedFunctionDefinitions,
    ExpectedSubgraphBody(Seq<char>),
    MissingTriggerMode(Seq<char>),
    LiteralCallNode(Seq<char>),
    ExpectedIdentifierAfterArrow(Seq<char>),
    ExpectedNodeOrEdge(Seq<char>),
    QuotedIdentifierNotSupported(Seq<char>),
    UnexpectedToken(DotTokenView, Seq<char>),
    ExpectedDigraphBody,
    ExpectedDigraphIdentifierOrBody,
    SourceNodeMismatch(Seq<char>),
    ExpectedSourceNodeDefinition,
    ExpectedFunctionBody,
    ExpectedSubgraphIdentifierOrBody,
    CallTypeTakesOneParameter(Seq<char>),
    TypeNotUnbracketed(Seq<char>),
    TypesNotBracketed(Seq<char>),
    ModNotBracketed(Seq<char>),
    ExpectedExitNode(Seq<char>),
    ExpectedNodeProperties(Seq<char>),
    ExpectedPropertyValue(Seq<char>),
}

impl View for SyntaxError {
    type V = SyntaxErrorView;

    open spec fn view(&self) -> SyntaxErrorView {
        match self {
            SyntaxError::NestedBracesInSubgraph => SyntaxErrorView::NestedBracesInSubgraph,
            SyntaxError::MultipleDigraphs => SyntaxErrorView::MultipleDigraphs,
            SyntaxError::NestedFunctionDefinitions => SyntaxErrorView::NestedFunctionDefinitions,
            SyntaxError::ExpectedSubgraphBody(s) => SyntaxErrorView::ExpectedSubgraphBody(s@),
            SyntaxError::MissingTriggerMode(s) => SyntaxErrorView::MissingTriggerMode(s@),
            SyntaxError::LiteralCallNode(s) => SyntaxErrorView::LiteralCallNode(s@),
            SyntaxError::ExpectedIdentifierAfterArrow(s) => SyntaxErrorView::ExpectedIdentifierAfterArrow(s@),
            SyntaxError::ExpectedNodeOrEdge(s) => SyntaxErrorView::ExpectedNodeOrEdge(s@),
            SyntaxError::QuotedIdentifierNotSupported(s) => SyntaxErrorView::QuotedIdentifierNotSupported(s@),
            SyntaxError::UnexpectedToken(t, s) => SyntaxErrorView::UnexpectedToken(t@, s@),
            SyntaxError::ExpectedDigraphBody => SyntaxErrorView::ExpectedDigraphBody,
            SyntaxError::ExpectedDigraphIdentifierOrBody => SyntaxErrorView::ExpectedDigraphIdentifierOrBody,
            SyntaxError::SourceNodeMismatch(s) => SyntaxErrorView::SourceNodeMismatch(s@),
            SyntaxError::ExpectedSourceNodeDefinition => SyntaxErrorView::ExpectedSourceNodeDefinition,
            SyntaxError::ExpectedFunctionBody => SyntaxErrorView::ExpectedFunctionBody,
            SyntaxError::ExpectedSubgraphIdentifierOrBody => SyntaxErrorView::ExpectedSubgraphIdentifierOrBody,
            SyntaxError::CallTypeTakesOneParameter(s) => SyntaxErrorView::CallTypeTakesOneParameter(s@),
            SyntaxError::TypeNotUnbracketed(s) => SyntaxErrorView::TypeNotUnbracketed(s@),
            SyntaxError::TypesNotBracketed(s) => SyntaxErrorView::TypesNotBracketed(s@),
            SyntaxError::ModNotBracketed(s) => SyntaxErrorView::ModNotBracketed(s@),
            SyntaxError::ExpectedExitNode(s) => SyntaxErrorView::ExpectedExitNode(s@),
            SyntaxError::ExpectedNodeProperties(s) => SyntaxErrorView::ExpectedNodeProperties(s@),
            SyntaxError::ExpectedPropertyValue(s) => SyntaxErrorView::ExpectedPropertyValue(s@),
        }
    }
}

/// The properties of a node as read: each name, upper-cased, with its
/// value, in the order read.
pub open spec fn props_view(props: Seq<(Vec<char>, DotToken)>) -> Seq<(Seq<char>, DotTokenView)> {
    props.map_values(|e: (Vec<char>, DotToken)| (e.0@, e.1@))
}

/// The value of property `key`: the one read last under that name.
pub open spec fn prop_lookup(props: Seq<(Seq<char>, DotTokenView)>, key: Seq<char>) -> Option<DotTokenView>
    decreases props.len(),
{
    if props.len() == 0 {
        None
    } else if props.last().0 == key {
        Some(props.last().1)
    } else {
        prop_lookup(props.drop_last(), key)
    }
}

pub open spec fn key_type() -> Seq<char> {
    seq!['T', 'Y', 'P', 'E']
}

pub open spec fn key_types() -> Seq<char> {
    seq!['T', 'Y', 'P', 'E', 'S']
}

pub open spec fn key_mod() -> Seq<char> {
    seq!['M', 'O', 'D']
}

pub open spec fn key_optional() -> Seq<char> {
    seq!['O', 'P', 'T', 'I', 'O', 'N', 'A', 'L']
}

pub open spec fn key_literal() -> Seq<char> {
    seq!['L', 'I', 'T', 'E', 'R', 'A', 'L']
}

pub open spec fn key_trigger() -> Seq<char> {
    seq!['t', 'r', 'i', 'g', 'g', 'e', 'r']
}

pub open spec fn key_trigger_mode() -> Seq<char> {
    seq!['t', 'r', 'i', 'g', 'g', 'e', 'r', '_', 'm', 'o', 'd', 'e']
}

/// The special input types: `any`, `known` and `compatible`.
pub open spec fn special_type(idents: Seq<char>) -> Option<FunctionInputsTypeView> {
    if idents == seq!['a', 'n', 'y'] {
        Some(FunctionInputsTypeView::Any)
    } else if idents == seq!['k', 'n', 'o', 'w', 'n'] {
        Some(FunctionInputsTypeView::Known)
    } else if idents == seq!['c', 'o', 'm', 'p', 'a', 't', 'i', 'b', 'l', 'e'] {
        Some(FunctionInputsTypeView::Compatible)
    } else {
        None
    }
}

/// The input type and modifiers that the properties of a node give: the
/// `TYPE` property (unbracketed: a special type, or a list of names, of
/// which a call node takes exactly one), then the `TYPES` property
/// (bracketed: a special type or a list of names), then the `MOD` property
/// (bracketed: a list of modifiers, of which the non-empty ones are kept,
/// and none at all where none is left).
pub open spec fn function_options(node_name: Seq<char>, props: Seq<(Seq<char>, DotTokenView)>, call: bool)
    -> Result<(FunctionInputsTypeView, Option<Seq<Seq<char>>>), SyntaxErrorView>
{
    let from_type = match prop_lookup(props, key_type()) {
        None => Ok(FunctionInputsTypeView::NoInputs),
        Some(DotTokenView::QuotedIdentifiers(idents)) => match special_type(idents) {
            Some(special) => Ok(special),
            None => {
                let names = identifier_names(idents);
                if call {
                    if names.len() == 1 {
                        Ok(FunctionInputsTypeView::TypeName(names[0]))
                    } else {
                        Err(SyntaxErrorView::CallTypeTakesOneParameter(node_name))
                    }
                } else {
                    Ok(FunctionInputsTypeView::TypeNameVariants(names))
                }
            },
        },
        Some(_) => Err(SyntaxErrorView::TypeNotUnbracketed(node_name)),
    };
    match from_type {
        Err(e) => Err(e),
        Ok(first) => {
            let from_types = match prop_lookup(props, key_types()) {
                None => Ok(first),
                Some(DotTokenView::QuotedIdentifiersWithBrackets(idents)) => match special_type(idents) {
                    Some(special) => Ok(special),
                    None => Ok(FunctionInputsTypeView::TypeNameList(identifier_names(idents))),
                },
                Some(_) => Err(SyntaxErrorView::TypesNotBracketed(node_name)),
            };
            match from_types {
                Err(e) => Err(e),
                Ok(input_type) => match prop_lookup(props, key_mod()) {
                    None => Ok((input_type, None)),
                    Some(DotTokenView::QuotedIdentifiersWithBrackets(value)) => {
                        let mods = non_empty(identifier_names(value));
                        Ok((input_type, if mods.len() > 0 { Some(mods) } else { None }))
                    },
                    Some(_) => Err(SyntaxErrorView::ModNotBracketed(node_name)),
                },
            }
        },
    }
}

/// The value of property `key`, the one read last under that name.
fn lookup<'a>(props: &'a Vec<(Vec<char>, DotToken)>, key: &Vec<char>) -> (res: Option<&'a DotToken>)
    ensures
        match prop_lookup(props_view(props@), key@) {
            None => res is None,
            Some(t) => res matches Some(r) && r@ == t,
        },
{
    let mut i = props.len();
    assert(props_view(props@).take(i as int) =~= props_view(props@));
    while i > 0
        invariant
            i <= props.len(),
            prop_lookup(props_view(props@), key@) == prop_lookup(props_view(props@).take(i as int), key@),
        decreases i,
    {
        let ghost pre = props_view(props@).take(i as int);
        assert(pre.drop_last() =~= props_view(props@).take(i - 1));
        assert(pre.last() == (props@[i - 1].0@, props@[i - 1].1@));
        if chars_equal(&props[i - 1].0, key) {
            return Some(&props[i - 1].1);
        }
        i = i - 1;
    }
    None
}

impl FunctionInputsType {
    /// The special type `any`, `known` or `compatible` that `idents` names,
    /// if any.
    pub fn try_extract_special_type(idents: &String) -> (res: Option<FunctionInputsType>)
        ensures
            match special_type(idents@) {
                None => res is None,
                Some(t) => res matches Some(r) && r@ == t,
            },
    {
        if string_is(idents, &vec!['a', 'n', 'y']) {
            Some(FunctionInputsType::Any)
        } else if string_is(idents, &vec!['k', 'n', 'o', 'w', 'n']) {
            Some(FunctionInputsType::Known)
        } else if string_is(idents, &vec!['c', 'o', 'm', 'p', 'a', 't', 'i', 'b', 'l', 'e']) {
            Some(FunctionInputsType::Compatible)
        } else {
            None
        }
    }

    /// Splits a comma-separated list into its names, trimmed of white
    /// space.
    pub fn get_identifier_names(name_list_str: &String) -> (res: Vec<String>)
        ensures
            strings_view(res@) == identifier_names(name_list_str@),
    {
        split_names(name_list_str.as_str())
    }
}

/// Reads the input type and the modifiers from the properties of a node
/// (see `function_options`); `call` is whether the node is a call node.
fn parse_function_options(node_name: &String, node_spec: &Vec<(Vec<char>, DotToken)>, call: bool)
    -> (res: Result<(FunctionInputsType, Option<Vec<String>>), SyntaxError>)
    ensures
        match function_options(node_name@, props_view(node_spec@), call) {
            Ok((t, m)) => res matches Ok((rt, rm)) && rt@ == t && modifiers_view(rm) == m,
            Err(e) => res matches Err(re) && re@ == e,
        },
{
    let mut input_type = FunctionInputsType::NoInputs;
    let mut modifiers: Option<Vec<String>> = None;
    if let Some(token) = lookup(node_spec, &vec!['T', 'Y', 'P', 'E']) {
        if let DotToken::QuotedIdentifiers(idents) = token {
            if let Some(special_type) = FunctionInputsType::try_extract_special_type(idents) {
                input_type = special_type;
            } else {
                let idents = FunctionInputsType::get_identifier_names(idents);
                if call {
                    if idents.len() == 1 {
                        input_type = FunctionInputsType::TypeName(idents[0].clone());
                    } else {
                        return Err(SyntaxError::CallTypeTakesOneParameter(node_name.clone()));
                    }
                } else {
                    input_type = FunctionInputsType::TypeNameVariants(idents);
                }
            }
        } else {
            return Err(SyntaxError::TypeNotUnbracketed(node_name.clone()));
        }
    }
    if let Some(token) = lookup(node_spec, &vec!['T', 'Y', 'P', 'E', 'S']) {
        if let DotToken::QuotedIdentifiersWithBrackets(idents) = token {
            if let Some(special_type) = FunctionInputsType::try_extract_special_type(idents) {
                input_type = special_type;
            } else {
                input_type = FunctionInputsType::TypeNameList(FunctionInputsType::get_identifier_names(idents));
            }
        } else {
            return Err(SyntaxError::TypesNotBracketed(node_name.clone()));
        }
    }
    if let Some(token) = lookup(node_spec, &vec!['M', 'O', 'D']) {
        if let DotToken::QuotedIdentifiersWithBrackets(value) = token {
            let mods = keep_non_empty(FunctionInputsType::get_identifier_names(value));
            if mods.len() > 0 {
                modifiers = Some(mods);
            }
        } else {
            return Err(SyntaxError::ModNotBracketed(node_name.clone()));
        }
    }
    Ok((input_type, modifiers))
}

/// Reading one token from `end`: the token (`None` at the end of the
/// input) and its span (empty, at the end of the input, where there is
/// none).
pub open spec fn advance(src: Seq<char>, end: int) -> (Option<DotTokenView>, int, int) {
    match lex_token(src, end) {
        Some((t, s, e)) => (Some(t), s, e),
        None => (None, src.len() as int, src.len() as int),
    }
}

/// Reading advances: a token read ends after where reading started.
pub proof fn lemma_advance(src: Seq<char>, end: int)
    requires
        0 <= end <= src.len(),
    ensures
        ({
            let (t, s, e) = advance(src, end);
            &&& end <= s <= e <= src.len()
            &&& t is Some ==> end < e
            &&& t is None ==> s == src.len() && e == src.len()
        }),
{
    lemma_lex_progress(src, end);
}

/// Reading the properties of a node after its `[`, up to the `]`:
/// `NAME="value"` and `NAME="[values]"` pairs (the name upper-cased,
/// added after `acc`), `NAME=identifier` pairs (skipped), and commas.
/// Gives the properties, or the error, and the span of the last token
/// read.
pub open spec fn opened_node_specification(
    src: Seq<char>,
    end: int,
    node_name: Seq<char>,
    acc: Seq<(Seq<char>, DotTokenView)>,
) -> (Result<Seq<(Seq<char>, DotTokenView)>, SyntaxErrorView>, int, int)
    decreases src.len() - end,
{
    if end < 0 || end > src.len() {
        (Err(SyntaxErrorView::ExpectedPropertyValue(node_name)), end, end)
    } else {
        let (t1, s1, e1) = advance(src, end);
        proof {
            lemma_advance(src, end);
        }
        match t1 {
            Some(DotTokenView::Identifier(prop_name)) => {
                let (t2, s2, e2) = advance(src, e1);
                proof {
                    lemma_advance(src, e1);
                }
                match t2 {
                    Some(DotTokenView::Equals) => {
                        let (t3, s3, e3) = advance(src, e2);
                        proof {
                            lemma_advance(src, e2);
                        }
                        match t3 {
                            Some(DotTokenView::QuotedIdentifiersWithBrackets(v)) => opened_node_specification(
                                src,
                                e3,
                                node_name,
                                acc.push((ascii_upper(prop_name), DotTokenView::QuotedIdentifiersWithBrackets(v))),
                            ),
                            Some(DotTokenView::QuotedIdentifiers(v)) => opened_node_specification(
                                src,
                                e3,
                                node_name,
                                acc.push((ascii_upper(prop_name), DotTokenView::QuotedIdentifiers(v))),
                            ),
                            Some(DotTokenView::Identifier(_)) => opened_node_specification(src, e3, node_name, acc),
                            _ => (Err(SyntaxErrorView::ExpectedPropertyValue(node_name)), s3, e3),
                        }
                    },
                    _ => (Err(SyntaxErrorView::ExpectedPropertyValue(node_name)), s2, e2),
                }
            },
            Some(DotTokenView::CloseSpecification) => (Ok(acc), s1, e1),
            Some(DotTokenView::Comma) => opened_node_specification(src, e1, node_name, acc),
            _ => (Err(SyntaxErrorView::ExpectedPropertyValue(node_name)), s1, e1),
        }
    }
}

/// Reading `[` and then the properties of a node.
pub open spec fn node_specification(src: Seq<char>, end: int, node_name: Seq<char>)
    -> (Result<Seq<(Seq<char>, DotTokenView)>, SyntaxErrorView>, int, int)
{
    let (t, s, e) = advance(src, end);
    match t {
        Some(DotTokenView::OpenSpecification) => opened_node_specification(src, e, node_name, seq![]),
        _ => (Err(SyntaxErrorView::ExpectedNodeProperties(node_name)), s, e),
    }
}

pub open spec fn exit_prefix() -> Seq<char> {
    seq!['E', 'X', 'I', 'T', '_']
}

pub open spec fn def_prefix() -> Seq<char> {
    seq!['d', 'e', 'f', '_']
}

/// Reading the exit node that closes the head of a function definition:
/// `EXIT_...[...]`; gives its name.
pub open spec fn function_exit_node_name(src: Seq<char>, end: int, node_name: Seq<char>)
    -> (Result<Seq<char>, SyntaxErrorView>, int, int)
{
    let (t, s, e) = advance(src, end);
    match t {
        Some(DotTokenView::Identifier(name)) => if !starts_with(name, exit_prefix()) {
            (Err(SyntaxErrorView::ExpectedExitNode(node_name)), s, e)
        } else {
            let (r, s2, e2) = node_specification(src, e, name);
            match r {
                Err(x) => (Err(x), s2, e2),
                Ok(_) => (Ok(name), s2, e2),
            }
        },
        _ => (Err(SyntaxErrorView::ExpectedExitNode(node_name)), s, e),
    }
}

/// Reading what follows `digraph`: an optional name, and the `{`.
pub open spec fn digraph_head(src: Seq<char>, end: int) -> (Result<(), SyntaxErrorView>, int, int) {
    let (t, s, e) = advance(src, end);
    match t {
        None => (Ok(()), s, e),
        Some(DotTokenView::Identifier(_)) => {
            let (t2, s2, e2) = advance(src, e);
            match t2 {
                Some(DotTokenView::OpenDeclaration) => (Ok(()), s2, e2),
                _ => (Err(SyntaxErrorView::ExpectedDigraphBody), s2, e2),
            }
        },
        Some(DotTokenView::OpenDeclaration) => (Ok(()), s, e),
        _ => (Err(SyntaxErrorView::ExpectedDigraphIdentifierOrBody), s, e),
    }
}

/// Reading what follows `subgraph`: the head of a function definition
/// (`def_NAME { NAME[...] EXIT_...[...]`), or `None` for any other
/// subgraph (one whose name does not start with `def_`, or that has no
/// name and whose `{` was read).
pub open spec fn function_def(src: Seq<char>, end: int) -> (Result<Option<FunctionView>, SyntaxErrorView>, int, int) {
    let (t, s, e) = advance(src, end);
    match t {
        Some(DotTokenView::Identifier(subgraph_name)) => if !starts_with(subgraph_name, def_prefix()) {
            (Ok(None), s, e)
        } else {
            let function_name = subgraph_name.skip(4);
            let (t2, s2, e2) = advance(src, e);
            match t2 {
                Some(DotTokenView::OpenDeclaration) => {
                    let (t3, s3, e3) = advance(src, e2);
                    match t3 {
                        Some(DotTokenView::Identifier(node_name)) => if node_name != function_name {
                            (Err(SyntaxErrorView::SourceNodeMismatch(function_name)), s3, e3)
                        } else {
                            let (r4, s4, e4) = node_specification(src, e3, node_name);
                            match r4 {
                                Err(x) => (Err(x), s4, e4),
                                Ok(props) => match function_options(node_name, props, false) {
                                    Err(x) => (Err(x), s4, e4),
                                    Ok((input_type, modifiers)) => {
                                        let (r5, s5, e5) = function_exit_node_name(src, e4, node_name);
                                        match r5 {
                                            Err(x) => (Err(x), s5, e5),
                                            Ok(exit_node_name) => (Ok(Some(FunctionView {
                                                source_node_name: node_name,
                                                exit_node_name,
                                                input_type,
                                                modifiers,
                                            })), s5, e5),
                                        }
                                    },
                                },
                            }
                        },
                        _ => (Err(SyntaxErrorView::ExpectedSourceNodeDefinition), s3, e3),
                    }
                },
                _ => (Err(SyntaxErrorView::ExpectedFunctionBody), s2, e2),
            }
        },
        Some(DotTokenView::OpenDeclaration) => (Ok(None), s, e),
        _ => (Err(SyntaxErrorView::ExpectedSubgraphIdentifierOrBody), s, e),
    }
}

/// The properties read, or the error.
pub open spec fn props_result_view(r: Result<Vec<(Vec<char>, DotToken)>, SyntaxError>)
    -> Result<Seq<(Seq<char>, DotTokenView)>, SyntaxErrorView>
{
    match r {
        Ok(p) => Ok(props_view(p@)),
        Err(e) => Err(e@),
    }
}

/// Reads the properties of a node after its `[` (see
/// `opened_node_specification`).
fn read_opened_node_specification(lex: &mut DotLexer, node_name: &String)
    -> (res: Result<Vec<(Vec<char>, DotToken)>, SyntaxError>)
    requires
        old(lex).wf(),
    ensures
        final(lex).wf(),
        final(lex).src() == old(lex).src(),
        ({
            let (r, s, e) = opened_node_specification(old(lex).src(), old(lex).end(), node_name@, seq![]);
            &&& props_result_view(res) == r
            &&& final(lex).start() == s
            &&& final(lex).end() == e
        }),
{
    let ghost src = lex.src();
    let ghost target = opened_node_specification(src, lex.end(), node_name@, seq![]);
    let mut props: Vec<(Vec<char>, DotToken)> = Vec::new();
    proof {
        lex.lemma_wf();
        assert(props_view(props@) =~= seq![]);
    }
    loop
        invariant
            lex.wf(),
            lex.src() == src,
            src == old(lex).src(),
            target == opened_node_specification(old(lex).src(), old(lex).end(), node_name@, seq![]),
            0 <= lex.end() <= src.len(),
            opened_node_specification(src, lex.end(), node_name@, props_view(props@)) == target,
        decreases src.len() - lex.end(),
    {
        let ghost end0 = lex.end();
        proof {
            lemma_advance(src, end0);
        }
        match lex.next_token() {
            Some(DotToken::Identifier(prop_name)) => {
                let ghost end1 = lex.end();
                proof {
                    lemma_advance(src, end1);
                }
                match lex.next_token() {
                    Some(DotToken::Equals) => {
                        let ghost end2 = lex.end();
                        proof {
                            lemma_advance(src, end2);
                        }
                        match lex.next_token() {
                            Some(DotToken::QuotedIdentifiersWithBrackets(v)) => {
                                let ghost before = props_view(props@);
                                let key = upper_chars(&prop_name);
                                props.push((key, DotToken::QuotedIdentifiersWithBrackets(v)));
                                assert(props_view(props@) =~= before.push(
                                    (ascii_upper(prop_name@), DotTokenView::QuotedIdentifiersWithBrackets(v@)),
                                ));
                            },
                            Some(DotToken::QuotedIdentifiers(v)) => {
                                let ghost before = props_view(props@);
                                let key = upper_chars(&prop_name);
                                props.push((key, DotToken::QuotedIdentifiers(v)));
                                assert(props_view(props@) =~= before.push(
                                    (ascii_upper(prop_name@), DotTokenView::QuotedIdentifiers(v@)),
                                ));
                            },
                            Some(DotToken::Identifier(_)) => {},
                            _ => {
                                return Err(SyntaxError::ExpectedPropertyValue(node_name.clone()));
                            },
                        }
                    },
                    _ => {
                        return Err(SyntaxError::ExpectedPropertyValue(node_name.clone()));
                    },
                }
            },
            Some(DotToken::CloseSpecification) => {
                return Ok(props);
            },
            Some(DotToken::Comma) => {},
            _ => {
                return Err(SyntaxError::ExpectedPropertyValue(node_name.clone()));
            },
        }
        proof {
            lex.lemma_wf();
        }
    }
}

/// Reads `[` and the properties of a node (see `node_specification`).
fn read_node_specification(lex: &mut DotLexer, node_name: &String)
    -> (res: Result<Vec<(Vec<char>, DotToken)>, SyntaxError>)
    requires
        old(lex).wf(),
    ensures
        final(lex).wf(),
        final(lex).src() == old(lex).src(),
        ({
            let (r, s, e) = node_specification(old(lex).src(), old(lex).end(), node_name@);
            &&& props_result_view(res) == r
            &&& final(lex).start() == s
            &&& final(lex).end() == e
        }),
{
    match lex.next_token() {
        Some(DotToken::OpenSpecification) => read_opened_node_specification(lex, node_name),
        _ => Err(SyntaxError::ExpectedNodeProperties(node_name.clone())),
    }
}

/// Reads the exit node of a function definition (see
/// `function_exit_node_name`).
fn parse_function_exit_node_name(lex: &mut DotLexer, node_name: &String) -> (res: Result<String, SyntaxError>)
    requires
        old(lex).wf(),
    ensures
        final(lex).wf(),
        final(lex).src() == old(lex).src(),
        ({
            let (r, s, e) = function_exit_node_name(old(lex).src(), old(lex).end(), node_name@);
            &&& match r {
                Ok(n) => res matches Ok(rn) && rn@ == n,
                Err(x) => res matches Err(rx) && rx@ == x,
            }
            &&& final(lex).start() == s
            &&& final(lex).end() == e
        }),
{
    match lex.next_token() {
        Some(DotToken::Identifier(name)) => {
            if !has_prefix(&name, &vec!['E', 'X', 'I', 'T', '_']) {
                Err(SyntaxError::ExpectedExitNode(node_name.clone()))
            } else {
                match read_node_specification(lex, &name) {
                    Err(x) => Err(x),
                    Ok(_) => Ok(name),
                }
            }
        },
        _ => Err(SyntaxError::ExpectedExitNode(node_name.clone())),
    }
}

/// Reads what follows `digraph` (see `digraph_head`).
fn handle_digraph(lex: &mut DotLexer) -> (res: Result<(), SyntaxError>)
    requires
        old(lex).wf(),
    ensures
        final(lex).wf(),
        final(lex).src() == old(lex).src(),
        ({
            let (r, s, e) = digraph_head(old(lex).src(), old(lex).end());
            &&& match r {
                Ok(_) => res is Ok,
                Err(x) => res matches Err(rx) && rx@ == x,
            }
            &&& final(lex).start() == s
            &&& final(lex).end() == e
        }),
{
    match lex.next_token() {
        None => Ok(()),
        Some(token) => match token {
            DotToken::Identifier(_) => match lex.next_token() {
                Some(DotToken::OpenDeclaration) => Ok(()),
                _ => Err(SyntaxError::ExpectedDigraphBody),
            },
            DotToken::OpenDeclaration => Ok(()),
            _ => Err(SyntaxError::ExpectedDigraphIdentifierOrBody),
        },
    }
}

/// Reads what follows `subgraph` (see `function_def`).
fn try_parse_function_def(lex: &mut DotLexer) -> (res: Result<Option<Function>, SyntaxError>)
    requires
        old(lex).wf(),
    ensures
        final(lex).wf(),
        final(lex).src() == old(lex).src(),
        ({
            let (r, s, e) = function_def(old(lex).src(), old(lex).end());
            &&& match r {
                Ok(None) => res matches Ok(None),
                Ok(Some(f)) => res matches Ok(Some(rf)) && rf@ == f,
                Err(x) => res matches Err(rx) && rx@ == x,
            }
            &&& final(lex).start() == s
            &&& final(lex).end() == e
        }),
{
    match lex.next_token() {
        Some(DotToken::Identifier(function_name)) => {
            if !has_prefix(&function_name, &vec!['d', 'e', 'f', '_']) {
                return Ok(None);
            }
            let function_name = suffix_from(&function_name, 4);
            match lex.next_token() {
                Some(DotToken::OpenDeclaration) => match lex.next_token() {
                    Some(DotToken::Identifier(node_name)) => {
                        if node_name != function_name {
                            Err(SyntaxError::SourceNodeMismatch(function_name))
                        } else {
                            let node_spec = match read_node_specification(lex, &node_name) {
                                Ok(spec) => spec,
                                Err(x) => return Err(x),
                            };
                            let (input_type, modifiers) = match parse_function_options(&node_name, &node_spec, false) {
                                Ok(options) => options,
                                Err(x) => return Err(x),
                            };
                            let exit_node_name = match parse_function_exit_node_name(lex, &node_name) {
                                Ok(name) => name,
                                Err(x) => return Err(x),
                            };
                            Ok(Some(Function {
                                source_node_name: node_name,
                                exit_node_name,
                                input_type,
                                modifiers,
                            }))
                        }
                    },
                    _ => Err(SyntaxError::ExpectedSourceNodeDefinition),
                },
                _ => Err(SyntaxError::ExpectedFunctionBody),
            }
        },
        Some(DotToken::OpenDeclaration) => Ok(None),
        _ => Err(SyntaxError::ExpectedSubgraphIdentifierOrBody),
    }
}

/// Reading properties ends within the input, where reading started or
/// later, on a non-empty span.
pub proof fn lemma_opened_node_specification_bounds(
    src: Seq<char>,
    end: int,
    node_name: Seq<char>,
    acc: Seq<(Seq<char>, DotTokenView)>,
)
    requires
        0 <= end <= src.len(),
    ensures
        ({
            let (r, s, e) = opened_node_specification(src, end, node_name, acc);
            end <= s <= e <= src.len()
        }),
    decreases src.len() - end,
{
    let (t1, s1, e1) = advance(src, end);
    lemma_advance(src, end);
    if let Some(DotTokenView::Identifier(prop_name)) = t1 {
        lemma_advance(src, e1);
        let (t2, s2, e2) = advance(src, e1);
        if let Some(DotTokenView::Equals) = t2 {
            lemma_advance(src, e2);
            let (t3, s3, e3) = advance(src, e2);
            match t3 {
                Some(DotTokenView::QuotedIdentifiersWithBrackets(v)) => {
                    lemma_opened_node_specification_bounds(src, e3, node_name,
                        acc.push((ascii_upper(prop_name), DotTokenView::QuotedIdentifiersWithBrackets(v))));
                },
                Some(DotTokenView::QuotedIdentifiers(v)) => {
                    lemma_opened_node_specification_bounds(src, e3, node_name,
                        acc.push((ascii_upper(prop_name), DotTokenView::QuotedIdentifiers(v))));
                },
                Some(DotTokenView::Identifier(_)) => {
                    lemma_opened_node_specification_bounds(src, e3, node_name, acc);
                },
                _ => {},
            }
        }
    } else if let Some(DotTokenView::Comma) = t1 {
        lemma_opened_node_specification_bounds(src, e1, node_name, acc);
    }
}

/// Reading `[` and properties ends within the input, where reading
/// started or later.
pub proof fn lemma_node_specification_bounds(src: Seq<char>, end: int, node_name: Seq<char>)
    requires
        0 <= end <= src.len(),
    ensures
        ({
            let (r, s, e) = node_specification(src, end, node_name);
            end <= s <= e <= src.len()
        }),
{
    lemma_advance(src, end);
    let (t, s, e) = advance(src, end);
    lemma_opened_node_specification_bounds(src, e, node_name, seq![]);
}

/// Reading the head of a digraph ends within the input, where reading
/// started or later.
pub proof fn lemma_digraph_head_bounds(src: Seq<char>, end: int)
    requires
        0 <= end <= src.len(),
    ensures
        ({
            let (r, s, e) = digraph_head(src, end);
            end <= s <= e <= src.len()
        }),
{
    lemma_advance(src, end);
    let (t, s, e) = advance(src, end);
    lemma_advance(src, e);
}

/// Reading the head of a function definition ends within the input,
/// where reading started or later.
pub proof fn lemma_function_def_bounds(src: Seq<char>, end: int)
    requires
        0 <= end <= src.len(),
    ensures
        ({
            let (r, s, e) = function_def(src, end);
            end <= s <= e <= src.len()
        }),
{
    lemma_advance(src, end);
    let (t, s, e) = advance(src, end);
    lemma_advance(src, e);
    let (t2, s2, e2) = advance(src, e);
    lemma_advance(src, e2);
    let (t3, s3, e3) = advance(src, e2);
    if let Some(DotTokenView::Identifier(node_name)) = t3 {
        lemma_node_specification_bounds(src, e3, node_name);
        let (r4, s4, e4) = node_specification(src, e3, node_name);
        lemma_advance(src, e4);
        let (t5, s5, e5) = advance(src, e4);
        if let Some(DotTokenView::Identifier(name)) = t5 {
            lemma_node_specification_bounds(src, e5, name);
        }
    }
}

/// The end of the run of decimal digits that starts at `i`.
pub open spec fn digits_end(s: Seq<char>, i: int) -> int
    decreases s.len() - i,
{
    if i < 0 || i >= s.len() {
        s.len() as int
    } else if '0' as u32 <= s[i] as u32 <= '9' as u32 {
        digits_end(s, i + 1)
    } else {
        i
    }
}

pub open spec fn call_prefix() -> Seq<char> {
    seq!['c', 'a', 'l', 'l']
}

/// Whether a node name is that of a call node, `call<digits>_<identifier>`
/// (the whole name matching `^call[0-9]+_[A-Za-z_][A-Za-z0-9_]*$`).
pub open spec fn is_call_node_name(name: Seq<char>) -> bool {
    let d = digits_end(name, 4);
    &&& starts_with(name, call_prefix())
    &&& d > 4
    &&& d + 1 < name.len()
    &&& name[d] == '_'
    &&& is_ident_start(name[d + 1])
    &&& forall|k: int| d + 1 < k < name.len() ==> is_ident_char(#[trigger] name[k])
}

/// What follows the first `_` of a name.
pub open spec fn after_first_underscore(name: Seq<char>) -> Seq<char> {
    name.skip(find_char(name, 0, '_') + 1)
}

pub open spec fn on_word() -> Seq<char> {
    seq!['o', 'n']
}

pub open spec fn off_word() -> Seq<char> {
    seq!['o', 'f', 'f']
}

/// The mode of a trigger: `Some(true)` for `"on"`, `Some(false)` for
/// `"off"`, `None` where it is neither or missing.
pub open spec fn trigger_mode(props: Seq<(Seq<char>, DotTokenView)>) -> Option<bool> {
    match prop_lookup(props, key_trigger_mode()) {
        Some(DotTokenView::QuotedIdentifiers(mode)) => if mode == on_word() {
            Some(true)
        } else if mode == off_word() {
            Some(false)
        } else {
            None
        },
        _ => None,
    }
}

/// The code unit that a node `node_name[props]` makes: a call node where
/// its name is that of one (with the options of `function_options`),
/// otherwise a node definition.
pub open spec fn node_unit(node_name: Seq<char>, props: Seq<(Seq<char>, DotTokenView)>)
    -> Result<CodeUnitView, SyntaxErrorView>
{
    let option_name = match prop_lookup(props, key_optional()) {
        Some(DotTokenView::QuotedIdentifiers(idents)) => Some(idents),
        _ => None,
    };
    let literal = match prop_lookup(props, key_literal()) {
        Some(DotTokenView::QuotedIdentifiers(idents)) => idents == seq!['t'],
        _ => false,
    };
    match prop_lookup(props, key_trigger()) {
        Some(DotTokenView::QuotedIdentifiers(idents)) if trigger_mode(props) is None =>
            Err(SyntaxErrorView::MissingTriggerMode(idents)),
        trigger_prop => {
            let trigger = match trigger_prop {
                Some(DotTokenView::QuotedIdentifiers(idents)) => Some((idents, trigger_mode(props)->0)),
                _ => None,
            };
            if is_call_node_name(node_name) {
                match function_options(node_name, props, true) {
                    Err(e) => Err(e),
                    Ok((inputs, modifiers)) => if literal {
                        Err(SyntaxErrorView::LiteralCallNode(node_name))
                    } else {
                        Ok(CodeUnitView::Call {
                            node_name,
                            func_name: after_first_underscore(node_name),
                            inputs,
                            modifiers,
                            option_name,
                        })
                    },
                }
            } else {
                Ok(CodeUnitView::NodeDef { name: node_name, option_name, literal, trigger })
            }
        },
    }
}

/// Whether property `key` holds the quoted text `value`, the one read last
/// under that name.
pub open spec fn prop_text_is(props: Seq<(Seq<char>, DotTokenView)>, key: Seq<char>, value: Seq<char>) -> bool {
    prop_lookup(props, key) == Some(DotTokenView::QuotedIdentifiers(value))
}

/// A node `node_name[props]` read without error is a call node exactly
/// where its name is that of one (`call<digits>_<function>`), otherwise a
/// node definition, named `node_name` either way. It keeps the quoted
/// `OPTIONAL` property as its option name (and has none where there is no
/// such property). A call node names the function that follows the first
/// underscore of its name, and is never literal (a `LITERAL="t"` on it is an
/// error); a node definition is literal exactly where `LITERAL="t"`.
pub proof fn lemma_node_unit_fields(n: Seq<char>, props: Seq<(Seq<char>, DotTokenView)>, x: Seq<char>)
    ensures
        node_unit(n, props) is Ok ==> (node_unit(n, props)->Ok_0 is Call) == is_call_node_name(n),
        node_unit(n, props) is Ok ==> (node_unit(n, props)->Ok_0 is Call || node_unit(n, props)->Ok_0 is NodeDef),
        node_unit(n, props) matches Ok(CodeUnitView::Call { node_name, func_name, option_name, .. }) ==> {
            &&& node_name == n
            &&& (prop_text_is(props, key_optional(), x) ==> option_name == Some(x))
            &&& (!(prop_lookup(props, key_optional()) matches Some(DotTokenView::QuotedIdentifiers(_))) ==> option_name is None)
            &&& func_name.len() < n.len()
            &&& n.subrange(n.len() - func_name.len(), n.len() as int) == func_name
            &&& n[n.len() - func_name.len() - 1] == '_'
            &&& !prop_text_is(props, key_literal(), seq!['t'])
        },
        node_unit(n, props) matches Ok(CodeUnitView::NodeDef { name, option_name, literal, .. }) ==> {
            &&& name == n
            &&& (prop_text_is(props, key_optional(), x) ==> option_name == Some(x))
            &&& (!(prop_lookup(props, key_optional()) matches Some(DotTokenView::QuotedIdentifiers(_))) ==> option_name is None)
            &&& literal == prop_text_is(props, key_literal(), seq!['t'])
        },
        is_call_node_name(n) && prop_text_is(props, key_literal(), seq!['t']) ==> node_unit(n, props) is Err,
{
    if is_call_node_name(n) {
        lemma_find_char_bounds(n, 0, '_');
        assert(n[digits_end(n, 4)] == '_');
        assert(find_char(n, 0, '_') <= digits_end(n, 4)) by {
            lemma_find_char_bounds(n, 0, '_');
        }
        let k = find_char(n, 0, '_');
        let f = after_first_underscore(n);
        assert(f == n.skip(k + 1));
        assert(n.subrange(n.len() - f.len(), n.len() as int) =~= f);
    }
}

/// Where a graph description is being read: the span of the token read
/// last, whether a `digraph` was met, and whether a function definition
/// is open.
pub struct TokenizerState {
    pub start: int,
    pub end: int,
    pub digraph_defined: bool,
    pub in_function_definition: bool,
}

/// The state with the span of another token read.
pub open spec fn at_span(st: TokenizerState, start: int, end: int) -> TokenizerState {
    TokenizerState {
        start,
        end,
        digraph_defined: st.digraph_defined,
        in_function_definition: st.in_function_definition,
    }
}

/// Reading the next code unit from state `st` (`ignore_subgraph`: while
/// inside the body of a subgraph that is not a function definition,
/// whose content is skipped): the new state, and the code unit or the
/// error, or `None` at the end of the input.
pub open spec fn next_unit_from(src: Seq<char>, st: TokenizerState, ignore_subgraph: bool)
    -> (TokenizerState, Option<Result<CodeUnitView, SyntaxErrorView>>)
    decreases src.len() - st.end,
{
    if st.end < 0 || st.end > src.len() {
        (st, None)
    } else if ignore_subgraph {
        let (t, s, e) = advance(src, st.end);
        proof {
            lemma_advance(src, st.end);
        }
        let st1 = at_span(st, s, e);
        match t {
            None => (st1, None),
            Some(DotTokenView::OpenDeclaration) => (st1, Some(Err(SyntaxErrorView::NestedBracesInSubgraph))),
            Some(DotTokenView::CloseDeclaration) => next_unit_from(src, st1, false),
            Some(_) => next_unit_from(src, st1, true),
        }
    } else {
        let (t, s, e) = advance(src, st.end);
        proof {
            lemma_advance(src, st.end);
        }
        let st1 = at_span(st, s, e);
        match t {
            None => (st1, None),
            Some(DotTokenView::Error) => next_unit_from(src, st1, false),
            Some(DotTokenView::Digraph) => if st.digraph_defined {
                (st1, Some(Err(SyntaxErrorView::MultipleDigraphs)))
            } else {
                let (r, s2, e2) = digraph_head(src, e);
                proof {
                    lemma_digraph_head_bounds(src, e);
                }
                match r {
                    Err(x) => (at_span(st, s2, e2), Some(Err(x))),
                    Ok(_) => next_unit_from(
                        src,
                        TokenizerState {
                            start: s2,
                            end: e2,
                            digraph_defined: true,
                            in_function_definition: st.in_function_definition,
                        },
                        false,
                    ),
                }
            },
            Some(DotTokenView::Subgraph) => {
                let (r, s2, e2) = function_def(src, e);
                proof {
                    lemma_function_def_bounds(src, e);
                    lemma_advance(src, e2);
                }
                match r {
                    Ok(Some(f)) => if st.in_function_definition {
                        (at_span(st, s2, e2), Some(Err(SyntaxErrorView::NestedFunctionDefinitions)))
                    } else {
                        (
                            TokenizerState {
                                start: s2,
                                end: e2,
                                digraph_defined: st.digraph_defined,
                                in_function_definition: true,
                            },
                            Some(Ok(CodeUnitView::Function(f))),
                        )
                    },
                    Ok(None) => {
                        let (t3, s3, e3) = advance(src, e2);
                        let st3 = at_span(st, s3, e3);
                        match t3 {
                            None => (st3, None),
                            Some(DotTokenView::OpenDeclaration) => next_unit_from(src, st3, true),
                            Some(_) => (st3, Some(Err(SyntaxErrorView::ExpectedSubgraphBody(src.subrange(s3, e3))))),
                        }
                    },
                    Err(x) => (at_span(st, s2, e2), Some(Err(x))),
                }
            },
            Some(DotTokenView::Identifier(node_name)) => {
                let (t2, s2, e2) = advance(src, e);
                match t2 {
                    Some(DotTokenView::OpenSpecification) => {
                        let (r, s3, e3) = opened_node_specification(src, e2, node_name, seq![]);
                        match r {
                            Ok(props) => (at_span(st, s3, e3), Some(node_unit(node_name, props))),
                            Err(x) => (at_span(st, s3, e3), Some(Err(x))),
                        }
                    },
                    Some(DotTokenView::Arrow) => {
                        let (t3, s3, e3) = advance(src, e2);
                        match t3 {
                            Some(DotTokenView::Identifier(node_name_to)) => (
                                at_span(st, s3, e3),
                                Some(Ok(CodeUnitView::Edge { node_name_from: node_name, node_name_to })),
                            ),
                            _ => (at_span(st, s3, e3), Some(Err(SyntaxErrorView::ExpectedIdentifierAfterArrow(node_name)))),
                        }
                    },
                    _ => (at_span(st, s2, e2), Some(Err(SyntaxErrorView::ExpectedNodeOrEdge(node_name)))),
                }
            },
            Some(DotTokenView::QuotedIdentifiers(name)) =>
                (st1, Some(Err(SyntaxErrorView::QuotedIdentifierNotSupported(name)))),
            Some(DotTokenView::QuotedIdentifiersWithBrackets(name)) =>
                (st1, Some(Err(SyntaxErrorView::QuotedIdentifierNotSupported(name)))),
            Some(DotTokenView::CloseDeclaration) => if st.in_function_definition {
                (
                    TokenizerState {
                        start: s,
                        end: e,
                        digraph_defined: st.digraph_defined,
                        in_function_definition: false,
                    },
                    Some(Ok(CodeUnitView::CloseDeclaration)),
                )
            } else {
                next_unit_from(src, st1, false)
            },
            Some(any) => (st1, Some(Err(SyntaxErrorView::UnexpectedToken(any, src.subrange(s, e))))),
        }
    }
}

/// Whether `name` is the name of a call node (see `is_call_node_name`).
fn call_node_name(name: &String) -> (res: bool)
    ensures
        res == is_call_node_name(name@),
{
    if !has_prefix(name, &vec!['c', 'a', 'l', 'l']) {
        return false;
    }
    let chars = chars_of(name.as_str());
    let mut d: usize = 4;
    while d < chars.len() && '0' as u32 <= chars[d] as u32 && chars[d] as u32 <= '9' as u32
        invariant
            chars@ == name@,
            4 <= d <= chars.len(),
            digits_end(name@, d as int) == digits_end(name@, 4),
        decreases chars.len() - d,
    {
        d = d + 1;
    }
    assert(digits_end(name@, d as int) == d);
    if d == 4 || d >= chars.len() || d + 1 >= chars.len() || chars[d] != '_' || !ident_start(chars[d + 1]) {
        return false;
    }
    let mut k = d + 2;
    while k < chars.len()
        invariant
            chars@ == name@,
            d + 2 <= k <= chars.len(),
            digits_end(name@, 4) == d as int,
            forall|m: int| d + 1 < m < k ==> is_ident_char(#[trigger] name@[m]),
        decreases chars.len() - k,
    {
        if !ident_char(chars[k]) {
            assert(!is_ident_char(name@[k as int]));
            return false;
        }
        k = k + 1;
    }
    true
}

/// What follows the first `_` of `name`, which has one.
fn name_after_underscore(name: &String) -> (res: String)
    requires
        name@.contains('_'),
    ensures
        res@ == after_first_underscore(name@),
{
    let chars = chars_of(name.as_str());
    let k = find_char_from(&chars, 0, '_');
    proof {
        lemma_find_char_bounds(name@, 0, '_');
        let j = choose|j: int| 0 <= j < name@.len() && name@[j] == '_';
        assert(name@[j] == '_');
    }
    let res = string_from_range(&chars, k + 1, chars.len());
    assert(res@ =~= after_first_underscore(name@));
    res
}

/// The quoted text of a property, if it has one.
fn quoted_value(props: &Vec<(Vec<char>, DotToken)>, key: &Vec<char>) -> (res: Option<String>)
    ensures
        match prop_lookup(props_view(props@), key@) {
            Some(DotTokenView::QuotedIdentifiers(v)) => res matches Some(r) && r@ == v,
            _ => res is None,
        },
{
    match lookup(props, key) {
        Some(DotToken::QuotedIdentifiers(v)) => Some(v.clone()),
        _ => None,
    }
}

/// Makes the code unit of a node `node_name[...]` from its properties
/// (see `node_unit`).
fn make_node_unit(node_name: String, node_spec: &Vec<(Vec<char>, DotToken)>) -> (res: Result<CodeUnit, SyntaxError>)
    ensures
        match node_unit(node_name@, props_view(node_spec@)) {
            Ok(u) => res matches Ok(ru) && ru@ == u,
            Err(x) => res matches Err(rx) && rx@ == x,
        },
{
    let option_name = quoted_value(node_spec, &vec!['O', 'P', 'T', 'I', 'O', 'N', 'A', 'L']);
    let trigger = match quoted_value(node_spec, &vec!['t', 'r', 'i', 'g', 'g', 'e', 'r']) {
        Some(idents) => {
            let trigger_on = match quoted_value(node_spec, &vec!['t', 'r', 'i', 'g', 'g', 'e', 'r', '_', 'm', 'o', 'd', 'e']) {
                Some(mode_name) => {
                    if string_is(&mode_name, &vec!['o', 'n']) {
                        Some(true)
                    } else if string_is(&mode_name, &vec!['o', 'f', 'f']) {
                        Some(false)
                    } else {
                        None
                    }
                },
                None => None,
            };
            let trigger_on = match trigger_on {
                Some(v) => v,
                None => return Err(SyntaxError::MissingTriggerMode(idents)),
            };
            Some((idents, trigger_on))
        },
        None => None,
    };
    let literal = match quoted_value(node_spec, &vec!['L', 'I', 'T', 'E', 'R', 'A', 'L']) {
        Some(idents) => {
            let t_word = vec!['t'];
            assert(t_word@ =~= seq!['t']);
            string_is(&idents, &t_word)
        },
        None => false,
    };
    let ghost props = props_view(node_spec@);
    assert(opt_string_view(option_name) == match prop_lookup(props, key_optional()) {
        Some(DotTokenView::QuotedIdentifiers(idents)) => Some(idents),
        _ => None,
    });
    assert(literal == match prop_lookup(props, key_literal()) {
        Some(DotTokenView::QuotedIdentifiers(idents)) => idents == seq!['t'],
        _ => false,
    });
    assert(match trigger {
        Some((t, on)) => Some((t@, on)),
        None => None,
    } == match prop_lookup(props, key_trigger()) {
        Some(DotTokenView::QuotedIdentifiers(idents)) => Some((idents, trigger_mode(props)->0)),
        _ => None,
    });
    if call_node_name(&node_name) {
        let (input_type, modifiers) = match parse_function_options(&node_name, node_spec, true) {
            Ok(options) => options,
            Err(err) => return Err(err),
        };
        if literal {
            return Err(SyntaxError::LiteralCallNode(node_name));
        }
        proof {
            let d = digits_end(node_name@, 4);
            assert(node_name@[d] == '_');
        }
        let func_name = name_after_underscore(&node_name);
        Ok(CodeUnit::Call { node_name, func_name, inputs: input_type, modifiers, option_name })
    } else {
        Ok(CodeUnit::NodeDef { name: node_name, option_name, literal, trigger })
    }
}

/// A code unit read, or the error, or the end of the input.
pub open spec fn unit_view(r: Option<Result<CodeUnit, SyntaxError>>) -> Option<Result<CodeUnitView, SyntaxErrorView>> {
    match r {
        None => None,
        Some(Ok(u)) => Some(Ok(u@)),
        Some(Err(x)) => Some(Err(x@)),
    }
}

/// Reads a graph description code unit by code unit.
pub struct DotTokenizer {
    lexer: DotLexer,
    digraph_defined: bool,
    in_function_definition: bool,
}

impl DotTokenizer {
    /// The characters of the graph description.
    pub closed spec fn src(&self) -> Seq<char> {
        self.lexer.src()
    }

    /// Where reading stands.
    pub closed spec fn state(&self) -> TokenizerState {
        TokenizerState {
            start: self.lexer.start(),
            end: self.lexer.end(),
            digraph_defined: self.digraph_defined,
            in_function_definition: self.in_function_definition,
        }
    }

    pub closed spec fn wf(&self) -> bool {
        self.lexer.wf()
    }

    /// A reader at the start of `source`.
    pub fn from_str(source: &str) -> (res: DotTokenizer)
        ensures
            res.wf(),
            res.src() == source@,
            res.state() == (TokenizerState {
                start: 0,
                end: 0,
                digraph_defined: false,
                in_function_definition: false,
            }),
    {
        DotTokenizer { lexer: DotLexer::new(source), digraph_defined: false, in_function_definition: false }
    }

    /// Reads the next code unit (see `next_unit_from`): `None` at the end
    /// of the input.
    #[verifier::rlimit(60)]
    pub fn next(&mut self) -> (res: Option<Result<CodeUnit, SyntaxError>>)
        requires
            old(self).wf(),
        ensures
            final(self).wf(),
            final(self).src() == old(self).src(),
            (final(self).state(), unit_view(res)) == next_unit_from(old(self).src(), old(self).state(), false),
    {
        let ghost src = self.src();
        let ghost target = next_unit_from(src, self.state(), false);
        let mut ignore_subgraph = false;
        proof {
            self.lexer.lemma_wf();
        }
        loop
            invariant
                self.wf(),
                self.src() == src,
                src == old(self).src(),
                target == next_unit_from(old(self).src(), old(self).state(), false),
                0 <= self.state().end <= src.len(),
                next_unit_from(src, self.state(), ignore_subgraph) == target,
            decreases src.len() - self.state().end,
        {
            let ghost st0 = self.state();
            proof {
                lemma_advance(src, st0.end);
            }
            if ignore_subgraph {
                match self.lexer.next_token() {
                    None => {
                        return None;
                    },
                    Some(DotToken::OpenDeclaration) => {
                        return Some(Err(SyntaxError::NestedBracesInSubgraph));
                    },
                    Some(DotToken::CloseDeclaration) => {
                        ignore_subgraph = false;
                    },
                    Some(_) => {
                        proof {
                            self.lexer.lemma_wf();
                        }
                        continue;
                    },
                }
            }
            let ghost st1 = self.state();
            proof {
                self.lexer.lemma_wf();
                lemma_advance(src, st1.end);
            }
            assert(next_unit_from(src, st1, false) == target);
            match self.lexer.next_token() {
                None => {
                    return None;
                },
                Some(DotToken::Error) => {},
                Some(DotToken::Digraph) => {
                    if self.digraph_defined {
                        return Some(Err(SyntaxError::MultipleDigraphs));
                    }
                    proof {
                        self.lexer.lemma_wf();
                        lemma_digraph_head_bounds(src, self.lexer.end());
                    }
                    if let Err(err) = handle_digraph(&mut self.lexer) {
                        return Some(Err(err));
                    }
                    self.digraph_defined = true;
                },
                Some(DotToken::Subgraph) => {
                    proof {
                        self.lexer.lemma_wf();
                        lemma_function_def_bounds(src, self.lexer.end());
                    }
                    match try_parse_function_def(&mut self.lexer) {
                        Ok(Some(func)) => {
                            if self.in_function_definition {
                                return Some(Err(SyntaxError::NestedFunctionDefinitions));
                            } else {
                                self.in_function_definition = true;
                                return Some(Ok(CodeUnit::Function(func)));
                            }
                        },
                        Ok(None) => {
                            proof {
                                self.lexer.lemma_wf();
                                lemma_advance(src, self.lexer.end());
                            }
                            match self.lexer.next_token() {
                                None => {
                                    return None;
                                },
                                Some(DotToken::OpenDeclaration) => {
                                    ignore_subgraph = true;
                                },
                                Some(_) => {
                                    return Some(Err(SyntaxError::ExpectedSubgraphBody(self.lexer.slice())));
                                },
                            }
                        },
                        Err(err) => {
                            return Some(Err(err));
                        },
                    }
                },
                Some(DotToken::Identifier(node_name)) => {
                    match self.lexer.next_token() {
                        Some(DotToken::OpenSpecification) => {
                            match read_opened_node_specification(&mut self.lexer, &node_name) {
                                Ok(node_spec) => {
                                    return Some(make_node_unit(node_name, &node_spec));
                                },
                                Err(err) => {
                                    return Some(Err(err));
                                },
                            }
                        },
                        Some(DotToken::Arrow) => {
                            match self.lexer.next_token() {
                                Some(DotToken::Identifier(node_name_to)) => {
                                    return Some(Ok(CodeUnit::Edge { node_name_from: node_name, node_name_to }));
                                },
                                _ => {
                                    return Some(Err(SyntaxError::ExpectedIdentifierAfterArrow(node_name)));
                                },
                            }
                        },
                        _ => {
                            return Some(Err(SyntaxError::ExpectedNodeOrEdge(node_name)));
                        },
                    }
                },
                Some(DotToken::QuotedIdentifiers(name)) => {
                    return Some(Err(SyntaxError::QuotedIdentifierNotSupported(name)));
                },
                Some(DotToken::QuotedIdentifiersWithBrackets(name)) => {
                    return Some(Err(SyntaxError::QuotedIdentifierNotSupported(name)));
                },
                Some(DotToken::CloseDeclaration) => {
                    if self.in_function_definition {
                        self.in_function_definition = false;
                        return Some(Ok(CodeUnit::CloseDeclaration));
                    }
                },
                Some(any) => {
                    let text = self.lexer.slice();
                    return Some(Err(SyntaxError::UnexpectedToken(any, text)));
                },
            }
            proof {
                self.lexer.lemma_wf();
            }
        }
    }
}

/// Whether a property name holds no lower-case ASCII letter.
pub open spec fn is_upper_key(key: Seq<char>) -> bool {
    forall|i: int| 0 <= i < key.len() ==> !(97 <= #[trigger] key[i] as u32 <= 122)
}

/// Whether all property names hold no lower-case ASCII letter.
pub open spec fn all_upper_keys(props: Seq<(Seq<char>, DotTokenView)>) -> bool {
    forall|i: int| 0 <= i < props.len() ==> is_upper_key(#[trigger] props[i].0)
}

/// The property names read are upper-cased.
pub proof fn lemma_opened_node_specification_upper(
    src: Seq<char>,
    end: int,
    node_name: Seq<char>,
    acc: Seq<(Seq<char>, DotTokenView)>,
)
    requires
        0 <= end <= src.len(),
        all_upper_keys(acc),
    ensures
        opened_node_specification(src, end, node_name, acc).0 matches Ok(props) ==> all_upper_keys(props),
        opened_node_specification(src, end, node_name, acc).0 matches Err(e) ==> e == SyntaxErrorView::ExpectedPropertyValue(node_name),
    decreases src.len() - end,
{
    let (t1, s1, e1) = advance(src, end);
    lemma_advance(src, end);
    if let Some(DotTokenView::Identifier(prop_name)) = t1 {
        lemma_advance(src, e1);
        let (t2, s2, e2) = advance(src, e1);
        if let Some(DotTokenView::Equals) = t2 {
            lemma_advance(src, e2);
            let (t3, s3, e3) = advance(src, e2);
            let key = ascii_upper(prop_name);
            assert(is_upper_key(key));
            match t3 {
                Some(DotTokenView::QuotedIdentifiersWithBrackets(v)) => {
                    let acc2 = acc.push((key, DotTokenView::QuotedIdentifiersWithBrackets(v)));
                    assert(all_upper_keys(acc2));
                    lemma_opened_node_specification_upper(src, e3, node_name, acc2);
                },
                Some(DotTokenView::QuotedIdentifiers(v)) => {
                    let acc2 = acc.push((key, DotTokenView::QuotedIdentifiers(v)));
                    assert(all_upper_keys(acc2));
                    lemma_opened_node_specification_upper(src, e3, node_name, acc2);
                },
                Some(DotTokenView::Identifier(_)) => {
                    lemma_opened_node_specification_upper(src, e3, node_name, acc);
                },
                _ => {},
            }
        }
    } else if let Some(DotTokenView::Comma) = t1 {
        lemma_opened_node_specification_upper(src, e1, node_name, acc);
    }
}

/// Among upper-cased property names, the lower-case `trigger` is never
/// found.
/// This records a slip in the reader, not a design: property names are
/// stored upper-cased while the trigger is looked up by its lower-case
/// name, so trigger properties, which `MissingTriggerMode` shows were meant
/// to be read, are never found.
pub proof fn lemma_no_trigger(props: Seq<(Seq<char>, DotTokenView)>)
    requires
        all_upper_keys(props),
    ensures
        prop_lookup(props, key_trigger()) is None,
    decreases props.len(),
{
    if props.len() > 0 {
        assert(is_upper_key(props[props.len() - 1].0));
        if props.last().0 == key_trigger() {
            assert(props.last().0[0] == 't');
        }
        assert(all_upper_keys(props.drop_last()));
        lemma_no_trigger(props.drop_last());
    }
}

/// Reading the head of a function definition never fails for want of a
/// trigger mode (see `lemma_no_trigger`: a slip in the reader, not a
/// design).
pub proof fn lemma_function_def_no_trigger_error(src: Seq<char>, end: int)
    requires
        0 <= end <= src.len(),
    ensures
        !(function_def(src, end).0 matches Err(SyntaxErrorView::MissingTriggerMode(_))),
{
    lemma_advance(src, end);
    let (t, s, e) = advance(src, end);
    lemma_advance(src, e);
    let (t2, s2, e2) = advance(src, e);
    lemma_advance(src, e2);
    let (t3, s3, e3) = advance(src, e2);
    if let Some(DotTokenView::Identifier(node_name)) = t3 {
        lemma_advance(src, e3);
        let (t4, s4, e4) = advance(src, e3);
        lemma_opened_node_specification_upper(src, e4, node_name, seq![]);
        lemma_node_specification_bounds(src, e3, node_name);
        let (r4, s4b, e4b) = node_specification(src, e3, node_name);
        lemma_advance(src, e4b);
        let (t5, s5, e5) = advance(src, e4b);
        if let Some(DotTokenView::Identifier(name)) = t5 {
            lemma_advance(src, e5);
            let (t6, s6, e6) = advance(src, e5);
            lemma_opened_node_specification_upper(src, e6, name, seq![]);
        }
    }
}

/// A node read never carries a trigger, nor fails for want of a trigger
/// mode, where its property names are upper-cased (see `lemma_no_trigger`:
/// a slip in the reader, not a design).
pub proof fn lemma_node_unit_no_trigger(node_name: Seq<char>, props: Seq<(Seq<char>, DotTokenView)>)
    requires
        all_upper_keys(props),
    ensures
        !(node_unit(node_name, props) matches Ok(CodeUnitView::NodeDef { trigger: Some(_), .. })),
        !(node_unit(node_name, props) matches Err(SyntaxErrorView::MissingTriggerMode(_))),
{
    lemma_no_trigger(props);
}

/// Reading code units: reading never goes back and stays within the input;
/// once a `digraph` was met it stays met; a function definition is only
/// read while none is open, and opens one; a closing brace is only a code
/// unit while one is open, and closes it; no other code unit changes
/// whether one is open. Node definitions never carry a trigger (property
/// names are read upper-cased and the trigger is looked up in lower case),
/// so a missing trigger mode is never an error; that is a slip in the
/// reader, not a design (see `lemma_no_trigger`).
#[verifier::rlimit(60)]
pub proof fn lemma_next_unit_from(src: Seq<char>, st: TokenizerState, ignore_subgraph: bool)
    requires
        0 <= st.end <= src.len(),
    ensures
        st.end <= next_unit_from(src, st, ignore_subgraph).0.end <= src.len(),
        st.digraph_defined ==> next_unit_from(src, st, ignore_subgraph).0.digraph_defined,
        (next_unit_from(src, st, ignore_subgraph).1 matches Some(Ok(CodeUnitView::Function(_))))
            ==> !st.in_function_definition && next_unit_from(src, st, ignore_subgraph).0.in_function_definition,
        (next_unit_from(src, st, ignore_subgraph).1 matches Some(Ok(CodeUnitView::CloseDeclaration)))
            ==> st.in_function_definition && !next_unit_from(src, st, ignore_subgraph).0.in_function_definition,
        !(next_unit_from(src, st, ignore_subgraph).1 matches Some(Ok(CodeUnitView::Function(_))))
            && !(next_unit_from(src, st, ignore_subgraph).1 matches Some(Ok(CodeUnitView::CloseDeclaration)))
            ==> next_unit_from(src, st, ignore_subgraph).0.in_function_definition == st.in_function_definition,
        !(next_unit_from(src, st, ignore_subgraph).1 matches Some(Ok(CodeUnitView::NodeDef { trigger: Some(_), .. }))),
        !(next_unit_from(src, st, ignore_subgraph).1 matches Some(Err(SyntaxErrorView::MissingTriggerMode(_)))),
    decreases src.len() - st.end,
{
    let (t, s, e) = advance(src, st.end);
    lemma_advance(src, st.end);
    let st1 = at_span(st, s, e);
    if ignore_subgraph {
        match t {
            Some(DotTokenView::CloseDeclaration) => lemma_next_unit_from(src, st1, false),
            Some(DotTokenView::OpenDeclaration) => {},
            Some(_) => lemma_next_unit_from(src, st1, true),
            None => {},
        }
    } else {
        match t {
            Some(DotTokenView::Error) => lemma_next_unit_from(src, st1, false),
            Some(DotTokenView::Digraph) => {
                if !st.digraph_defined {
                    lemma_digraph_head_bounds(src, e);
                    let (r, s2, e2) = digraph_head(src, e);
                    if r is Ok {
                        lemma_next_unit_from(
                            src,
                            TokenizerState {
                                start: s2,
                                end: e2,
                                digraph_defined: true,
                                in_function_definition: st.in_function_definition,
                            },
                            false,
                        );
                    }
                }
            },
            Some(DotTokenView::Subgraph) => {
                lemma_function_def_bounds(src, e);
                lemma_function_def_no_trigger_error(src, e);
                let (r, s2, e2) = function_def(src, e);
                lemma_advance(src, e2);
                if let Ok(None) = r {
                    let (t3, s3, e3) = advance(src, e2);
                    if let Some(DotTokenView::OpenDeclaration) = t3 {
                        lemma_next_unit_from(src, at_span(st, s3, e3), true);
                    }
                }
            },
            Some(DotTokenView::Identifier(node_name)) => {
                lemma_advance(src, e);
                let (t2, s2, e2) = advance(src, e);
                lemma_advance(src, e2);
                if let Some(DotTokenView::OpenSpecification) = t2 {
                    lemma_opened_node_specification_bounds(src, e2, node_name, seq![]);
                    lemma_opened_node_specification_upper(src, e2, node_name, seq![]);
                    let (r, s3, e3) = opened_node_specification(src, e2, node_name, seq![]);
                    if let Ok(props) = r {
                        lemma_node_unit_no_trigger(node_name, props);
                    }
                }
            },
            Some(DotTokenView::CloseDeclaration) => {
                if !st.in_function_definition {
                    lemma_next_unit_from(src, st1, false);
                }
            },
            _ => {},
        }
    }
}

/// How a token is written in a message: its kind, and its text in quotes
/// where it has one.
pub open spec fn token_name(t: DotTokenView) -> Seq<char> {
    match t {
        DotTokenView::Error => "Error"@,
        DotTokenView::Digraph => "Digraph"@,
        DotTokenView::Subgraph => "Subgraph"@,
        DotTokenView::OpenDeclaration => "OpenDeclaration"@,
        DotTokenView::CloseDeclaration => "CloseDeclaration"@,
        DotTokenView::OpenSpecification => "OpenSpecification"@,
        DotTokenView::CloseSpecification => "CloseSpecification"@,
        DotTokenView::Comma => "Comma"@,
        DotTokenView::Equals => "Equals"@,
        DotTokenView::Arrow => "Arrow"@,
        DotTokenView::Identifier(x) => "Identifier(\""@ + x + "\")"@,
        DotTokenView::QuotedIdentifiers(x) => "QuotedIdentifiers(\""@ + x + "\")"@,
        DotTokenView::QuotedIdentifiersWithBrackets(x) => "QuotedIdentifiersWithBrackets(\""@ + x + "\")"@,
    }
}

/// The message of a syntax error.
pub open spec fn syntax_error_message(e: SyntaxErrorView) -> Seq<char> {
    match e {
        SyntaxErrorView::NestedBracesInSubgraph => "Nested braces {} in subgraphs are not supported"@,
        SyntaxErrorView::MultipleDigraphs => "multiple digraph definitions are not supported"@,
        SyntaxErrorView::NestedFunctionDefinitions => "nested functional node definitions are not supported"@,
        SyntaxErrorView::ExpectedSubgraphBody(t) => "Expected subgraph body: "@ + t,
        SyntaxErrorView::MissingTriggerMode(t) => "Expected trigger_mode=\"on\" or trigger_mode=\"off\" after trigger=\""@ + t + "\""@,
        SyntaxErrorView::LiteralCallNode(t) => "call nodes can't be declaread as literal (node "@ + t + ")"@,
        SyntaxErrorView::ExpectedIdentifierAfterArrow(t) => "Expected an identifier after arrow: "@ + t + " -> ..."@,
        SyntaxErrorView::ExpectedNodeOrEdge(t) => "Expected node definition ("@ + t + "[...]) or edge definition ("@ + t + " -> ...)"@,
        SyntaxErrorView::QuotedIdentifierNotSupported(t) => "Quoted identifiers are not supported: \""@ + t + "\""@,
        SyntaxErrorView::ExpectedDigraphBody => "expected digraph body"@,
        SyntaxErrorView::ExpectedDigraphIdentifierOrBody => "expected digraph identifier or digraph body"@,
        SyntaxErrorView::SourceNodeMismatch(t) => "Source node definition should be the first in the subgraph def_"@ + t + " and should be named "@ + t,
        SyntaxErrorView::ExpectedSourceNodeDefinition => "expected source node definition"@,
        SyntaxErrorView::ExpectedFunctionBody => "expected subgraph body"@,
        SyntaxErrorView::ExpectedSubgraphIdentifierOrBody => "expected subgraph identifier or subgraph body"@,
        SyntaxErrorView::CallTypeTakesOneParameter(t) => "call..._"@ + t + "[TYPE=... takes only 1 parameter"@,
        SyntaxErrorView::TypeNotUnbracketed(t) => t + "[TYPE=... should take unbracketed form: TYPE=\".., \""@,
        SyntaxErrorView::TypesNotBracketed(t) => t + "[TYPES=... should take bracketed form: TYPES=\"[.., ]\""@,
        SyntaxErrorView::ModNotBracketed(t) => t + "[MOD=... should take bracketed form: MOD=\"[.., ]\""@,
        SyntaxErrorView::ExpectedExitNode(t) => "Exit node should be defined after the "@ + t + " definition: EXIT_"@ + t + "[...]"@,
        SyntaxErrorView::ExpectedNodeProperties(t) => "expected source node properties specifier "@ + t + "[...]"@,
        SyntaxErrorView::ExpectedPropertyValue(t) => "expected source node property value: "@ + t + "[PROP=\"VAL\", ...] or empty brackets: "@ + t + "[]"@,
        SyntaxErrorView::UnexpectedToken(t, text) => "Unexpected "@ + token_name(t) + " : "@ + text,
    }
}

/// The results of `n` successive readings of code units from state `st`.
pub open spec fn units_from(src: Seq<char>, st: TokenizerState, n: nat)
    -> Seq<Option<Result<CodeUnitView, SyntaxErrorView>>>
    decreases n,
{
    if n == 0 {
        seq![]
    } else {
        let (st1, u) = next_unit_from(src, st, false);
        seq![u] + units_from(src, st1, (n - 1) as nat)
    }
}

/// Whether, in `units`, function definitions and closing braces strictly
/// alternate, a function definition coming only where none is open
/// (`open` tells whether one is open before the first unit) and a
/// closing brace only where one is.
pub open spec fn definitions_alternate(units: Seq<Option<Result<CodeUnitView, SyntaxErrorView>>>, open: bool) -> bool
    decreases units.len(),
{
    if units.len() == 0 {
        true
    } else {
        match units[0] {
            Some(Ok(CodeUnitView::Function(_))) => !open && definitions_alternate(units.drop_first(), true),
            Some(Ok(CodeUnitView::CloseDeclaration)) => open && definitions_alternate(units.drop_first(), false),
            _ => definitions_alternate(units.drop_first(), open),
        }
    }
}

/// Over any run of readings, function definitions and closing braces
/// strictly alternate: from a fresh reader (none open) the first of them
/// is a function definition, a closing brace comes only while a function
/// definition is open, and a second function definition never comes while
/// one is open.
pub proof fn lemma_definitions_alternate(src: Seq<char>, st: TokenizerState, n: nat)
    requires
        0 <= st.end <= src.len(),
    ensures
        definitions_alternate(units_from(src, st, n), st.in_function_definition),
    decreases n,
{
    if n > 0 {
        lemma_next_unit_from(src, st, false);
        let (st1, u) = next_unit_from(src, st, false);
        lemma_definitions_alternate(src, st1, (n - 1) as nat);
        assert(units_from(src, st, n).drop_first() =~= units_from(src, st1, (n - 1) as nat));
        assert(units_from(src, st, n)[0] == u);
    }
}


impl DotToken {
    /// How this token is written in a message (see `token_name`).
    pub fn name(&self) -> (res: String)
        ensures
            res@ == token_name(self@),
    {
        let mut res = String::new();
        match self {
            DotToken::Error => {
                res.append("Error");
            },
            DotToken::Digraph => {
                res.append("Digraph");
            },
            DotToken::Subgraph => {
                res.append("Subgraph");
            },
            DotToken::OpenDeclaration => {
                res.append("OpenDeclaration");
            },
            DotToken::CloseDeclaration => {
                res.append("CloseDeclaration");
            },
            DotToken::OpenSpecification => {
                res.append("OpenSpecification");
            },
            DotToken::CloseSpecification => {
                res.append("CloseSpecification");
            },
            DotToken::Comma => {
                res.append("Comma");
            },
            DotToken::Equals => {
                res.append("Equals");
            },
            DotToken::Arrow => {
                res.append("Arrow");
            },
            DotToken::Identifier(x) => {
                res.append("Identifier(\"");
                res.append(x.as_str());
                res.append("\")");
            },
            DotToken::QuotedIdentifiers(x) => {
                res.append("QuotedIdentifiers(\"");
                res.append(x.as_str());
                res.append("\")");
            },
            DotToken::QuotedIdentifiersWithBrackets(x) => {
                res.append("QuotedIdentifiersWithBrackets(\"");
                res.append(x.as_str());
                res.append("\")");
            },
        }
        res
    }
}

impl SyntaxError {
    /// The message of this error (see `syntax_error_message`).
    pub fn message(&self) -> (res: String)
        ensures
            res@ == syntax_error_message(self@),
    {
        let mut res = String::new();
        match self {
            SyntaxError::NestedBracesInSubgraph => {
                res.append("Nested braces {} in subgraphs are not supported");
            },
            SyntaxError::MultipleDigraphs => {
                res.append("multiple digraph definitions are not supported");
            },
            SyntaxError::NestedFunctionDefinitions => {
                res.append("nested functional node definitions are not supported");
            },
            SyntaxError::ExpectedSubgraphBody(t) => {
                res.append("Expected subgraph body: ");
                res.append(t.as_str());
            },
            SyntaxError::MissingTriggerMode(t) => {
                res.append("Expected trigger_mode=\"on\" or trigger_mode=\"off\" after trigger=\"");
                res.append(t.as_str());
                res.append("\"");
            },
            SyntaxError::LiteralCallNode(t) => {
                res.append("call nodes can't be declaread as literal (node ");
                res.append(t.as_str());
                res.append(")");
            },
            SyntaxError::ExpectedIdentifierAfterArrow(t) => {
                res.append("Expected an identifier after arrow: ");
                res.append(t.as_str());
                res.append(" -> ...");
            },
            SyntaxError::ExpectedNodeOrEdge(t) => {
                res.append("Expected node definition (");
                res.append(t.as_str());
                res.append("[...]) or edge definition (");
                res.append(t.as_str());
                res.append(" -> ...)");
            },
            SyntaxError::QuotedIdentifierNotSupported(t) => {
                res.append("Quoted identifiers are not supported: \"");
                res.append(t.as_str());
                res.append("\"");
            },
            SyntaxError::ExpectedDigraphBody => {
                res.append("expected digraph body");
            },
            SyntaxError::ExpectedDigraphIdentifierOrBody => {
                res.append("expected digraph identifier or digraph body");
            },
            SyntaxError::SourceNodeMismatch(t) => {
                res.append("Source node definition should be the first in the subgraph def_");
                res.append(t.as_str());
                res.append(" and should be named ");
                res.append(t.as_str());
            },
            SyntaxError::ExpectedSourceNodeDefinition => {
                res.append("expected source node definition");
            },
            SyntaxError::ExpectedFunctionBody => {
                res.append("expected subgraph body");
            },
            SyntaxError::ExpectedSubgraphIdentifierOrBody => {
                res.append("expected subgraph identifier or subgraph body");
            },
            SyntaxError::CallTypeTakesOneParameter(t) => {
                res.append("call..._");
                res.append(t.as_str());
                res.append("[TYPE=... takes only 1 parameter");
            },
            SyntaxError::TypeNotUnbracketed(t) => {
                res.append(t.as_str());
                res.append("[TYPE=... should take unbracketed form: TYPE=\".., \"");
            },
            SyntaxError::TypesNotBracketed(t) => {
                res.append(t.as_str());
                res.append("[TYPES=... should take bracketed form: TYPES=\"[.., ]\"");
            },
            SyntaxError::ModNotBracketed(t) => {
                res.append(t.as_str());
                res.append("[MOD=... should take bracketed form: MOD=\"[.., ]\"");
            },
            SyntaxError::ExpectedExitNode(t) => {
                res.append("Exit node should be defined after the ");
                res.append(t.as_str());
                res.append(" definition: EXIT_");
                res.append(t.as_str());
                res.append("[...]");
            },
            SyntaxError::ExpectedNodeProperties(t) => {
                res.append("expected source node properties specifier ");
                res.append(t.as_str());
                res.append("[...]");
            },
            SyntaxError::ExpectedPropertyValue(t) => {
                res.append("expected source node property value: ");
                res.append(t.as_str());
                res.append("[PROP=\"VAL\", ...] or empty brackets: ");
                res.append(t.as_str());
                res.append("[]");
            },
            SyntaxError::UnexpectedToken(t, text) => {
                res.append("Unexpected ");
                res.append(t.name().as_str());
                res.append(" : ");
                res.append(text.as_str());
            },
        }
        res
    }
}

} // verus!
