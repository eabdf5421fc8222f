use equivalence_testing::dot_lexer::{DotLexer, DotToken};
use equivalence_testing::dot_parser::{CodeUnit, DotTokenizer, Function, FunctionInputsType, SyntaxError};

fn tokens(source: &str) -> Vec<DotToken> {
    let mut lexer = DotLexer::new(source);
    let mut out = Vec::new();
    while let Some(t) = lexer.next_token() {
        out.push(t);
    }
    out
}

fn units(source: &str) -> Vec<Result<CodeUnit, SyntaxError>> {
    let mut tokenizer = DotTokenizer::from_str(source);
    let mut out = Vec::new();
    while let Some(u) = tokenizer.next() {
        out.push(u);
    }
    out
}

fn s(x: &str) -> String {
    x.to_string()
}

#[test]
fn lexer_reads_keywords_identifiers_and_punctuation() {
    assert_eq!(
        tokens("digraph G { a -> b_1 [x=\"y\", z=\"[p, q]\"] }"),
        vec![
            DotToken::Digraph,
            DotToken::Identifier(s("G")),
            DotToken::OpenDeclaration,
            DotToken::Identifier(s("a")),
            DotToken::Arrow,
            DotToken::Identifier(s("b_1")),
            DotToken::OpenSpecification,
            DotToken::Identifier(s("x")),
            DotToken::Equals,
            DotToken::QuotedIdentifiers(s("y")),
            DotToken::Comma,
            DotToken::Identifier(s("z")),
            DotToken::Equals,
            DotToken::QuotedIdentifiersWithBrackets(s("p, q")),
            DotToken::CloseSpecification,
            DotToken::CloseDeclaration,
        ]
    );
}

#[test]
fn lexer_prefers_longest_identifier_over_keyword() {
    assert_eq!(tokens("digraphs subgraph"), vec![DotToken::Identifier(s("digraphs")), DotToken::Subgraph]);
}

#[test]
fn lexer_skips_comments_and_white_space() {
    assert_eq!(
        tokens("# a comment\n  // another -> x\n /* block { */ a\u{a0}\r\n}"),
        vec![DotToken::Identifier(s("a")), DotToken::CloseDeclaration]
    );
}

#[test]
fn lexer_errors() {
    // an unterminated block comment is an error token of its own, and
    // reading goes on after it
    assert_eq!(tokens("/* a"), vec![DotToken::Error, DotToken::Identifier(s("a"))]);
    // a lone dash or slash, or an unknown character
    assert_eq!(tokens("- / @b"), vec![DotToken::Error, DotToken::Error, DotToken::Error, DotToken::Identifier(s("b"))]);
    // an unterminated quote takes the rest of the input
    assert_eq!(tokens("a \"b c"), vec![DotToken::Identifier(s("a")), DotToken::Error]);
}

#[test]
fn lexer_quoted_brackets_take_up_to_first_closing_bracket() {
    assert_eq!(tokens("\"[a]b]\""), vec![DotToken::QuotedIdentifiersWithBrackets(s("a"))]);
    assert_eq!(tokens("\"[\""), vec![DotToken::QuotedIdentifiers(s("["))]);
    assert_eq!(tokens("\"[]\""), vec![DotToken::QuotedIdentifiersWithBrackets(s(""))]);
}

#[test]
fn lexer_slice_is_text_of_last_token() {
    let mut lexer = DotLexer::new("  abc ->");
    lexer.next_token();
    assert_eq!(lexer.slice(), s("abc"));
    lexer.next_token();
    assert_eq!(lexer.slice(), s("->"));
}

#[test]
fn reads_a_function_definition_with_nodes_calls_and_edges() {
    let source = "digraph G {\n\
        subgraph def_Query {\n\
            Query [TYPES=\"[any]\", MOD=\"[single row, ]\"]\n\
            EXIT_Query [label=\"x\"]\n\
            FROM [OPTIONAL=\"opt\", LITERAL=\"t\"]\n\
            call0_Query [TYPE=\"numeric\", MOD=\"[single column]\"]\n\
            FROM -> call0_Query\n\
        }\n\
    }";
    assert_eq!(
        units(source),
        vec![
            Ok(CodeUnit::Function(Function {
                source_node_name: s("Query"),
                exit_node_name: s("EXIT_Query"),
                input_type: FunctionInputsType::Any,
                modifiers: Some(vec![s("single row")]),
            })),
            Ok(CodeUnit::NodeDef { name: s("FROM"), option_name: Some(s("opt")), literal: true, trigger: None }),
            Ok(CodeUnit::Call {
                node_name: s("call0_Query"),
                func_name: s("Query"),
                inputs: FunctionInputsType::TypeName(s("numeric")),
                modifiers: Some(vec![s("single column")]),
                option_name: None,
            }),
            Ok(CodeUnit::Edge { node_name_from: s("FROM"), node_name_to: s("call0_Query") }),
            Ok(CodeUnit::CloseDeclaration),
        ]
    );
}

#[test]
fn function_type_lists() {
    let source = "subgraph def_f { f [TYPE=\"a, b ,c\"] EXIT_f [] }";
    assert_eq!(
        units(source),
        vec![Ok(CodeUnit::Function(Function {
            source_node_name: s("f"),
            exit_node_name: s("EXIT_f"),
            input_type: FunctionInputsType::TypeNameVariants(vec![s("a"), s("b"), s("c")]),
            modifiers: None,
        })), Ok(CodeUnit::CloseDeclaration)]
    );
    let source = "subgraph def_f { f [TYPES=\"[x,y]\", MOD=\"[ , ]\"] EXIT_f [] }";
    assert_eq!(
        units(source),
        vec![Ok(CodeUnit::Function(Function {
            source_node_name: s("f"),
            exit_node_name: s("EXIT_f"),
            input_type: FunctionInputsType::TypeNameList(vec![s("x"), s("y")]),
            modifiers: None,
        })), Ok(CodeUnit::CloseDeclaration)]
    );
}

#[test]
fn property_names_are_upper_cased_and_last_value_wins() {
    assert_eq!(
        units("n [optional=\"a\", Optional=\"b\", literal=t]"),
        vec![Ok(CodeUnit::NodeDef { name: s("n"), option_name: Some(s("b")), literal: false, trigger: None })]
    );
}

#[test]
fn trigger_properties_are_never_read() {
    // property names are upper-cased when read, and the trigger is looked
    // up under its lower-case name
    assert_eq!(
        units("n [trigger=\"t\"]"),
        vec![Ok(CodeUnit::NodeDef { name: s("n"), option_name: None, literal: false, trigger: None })]
    );
}

#[test]
fn call_node_names() {
    assert_eq!(
        units("call12_foo_bar []"),
        vec![Ok(CodeUnit::Call {
            node_name: s("call12_foo_bar"),
            func_name: s("foo_bar"),
            inputs: FunctionInputsType::NoInputs,
            modifiers: None,
            option_name: None,
        })]
    );
    // no digits, or no identifier after the underscore: a plain node
    assert_eq!(
        units("call_foo []"),
        vec![Ok(CodeUnit::NodeDef { name: s("call_foo"), option_name: None, literal: false, trigger: None })]
    );
    assert_eq!(
        units("call1_9 []"),
        vec![Ok(CodeUnit::NodeDef { name: s("call1_9"), option_name: None, literal: false, trigger: None })]
    );
}

#[test]
fn syntax_errors() {
    assert_eq!(units("digraph { } digraph"), vec![Err(SyntaxError::MultipleDigraphs)]);
    assert_eq!(units("digraph ,"), vec![Err(SyntaxError::ExpectedDigraphIdentifierOrBody)]);
    assert_eq!(units("digraph g ,"), vec![Err(SyntaxError::ExpectedDigraphBody)]);
    assert_eq!(units("a"), vec![Err(SyntaxError::ExpectedNodeOrEdge(s("a")))]);
    assert_eq!(units("a -> ,"), vec![Err(SyntaxError::ExpectedIdentifierAfterArrow(s("a")))]);
    assert_eq!(units("\"q\""), vec![Err(SyntaxError::QuotedIdentifierNotSupported(s("q")))]);
    assert_eq!(units("\"[q]\""), vec![Err(SyntaxError::QuotedIdentifierNotSupported(s("q")))]);
    assert_eq!(units(","), vec![Err(SyntaxError::UnexpectedToken(DotToken::Comma, s(",")))]);
    assert_eq!(units("a [x]"), vec![Err(SyntaxError::ExpectedPropertyValue(s("a")))]);
    assert_eq!(units("call1_f [LITERAL=\"t\"]"), vec![Err(SyntaxError::LiteralCallNode(s("call1_f")))]);
    assert_eq!(units("call1_f [TYPE=\"a, b\"]"), vec![Err(SyntaxError::CallTypeTakesOneParameter(s("call1_f")))]);
    assert_eq!(units("call1_a [TYPE=\"[a]\"]"), vec![Err(SyntaxError::TypeNotUnbracketed(s("call1_a")))]);
    assert_eq!(units("call1_a [TYPES=\"a\"]"), vec![Err(SyntaxError::TypesNotBracketed(s("call1_a")))]);
    assert_eq!(units("call1_a [MOD=\"a\"]"), vec![Err(SyntaxError::ModNotBracketed(s("call1_a")))]);
    assert_eq!(units("subgraph ,"), vec![Err(SyntaxError::ExpectedSubgraphIdentifierOrBody)]);
    assert_eq!(units("subgraph def_f ,"), vec![Err(SyntaxError::ExpectedFunctionBody)]);
    assert_eq!(units("subgraph def_f { ,"), vec![Err(SyntaxError::ExpectedSourceNodeDefinition)]);
    assert_eq!(units("subgraph def_f { g"), vec![Err(SyntaxError::SourceNodeMismatch(s("f")))]);
    assert_eq!(units("subgraph def_f { f ,"), vec![Err(SyntaxError::ExpectedNodeProperties(s("f")))]);
    assert_eq!(units("subgraph def_f { f [] x"), vec![Err(SyntaxError::ExpectedExitNode(s("f")))]);
    assert_eq!(units("subgraph other x"), vec![Err(SyntaxError::ExpectedSubgraphBody(s("x")))]);
}

#[test]
fn nested_function_definitions_are_refused() {
    let r = units("subgraph def_f { f [] EXIT_f [] subgraph def_g { g [] EXIT_g [] }");
    assert_eq!(r.len(), 3);
    assert!(matches!(r[1], Err(SyntaxError::NestedFunctionDefinitions)));
    assert_eq!(r[2], Ok(CodeUnit::CloseDeclaration));
}

#[test]
fn other_subgraphs_are_skipped() {
    assert_eq!(
        units("subgraph cluster { { } a -> b }"),
        vec![Err(SyntaxError::NestedBracesInSubgraph), Ok(CodeUnit::Edge { node_name_from: s("a"), node_name_to: s("b") })]
    );
    assert_eq!(
        units("subgraph cluster { x y [] } a -> b"),
        vec![Ok(CodeUnit::Edge { node_name_from: s("a"), node_name_to: s("b") })]
    );
}

#[test]
fn stray_errors_and_closing_braces_are_skipped() {
    assert_eq!(units("@ } }"), vec![]);
}

#[test]
fn special_types_and_name_lists() {
    assert_eq!(FunctionInputsType::try_extract_special_type(&s("known")), Some(FunctionInputsType::Known));
    assert_eq!(FunctionInputsType::try_extract_special_type(&s("compatible")), Some(FunctionInputsType::Compatible));
    assert_eq!(FunctionInputsType::try_extract_special_type(&s("Any")), None);
    assert_eq!(FunctionInputsType::get_identifier_names(&s(" a ,b,, c\t")), vec![s("a"), s("b"), s(""), s("c")]);
}

#[test]
fn syntax_error_messages() {
    assert_eq!(SyntaxError::MultipleDigraphs.message(), s("multiple digraph definitions are not supported"));
    assert_eq!(
        SyntaxError::ExpectedNodeOrEdge(s("a")).message(),
        s("Expected node definition (a[...]) or edge definition (a -> ...)")
    );
    assert_eq!(SyntaxError::UnexpectedToken(DotToken::Comma, s(",")).message(), s("Unexpected Comma : ,"));
    assert_eq!(
        SyntaxError::ExpectedPropertyValue(s("n")).message(),
        s("expected source node property value: n[PROP=\"VAL\", ...] or empty brackets: n[]")
    );
    assert_eq!(
        SyntaxError::SourceNodeMismatch(s("f")).message(),
        s("Source node definition should be the first in the subgraph def_f and should be named f")
    );
    assert_eq!(SyntaxError::TypesNotBracketed(s("c")).message(), s("c[TYPES=... should take bracketed form: TYPES=\"[.., ]\""));
    assert_eq!(DotToken::Identifier(s("x")).name(), s("Identifier(\"x\")"));
}

#[test]
fn identifier_names_are_trimmed_pieces_of_the_list() {
    let list = " x1 ,\u{a0}y ,z z,  ";
    let names = FunctionInputsType::get_identifier_names(&s(list));
    assert_eq!(names.len(), list.matches(',').count() + 1);
    let pieces: Vec<&str> = list.split(',').collect();
    assert_eq!(pieces.join(","), list);
    for (name, piece) in names.iter().zip(pieces.iter()) {
        assert_eq!(name.as_str(), piece.trim());
        assert!(!name.contains(','));
        assert_eq!(name.trim(), name.as_str());
    }
    assert_eq!(names, vec![s("x1"), s("y"), s("z z"), s("")]);
}

#[test]
fn function_definitions_and_closing_braces_alternate() {
    let r = units(
        "digraph G { } subgraph def_f { f [] EXIT_f [] subgraph def_g { g [] EXIT_g [] } } \
         subgraph def_h { h [] EXIT_h [] } }",
    );
    let mut open = false;
    let mut definitions = 0;
    for u in &r {
        match u {
            Ok(CodeUnit::Function(_)) => {
                assert!(!open);
                open = true;
                definitions += 1;
            }
            Ok(CodeUnit::CloseDeclaration) => {
                assert!(open);
                open = false;
            }
            _ => {}
        }
    }
    assert_eq!(definitions, 2);
    assert!(!open);
}
