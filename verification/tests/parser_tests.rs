use rush::parser::{ASTNode, ASTNodeType, ParseError, Parser, SyntaxError};
use rush::token::Token;

fn node(t: ASTNodeType) -> ASTNode {
    ASTNode { node_type: t }
}

fn ident(s: &str) -> ASTNode {
    node(ASTNodeType::Identifier(String::from(s)))
}

fn number(s: &str) -> ASTNode {
    node(ASTNodeType::NumberLiteral(String::from(s)))
}

fn command(name: &str, args: Vec<ASTNode>) -> ASTNode {
    node(ASTNodeType::CommandInvocation(String::from(name), args))
}

#[test]
fn parser_test_1() {
    let p = Parser::new();
    assert_eq!(p.lookahead, Token::EndOfInput);
}

#[test]
fn parser_test_2() {
    let mut p = Parser::new();
    let parsed = p.parse("let xawd = 10.0").expect("the line must parse");
    println!("{:?}", parsed);
    let mut control = Vec::new();
    control.push(node(ASTNodeType::VarDef(
        String::from("xawd"),
        Box::new(number("10.0")),
    )));
    assert_eq!(parsed, node(ASTNodeType::StatementList(control)));
}

#[test]
fn parse_let_binds_a_number_literal() {
    let mut p = Parser::new();
    let parsed = p.parse("let x = 10.0").expect("the line must parse");
    let control = node(ASTNodeType::StatementList(vec![node(ASTNodeType::VarDef(
        String::from("x"),
        Box::new(number("10.0")),
    ))]));
    assert_eq!(parsed, control);
}

#[test]
fn parse_if_condition_is_the_bool_literal() {
    let mut p = Parser::new();
    let parsed = p.parse("if true { ls } else { pwd }").expect("the line must parse");
    let control = node(ASTNodeType::StatementList(vec![node(ASTNodeType::IfStatement(
        Box::new(node(ASTNodeType::BoolLiteral(true))),
        Box::new(node(ASTNodeType::StatementList(vec![node(ASTNodeType::Pipeline(vec![
            command("ls", vec![]),
        ]))]))),
        Some(Box::new(node(ASTNodeType::StatementList(vec![node(ASTNodeType::Pipeline(
            vec![command("pwd", vec![])],
        ))])))),
    ))]));
    assert_eq!(parsed, control);
}

#[test]
fn parse_if_with_number_blocks() {
    let mut p = Parser::new();
    let parsed = p.parse("if true { 1 } else { 2 }").expect("the line must parse");
    let control = node(ASTNodeType::StatementList(vec![node(ASTNodeType::IfStatement(
        Box::new(node(ASTNodeType::BoolLiteral(true))),
        Box::new(node(ASTNodeType::StatementList(vec![number("1")]))),
        Some(Box::new(node(ASTNodeType::StatementList(vec![number("2")])))),
    ))]));
    assert_eq!(parsed, control);
}

#[test]
fn parse_bare_expression_statement() {
    let mut p = Parser::new();
    let parsed = p.parse("1.0 + 2.0").expect("the line must parse");
    let control = node(ASTNodeType::StatementList(vec![node(ASTNodeType::BinaryExpr(
        Box::new(number("1.0")),
        String::from("+"),
        Box::new(number("2.0")),
    ))]));
    assert_eq!(parsed, control);
}

#[test]
fn parse_pipeline_of_two_commands() {
    let mut p = Parser::new();
    let parsed = p.parse("ls -a | grep foo").expect("the line must parse");
    let control = node(ASTNodeType::StatementList(vec![node(ASTNodeType::Pipeline(vec![
        command("ls", vec![ident("-a")]),
        command("grep", vec![ident("foo")]),
    ]))]));
    assert_eq!(parsed, control);
}

#[test]
fn expect_on_mismatch_leaves_the_parser_untouched() {
    let mut p = Parser::new();
    p.tokenizer.init("ls -a");
    p.lookahead = p.tokenizer.get_next_token().expect("the line must scan");
    assert_eq!(p.lookahead, Token::Identifier(String::from("ls")));
    let cursor_before = p.tokenizer.cursor;

    let r = p.expect(Token::NumberLiteral(String::new()));
    assert!(r.is_err());
    assert_eq!(p.lookahead, Token::Identifier(String::from("ls")));
    assert_eq!(p.tokenizer.cursor, cursor_before);

    // the same token is consumed once the kind matches, payload ignored
    let consumed = p.expect(Token::Identifier(String::from("anything"))).expect("kinds match");
    assert_eq!(consumed, Token::Identifier(String::from("ls")));
    assert_eq!(p.lookahead, Token::Identifier(String::from("-a")));
}

#[test]
fn lex_error_is_reported_and_the_parser_recovers() {
    let mut p = Parser::new();
    let e = p.parse("@@@").expect_err("the reserved character must not parse");
    match e {
        ParseError::Lex(le) => {
            assert_eq!(le.position, 0);
            assert_eq!(le.snippet, String::from("@@@"));
        },
        ParseError::Syntax(_) => panic!("expected a lexical error"),
    }
    // the next line parses on the same parser: one bad line never ends
    // the session
    let parsed = p.parse("ls -a").expect("the next line must parse");
    let control = node(ASTNodeType::StatementList(vec![node(ASTNodeType::Pipeline(vec![
        command("ls", vec![ident("-a")]),
    ]))]));
    assert_eq!(parsed, control);
}

#[test]
fn keyword_where_identifier_is_expected_is_a_syntax_error() {
    let mut p = Parser::new();
    let e = p.parse("return").expect_err("a reserved keyword is no statement");
    match e {
        ParseError::Syntax(SyntaxError::UnexpectedToken { expected, found, .. }) => {
            assert_eq!(expected, Token::Identifier(String::new()));
            assert_eq!(found, Token::Keyword(String::from("return")));
        },
        ParseError::Lex(_) => panic!("expected a syntax error"),
    }
}

#[test]
fn let_without_a_name_is_a_syntax_error() {
    let mut p = Parser::new();
    let e = p.parse("let = 1.0").expect_err("a binding needs a name");
    match e {
        ParseError::Syntax(SyntaxError::UnexpectedToken { expected, found, .. }) => {
            assert_eq!(expected, Token::Identifier(String::new()));
            assert_eq!(found, Token::AssignmentOp(String::from("=")));
        },
        ParseError::Lex(_) => panic!("expected a syntax error"),
    }
}

#[test]
fn unclosed_parenthesis_is_a_syntax_error() {
    let mut p = Parser::new();
    let e = p.parse("let x = (1.0").expect_err("the parenthesis never closes");
    match e {
        ParseError::Syntax(SyntaxError::UnexpectedToken { expected, found, .. }) => {
            assert_eq!(expected, Token::CloseParen);
            assert_eq!(found, Token::EndOfInput);
        },
        ParseError::Lex(_) => panic!("expected a syntax error"),
    }
}

#[test]
fn keyword_cannot_stand_as_an_expression() {
    let mut p = Parser::new();
    let e = p.parse("let x = if").expect_err("keywords are reserved");
    match e {
        ParseError::Syntax(SyntaxError::UnexpectedToken { expected, found, .. }) => {
            assert_eq!(expected, Token::Identifier(String::new()));
            assert_eq!(found, Token::Keyword(String::from("if")));
        },
        ParseError::Lex(_) => panic!("expected a syntax error"),
    }
}

#[test]
fn parse_empty_input_is_an_empty_statement_list() {
    let mut p = Parser::new();
    let parsed = p.parse("   #only a comment").expect("a blank line parses");
    assert_eq!(parsed, node(ASTNodeType::StatementList(vec![])));
}

#[test]
fn parse_parenthesized_expression() {
    let mut p = Parser::new();
    let parsed = p.parse("let x = (1.5)").expect("the line must parse");
    let control = node(ASTNodeType::StatementList(vec![node(ASTNodeType::VarDef(
        String::from("x"),
        Box::new(node(ASTNodeType::ParenExpr(Box::new(number("1.5"))))),
    ))]));
    assert_eq!(parsed, control);
}

#[test]
fn binary_operators_associate_to_the_left() {
    let mut p = Parser::new();
    let parsed = p.parse("let x = 1.0 - 2.0 - 3.0").expect("the line must parse");
    let control = node(ASTNodeType::StatementList(vec![node(ASTNodeType::VarDef(
        String::from("x"),
        Box::new(node(ASTNodeType::BinaryExpr(
            Box::new(node(ASTNodeType::BinaryExpr(
                Box::new(number("1.0")),
                String::from("-"),
                Box::new(number("2.0")),
            ))),
            String::from("-"),
            Box::new(number("3.0")),
        ))),
    ))]));
    assert_eq!(parsed, control);
}

#[test]
fn logical_operators_bind_looser_than_binary() {
    let mut p = Parser::new();
    let parsed = p.parse("let x = 1.0 + 2.0 && true").expect("the line must parse");
    let control = node(ASTNodeType::StatementList(vec![node(ASTNodeType::VarDef(
        String::from("x"),
        Box::new(node(ASTNodeType::LogicalExpr(
            Box::new(node(ASTNodeType::BinaryExpr(
                Box::new(number("1.0")),
                String::from("+"),
                Box::new(number("2.0")),
            ))),
            String::from("&&"),
            Box::new(node(ASTNodeType::BoolLiteral(true))),
        ))),
    ))]));
    assert_eq!(parsed, control);
}

#[test]
fn parse_function_definition() {
    let mut p = Parser::new();
    let parsed = p.parse("fn greet(name excl) { echo name }").expect("the line must parse");
    let control = node(ASTNodeType::StatementList(vec![node(ASTNodeType::FnDef(
        String::from("greet"),
        vec![String::from("name"), String::from("excl")],
        Box::new(node(ASTNodeType::StatementList(vec![node(ASTNodeType::Pipeline(vec![
            command("echo", vec![ident("name")]),
        ]))]))),
    ))]));
    assert_eq!(parsed, control);
}

#[test]
fn parse_two_statements_on_one_line() {
    let mut p = Parser::new();
    let parsed = p.parse("let x = 1.0 ls").expect("the line must parse");
    let control = node(ASTNodeType::StatementList(vec![
        node(ASTNodeType::VarDef(String::from("x"), Box::new(number("1.0")))),
        node(ASTNodeType::Pipeline(vec![command("ls", vec![])])),
    ]));
    assert_eq!(parsed, control);
}

#[test]
fn command_arguments_take_all_literal_kinds() {
    let mut p = Parser::new();
    let parsed = p.parse("run -v 3.5 \"a b\" true").expect("the line must parse");
    let control = node(ASTNodeType::StatementList(vec![node(ASTNodeType::Pipeline(vec![
        command(
            "run",
            vec![
                ident("-v"),
                number("3.5"),
                node(ASTNodeType::StringLiteral(String::from("a b"))),
                node(ASTNodeType::BoolLiteral(true)),
            ],
        ),
    ]))]));
    assert_eq!(parsed, control);
}

#[test]
fn node_constructors_build_the_literal_nodes() {
    let mut p = Parser::new();
    assert_eq!(p.identifier(String::from("x")), ident("x"));
    assert_eq!(p.number_literal(String::from("2.5")), number("2.5"));
    assert_eq!(
        p.string_literal(String::from("hi")),
        node(ASTNodeType::StringLiteral(String::from("hi")))
    );
    assert_eq!(p.bool_literal(true), node(ASTNodeType::BoolLiteral(true)));
    assert_eq!(p.command(String::from("ls")), command("ls", vec![]));
}

#[test]
fn syntax_error_message_names_the_found_token() {
    let mut p = Parser::new();
    let e = p.parse("let 5.0 = 1.0").expect_err("a number is no binding name");
    match e {
        ParseError::Syntax(se) => {
            assert_eq!(se.message(), String::from("Unexpected token NumberLiteral (5.0)"));
        },
        ParseError::Lex(_) => panic!("expected a syntax error"),
    }
}
