use rush::token::Token;
use rush::tokenizer::Tokenizer;

fn next(t: &mut Tokenizer) -> Token {
    t.get_next_token().expect("scanning failed")
}

#[test]
fn tokenizer_tokenizer_test_1() {
    let mut t = Tokenizer::from("if 1.0 25.0 else 3.0");

    let tok = next(&mut t);
    assert_eq!(tok, Token::Keyword(String::from("if")));
    let tok = next(&mut t);
    assert_eq!(tok, Token::NumberLiteral(String::from("1.0")));
    let tok = next(&mut t);
    assert_eq!(tok, Token::NumberLiteral(String::from("25.0")));
    let tok = next(&mut t);
    assert_eq!(tok, Token::Keyword(String::from("else")));
    let tok = next(&mut t);
    assert_eq!(tok, Token::NumberLiteral(String::from("3.0")))
}

#[test]
fn tokenizer_tokenizer_test_2() {
    let mut t = Tokenizer::from("#test\n
        1.0 && 2.0");

    let tok = next(&mut t);
    assert_eq!(tok, Token::NumberLiteral(String::from("1.0")));
    let tok = next(&mut t);
    assert_eq!(tok, Token::LogicalOp(String::from("&&")));
    let tok = next(&mut t);
    assert_eq!(tok, Token::NumberLiteral(String::from("2.0")));
}

#[test]
fn tokenizer_tokenizer_test_3() {
    let mut t = Tokenizer::from("if true { 1 } else { 2 }");

    let tok = next(&mut t);
    assert_eq!(tok, Token::Keyword(String::from("if")));
    let tok = next(&mut t);
    assert_eq!(tok, Token::BoolLiteral(true));
    let tok = next(&mut t);
    assert_eq!(tok, Token::OpenBrace);
    let tok = next(&mut t);
    assert_eq!(tok, Token::NumberLiteral(String::from("1")));
    let tok = next(&mut t);
    assert_eq!(tok, Token::CloseBrace);
    let tok = next(&mut t);
    assert_eq!(tok, Token::Keyword(String::from("else")));
    let tok = next(&mut t);
    assert_eq!(tok, Token::OpenBrace);
    let tok = next(&mut t);
    assert_eq!(tok, Token::NumberLiteral(String::from("2")));
    let tok = next(&mut t);
    assert_eq!(tok, Token::CloseBrace);
}

#[test]
fn tokenizer_tokenizer_test_4() {
    let mut t = Tokenizer::from("if \"test\" { 1 }");

    let tok = next(&mut t);
    assert_eq!(tok, Token::Keyword(String::from("if")));
    let tok = next(&mut t);
    assert_eq!(tok, Token::StringLiteral(String::from("test")));
    let tok = next(&mut t);
    assert_eq!(tok, Token::OpenBrace);
    let tok = next(&mut t);
    assert_eq!(tok, Token::NumberLiteral(String::from("1")));
    let tok = next(&mut t);
    assert_eq!(tok, Token::CloseBrace);
}

#[test]
fn tokenizer_tokenizer_test_5() {
    let mut t = Tokenizer::from("if \"test\" { ls -a }");

    let tok = next(&mut t);
    assert_eq!(tok, Token::Keyword(String::from("if")));
    let tok = next(&mut t);
    assert_eq!(tok, Token::StringLiteral(String::from("test")));
    let tok = next(&mut t);
    assert_eq!(tok, Token::OpenBrace);
    let tok = next(&mut t);
    assert_eq!(tok, Token::Identifier(String::from("ls")));
    let tok = next(&mut t);
    assert_eq!(tok, Token::Identifier(String::from("-a")));
    let tok = next(&mut t);
    assert_eq!(tok, Token::CloseBrace);
}

#[test]
fn tokenizer_tokenizer_test_6() {
    let mut t = Tokenizer::from("if \"test\" { 2 + 2 }");

    let tok = next(&mut t);
    assert_eq!(tok, Token::Keyword(String::from("if")));
    let tok = next(&mut t);
    assert_eq!(tok, Token::StringLiteral(String::from("test")));
    let tok = next(&mut t);
    assert_eq!(tok, Token::OpenBrace);
    let tok = next(&mut t);
    assert_eq!(tok, Token::NumberLiteral(String::from("2")));
    let tok = next(&mut t);
    assert_eq!(tok, Token::BinaryOp(String::from("+")));
    let tok = next(&mut t);
    assert_eq!(tok, Token::NumberLiteral(String::from("2")));
    let tok = next(&mut t);
    assert_eq!(tok, Token::CloseBrace);
}

#[test]
fn mod_tokenizer_test_1() {
    let mut t = Tokenizer::from("if 1.0 25.0 else 3.0");

    let tok = next(&mut t);
    assert_eq!(tok, Token::Keyword(String::from("if")));
    let tok = next(&mut t);
    assert_eq!(tok, Token::NumberLiteral(String::from("1.0")));
    let tok = next(&mut t);
    assert_eq!(tok, Token::NumberLiteral(String::from("25.0")));
    let tok = next(&mut t);
    assert_eq!(tok, Token::Keyword(String::from("else")));
    let tok = next(&mut t);
    assert_eq!(tok, Token::NumberLiteral(String::from("3.0")))
}

#[test]
fn mod_tokenizer_test_2() {
    let mut t = Tokenizer::from("#test\n
        1.0 && 2.0");

    let tok = next(&mut t);
    assert_eq!(tok, Token::NumberLiteral(String::from("1.0")));
    let tok = next(&mut t);
    assert_eq!(tok, Token::LogicalOp(String::from("&&")));
    let tok = next(&mut t);
    assert_eq!(tok, Token::NumberLiteral(String::from("2.0")));
}

#[test]
fn mod_tokenizer_test_3() {
    let mut t = Tokenizer::from("if true { 1 } else { 2 }");

    let tok = next(&mut t);
    assert_eq!(tok, Token::Keyword(String::from("if")));
    let tok = next(&mut t);
    assert_eq!(tok, Token::BoolLiteral(true));
    let tok = next(&mut t);
    assert_eq!(tok, Token::OpenBrace);
    let tok = next(&mut t);
    assert_eq!(tok, Token::NumberLiteral(String::from("1")));
    let tok = next(&mut t);
    assert_eq!(tok, Token::CloseBrace);
    let tok = next(&mut t);
    assert_eq!(tok, Token::Keyword(String::from("else")));
    let tok = next(&mut t);
    assert_eq!(tok, Token::OpenBrace);
    let tok = next(&mut t);
    assert_eq!(tok, Token::NumberLiteral(String::from("2")));
    let tok = next(&mut t);
    assert_eq!(tok, Token::CloseBrace);
}

#[test]
fn mod_tokenizer_test_4() {
    let mut t = Tokenizer::from("if \"test\" { 1 }");

    let tok = next(&mut t);
    assert_eq!(tok, Token::Keyword(String::from("if")));
    let tok = next(&mut t);
    assert_eq!(tok, Token::StringLiteral(String::from("test")));
    let tok = next(&mut t);
    assert_eq!(tok, Token::OpenBrace);
    let tok = next(&mut t);
    assert_eq!(tok, Token::NumberLiteral(String::from("1")));
    let tok = next(&mut t);
    assert_eq!(tok, Token::CloseBrace);
}

#[test]
fn mod_tokenizer_test_5() {
    let mut t = Tokenizer::from("if \"test\" { ls -a }");

    let tok = next(&mut t);
    assert_eq!(tok, Token::Keyword(String::from("if")));
    let tok = next(&mut t);
    assert_eq!(tok, Token::StringLiteral(String::from("test")));
    let tok = next(&mut t);
    assert_eq!(tok, Token::OpenBrace);
    let tok = next(&mut t);
    assert_eq!(tok, Token::Identifier(String::from("ls")));
    let tok = next(&mut t);
    assert_eq!(tok, Token::Identifier(String::from("-a")));
    let tok = next(&mut t);
    assert_eq!(tok, Token::CloseBrace);
}

#[test]
fn mod_tokenizer_test_6() {
    let mut t = Tokenizer::from("if \"test\" { 2 + 2 }");

    let tok = next(&mut t);
    assert_eq!(tok, Token::Keyword(String::from("if")));
    let tok = next(&mut t);
    assert_eq!(tok, Token::StringLiteral(String::from("test")));
    let tok = next(&mut t);
    assert_eq!(tok, Token::OpenBrace);
    let tok = next(&mut t);
    assert_eq!(tok, Token::NumberLiteral(String::from("2")));
    let tok = next(&mut t);
    assert_eq!(tok, Token::BinaryOp(String::from("+")));
    let tok = next(&mut t);
    assert_eq!(tok, Token::NumberLiteral(String::from("2")));
    let tok = next(&mut t);
    assert_eq!(tok, Token::CloseBrace);
}

#[test]
fn comment_fully_elided() {
    // scanning "#comment\n1.0" yields a single number token
    let mut t = Tokenizer::from("#comment\n1.0");
    let tok = next(&mut t);
    assert_eq!(tok, Token::NumberLiteral(String::from("1.0")));
    let tok = next(&mut t);
    assert_eq!(tok, Token::EndOfInput);
}

#[test]
fn unrecognized_input_is_a_lex_error() {
    let mut t = Tokenizer::from("@@@");
    let e = t.get_next_token().expect_err("the reserved character must not scan");
    assert_eq!(e.position, 0);
    assert_eq!(e.snippet, String::from("@@@"));
    assert_eq!(e.message(), String::from("Unknown token @@@..."));
}

#[test]
fn unterminated_string_is_a_lex_error() {
    let mut t = Tokenizer::from("\"abc");
    let e = t.get_next_token().expect_err("an unterminated string must not scan");
    assert_eq!(e.position, 0);
    assert_eq!(e.snippet, String::from("\"abc"));
}

#[test]
fn keywords_do_not_capture_prefixes() {
    let mut t = Tokenizer::from("lettuce iffy truest");
    assert_eq!(next(&mut t), Token::Identifier(String::from("lettuce")));
    assert_eq!(next(&mut t), Token::Identifier(String::from("iffy")));
    assert_eq!(next(&mut t), Token::Identifier(String::from("truest")));
    assert_eq!(next(&mut t), Token::EndOfInput);
}

#[test]
fn exhausted_input_keeps_returning_end_of_input() {
    let mut t = Tokenizer::from("   \t\n ");
    assert_eq!(next(&mut t), Token::EndOfInput);
    assert_eq!(next(&mut t), Token::EndOfInput);
    assert!(!t.has_more_tokens());
}

#[test]
fn exec_scans_the_whole_input() {
    let mut t = Tokenizer::from("ls   #flags\n-a | grep foo");
    let toks = t.exec().expect("the line must scan");
    assert_eq!(
        toks,
        vec![
            Token::Identifier(String::from("ls")),
            Token::Identifier(String::from("-a")),
            Token::Pipe,
            Token::Identifier(String::from("grep")),
            Token::Identifier(String::from("foo")),
        ]
    );
    // the input is exhausted afterwards, and a further call finds nothing
    assert!(!t.has_more_tokens());
    let again = t.exec().expect("an exhausted scanner scans nothing");
    assert_eq!(again, Vec::<Token>::new());
}

#[test]
fn operators_scan_alone_but_join_identifier_runs() {
    // a free-standing operator is an operator; glued to more ident
    // characters it is part of one identifier, which is what lets flags
    // like -a survive in command position
    let mut t = Tokenizer::from("= += - -a a+b");
    assert_eq!(next(&mut t), Token::AssignmentOp(String::from("=")));
    assert_eq!(next(&mut t), Token::AssignmentOp(String::from("+=")));
    assert_eq!(next(&mut t), Token::BinaryOp(String::from("-")));
    assert_eq!(next(&mut t), Token::Identifier(String::from("-a")));
    assert_eq!(next(&mut t), Token::Identifier(String::from("a+b")));
    assert_eq!(next(&mut t), Token::EndOfInput);
}

#[test]
fn pipe_and_logical_or_are_distinct() {
    let mut t = Tokenizer::from("a | b || c & d && e");
    assert_eq!(next(&mut t), Token::Identifier(String::from("a")));
    assert_eq!(next(&mut t), Token::Pipe);
    assert_eq!(next(&mut t), Token::Identifier(String::from("b")));
    assert_eq!(next(&mut t), Token::LogicalOp(String::from("||")));
    assert_eq!(next(&mut t), Token::Identifier(String::from("c")));
    assert_eq!(next(&mut t), Token::LogicalOp(String::from("&")));
    assert_eq!(next(&mut t), Token::Identifier(String::from("d")));
    assert_eq!(next(&mut t), Token::LogicalOp(String::from("&&")));
    assert_eq!(next(&mut t), Token::Identifier(String::from("e")));
}

#[test]
fn number_needs_digits_after_the_dot() {
    // digits[.digits]: "25." is not a numeric literal
    let mut t = Tokenizer::from("25 2.5 25.");
    assert_eq!(next(&mut t), Token::NumberLiteral(String::from("25")));
    assert_eq!(next(&mut t), Token::NumberLiteral(String::from("2.5")));
    assert_eq!(next(&mut t), Token::Identifier(String::from("25.")));
}

#[test]
fn token_rendering_names_the_category() {
    assert_eq!(
        Token::Keyword(String::from("if")).to_string(),
        String::from("Keyword (if)")
    );
    assert_eq!(
        Token::NumberLiteral(String::from("1.5")).to_string(),
        String::from("NumberLiteral (1.5)")
    );
    assert_eq!(Token::Pipe.to_string(), String::from("|"));
    assert_eq!(Token::Let.to_string(), String::from("Let"));
    assert_eq!(Token::BoolLiteral(false).to_string(), String::from("BoolLiteral (false)"));
}

fn source_text_of(tok: &Token) -> String {
    match tok {
        Token::Keyword(s) => s.clone(),
        Token::Identifier(s) => s.clone(),
        Token::NumberLiteral(s) => s.clone(),
        Token::StringLiteral(s) => format!("\"{}\"", s),
        Token::BoolLiteral(b) => format!("{}", b),
        Token::BinaryOp(s) => s.clone(),
        Token::LogicalOp(s) => s.clone(),
        Token::AssignmentOp(s) => s.clone(),
        Token::Let => String::from("let"),
        Token::OpenParen => String::from("("),
        Token::CloseParen => String::from(")"),
        Token::OpenBrace => String::from("{"),
        Token::CloseBrace => String::from("}"),
        Token::Pipe => String::from("|"),
        Token::EndOfInput => String::new(),
    }
}

#[test]
fn concatenated_token_spans_reconstruct_the_content() {
    // scanning elides only whitespace and comments: putting the tokens'
    // source text back together gives the input minus exactly those
    let input = "let x = 1.5 #note\nif true { ls -a | grep \"ab\" }";
    let mut t = Tokenizer::from(input);
    let toks = t.exec().expect("the line must scan");
    let rebuilt: String = toks.iter().map(source_text_of).collect();

    let mut expected = String::new();
    let mut in_comment = false;
    for c in input.chars() {
        if in_comment {
            in_comment = c != '\n';
        } else if c == '#' {
            in_comment = true;
        } else if !c.is_whitespace() {
            expected.push(c);
        }
    }
    assert_eq!(rebuilt, expected);
}

#[test]
fn kind_equality_ignores_payloads() {
    let a = Token::Identifier(String::from("a"));
    let b = Token::Identifier(String::from("b"));
    assert!(a.kind_eq(&b));
    assert!(!a.kind_eq(&Token::StringLiteral(String::from("a"))));
    // full structural equality still tells them apart
    assert_ne!(a, b);
}
