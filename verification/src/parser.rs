use vstd::prelude::*;
use vstd::string::StringExecFns;
use crate::token::{Token, TokenView, same_kind, str_eq};
use crate::tokenizer::{
    Tokenizer, LexError, LexErrorView, ScanStep, scan_at, lex_error_at,
};

verus! {

// ---------------------------------------------------------------------------
// The abstract syntax tree
// ---------------------------------------------------------------------------

/// A node of the abstract syntax tree over the hybrid command/expression
/// grammar.  Each node exclusively owns its children; the tree is immutable
/// once built.
#[derive(Debug, PartialEq)]
pub enum ASTNodeType {
    /// The ordered statements of a program or block.
    StatementList(Vec<ASTNode>),
    /// `let <name> = <expression>`.
    VarDef(String, Box<ASTNode>),
    /// `if <condition> <then-block> [else <else-block>]`.
    IfStatement(Box<ASTNode>, Box<ASTNode>, Option<Box<ASTNode>>),
    /// `fn <name> ( <parameters> ) <body-block>`.
    FnDef(String, Vec<String>, Box<ASTNode>),
    /// A program name with its ordered argument expressions.
    CommandInvocation(String, Vec<ASTNode>),
    /// One or more command invocations chained by pipes.
    Pipeline(Vec<ASTNode>),
    /// `<left> <binary-operator> <right>`, left-associative.
    BinaryExpr(Box<ASTNode>, String, Box<ASTNode>),
    /// `<left> <logical-operator> <right>`, left-associative.
    LogicalExpr(Box<ASTNode>, String, Box<ASTNode>),
    Identifier(String),
    StringLiteral(String),
    /// The literal's source text, e.g. `10.0`; numeric evaluation is the
    /// evaluator's concern, outside this core.
    NumberLiteral(String),
    BoolLiteral(bool),
    /// `( <inner> )`.
    ParenExpr(Box<ASTNode>),
}

#[derive(Debug, PartialEq)]
pub struct ASTNode {
    pub node_type: ASTNodeType,
}

/// The mathematical model of an AST node.
pub enum AstView {
    StatementList(Seq<AstView>),
    VarDef(Seq<char>, Box<AstView>),
    IfStatement(Box<AstView>, Box<AstView>, Option<Box<AstView>>),
    FnDef(Seq<char>, Seq<Seq<char>>, Box<AstView>),
    CommandInvocation(Seq<char>, Seq<AstView>),
    Pipeline(Seq<AstView>),
    BinaryExpr(Box<AstView>, Seq<char>, Box<AstView>),
    LogicalExpr(Box<AstView>, Seq<char>, Box<AstView>),
    Identifier(Seq<char>),
    StringLiteral(Seq<char>),
    NumberLiteral(Seq<char>),
    BoolLiteral(bool),
    ParenExpr(Box<AstView>),
}

/// The views of a sequence of strings.
pub open spec fn strings_view(v: Seq<String>) -> Seq<Seq<char>> {
    v.map_values(|s: String| s@)
}

/// The model of one node.
pub open spec fn node_view(n: ASTNode) -> AstView
    decreases n,
{
    match n.node_type {
        ASTNodeType::StatementList(ns) => AstView::StatementList(nodes_view(ns@)),
        ASTNodeType::VarDef(name, e) => AstView::VarDef(name@, Box::new(node_view(*e))),
        ASTNodeType::IfStatement(c, t, e) => AstView::IfStatement(
            Box::new(node_view(*c)),
            Box::new(node_view(*t)),
            match e {
                Some(b) => Some(Box::new(node_view(*b))),
                None => None,
            },
        ),
        ASTNodeType::FnDef(name, params, body) => AstView::FnDef(
            name@,
            strings_view(params@),
            Box::new(node_view(*body)),
        ),
        ASTNodeType::CommandInvocation(name, args) => AstView::CommandInvocation(
            name@,
            nodes_view(args@),
        ),
        ASTNodeType::Pipeline(stages) => AstView::Pipeline(nodes_view(stages@)),
        ASTNodeType::BinaryExpr(l, op, r) => AstView::BinaryExpr(
            Box::new(node_view(*l)),
            op@,
            Box::new(node_view(*r)),
        ),
        ASTNodeType::LogicalExpr(l, op, r) => AstView::LogicalExpr(
            Box::new(node_view(*l)),
            op@,
            Box::new(node_view(*r)),
        ),
        ASTNodeType::Identifier(s) => AstView::Identifier(s@),
        ASTNodeType::StringLiteral(s) => AstView::StringLiteral(s@),
        ASTNodeType::NumberLiteral(s) => AstView::NumberLiteral(s@),
        ASTNodeType::BoolLiteral(b) => AstView::BoolLiteral(b),
        ASTNodeType::ParenExpr(e) => AstView::ParenExpr(Box::new(node_view(*e))),
    }
}

/// The views of a sequence of nodes.
pub open spec fn nodes_view(ns: Seq<ASTNode>) -> Seq<AstView>
    decreases ns,
{
    if ns.len() == 0 {
        Seq::empty()
    } else {
        seq![node_view(ns[0])] + nodes_view(ns.drop_first())
    }
}

impl View for ASTNode {
    type V = AstView;

    open spec fn view(&self) -> AstView {
        node_view(*self)
    }
}

// ---------------------------------------------------------------------------
// Parse errors
// ---------------------------------------------------------------------------

/// A grammar violation: the lookahead's kind differs from the expected one.
/// A returned error value, never an abort, so the shell can report it and
/// go on to the next input line.
#[derive(Debug, PartialEq)]
pub enum SyntaxError {
    UnexpectedToken { expected: Token, found: Token, position: usize },
}

pub enum SyntaxErrorView {
    UnexpectedToken { expected: TokenView, found: TokenView, position: int },
}

impl View for SyntaxError {
    type V = SyntaxErrorView;

    open spec fn view(&self) -> SyntaxErrorView {
        match self {
            SyntaxError::UnexpectedToken { expected, found, position } => {
                SyntaxErrorView::UnexpectedToken {
                    expected: expected@,
                    found: found@,
                    position: *position as int,
                }
            },
        }
    }
}

/// What `SyntaxError::message` renders.
pub open spec fn syntax_error_display(e: SyntaxErrorView) -> Seq<char> {
    match e {
        SyntaxErrorView::UnexpectedToken { expected, found, position } => {
            "Unexpected token "@ + crate::token::token_display(found)
        },
    }
}

impl SyntaxError {
    /// A readable report of the error.
    pub fn message(&self) -> (r: String)
        ensures
            r@ == syntax_error_display(self@),
    {
        match self {
            SyntaxError::UnexpectedToken { expected, found, position } => {
                let mut r = String::from_str("Unexpected token ");
                r.append(found.to_string().as_str());
                r
            },
        }
    }
}

/// Everything that can stop a parse: unscannable text, or a token of the
/// wrong kind.
#[derive(Debug, PartialEq)]
pub enum ParseError {
    Lex(LexError),
    Syntax(SyntaxError),
}

pub enum ParseErrorView {
    Lex(LexErrorView),
    Syntax(SyntaxErrorView),
}

impl View for ParseError {
    type V = ParseErrorView;

    open spec fn view(&self) -> ParseErrorView {
        match self {
            ParseError::Lex(e) => ParseErrorView::Lex(e@),
            ParseError::Syntax(e) => ParseErrorView::Syntax(e@),
        }
    }
}

// ---------------------------------------------------------------------------
// The grammar, as recursive functions over the scanner's state
// ---------------------------------------------------------------------------

/// A parser state is a source, a cursor just past the buffered lookahead,
/// and that lookahead.  A production either yields a value with the state
/// it leaves behind, or an error.
pub enum Parsed<T> {
    Accept { v: T, pos: int, look: TokenView },
    Reject(ParseErrorView),
}

/// The termination measure of the grammar's recursion: how much input is
/// left, counting an unconsumed lookahead as one step more.
pub open spec fn parser_weight(s: Seq<char>, pos: int, look: TokenView) -> int {
    2 * (s.len() - pos) + if look is EndOfInput {
        0int
    } else {
        1int
    }
}

/// The consuming step strictly shrinks the measure.
pub open spec fn steps_down(
    s: Seq<char>,
    pos: int,
    look: TokenView,
    pos2: int,
    look2: TokenView,
) -> bool {
    0 <= parser_weight(s, pos2, look2) < parser_weight(s, pos, look)
}

/// The error the recursion guards fall back to.  It is unreachable in real
/// parses -- consuming a token always shrinks the measure, see
/// `Parser::advance` -- but it gives each guard an explicit branch.
pub open spec fn stall_error(pos: int, look: TokenView) -> ParseErrorView {
    ParseErrorView::Syntax(
        SyntaxErrorView::UnexpectedToken {
            expected: TokenView::EndOfInput,
            found: look,
            position: pos,
        },
    )
}

/// Refill the lookahead: scan one token, or report where scanning stopped.
pub open spec fn sp_advance(s: Seq<char>, pos: int) -> Result<(int, TokenView), LexErrorView> {
    match scan_at(s, pos) {
        ScanStep::Finished => Ok((s.len() as int, TokenView::EndOfInput)),
        ScanStep::Tok { t, start, end } => Ok((end, t)),
        ScanStep::Fail { at } => Err(lex_error_at(s, at)),
    }
}

/// Match the lookahead against `kind` by kind alone; on a match, consume it
/// and refill; on a mismatch, fail without consuming anything.
pub open spec fn sp_expect(s: Seq<char>, pos: int, look: TokenView, kind: TokenView) -> Parsed<
    TokenView,
> {
    if same_kind(look, kind) {
        match sp_advance(s, pos) {
            Ok((p2, l2)) => Parsed::Accept { v: look, pos: p2, look: l2 },
            Err(le) => Parsed::Reject(ParseErrorView::Lex(le)),
        }
    } else {
        Parsed::Reject(
            ParseErrorView::Syntax(
                SyntaxErrorView::UnexpectedToken { expected: kind, found: look, position: pos },
            ),
        )
    }
}

/// The payload of an identifier token, empty for any other token.
pub open spec fn ident_text(t: TokenView) -> Seq<char> {
    match t {
        TokenView::Identifier(s) => s,
        _ => Seq::empty(),
    }
}

/// StatementList := { Statement }, until the end of input or the `}` that
/// closes the enclosing block.
pub open spec fn sp_statement_list(s: Seq<char>, pos: int, look: TokenView) -> Parsed<
    Seq<AstView>,
>
    decreases parser_weight(s, pos, look), 9int,
{
    if look is EndOfInput || look is CloseBrace {
        Parsed::Accept { v: Seq::empty(), pos, look }
    } else {
        match sp_statement(s, pos, look) {
            Parsed::Reject(e) => Parsed::Reject(e),
            Parsed::Accept { v: n, pos: p2, look: l2 } => {
                if steps_down(s, pos, look, p2, l2) {
                    match sp_statement_list(s, p2, l2) {
                        Parsed::Accept { v: ns, pos: p3, look: l3 } => Parsed::Accept {
                            v: seq![n] + ns,
                            pos: p3,
                            look: l3,
                        },
                        Parsed::Reject(e) => Parsed::Reject(e),
                    }
                } else {
                    Parsed::Reject(stall_error(p2, l2))
                }
            },
        }
    }
}

/// Statement := VarDef | IfStatement | FnDef | PipelineStatement
///            | Expression.  A leading identifier opens a command, so an
/// expression statement can begin only with a literal or `(`; the keywords
/// are reserved, and one found where a statement must begin is a syntax
/// error.
pub open spec fn sp_statement(s: Seq<char>, pos: int, look: TokenView) -> Parsed<AstView>
    decreases parser_weight(s, pos, look), 8int,
{
    match look {
        TokenView::Keyword(w) => {
            if w == "if"@ {
                sp_if_statement(s, pos, look)
            } else if w == "fn"@ {
                sp_fn_def(s, pos, look)
            } else {
                Parsed::Reject(
                    ParseErrorView::Syntax(
                        SyntaxErrorView::UnexpectedToken {
                            expected: TokenView::Identifier(Seq::empty()),
                            found: look,
                            position: pos,
                        },
                    ),
                )
            }
        },
        TokenView::Let => sp_var_def(s, pos, look),
        TokenView::Identifier(_) => sp_pipeline_statement(s, pos, look),
        TokenView::NumberLiteral(_) => sp_expression(s, pos, look),
        TokenView::StringLiteral(_) => sp_expression(s, pos, look),
        TokenView::BoolLiteral(_) => sp_expression(s, pos, look),
        TokenView::OpenParen => sp_expression(s, pos, look),
        _ => Parsed::Reject(
            ParseErrorView::Syntax(
                SyntaxErrorView::UnexpectedToken {
                    expected: TokenView::Identifier(Seq::empty()),
                    found: look,
                    position: pos,
                },
            ),
        ),
    }
}

/// VarDef := 'let' Identifier '=' Expression.  The assignment operator is
/// matched by kind, as every `expect` is.
pub open spec fn sp_var_def(s: Seq<char>, pos: int, look: TokenView) -> Parsed<AstView>
    decreases parser_weight(s, pos, look), 7int,
{
    match sp_expect(s, pos, look, TokenView::Let) {
        Parsed::Reject(e) => Parsed::Reject(e),
        Parsed::Accept { pos: p1, look: l1, .. } => {
            match sp_expect(s, p1, l1, TokenView::Identifier(Seq::empty())) {
                Parsed::Reject(e) => Parsed::Reject(e),
                Parsed::Accept { v: name_tok, pos: p2, look: l2 } => {
                    match sp_expect(s, p2, l2, TokenView::AssignmentOp(Seq::empty())) {
                        Parsed::Reject(e) => Parsed::Reject(e),
                        Parsed::Accept { pos: p3, look: l3, .. } => {
                            if steps_down(s, pos, look, p3, l3) {
                                match sp_expression(s, p3, l3) {
                                    Parsed::Reject(e) => Parsed::Reject(e),
                                    Parsed::Accept { v: rhs, pos: p4, look: l4 } => Parsed::Accept {
                                        v: AstView::VarDef(ident_text(name_tok), Box::new(rhs)),
                                        pos: p4,
                                        look: l4,
                                    },
                                }
                            } else {
                                Parsed::Reject(stall_error(p3, l3))
                            }
                        },
                    }
                },
            }
        },
    }
}

/// Block := '{' StatementList '}'.
pub open spec fn sp_block(s: Seq<char>, pos: int, look: TokenView) -> Parsed<AstView>
    decreases parser_weight(s, pos, look), 8int,
{
    match sp_expect(s, pos, look, TokenView::OpenBrace) {
        Parsed::Reject(e) => Parsed::Reject(e),
        Parsed::Accept { pos: p1, look: l1, .. } => {
            if steps_down(s, pos, look, p1, l1) {
                match sp_statement_list(s, p1, l1) {
                    Parsed::Reject(e) => Parsed::Reject(e),
                    Parsed::Accept { v: ns, pos: p2, look: l2 } => {
                        match sp_expect(s, p2, l2, TokenView::CloseBrace) {
                            Parsed::Reject(e) => Parsed::Reject(e),
                            Parsed::Accept { pos: p3, look: l3, .. } => Parsed::Accept {
                                v: AstView::StatementList(ns),
                                pos: p3,
                                look: l3,
                            },
                        }
                    },
                }
            } else {
                Parsed::Reject(stall_error(p1, l1))
            }
        },
    }
}

/// IfStatement := 'if' Expression Block [ 'else' Block ].
pub open spec fn sp_if_statement(s: Seq<char>, pos: int, look: TokenView) -> Parsed<AstView>
    decreases parser_weight(s, pos, look), 7int,
{
    match sp_expect(s, pos, look, TokenView::Keyword(Seq::empty())) {
        Parsed::Reject(e) => Parsed::Reject(e),
        Parsed::Accept { pos: p1, look: l1, .. } => {
            if steps_down(s, pos, look, p1, l1) {
                match sp_expression(s, p1, l1) {
                    Parsed::Reject(e) => Parsed::Reject(e),
                    Parsed::Accept { v: cond, pos: p2, look: l2 } => {
                        if steps_down(s, pos, look, p2, l2) {
                            match sp_block(s, p2, l2) {
                                Parsed::Reject(e) => Parsed::Reject(e),
                                Parsed::Accept { v: then_b, pos: p3, look: l3 } => {
                                    if l3 matches TokenView::Keyword(w) && w == "else"@ {
                                        match sp_expect(s, p3, l3, TokenView::Keyword(Seq::empty())) {
                                            Parsed::Reject(e) => Parsed::Reject(e),
                                            Parsed::Accept { pos: p4, look: l4, .. } => {
                                                if steps_down(s, pos, look, p4, l4) {
                                                    match sp_block(s, p4, l4) {
                                                        Parsed::Reject(e) => Parsed::Reject(e),
                                                        Parsed::Accept { v: else_b, pos: p5, look: l5 } => Parsed::Accept {
                                                            v: AstView::IfStatement(
                                                                Box::new(cond),
                                                                Box::new(then_b),
                                                                Some(Box::new(else_b)),
                                                            ),
                                                            pos: p5,
                                                            look: l5,
                                                        },
                                                    }
                                                } else {
                                                    Parsed::Reject(stall_error(p4, l4))
                                                }
                                            },
                                        }
                                    } else {
                                        Parsed::Accept {
                                            v: AstView::IfStatement(
                                                Box::new(cond),
                                                Box::new(then_b),
                                                None,
                                            ),
                                            pos: p3,
                                            look: l3,
                                        }
                                    }
                                },
                            }
                        } else {
                            Parsed::Reject(stall_error(p2, l2))
                        }
                    },
                }
            } else {
                Parsed::Reject(stall_error(p1, l1))
            }
        },
    }
}

/// The parameter names between a function definition's parentheses: zero or
/// more identifiers, up to the closing parenthesis.
pub open spec fn sp_fn_params(s: Seq<char>, pos: int, look: TokenView) -> Parsed<Seq<Seq<char>>>
    decreases parser_weight(s, pos, look), 6int,
{
    match look {
        TokenView::CloseParen => Parsed::Accept { v: Seq::empty(), pos, look },
        TokenView::Identifier(name) => {
            match sp_advance(s, pos) {
                Err(le) => Parsed::Reject(ParseErrorView::Lex(le)),
                Ok((p2, l2)) => {
                    if steps_down(s, pos, look, p2, l2) {
                        match sp_fn_params(s, p2, l2) {
                            Parsed::Reject(e) => Parsed::Reject(e),
                            Parsed::Accept { v: rest, pos: p3, look: l3 } => Parsed::Accept {
                                v: seq![name] + rest,
                                pos: p3,
                                look: l3,
                            },
                        }
                    } else {
                        Parsed::Reject(stall_error(p2, l2))
                    }
                },
            }
        },
        _ => Parsed::Reject(
            ParseErrorView::Syntax(
                SyntaxErrorView::UnexpectedToken {
                    expected: TokenView::CloseParen,
                    found: look,
                    position: pos,
                },
            ),
        ),
    }
}

/// FnDef := 'fn' Identifier '(' { Identifier } ')' Block.
pub open spec fn sp_fn_def(s: Seq<char>, pos: int, look: TokenView) -> Parsed<AstView>
    decreases parser_weight(s, pos, look), 7int,
{
    match sp_expect(s, pos, look, TokenView::Keyword(Seq::empty())) {
        Parsed::Reject(e) => Parsed::Reject(e),
        Parsed::Accept { pos: p1, look: l1, .. } => {
            match sp_expect(s, p1, l1, TokenView::Identifier(Seq::empty())) {
                Parsed::Reject(e) => Parsed::Reject(e),
                Parsed::Accept { v: name_tok, pos: p2, look: l2 } => {
                    match sp_expect(s, p2, l2, TokenView::OpenParen) {
                        Parsed::Reject(e) => Parsed::Reject(e),
                        Parsed::Accept { pos: p3, look: l3, .. } => {
                            if steps_down(s, pos, look, p3, l3) {
                                match sp_fn_params(s, p3, l3) {
                                    Parsed::Reject(e) => Parsed::Reject(e),
                                    Parsed::Accept { v: params, pos: p4, look: l4 } => {
                                        match sp_expect(s, p4, l4, TokenView::CloseParen) {
                                            Parsed::Reject(e) => Parsed::Reject(e),
                                            Parsed::Accept { pos: p5, look: l5, .. } => {
                                                if steps_down(s, pos, look, p5, l5) {
                                                    match sp_block(s, p5, l5) {
                                                        Parsed::Reject(e) => Parsed::Reject(e),
                                                        Parsed::Accept { v: body, pos: p6, look: l6 } => Parsed::Accept {
                                                            v: AstView::FnDef(
                                                                ident_text(name_tok),
                                                                params,
                                                                Box::new(body),
                                                            ),
                                                            pos: p6,
                                                            look: l6,
                                                        },
                                                    }
                                                } else {
                                                    Parsed::Reject(stall_error(p5, l5))
                                                }
                                            },
                                        }
                                    },
                                }
                            } else {
                                Parsed::Reject(stall_error(p3, l3))
                            }
                        },
                    }
                },
            }
        },
    }
}

/// Argument := Identifier | NumberLiteral | StringLiteral | BoolLiteral;
/// the arguments of a command run until any other token.
pub open spec fn sp_arguments(s: Seq<char>, pos: int, look: TokenView) -> Parsed<Seq<AstView>>
    decreases parser_weight(s, pos, look), 5int,
{
    let arg: Option<AstView> = match look {
        TokenView::Identifier(t) => Some(AstView::Identifier(t)),
        TokenView::NumberLiteral(t) => Some(AstView::NumberLiteral(t)),
        TokenView::StringLiteral(t) => Some(AstView::StringLiteral(t)),
        TokenView::BoolLiteral(b) => Some(AstView::BoolLiteral(b)),
        _ => None,
    };
    match arg {
        None => Parsed::Accept { v: Seq::empty(), pos, look },
        Some(a) => {
            match sp_advance(s, pos) {
                Err(le) => Parsed::Reject(ParseErrorView::Lex(le)),
                Ok((p2, l2)) => {
                    if steps_down(s, pos, look, p2, l2) {
                        match sp_arguments(s, p2, l2) {
                            Parsed::Reject(e) => Parsed::Reject(e),
                            Parsed::Accept { v: rest, pos: p3, look: l3 } => Parsed::Accept {
                                v: seq![a] + rest,
                                pos: p3,
                                look: l3,
                            },
                        }
                    } else {
                        Parsed::Reject(stall_error(p2, l2))
                    }
                },
            }
        },
    }
}

/// CommandInvocation := Identifier { Argument }.
pub open spec fn sp_command_invocation(s: Seq<char>, pos: int, look: TokenView) -> Parsed<AstView>
    decreases parser_weight(s, pos, look), 6int,
{
    match sp_expect(s, pos, look, TokenView::Identifier(Seq::empty())) {
        Parsed::Reject(e) => Parsed::Reject(e),
        Parsed::Accept { v: name_tok, pos: p1, look: l1 } => {
            if steps_down(s, pos, look, p1, l1) {
                match sp_arguments(s, p1, l1) {
                    Parsed::Reject(e) => Parsed::Reject(e),
                    Parsed::Accept { v: args, pos: p2, look: l2 } => Parsed::Accept {
                        v: AstView::CommandInvocation(ident_text(name_tok), args),
                        pos: p2,
                        look: l2,
                    },
                }
            } else {
                Parsed::Reject(stall_error(p1, l1))
            }
        },
    }
}

/// The pipeline's later stages: { '|' CommandInvocation }.
pub open spec fn sp_pipeline_rest(s: Seq<char>, pos: int, look: TokenView) -> Parsed<Seq<AstView>>
    decreases parser_weight(s, pos, look), 7int,
{
    if look is Pipe {
        match sp_expect(s, pos, look, TokenView::Pipe) {
            Parsed::Reject(e) => Parsed::Reject(e),
            Parsed::Accept { pos: p1, look: l1, .. } => {
                if steps_down(s, pos, look, p1, l1) {
                    match sp_command_invocation(s, p1, l1) {
                        Parsed::Reject(e) => Parsed::Reject(e),
                        Parsed::Accept { v: cmd, pos: p2, look: l2 } => {
                            if steps_down(s, pos, look, p2, l2) {
                                match sp_pipeline_rest(s, p2, l2) {
                                    Parsed::Reject(e) => Parsed::Reject(e),
                                    Parsed::Accept { v: rest, pos: p3, look: l3 } => Parsed::Accept {
                                        v: seq![cmd] + rest,
                                        pos: p3,
                                        look: l3,
                                    },
                                }
                            } else {
                                Parsed::Reject(stall_error(p2, l2))
                            }
                        },
                    }
                } else {
                    Parsed::Reject(stall_error(p1, l1))
                }
            },
        }
    } else {
        Parsed::Accept { v: Seq::empty(), pos, look }
    }
}

/// PipelineStatement := CommandInvocation { '|' CommandInvocation }.  Even a
/// single command is a pipeline of one stage.
pub open spec fn sp_pipeline_statement(s: Seq<char>, pos: int, look: TokenView) -> Parsed<AstView>
    decreases parser_weight(s, pos, look), 7int,
{
    match sp_command_invocation(s, pos, look) {
        Parsed::Reject(e) => Parsed::Reject(e),
        Parsed::Accept { v: first, pos: p1, look: l1 } => {
            if steps_down(s, pos, look, p1, l1) {
                match sp_pipeline_rest(s, p1, l1) {
                    Parsed::Reject(e) => Parsed::Reject(e),
                    Parsed::Accept { v: rest, pos: p2, look: l2 } => Parsed::Accept {
                        v: AstView::Pipeline(seq![first] + rest),
                        pos: p2,
                        look: l2,
                    },
                }
            } else {
                Parsed::Reject(stall_error(p1, l1))
            }
        },
    }
}

/// Primary := NumberLiteral | StringLiteral | BoolLiteral | Identifier
///          | '(' Expression ')'.
pub open spec fn sp_primary(s: Seq<char>, pos: int, look: TokenView) -> Parsed<AstView>
    decreases parser_weight(s, pos, look), 3int,
{
    let lit: Option<AstView> = match look {
        TokenView::NumberLiteral(t) => Some(AstView::NumberLiteral(t)),
        TokenView::StringLiteral(t) => Some(AstView::StringLiteral(t)),
        TokenView::BoolLiteral(b) => Some(AstView::BoolLiteral(b)),
        TokenView::Identifier(t) => Some(AstView::Identifier(t)),
        _ => None,
    };
    match lit {
        Some(a) => match sp_advance(s, pos) {
            Err(le) => Parsed::Reject(ParseErrorView::Lex(le)),
            Ok((p2, l2)) => Parsed::Accept { v: a, pos: p2, look: l2 },
        },
        None => {
            if look is OpenParen {
                sp_parenthesized(s, pos, look)
            } else {
                Parsed::Reject(
                    ParseErrorView::Syntax(
                        SyntaxErrorView::UnexpectedToken {
                            expected: TokenView::Identifier(Seq::empty()),
                            found: look,
                            position: pos,
                        },
                    ),
                )
            }
        },
    }
}

/// What follows the first operand of a binary expression:
/// { BinaryOp Primary }, folded left-associatively onto `acc`.
pub open spec fn sp_binary_rest(s: Seq<char>, pos: int, look: TokenView, acc: AstView) -> Parsed<
    AstView,
>
    decreases parser_weight(s, pos, look), 4int,
{
    match look {
        TokenView::BinaryOp(op) => match sp_advance(s, pos) {
            Err(le) => Parsed::Reject(ParseErrorView::Lex(le)),
            Ok((p1, l1)) => {
                if steps_down(s, pos, look, p1, l1) {
                    match sp_primary(s, p1, l1) {
                        Parsed::Reject(e) => Parsed::Reject(e),
                        Parsed::Accept { v: right, pos: p2, look: l2 } => {
                            if steps_down(s, pos, look, p2, l2) {
                                sp_binary_rest(
                                    s,
                                    p2,
                                    l2,
                                    AstView::BinaryExpr(Box::new(acc), op, Box::new(right)),
                                )
                            } else {
                                Parsed::Reject(stall_error(p2, l2))
                            }
                        },
                    }
                } else {
                    Parsed::Reject(stall_error(p1, l1))
                }
            },
        },
        _ => Parsed::Accept { v: acc, pos, look },
    }
}

/// BinaryExpr := Primary { BinaryOp Primary }, left-associative.
pub open spec fn sp_binary_expression(s: Seq<char>, pos: int, look: TokenView) -> Parsed<AstView>
    decreases parser_weight(s, pos, look), 4int,
{
    match sp_primary(s, pos, look) {
        Parsed::Reject(e) => Parsed::Reject(e),
        Parsed::Accept { v: first, pos: p1, look: l1 } => {
            if steps_down(s, pos, look, p1, l1) {
                sp_binary_rest(s, p1, l1, first)
            } else {
                Parsed::Reject(stall_error(p1, l1))
            }
        },
    }
}

/// What follows the first operand of a logical expression:
/// { LogicalOp BinaryExpr }, folded left-associatively onto `acc`.
pub open spec fn sp_logical_rest(s: Seq<char>, pos: int, look: TokenView, acc: AstView) -> Parsed<
    AstView,
>
    decreases parser_weight(s, pos, look), 5int,
{
    match look {
        TokenView::LogicalOp(op) => match sp_advance(s, pos) {
            Err(le) => Parsed::Reject(ParseErrorView::Lex(le)),
            Ok((p1, l1)) => {
                if steps_down(s, pos, look, p1, l1) {
                    match sp_binary_expression(s, p1, l1) {
                        Parsed::Reject(e) => Parsed::Reject(e),
                        Parsed::Accept { v: right, pos: p2, look: l2 } => {
                            if steps_down(s, pos, look, p2, l2) {
                                sp_logical_rest(
                                    s,
                                    p2,
                                    l2,
                                    AstView::LogicalExpr(Box::new(acc), op, Box::new(right)),
                                )
                            } else {
                                Parsed::Reject(stall_error(p2, l2))
                            }
                        },
                    }
                } else {
                    Parsed::Reject(stall_error(p1, l1))
                }
            },
        },
        _ => Parsed::Accept { v: acc, pos, look },
    }
}

/// Expression := LogicalExpr := BinaryExpr { LogicalOp BinaryExpr },
/// left-associative.
pub open spec fn sp_expression(s: Seq<char>, pos: int, look: TokenView) -> Parsed<AstView>
    decreases parser_weight(s, pos, look), 5int,
{
    match sp_binary_expression(s, pos, look) {
        Parsed::Reject(e) => Parsed::Reject(e),
        Parsed::Accept { v: first, pos: p1, look: l1 } => {
            if steps_down(s, pos, look, p1, l1) {
                sp_logical_rest(s, p1, l1, first)
            } else {
                Parsed::Reject(stall_error(p1, l1))
            }
        },
    }
}

/// `( Expression )`: the parenthesized alternative of Primary.
pub open spec fn sp_parenthesized(s: Seq<char>, pos: int, look: TokenView) -> Parsed<AstView>
    decreases parser_weight(s, pos, look), 2int,
{
    match sp_expect(s, pos, look, TokenView::OpenParen) {
        Parsed::Reject(e) => Parsed::Reject(e),
        Parsed::Accept { pos: p1, look: l1, .. } => {
            if steps_down(s, pos, look, p1, l1) {
                match sp_expression(s, p1, l1) {
                    Parsed::Reject(e) => Parsed::Reject(e),
                    Parsed::Accept { v: inner, pos: p2, look: l2 } => {
                        match sp_expect(s, p2, l2, TokenView::CloseParen) {
                            Parsed::Reject(e) => Parsed::Reject(e),
                            Parsed::Accept { pos: p3, look: l3, .. } => Parsed::Accept {
                                v: AstView::ParenExpr(Box::new(inner)),
                                pos: p3,
                                look: l3,
                            },
                        }
                    },
                }
            } else {
                Parsed::Reject(stall_error(p1, l1))
            }
        },
    }
}

/// Program := StatementList EndOfInput: the whole parse of one input line.
pub open spec fn sp_parse(s: Seq<char>) -> Result<AstView, ParseErrorView> {
    match sp_advance(s, 0) {
        Err(le) => Err(ParseErrorView::Lex(le)),
        Ok((p0, l0)) => match sp_statement_list(s, p0, l0) {
            Parsed::Reject(e) => Err(e),
            Parsed::Accept { v: ns, pos, look } => {
                if look is EndOfInput {
                    Ok(AstView::StatementList(ns))
                } else {
                    Err(
                        ParseErrorView::Syntax(
                            SyntaxErrorView::UnexpectedToken {
                                expected: TokenView::EndOfInput,
                                found: look,
                                position: pos,
                            },
                        ),
                    )
                }
            },
        },
    }
}

// ---------------------------------------------------------------------------
// Helper lemmas and functions
// ---------------------------------------------------------------------------

/// Appending a node on the right maps through `nodes_view`.
proof fn lemma_nodes_view_push(ns: Seq<ASTNode>, n: ASTNode)
    ensures
        nodes_view(ns.push(n)) == nodes_view(ns) + seq![node_view(n)],
    decreases ns.len(),
{
    if ns.len() == 0 {
        assert(ns.push(n)[0] == n);
        assert(ns.push(n).drop_first() =~= Seq::<ASTNode>::empty());
        assert(nodes_view(Seq::<ASTNode>::empty()) == Seq::<AstView>::empty());
        assert(nodes_view(ns) == Seq::<AstView>::empty());
        assert(nodes_view(ns.push(n)) == seq![node_view(n)] + Seq::<AstView>::empty());
        assert(nodes_view(ns.push(n)) =~= nodes_view(ns) + seq![node_view(n)]);
    } else {
        lemma_nodes_view_push(ns.drop_first(), n);
        assert(ns.push(n)[0] == ns[0]);
        assert(ns.push(n).drop_first() =~= ns.drop_first().push(n));
        assert(nodes_view(ns.push(n)) == seq![node_view(ns[0])] + (nodes_view(ns.drop_first())
            + seq![node_view(n)]));
        assert(nodes_view(ns.push(n)) =~= (seq![node_view(ns[0])] + nodes_view(ns.drop_first()))
            + seq![node_view(n)]);
        assert(nodes_view(ns.push(n)) =~= nodes_view(ns) + seq![node_view(n)]);
    }
}

// ---------------------------------------------------------------------------
// The parser
// ---------------------------------------------------------------------------

/// The single-token-lookahead recursive-descent parser: a scanner plus one
/// buffered lookahead token.
pub struct Parser {
    pub tokenizer: Tokenizer,
    pub lookahead: Token,
}

impl Parser {
    /// The source being parsed.
    pub open spec fn src(self) -> Seq<char> {
        self.tokenizer.program@
    }

    /// The scanner's cursor, just past the buffered lookahead.
    pub open spec fn pos(self) -> int {
        self.tokenizer.cursor as int
    }

    /// The buffered lookahead.
    pub open spec fn look(self) -> TokenView {
        self.lookahead@
    }

    pub open spec fn wf(self) -> bool {
        self.tokenizer.wf()
    }

    /// A parser over no input; `parse` resets it over each line.
    pub fn new() -> (p: Parser)
        ensures
            p.wf(),
            p.lookahead@ == TokenView::EndOfInput,
            p.src() == Seq::<char>::empty(),
            p.pos() == 0,
    {
        Parser { lookahead: Token::EndOfInput, tokenizer: Tokenizer::new() }
    }

    /// Discard the lookahead, refill it from the scanner, and hand the
    /// discarded token back.
    fn advance(&mut self) -> (r: Result<Token, ParseError>)
        requires
            old(self).wf(),
        ensures
            final(self).wf(),
            final(self).tokenizer.program == old(self).tokenizer.program,
            match sp_advance(old(self).src(), old(self).pos()) {
                Ok((p2, l2)) => r matches Ok(t) && t@ == old(self).look() && final(self).pos()
                    == p2 && final(self).look() == l2,
                Err(le) => r matches Err(pe) && pe@ == ParseErrorView::Lex(le)
                    && final(self).lookahead == old(self).lookahead,
            },
            r is Ok && !(old(self).look() is EndOfInput) ==> steps_down(
                old(self).src(),
                old(self).pos(),
                old(self).look(),
                final(self).pos(),
                final(self).look(),
            ),
    {
        let next = match self.tokenizer.get_next_token() {
            Ok(t) => t,
            Err(e) => {
                return Err(ParseError::Lex(e));
            },
        };
        let mut prev = next;
        core::mem::swap(&mut self.lookahead, &mut prev);
        Ok(prev)
    }

    /// Check the lookahead against `tok_type` by kind alone.  On a match,
    /// return the consumed token and advance; on a mismatch, return the
    /// syntax error and leave the parser exactly as it was: a failed
    /// `expect` never advances the lookahead.
    pub fn expect(&mut self, tok_type: Token) -> (r: Result<Token, ParseError>)
        requires
            old(self).wf(),
        ensures
            final(self).wf(),
            final(self).tokenizer.program == old(self).tokenizer.program,
            match sp_expect(old(self).src(), old(self).pos(), old(self).look(), tok_type@) {
                Parsed::Accept { v, pos, look } => r matches Ok(t) && t@ == v && final(self).pos()
                    == pos && final(self).look() == look,
                Parsed::Reject(e) => r matches Err(pe) && pe@ == e,
            },
            !same_kind(old(self).look(), tok_type@) ==> *final(self) == *old(self) && r is Err,
            r is Ok && !(old(self).look() is EndOfInput) ==> steps_down(
                old(self).src(),
                old(self).pos(),
                old(self).look(),
                final(self).pos(),
                final(self).look(),
            ),
    {
        if self.lookahead.kind_eq(&tok_type) {
            self.advance()
        } else {
            Err(
                ParseError::Syntax(
                    SyntaxError::UnexpectedToken {
                        expected: tok_type,
                        found: self.lookahead.dup(),
                        position: self.tokenizer.cursor,
                    },
                ),
            )
        }
    }

    /// StatementList := { Statement }: parse statements until the end of
    /// input or the `}` that closes the enclosing block.
    #[verifier::loop_isolation(false)]
    #[verifier::rlimit(100)]
    pub fn statement_list(&mut self) -> (r: Result<Vec<ASTNode>, ParseError>)
        requires
            old(self).wf(),
        ensures
            final(self).wf(),
            final(self).tokenizer.program == old(self).tokenizer.program,
            match sp_statement_list(old(self).src(), old(self).pos(), old(self).look()) {
                Parsed::Accept { v, pos, look } => r matches Ok(ns) && nodes_view(ns@) == v
                    && final(self).pos() == pos && final(self).look() == look,
                Parsed::Reject(e) => r matches Err(pe) && pe@ == e,
            },
            r is Ok ==> 0 <= parser_weight(old(self).src(), final(self).pos(), final(self).look())
                <= parser_weight(old(self).src(), old(self).pos(), old(self).look()),
        decreases parser_weight(self.src(), self.pos(), self.look()), 9int,
    {
        let ghost s = self.src();
        let ghost pos0 = self.pos();
        let ghost look0 = self.look();
        let mut acc: Vec<ASTNode> = Vec::new();
        proof {
            assert(nodes_view(acc@) =~= Seq::<AstView>::empty());
            match sp_statement_list(s, pos0, look0) {
                Parsed::Accept { v, pos, look } => {
                    assert(nodes_view(acc@) + v =~= v);
                },
                Parsed::Reject(e) => {},
            }
        }
        loop
            invariant
                self.wf(),
                s == old(self).src(),
                pos0 == old(self).pos(),
                look0 == old(self).look(),
                self.src() == s,
                self.tokenizer.program == old(self).tokenizer.program,
                0 <= parser_weight(s, self.pos(), self.look()) <= parser_weight(s, pos0, look0),
                match sp_statement_list(s, self.pos(), self.look()) {
                    Parsed::Accept { v, pos, look } => sp_statement_list(s, pos0, look0)
                        == (Parsed::Accept { v: nodes_view(acc@) + v, pos: pos, look: look }),
                    Parsed::Reject(e) => sp_statement_list(s, pos0, look0) == Parsed::Reject::<
                        Seq<AstView>,
                    >(e),
                },
            decreases parser_weight(s, self.pos(), self.look()),
        {
            let done = match &self.lookahead {
                Token::EndOfInput => true,
                Token::CloseBrace => true,
                _ => false,
            };
            if done {
                proof {
                    assert(nodes_view(acc@) + Seq::<AstView>::empty() =~= nodes_view(acc@));
                }
                return Ok(acc);
            }
            let n = match self.statement() {
                Ok(n) => n,
                Err(e) => {
                    return Err(e);
                },
            };
            let ghost prev = acc@;
            acc.push(n);
            proof {
                lemma_nodes_view_push(prev, acc@.last());
                match sp_statement_list(s, self.pos(), self.look()) {
                    Parsed::Accept { v, pos, look } => {
                        assert(nodes_view(prev) + (seq![node_view(acc@.last())] + v)
                            =~= nodes_view(acc@) + v);
                    },
                    Parsed::Reject(e) => {},
                }
            }
        }
    }

    /// Statement := VarDef | IfStatement | FnDef | PipelineStatement
    ///            | Expression.
    pub fn statement(&mut self) -> (r: Result<ASTNode, ParseError>)
        requires
            old(self).wf(),
        ensures
            final(self).wf(),
            final(self).tokenizer.program == old(self).tokenizer.program,
            match sp_statement(old(self).src(), old(self).pos(), old(self).look()) {
                Parsed::Accept { v, pos, look } => r matches Ok(n) && n@ == v && final(self).pos()
                    == pos && final(self).look() == look,
                Parsed::Reject(e) => r matches Err(pe) && pe@ == e,
            },
            r is Ok ==> steps_down(
                old(self).src(),
                old(self).pos(),
                old(self).look(),
                final(self).pos(),
                final(self).look(),
            ),
        decreases parser_weight(self.src(), self.pos(), self.look()), 8int,
    {
        let choice: usize = match &self.lookahead {
            Token::Keyword(w) => {
                if str_eq(w.as_str(), "if") {
                    1
                } else if str_eq(w.as_str(), "fn") {
                    2
                } else {
                    0
                }
            },
            Token::Let => 3,
            Token::Identifier(_) => 4,
            Token::NumberLiteral(_) => 5,
            Token::StringLiteral(_) => 5,
            Token::BoolLiteral(_) => 5,
            Token::OpenParen => 5,
            _ => 0,
        };
        if choice == 1 {
            self.if_statement()
        } else if choice == 2 {
            self.fn_def()
        } else if choice == 3 {
            self.var_def()
        } else if choice == 4 {
            self.pipeline_statement()
        } else if choice == 5 {
            self.expression()
        } else {
            Err(
                ParseError::Syntax(
                    SyntaxError::UnexpectedToken {
                        expected: Token::Identifier(String::new()),
                        found: self.lookahead.dup(),
                        position: self.tokenizer.cursor,
                    },
                ),
            )
        }
    }

    /// VarDef := 'let' Identifier '=' Expression.
    pub fn var_def(&mut self) -> (r: Result<ASTNode, ParseError>)
        requires
            old(self).wf(),
        ensures
            final(self).wf(),
            final(self).tokenizer.program == old(self).tokenizer.program,
            match sp_var_def(old(self).src(), old(self).pos(), old(self).look()) {
                Parsed::Accept { v, pos, look } => r matches Ok(n) && n@ == v && final(self).pos()
                    == pos && final(self).look() == look,
                Parsed::Reject(e) => r matches Err(pe) && pe@ == e,
            },
            r is Ok ==> steps_down(
                old(self).src(),
                old(self).pos(),
                old(self).look(),
                final(self).pos(),
                final(self).look(),
            ),
        decreases parser_weight(self.src(), self.pos(), self.look()), 7int,
    {
        match self.expect(Token::Let) {
            Ok(_) => {},
            Err(e) => {
                return Err(e);
            },
        }
        let name_tok = match self.expect(Token::Identifier(String::new())) {
            Ok(t) => t,
            Err(e) => {
                return Err(e);
            },
        };
        let name = match name_tok {
            Token::Identifier(s) => s,
            _ => String::new(),
        };
        match self.expect(Token::AssignmentOp(String::new())) {
            Ok(_) => {},
            Err(e) => {
                return Err(e);
            },
        }
        let rhs = match self.expression() {
            Ok(n) => n,
            Err(e) => {
                return Err(e);
            },
        };
        Ok(ASTNode { node_type: ASTNodeType::VarDef(name, Box::new(rhs)) })
    }

    /// Block := '{' StatementList '}'.
    fn block(&mut self) -> (r: Result<ASTNode, ParseError>)
        requires
            old(self).wf(),
        ensures
            final(self).wf(),
            final(self).tokenizer.program == old(self).tokenizer.program,
            match sp_block(old(self).src(), old(self).pos(), old(self).look()) {
                Parsed::Accept { v, pos, look } => r matches Ok(n) && n@ == v && final(self).pos()
                    == pos && final(self).look() == look,
                Parsed::Reject(e) => r matches Err(pe) && pe@ == e,
            },
            r is Ok ==> steps_down(
                old(self).src(),
                old(self).pos(),
                old(self).look(),
                final(self).pos(),
                final(self).look(),
            ),
        decreases parser_weight(self.src(), self.pos(), self.look()), 8int,
    {
        match self.expect(Token::OpenBrace) {
            Ok(_) => {},
            Err(e) => {
                return Err(e);
            },
        }
        let ns = match self.statement_list() {
            Ok(v) => v,
            Err(e) => {
                return Err(e);
            },
        };
        match self.expect(Token::CloseBrace) {
            Ok(_) => {},
            Err(e) => {
                return Err(e);
            },
        }
        Ok(ASTNode { node_type: ASTNodeType::StatementList(ns) })
    }

    /// IfStatement := 'if' Expression Block [ 'else' Block ].
    #[verifier::rlimit(100)]
    pub fn if_statement(&mut self) -> (r: Result<ASTNode, ParseError>)
        requires
            old(self).wf(),
        ensures
            final(self).wf(),
            final(self).tokenizer.program == old(self).tokenizer.program,
            match sp_if_statement(old(self).src(), old(self).pos(), old(self).look()) {
                Parsed::Accept { v, pos, look } => r matches Ok(n) && n@ == v && final(self).pos()
                    == pos && final(self).look() == look,
                Parsed::Reject(e) => r matches Err(pe) && pe@ == e,
            },
            r is Ok ==> steps_down(
                old(self).src(),
                old(self).pos(),
                old(self).look(),
                final(self).pos(),
                final(self).look(),
            ),
        decreases parser_weight(self.src(), self.pos(), self.look()), 7int,
    {
        match self.expect(Token::Keyword(String::new())) {
            Ok(_) => {},
            Err(e) => {
                return Err(e);
            },
        }
        let cond = match self.expression() {
            Ok(n) => n,
            Err(e) => {
                return Err(e);
            },
        };
        let then_b = match self.block() {
            Ok(n) => n,
            Err(e) => {
                return Err(e);
            },
        };
        let has_else = match &self.lookahead {
            Token::Keyword(w) => str_eq(w.as_str(), "else"),
            _ => false,
        };
        if has_else {
            match self.expect(Token::Keyword(String::new())) {
                Ok(_) => {},
                Err(e) => {
                    return Err(e);
                },
            }
            let else_b = match self.block() {
                Ok(n) => n,
                Err(e) => {
                    return Err(e);
                },
            };
            Ok(
                ASTNode {
                    node_type: ASTNodeType::IfStatement(
                        Box::new(cond),
                        Box::new(then_b),
                        Some(Box::new(else_b)),
                    ),
                },
            )
        } else {
            Ok(
                ASTNode {
                    node_type: ASTNodeType::IfStatement(Box::new(cond), Box::new(then_b), None),
                },
            )
        }
    }

    /// FnDef := 'fn' Identifier '(' { Identifier } ')' Block.
    #[verifier::loop_isolation(false)]
    #[verifier::rlimit(100)]
    pub fn fn_def(&mut self) -> (r: Result<ASTNode, ParseError>)
        requires
            old(self).wf(),
        ensures
            final(self).wf(),
            final(self).tokenizer.program == old(self).tokenizer.program,
            match sp_fn_def(old(self).src(), old(self).pos(), old(self).look()) {
                Parsed::Accept { v, pos, look } => r matches Ok(n) && n@ == v && final(self).pos()
                    == pos && final(self).look() == look,
                Parsed::Reject(e) => r matches Err(pe) && pe@ == e,
            },
            r is Ok ==> steps_down(
                old(self).src(),
                old(self).pos(),
                old(self).look(),
                final(self).pos(),
                final(self).look(),
            ),
        decreases parser_weight(self.src(), self.pos(), self.look()), 7int,
    {
        let ghost s = self.src();
        let ghost pos0 = self.pos();
        let ghost look0 = self.look();
        match self.expect(Token::Keyword(String::new())) {
            Ok(_) => {},
            Err(e) => {
                return Err(e);
            },
        }
        let name_tok = match self.expect(Token::Identifier(String::new())) {
            Ok(t) => t,
            Err(e) => {
                return Err(e);
            },
        };
        let name = match name_tok {
            Token::Identifier(s2) => s2,
            _ => String::new(),
        };
        match self.expect(Token::OpenParen) {
            Ok(_) => {},
            Err(e) => {
                return Err(e);
            },
        }
        let ghost ppos = self.pos();
        let ghost plook = self.look();
        let mut params: Vec<String> = Vec::new();
        proof {
            assert(strings_view(params@) =~= Seq::<Seq<char>>::empty());
            match sp_fn_params(s, ppos, plook) {
                Parsed::Accept { v, pos, look } => {
                    assert(strings_view(params@) + v =~= v);
                },
                Parsed::Reject(e) => {},
            }
        }
        loop
            invariant
                self.wf(),
                self.src() == s,
                self.tokenizer.program == old(self).tokenizer.program,
                0 <= parser_weight(s, self.pos(), self.look()) <= parser_weight(s, ppos, plook),
                match sp_fn_params(s, self.pos(), self.look()) {
                    Parsed::Accept { v, pos, look } => sp_fn_params(s, ppos, plook)
                        == (Parsed::Accept { v: strings_view(params@) + v, pos: pos, look: look }),
                    Parsed::Reject(e) => sp_fn_params(s, ppos, plook) == Parsed::Reject::<
                        Seq<Seq<char>>,
                    >(e),
                },
            decreases parser_weight(s, self.pos(), self.look()),
        {
            let is_param = match &self.lookahead {
                Token::Identifier(_) => true,
                _ => false,
            };
            if !is_param {
                let is_close = match &self.lookahead {
                    Token::CloseParen => true,
                    _ => false,
                };
                if !is_close {
                    return Err(
                        ParseError::Syntax(
                            SyntaxError::UnexpectedToken {
                                expected: Token::CloseParen,
                                found: self.lookahead.dup(),
                                position: self.tokenizer.cursor,
                            },
                        ),
                    );
                }
                proof {
                    assert(strings_view(params@) + Seq::<Seq<char>>::empty() =~= strings_view(
                        params@,
                    ));
                }
                match self.expect(Token::CloseParen) {
                    Ok(_) => {},
                    Err(e) => {
                        return Err(e);
                    },
                }
                let body = match self.block() {
                    Ok(n) => n,
                    Err(e) => {
                        return Err(e);
                    },
                };
                return Ok(ASTNode { node_type: ASTNodeType::FnDef(name, params, Box::new(body)) });
            }
            let p_tok = match self.advance() {
                Ok(t) => t,
                Err(e) => {
                    return Err(e);
                },
            };
            let p_name = match p_tok {
                Token::Identifier(s2) => s2,
                _ => String::new(),
            };
            let ghost prev = params@;
            params.push(p_name);
            proof {
                assert(strings_view(params@) =~= strings_view(prev) + seq![params@.last()@]);
                match sp_fn_params(s, self.pos(), self.look()) {
                    Parsed::Accept { v, pos, look } => {
                        assert(strings_view(prev) + (seq![params@.last()@] + v) =~= strings_view(
                            params@,
                        ) + v);
                    },
                    Parsed::Reject(e) => {},
                }
            }
        }
    }

    /// CommandInvocation := Identifier { Argument }: a command name and its
    /// argument expressions, which run until any non-argument token.
    #[verifier::loop_isolation(false)]
    #[verifier::rlimit(100)]
    pub fn command_expression(&mut self) -> (r: Result<ASTNode, ParseError>)
        requires
            old(self).wf(),
        ensures
            final(self).wf(),
            final(self).tokenizer.program == old(self).tokenizer.program,
            match sp_command_invocation(old(self).src(), old(self).pos(), old(self).look()) {
                Parsed::Accept { v, pos, look } => r matches Ok(n) && n@ == v && final(self).pos()
                    == pos && final(self).look() == look,
                Parsed::Reject(e) => r matches Err(pe) && pe@ == e,
            },
            r is Ok ==> steps_down(
                old(self).src(),
                old(self).pos(),
                old(self).look(),
                final(self).pos(),
                final(self).look(),
            ),
        decreases parser_weight(self.src(), self.pos(), self.look()), 6int,
    {
        let ghost s = self.src();
        let ghost pos0 = self.pos();
        let ghost look0 = self.look();
        let name_tok = match self.expect(Token::Identifier(String::new())) {
            Ok(t) => t,
            Err(e) => {
                return Err(e);
            },
        };
        let name = match name_tok {
            Token::Identifier(s2) => s2,
            _ => String::new(),
        };
        let ghost apos = self.pos();
        let ghost alook = self.look();
        let mut args: Vec<ASTNode> = Vec::new();
        proof {
            assert(nodes_view(args@) =~= Seq::<AstView>::empty());
            match sp_arguments(s, apos, alook) {
                Parsed::Accept { v, pos, look } => {
                    assert(nodes_view(args@) + v =~= v);
                },
                Parsed::Reject(e) => {},
            }
        }
        loop
            invariant
                self.wf(),
                self.src() == s,
                self.tokenizer.program == old(self).tokenizer.program,
                0 <= parser_weight(s, self.pos(), self.look()) <= parser_weight(s, apos, alook),
                match sp_arguments(s, self.pos(), self.look()) {
                    Parsed::Accept { v, pos, look } => sp_arguments(s, apos, alook)
                        == (Parsed::Accept { v: nodes_view(args@) + v, pos: pos, look: look }),
                    Parsed::Reject(e) => sp_arguments(s, apos, alook) == Parsed::Reject::<
                        Seq<AstView>,
                    >(e),
                },
            decreases parser_weight(s, self.pos(), self.look()),
        {
            let arg_node: Option<ASTNode> = match &self.lookahead {
                Token::Identifier(t) => Some(
                    ASTNode { node_type: ASTNodeType::Identifier(t.clone()) },
                ),
                Token::NumberLiteral(t) => Some(
                    ASTNode { node_type: ASTNodeType::NumberLiteral(t.clone()) },
                ),
                Token::StringLiteral(t) => Some(
                    ASTNode { node_type: ASTNodeType::StringLiteral(t.clone()) },
                ),
                Token::BoolLiteral(b) => Some(
                    ASTNode { node_type: ASTNodeType::BoolLiteral(*b) },
                ),
                _ => None,
            };
            let a = match arg_node {
                Some(a) => a,
                None => {
                    proof {
                        assert(nodes_view(args@) + Seq::<AstView>::empty() =~= nodes_view(args@));
                    }
                    return Ok(ASTNode { node_type: ASTNodeType::CommandInvocation(name, args) });
                },
            };
            match self.advance() {
                Ok(_) => {},
                Err(e) => {
                    return Err(e);
                },
            }
            let ghost prev = args@;
            args.push(a);
            proof {
                lemma_nodes_view_push(prev, args@.last());
                match sp_arguments(s, self.pos(), self.look()) {
                    Parsed::Accept { v, pos, look } => {
                        assert(nodes_view(prev) + (seq![node_view(args@.last())] + v)
                            =~= nodes_view(args@) + v);
                    },
                    Parsed::Reject(e) => {},
                }
            }
        }
    }

    /// PipelineStatement := CommandInvocation { '|' CommandInvocation }.
    /// Even a single command is a pipeline of one stage.
    #[verifier::loop_isolation(false)]
    #[verifier::rlimit(100)]
    pub fn pipeline_statement(&mut self) -> (r: Result<ASTNode, ParseError>)
        requires
            old(self).wf(),
        ensures
            final(self).wf(),
            final(self).tokenizer.program == old(self).tokenizer.program,
            match sp_pipeline_statement(old(self).src(), old(self).pos(), old(self).look()) {
                Parsed::Accept { v, pos, look } => r matches Ok(n) && n@ == v && final(self).pos()
                    == pos && final(self).look() == look,
                Parsed::Reject(e) => r matches Err(pe) && pe@ == e,
            },
            r is Ok ==> steps_down(
                old(self).src(),
                old(self).pos(),
                old(self).look(),
                final(self).pos(),
                final(self).look(),
            ),
        decreases parser_weight(self.src(), self.pos(), self.look()), 7int,
    {
        let ghost s = self.src();
        let ghost pos0 = self.pos();
        let ghost look0 = self.look();
        let first = match self.command_expression() {
            Ok(n) => n,
            Err(e) => {
                return Err(e);
            },
        };
        let mut stages: Vec<ASTNode> = Vec::new();
        stages.push(first);
        proof {
            assert(nodes_view(Seq::<ASTNode>::empty()) =~= Seq::<AstView>::empty());
            lemma_nodes_view_push(Seq::<ASTNode>::empty(), stages@.last());
            assert(nodes_view(stages@) =~= seq![node_view(stages@.last())]);
        }
        loop
            invariant
                self.wf(),
                self.src() == s,
                self.tokenizer.program == old(self).tokenizer.program,
                steps_down(s, pos0, look0, self.pos(), self.look()),
                match sp_pipeline_rest(s, self.pos(), self.look()) {
                    Parsed::Accept { v, pos, look } => sp_pipeline_statement(s, pos0, look0)
                        == (Parsed::Accept {
                        v: AstView::Pipeline(nodes_view(stages@) + v),
                        pos: pos,
                        look: look,
                    }),
                    Parsed::Reject(e) => sp_pipeline_statement(s, pos0, look0) == Parsed::Reject::<
                        AstView,
                    >(e),
                },
            decreases parser_weight(s, self.pos(), self.look()),
        {
            let is_pipe = match &self.lookahead {
                Token::Pipe => true,
                _ => false,
            };
            if !is_pipe {
                proof {
                    assert(nodes_view(stages@) + Seq::<AstView>::empty() =~= nodes_view(stages@));
                }
                return Ok(ASTNode { node_type: ASTNodeType::Pipeline(stages) });
            }
            match self.expect(Token::Pipe) {
                Ok(_) => {},
                Err(e) => {
                    return Err(e);
                },
            }
            let cmd = match self.command_expression() {
                Ok(n) => n,
                Err(e) => {
                    return Err(e);
                },
            };
            let ghost prev = stages@;
            stages.push(cmd);
            proof {
                lemma_nodes_view_push(prev, stages@.last());
                match sp_pipeline_rest(s, self.pos(), self.look()) {
                    Parsed::Accept { v, pos, look } => {
                        assert(nodes_view(prev) + (seq![node_view(stages@.last())] + v)
                            =~= nodes_view(stages@) + v);
                    },
                    Parsed::Reject(e) => {},
                }
            }
        }
    }

    /// Expression := BinaryExpr { LogicalOp BinaryExpr }, left-associative.
    #[verifier::loop_isolation(false)]
    #[verifier::rlimit(100)]
    pub fn expression(&mut self) -> (r: Result<ASTNode, ParseError>)
        requires
            old(self).wf(),
        ensures
            final(self).wf(),
            final(self).tokenizer.program == old(self).tokenizer.program,
            match sp_expression(old(self).src(), old(self).pos(), old(self).look()) {
                Parsed::Accept { v, pos, look } => r matches Ok(n) && n@ == v && final(self).pos()
                    == pos && final(self).look() == look,
                Parsed::Reject(e) => r matches Err(pe) && pe@ == e,
            },
            r is Ok ==> steps_down(
                old(self).src(),
                old(self).pos(),
                old(self).look(),
                final(self).pos(),
                final(self).look(),
            ),
        decreases parser_weight(self.src(), self.pos(), self.look()), 5int,
    {
        let ghost s = self.src();
        let ghost pos0 = self.pos();
        let ghost look0 = self.look();
        let mut acc = match self.binary_expression() {
            Ok(n) => n,
            Err(e) => {
                return Err(e);
            },
        };
        loop
            invariant
                self.wf(),
                self.src() == s,
                self.tokenizer.program == old(self).tokenizer.program,
                steps_down(s, pos0, look0, self.pos(), self.look()),
                match sp_logical_rest(s, self.pos(), self.look(), acc@) {
                    Parsed::Accept { v, pos, look } => sp_expression(s, pos0, look0)
                        == (Parsed::Accept { v: v, pos: pos, look: look }),
                    Parsed::Reject(e) => sp_expression(s, pos0, look0) == Parsed::Reject::<
                        AstView,
                    >(e),
                },
            decreases parser_weight(s, self.pos(), self.look()),
        {
            let op = match &self.lookahead {
                Token::LogicalOp(t) => t.clone(),
                _ => {
                    return Ok(acc);
                },
            };
            match self.advance() {
                Ok(_) => {},
                Err(e) => {
                    return Err(e);
                },
            }
            let right = match self.binary_expression() {
                Ok(n) => n,
                Err(e) => {
                    return Err(e);
                },
            };
            acc = ASTNode {
                node_type: ASTNodeType::LogicalExpr(Box::new(acc), op, Box::new(right)),
            };
        }
    }

    /// BinaryExpr := Primary { BinaryOp Primary }, left-associative.
    #[verifier::loop_isolation(false)]
    #[verifier::rlimit(100)]
    pub fn binary_expression(&mut self) -> (r: Result<ASTNode, ParseError>)
        requires
            old(self).wf(),
        ensures
            final(self).wf(),
            final(self).tokenizer.program == old(self).tokenizer.program,
            match sp_binary_expression(old(self).src(), old(self).pos(), old(self).look()) {
                Parsed::Accept { v, pos, look } => r matches Ok(n) && n@ == v && final(self).pos()
                    == pos && final(self).look() == look,
                Parsed::Reject(e) => r matches Err(pe) && pe@ == e,
            },
            r is Ok ==> steps_down(
                old(self).src(),
                old(self).pos(),
                old(self).look(),
                final(self).pos(),
                final(self).look(),
            ),
        decreases parser_weight(self.src(), self.pos(), self.look()), 4int,
    {
        let ghost s = self.src();
        let ghost pos0 = self.pos();
        let ghost look0 = self.look();
        let mut acc = match self.primary() {
            Ok(n) => n,
            Err(e) => {
                return Err(e);
            },
        };
        loop
            invariant
                self.wf(),
                self.src() == s,
                self.tokenizer.program == old(self).tokenizer.program,
                steps_down(s, pos0, look0, self.pos(), self.look()),
                match sp_binary_rest(s, self.pos(), self.look(), acc@) {
                    Parsed::Accept { v, pos, look } => sp_binary_expression(s, pos0, look0)
                        == (Parsed::Accept { v: v, pos: pos, look: look }),
                    Parsed::Reject(e) => sp_binary_expression(s, pos0, look0) == Parsed::Reject::<
                        AstView,
                    >(e),
                },
            decreases parser_weight(s, self.pos(), self.look()),
        {
            let op = match &self.lookahead {
                Token::BinaryOp(t) => t.clone(),
                _ => {
                    return Ok(acc);
                },
            };
            match self.advance() {
                Ok(_) => {},
                Err(e) => {
                    return Err(e);
                },
            }
            let right = match self.primary() {
                Ok(n) => n,
                Err(e) => {
                    return Err(e);
                },
            };
            acc = ASTNode {
                node_type: ASTNodeType::BinaryExpr(Box::new(acc), op, Box::new(right)),
            };
        }
    }

    /// Primary := NumberLiteral | StringLiteral | BoolLiteral | Identifier
    ///          | '(' Expression ')'.
    pub fn primary(&mut self) -> (r: Result<ASTNode, ParseError>)
        requires
            old(self).wf(),
        ensures
            final(self).wf(),
            final(self).tokenizer.program == old(self).tokenizer.program,
            match sp_primary(old(self).src(), old(self).pos(), old(self).look()) {
                Parsed::Accept { v, pos, look } => r matches Ok(n) && n@ == v && final(self).pos()
                    == pos && final(self).look() == look,
                Parsed::Reject(e) => r matches Err(pe) && pe@ == e,
            },
            r is Ok ==> steps_down(
                old(self).src(),
                old(self).pos(),
                old(self).look(),
                final(self).pos(),
                final(self).look(),
            ),
        decreases parser_weight(self.src(), self.pos(), self.look()), 3int,
    {
        let lit: Option<ASTNode> = match &self.lookahead {
            Token::NumberLiteral(t) => Some(
                ASTNode { node_type: ASTNodeType::NumberLiteral(t.clone()) },
            ),
            Token::StringLiteral(t) => Some(
                ASTNode { node_type: ASTNodeType::StringLiteral(t.clone()) },
            ),
            Token::BoolLiteral(b) => Some(ASTNode { node_type: ASTNodeType::BoolLiteral(*b) }),
            Token::Identifier(t) => Some(ASTNode { node_type: ASTNodeType::Identifier(t.clone()) }),
            _ => None,
        };
        match lit {
            Some(a) => {
                match self.advance() {
                    Ok(_) => {},
                    Err(e) => {
                        return Err(e);
                    },
                }
                Ok(a)
            },
            None => {
                let is_paren = match &self.lookahead {
                    Token::OpenParen => true,
                    _ => false,
                };
                if is_paren {
                    self.parenthesized_expression()
                } else {
                    Err(
                        ParseError::Syntax(
                            SyntaxError::UnexpectedToken {
                                expected: Token::Identifier(String::new()),
                                found: self.lookahead.dup(),
                                position: self.tokenizer.cursor,
                            },
                        ),
                    )
                }
            },
        }
    }

    /// `( Expression )`.
    pub fn parenthesized_expression(&mut self) -> (r: Result<ASTNode, ParseError>)
        requires
            old(self).wf(),
        ensures
            final(self).wf(),
            final(self).tokenizer.program == old(self).tokenizer.program,
            match sp_parenthesized(old(self).src(), old(self).pos(), old(self).look()) {
                Parsed::Accept { v, pos, look } => r matches Ok(n) && n@ == v && final(self).pos()
                    == pos && final(self).look() == look,
                Parsed::Reject(e) => r matches Err(pe) && pe@ == e,
            },
            r is Ok ==> steps_down(
                old(self).src(),
                old(self).pos(),
                old(self).look(),
                final(self).pos(),
                final(self).look(),
            ),
        decreases parser_weight(self.src(), self.pos(), self.look()), 2int,
    {
        match self.expect(Token::OpenParen) {
            Ok(_) => {},
            Err(e) => {
                return Err(e);
            },
        }
        let inner = match self.expression() {
            Ok(n) => n,
            Err(e) => {
                return Err(e);
            },
        };
        match self.expect(Token::CloseParen) {
            Ok(_) => {},
            Err(e) => {
                return Err(e);
            },
        }
        Ok(ASTNode { node_type: ASTNodeType::ParenExpr(Box::new(inner)) })
    }

    /// Parse one whole line of input into its statement list.  Every
    /// failure is a returned error value: one bad line never ends the
    /// session.
    pub fn parse(&mut self, input: &str) -> (r: Result<ASTNode, ParseError>)
        ensures
            final(self).wf(),
            match sp_parse(input@) {
                Ok(v) => r matches Ok(n) && n@ == v,
                Err(e) => r matches Err(pe) && pe@ == e,
            },
    {
        self.tokenizer.init(input);
        self.lookahead = Token::EndOfInput;
        match self.tokenizer.get_next_token() {
            Ok(t) => {
                self.lookahead = t;
            },
            Err(e) => {
                return Err(ParseError::Lex(e));
            },
        }
        let ns = match self.statement_list() {
            Ok(v) => v,
            Err(e) => {
                return Err(e);
            },
        };
        let at_end = match &self.lookahead {
            Token::EndOfInput => true,
            _ => false,
        };
        if at_end {
            Ok(ASTNode { node_type: ASTNodeType::StatementList(ns) })
        } else {
            Err(
                ParseError::Syntax(
                    SyntaxError::UnexpectedToken {
                        expected: Token::EndOfInput,
                        found: self.lookahead.dup(),
                        position: self.tokenizer.cursor,
                    },
                ),
            )
        }
    }

    /// An identifier node around `s`.
    pub fn identifier(&mut self, s: String) -> (n: ASTNode)
        ensures
            *final(self) == *old(self),
            n@ == AstView::Identifier(s@),
    {
        ASTNode { node_type: ASTNodeType::Identifier(s) }
    }

    /// A number-literal node around the literal text `s`.
    pub fn number_literal(&mut self, s: String) -> (n: ASTNode)
        ensures
            *final(self) == *old(self),
            n@ == AstView::NumberLiteral(s@),
    {
        ASTNode { node_type: ASTNodeType::NumberLiteral(s) }
    }

    /// A string-literal node around `s`.
    pub fn string_literal(&mut self, s: String) -> (n: ASTNode)
        ensures
            *final(self) == *old(self),
            n@ == AstView::StringLiteral(s@),
    {
        ASTNode { node_type: ASTNodeType::StringLiteral(s) }
    }

    /// A bool-literal node around `b`.
    pub fn bool_literal(&mut self, b: bool) -> (n: ASTNode)
        ensures
            *final(self) == *old(self),
            n@ == AstView::BoolLiteral(b),
    {
        ASTNode { node_type: ASTNodeType::BoolLiteral(b) }
    }

    /// A command-invocation node for the bare command `s`, with no
    /// arguments.
    pub fn command(&mut self, s: String) -> (n: ASTNode)
        ensures
            *final(self) == *old(self),
            n@ == AstView::CommandInvocation(s@, Seq::<AstView>::empty()),
    {
        let n = ASTNode { node_type: ASTNodeType::CommandInvocation(s, Vec::new()) };
        proof {
            assert(nodes_view(Seq::<ASTNode>::empty()) =~= Seq::<AstView>::empty());
        }
        n
    }
}

} // verus!
