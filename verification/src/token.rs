use vstd::prelude::*;
use vstd::string::{StringExecFns, StrSliceExecFns};

verus! {

/// The lexical categories of the shell language.
///
/// Payload-carrying variants hold the token's source text; in particular a
/// `NumberLiteral` carries the literal exactly as written (for example
/// `"10.0"`), and a `StringLiteral` carries the quoted text with the
/// delimiting quotes stripped and no escape processing.
#[derive(Debug, Clone, PartialEq)]
pub enum Token {
    Keyword(String),
    Identifier(String),
    NumberLiteral(String),
    StringLiteral(String),
    BoolLiteral(bool),
    BinaryOp(String),
    LogicalOp(String),
    AssignmentOp(String),
    Let,
    OpenParen,
    CloseParen,
    OpenBrace,
    CloseBrace,
    Pipe,
    EndOfInput,
}

/// The mathematical model of a `Token`: the same categories over
/// character sequences.
pub enum TokenView {
    Keyword(Seq<char>),
    Identifier(Seq<char>),
    NumberLiteral(Seq<char>),
    StringLiteral(Seq<char>),
    BoolLiteral(bool),
    BinaryOp(Seq<char>),
    LogicalOp(Seq<char>),
    AssignmentOp(Seq<char>),
    Let,
    OpenParen,
    CloseParen,
    OpenBrace,
    CloseBrace,
    Pipe,
    EndOfInput,
}

impl View for Token {
    type V = TokenView;

    open spec fn view(&self) -> TokenView {
        match self {
            Token::Keyword(s) => TokenView::Keyword(s@),
            Token::Identifier(s) => TokenView::Identifier(s@),
            Token::NumberLiteral(s) => TokenView::NumberLiteral(s@),
            Token::StringLiteral(s) => TokenView::StringLiteral(s@),
            Token::BoolLiteral(b) => TokenView::BoolLiteral(*b),
            Token::BinaryOp(s) => TokenView::BinaryOp(s@),
            Token::LogicalOp(s) => TokenView::LogicalOp(s@),
            Token::AssignmentOp(s) => TokenView::AssignmentOp(s@),
            Token::Let => TokenView::Let,
            Token::OpenParen => TokenView::OpenParen,
            Token::CloseParen => TokenView::CloseParen,
            Token::OpenBrace => TokenView::OpenBrace,
            Token::CloseBrace => TokenView::CloseBrace,
            Token::Pipe => TokenView::Pipe,
            Token::EndOfInput => TokenView::EndOfInput,
        }
    }
}

/// Kind-equality: two tokens agree on their lexical category, payloads
/// ignored.  This is the predicate `expect` matches with; it is deliberately
/// distinct from full structural equality.
pub open spec fn same_kind(a: TokenView, b: TokenView) -> bool {
    match (a, b) {
        (TokenView::Keyword(_), TokenView::Keyword(_)) => true,
        (TokenView::Identifier(_), TokenView::Identifier(_)) => true,
        (TokenView::NumberLiteral(_), TokenView::NumberLiteral(_)) => true,
        (TokenView::StringLiteral(_), TokenView::StringLiteral(_)) => true,
        (TokenView::BoolLiteral(_), TokenView::BoolLiteral(_)) => true,
        (TokenView::BinaryOp(_), TokenView::BinaryOp(_)) => true,
        (TokenView::LogicalOp(_), TokenView::LogicalOp(_)) => true,
        (TokenView::AssignmentOp(_), TokenView::AssignmentOp(_)) => true,
        (TokenView::Let, TokenView::Let) => true,
        (TokenView::OpenParen, TokenView::OpenParen) => true,
        (TokenView::CloseParen, TokenView::CloseParen) => true,
        (TokenView::OpenBrace, TokenView::OpenBrace) => true,
        (TokenView::CloseBrace, TokenView::CloseBrace) => true,
        (TokenView::Pipe, TokenView::Pipe) => true,
        (TokenView::EndOfInput, TokenView::EndOfInput) => true,
        _ => false,
    }
}

/// What `Token::to_string` renders for each token.
pub open spec fn token_display(t: TokenView) -> Seq<char> {
    match t {
        TokenView::Keyword(s) => "Keyword ("@ + s + ")"@,
        TokenView::Identifier(s) => "Identifier ("@ + s + ")"@,
        TokenView::NumberLiteral(s) => "NumberLiteral ("@ + s + ")"@,
        TokenView::StringLiteral(s) => "StringLiteral ("@ + s + ")"@,
        TokenView::BoolLiteral(b) => if b { "BoolLiteral (true)"@ } else { "BoolLiteral (false)"@ },
        TokenView::BinaryOp(s) => "BinaryOp ("@ + s + ")"@,
        TokenView::LogicalOp(s) => "LogicalOp ("@ + s + ")"@,
        TokenView::AssignmentOp(s) => "AssignmentOp ("@ + s + ")"@,
        TokenView::Let => "Let"@,
        TokenView::OpenParen => "("@,
        TokenView::CloseParen => ")"@,
        TokenView::OpenBrace => "{"@,
        TokenView::CloseBrace => "}"@,
        TokenView::Pipe => "|"@,
        TokenView::EndOfInput => "EndOfInput"@,
    }
}

/// Character-for-character string equality, tied to the views.
pub fn str_eq(a: &str, b: &str) -> (r: bool)
    ensures
        r == (a@ == b@),
{
    let al = a.unicode_len();
    let bl = b.unicode_len();
    if al != bl {
        return false;
    }
    let mut k: usize = 0;
    loop
        invariant
            al == a@.len(),
            al == b@.len(),
            0 <= k <= al,
            forall|m: int| 0 <= m < k ==> a@[m] == b@[m],
        ensures
            forall|m: int| 0 <= m < al ==> a@[m] == b@[m],
        decreases al - k,
    {
        if k >= al {
            break;
        }
        if a.get_char(k) != b.get_char(k) {
            return false;
        }
        k = k + 1;
    }
    proof {
        assert(a@ =~= b@);
    }
    true
}

impl Token {
    /// Kind-equality test used by the parser's `expect`: matches on the
    /// variant's shape only, never on the payload.
    pub fn kind_eq(&self, other: &Token) -> (r: bool)
        ensures
            r == same_kind(self@, other@),
    {
        match (self, other) {
            (Token::Keyword(_), Token::Keyword(_)) => true,
            (Token::Identifier(_), Token::Identifier(_)) => true,
            (Token::NumberLiteral(_), Token::NumberLiteral(_)) => true,
            (Token::StringLiteral(_), Token::StringLiteral(_)) => true,
            (Token::BoolLiteral(_), Token::BoolLiteral(_)) => true,
            (Token::BinaryOp(_), Token::BinaryOp(_)) => true,
            (Token::LogicalOp(_), Token::LogicalOp(_)) => true,
            (Token::AssignmentOp(_), Token::AssignmentOp(_)) => true,
            (Token::Let, Token::Let) => true,
            (Token::OpenParen, Token::OpenParen) => true,
            (Token::CloseParen, Token::CloseParen) => true,
            (Token::OpenBrace, Token::OpenBrace) => true,
            (Token::CloseBrace, Token::CloseBrace) => true,
            (Token::Pipe, Token::Pipe) => true,
            (Token::EndOfInput, Token::EndOfInput) => true,
            _ => false,
        }
    }

    /// An exact copy; unlike a derived `Clone`, its contract is visible to
    /// the verifier.
    pub fn dup(&self) -> (t: Token)
        ensures
            t == *self,
    {
        match self {
            Token::Keyword(s) => Token::Keyword(s.clone()),
            Token::Identifier(s) => Token::Identifier(s.clone()),
            Token::NumberLiteral(s) => Token::NumberLiteral(s.clone()),
            Token::StringLiteral(s) => Token::StringLiteral(s.clone()),
            Token::BoolLiteral(b) => Token::BoolLiteral(*b),
            Token::BinaryOp(s) => Token::BinaryOp(s.clone()),
            Token::LogicalOp(s) => Token::LogicalOp(s.clone()),
            Token::AssignmentOp(s) => Token::AssignmentOp(s.clone()),
            Token::Let => Token::Let,
            Token::OpenParen => Token::OpenParen,
            Token::CloseParen => Token::CloseParen,
            Token::OpenBrace => Token::OpenBrace,
            Token::CloseBrace => Token::CloseBrace,
            Token::Pipe => Token::Pipe,
            Token::EndOfInput => Token::EndOfInput,
        }
    }

    /// A readable rendering of the token, category first.
    pub fn to_string(&self) -> (r: String)
        ensures
            r@ == token_display(self@),
    {
        match self {
            Token::Keyword(s) => {
                let mut r = String::from_str("Keyword (");
                r.append(s.as_str());
                r.append(")");
                r
            },
            Token::Identifier(s) => {
                let mut r = String::from_str("Identifier (");
                r.append(s.as_str());
                r.append(")");
                r
            },
            Token::NumberLiteral(s) => {
                let mut r = String::from_str("NumberLiteral (");
                r.append(s.as_str());
                r.append(")");
                r
            },
            Token::StringLiteral(s) => {
                let mut r = String::from_str("StringLiteral (");
                r.append(s.as_str());
                r.append(")");
                r
            },
            Token::BoolLiteral(b) => {
                if *b {
                    String::from_str("BoolLiteral (true)")
                } else {
                    String::from_str("BoolLiteral (false)")
                }
            },
            Token::BinaryOp(s) => {
                let mut r = String::from_str("BinaryOp (");
                r.append(s.as_str());
                r.append(")");
                r
            },
            Token::LogicalOp(s) => {
                let mut r = String::from_str("LogicalOp (");
                r.append(s.as_str());
                r.append(")");
                r
            },
            Token::AssignmentOp(s) => {
                let mut r = String::from_str("AssignmentOp (");
                r.append(s.as_str());
                r.append(")");
                r
            },
            Token::Let => String::from_str("Let"),
            Token::OpenParen => String::from_str("("),
            Token::CloseParen => String::from_str(")"),
            Token::OpenBrace => String::from_str("{"),
            Token::CloseBrace => String::from_str("}"),
            Token::Pipe => String::from_str("|"),
            Token::EndOfInput => String::from_str("EndOfInput"),
        }
    }
}

} // verus!
