use vstd::prelude::*;
use vstd::string::{StrSliceExecFns, StringExecFns};
use crate::token::{Token, TokenView};

verus! {

// ---------------------------------------------------------------------------
// Character classes
// ---------------------------------------------------------------------------

/// The whitespace characters the scanner elides between tokens.
pub open spec fn is_space_char(c: char) -> bool {
    c == ' ' || c == '\t' || c == '\n' || c == '\r'
}

/// Characters that may form an identifier run.  Identifiers are maximal runs
/// of characters other than whitespace, the string quote, parentheses,
/// braces, and the reserved character `@`, which no rule recognizes.  This
/// generous class is what lets bare command names and flags such as `-a`
/// scan as identifiers in command position.
pub open spec fn is_ident_char(c: char) -> bool {
    !is_space_char(c) && c != '"' && c != '(' && c != ')' && c != '{' && c != '}' && c != '@'
}

pub open spec fn is_digit_char(c: char) -> bool {
    '0' <= c && c <= '9'
}

// ---------------------------------------------------------------------------
// Elision: whitespace runs and `#` comments
// ---------------------------------------------------------------------------

/// The cursor position after eliding every leading whitespace run and
/// `#`-to-end-of-line comment starting at `i`.
pub open spec fn skip_elided(s: Seq<char>, i: int) -> int
    decreases s.len() - i, 0int,
{
    if i < 0 || i >= s.len() {
        i
    } else if is_space_char(s[i]) {
        skip_elided(s, i + 1)
    } else if s[i] == '#' {
        skip_comment(s, i + 1)
    } else {
        i
    }
}

/// Elision inside a comment: discard through the next line terminator (or
/// the end of input), then continue eliding.
pub open spec fn skip_comment(s: Seq<char>, i: int) -> int
    decreases s.len() - i, 1int,
{
    if i < 0 || i >= s.len() {
        i
    } else if s[i] == '\n' {
        skip_elided(s, i + 1)
    } else {
        skip_comment(s, i + 1)
    }
}

// ---------------------------------------------------------------------------
// Match lengths of the scanning rules
// ---------------------------------------------------------------------------

/// The end of the maximal identifier run starting at `i`.
pub open spec fn ident_run_end(s: Seq<char>, i: int) -> int
    decreases s.len() - i,
{
    if i < 0 || i >= s.len() {
        i
    } else if is_ident_char(s[i]) {
        ident_run_end(s, i + 1)
    } else {
        i
    }
}

/// The end of the maximal digit run starting at `i`.
pub open spec fn digit_run_end(s: Seq<char>, i: int) -> int
    decreases s.len() - i,
{
    if i < 0 || i >= s.len() {
        i
    } else if is_digit_char(s[i]) {
        digit_run_end(s, i + 1)
    } else {
        i
    }
}

/// The end of a numeric literal `digits[.digits]` starting at `i`, or `i`
/// itself when no digit stands there.  The dot is taken only when at least
/// one digit follows it.
pub open spec fn number_token_end(s: Seq<char>, i: int) -> int {
    let d = digit_run_end(s, i);
    if d < s.len() && s[d] == '.' && digit_run_end(s, d + 1) > d + 1 {
        digit_run_end(s, d + 1)
    } else {
        d
    }
}

/// The position of the closing quote of a string literal whose body starts
/// at `i`, or `None` when the line or the input ends first.
pub open spec fn string_close(s: Seq<char>, i: int) -> Option<int>
    decreases s.len() - i,
{
    if i < 0 || i >= s.len() {
        None
    } else if s[i] == '"' {
        Some(i)
    } else if s[i] == '\n' {
        None
    } else {
        string_close(s, i + 1)
    }
}

// ---------------------------------------------------------------------------
// Keywords and operators
// ---------------------------------------------------------------------------

/// `w` occurs literally at `i`.
pub open spec fn lit_at(s: Seq<char>, i: int, w: Seq<char>) -> bool {
    &&& 0 <= i
    &&& i + w.len() <= s.len()
    &&& s.subrange(i, i + w.len() as int) == w
}

/// `w` occurs at `i` as a whole word: followed by the end of input or by a
/// character that cannot continue an identifier.  This is what keeps
/// `lettuce` from scanning as the keyword `let`.
pub open spec fn word_at(s: Seq<char>, i: int, w: Seq<char>) -> bool {
    &&& lit_at(s, i, w)
    &&& (i + w.len() == s.len() || !is_ident_char(s[i + w.len() as int]))
}

/// The first operator literal of the fixed precedence order that occurs at
/// `i`, with its token and its length.  A lone `|` is the pipeline
/// separator.
pub open spec fn op_match(s: Seq<char>, i: int) -> Option<(TokenView, int)> {
    if lit_at(s, i, "||"@) {
        Some((TokenView::LogicalOp("||"@), 2))
    } else if lit_at(s, i, "|"@) {
        Some((TokenView::Pipe, 1))
    } else if lit_at(s, i, "&&"@) {
        Some((TokenView::LogicalOp("&&"@), 2))
    } else if lit_at(s, i, "&"@) {
        Some((TokenView::LogicalOp("&"@), 1))
    } else if lit_at(s, i, "+="@) {
        Some((TokenView::AssignmentOp("+="@), 2))
    } else if lit_at(s, i, "-="@) {
        Some((TokenView::AssignmentOp("-="@), 2))
    } else if lit_at(s, i, "*="@) {
        Some((TokenView::AssignmentOp("*="@), 2))
    } else if lit_at(s, i, "/="@) {
        Some((TokenView::AssignmentOp("/="@), 2))
    } else if lit_at(s, i, "="@) {
        Some((TokenView::AssignmentOp("="@), 1))
    } else if lit_at(s, i, "+"@) {
        Some((TokenView::BinaryOp("+"@), 1))
    } else if lit_at(s, i, "-"@) {
        Some((TokenView::BinaryOp("-"@), 1))
    } else if lit_at(s, i, "*"@) {
        Some((TokenView::BinaryOp("*"@), 1))
    } else if lit_at(s, i, "/"@) {
        Some((TokenView::BinaryOp("/"@), 1))
    } else {
        None
    }
}

// ---------------------------------------------------------------------------
// One scanning step
// ---------------------------------------------------------------------------

/// The outcome of scanning one token.
pub enum ScanStep {
    /// A token `t` spanning `[start, end)` of the source.
    Tok { t: TokenView, start: int, end: int },
    /// No rule matches at position `at` (after elision).
    Fail { at: int },
    /// Only elidable input remains.
    Finished,
}

/// The scanner's single-step function: elide whitespace and comments, then
/// apply the longest match among the rules, ties broken in the fixed order
/// punctuation, keyword, number, string, operator, identifier.  Keyword,
/// number and operator matches win over an identifier only when they cover
/// the whole identifier run starting at the same position; this is what
/// lets `-a` scan as one identifier while a free-standing `-` is an
/// operator.
pub open spec fn scan_at(s: Seq<char>, i: int) -> ScanStep {
    let j = skip_elided(s, i);
    if j >= s.len() {
        ScanStep::Finished
    } else if s[j] == '(' {
        ScanStep::Tok { t: TokenView::OpenParen, start: j, end: j + 1 }
    } else if s[j] == ')' {
        ScanStep::Tok { t: TokenView::CloseParen, start: j, end: j + 1 }
    } else if s[j] == '{' {
        ScanStep::Tok { t: TokenView::OpenBrace, start: j, end: j + 1 }
    } else if s[j] == '}' {
        ScanStep::Tok { t: TokenView::CloseBrace, start: j, end: j + 1 }
    } else if s[j] == '"' {
        match string_close(s, j + 1) {
            Some(k) => ScanStep::Tok {
                t: TokenView::StringLiteral(s.subrange(j + 1, k)),
                start: j,
                end: k + 1,
            },
            None => ScanStep::Fail { at: j },
        }
    } else {
        let ie = ident_run_end(s, j);
        if ie <= j {
            ScanStep::Fail { at: j }
        } else if word_at(s, j, "let"@) {
            ScanStep::Tok { t: TokenView::Let, start: j, end: ie }
        } else if word_at(s, j, "if"@) {
            ScanStep::Tok { t: TokenView::Keyword("if"@), start: j, end: ie }
        } else if word_at(s, j, "else"@) {
            ScanStep::Tok { t: TokenView::Keyword("else"@), start: j, end: ie }
        } else if word_at(s, j, "fn"@) {
            ScanStep::Tok { t: TokenView::Keyword("fn"@), start: j, end: ie }
        } else if word_at(s, j, "return"@) {
            ScanStep::Tok { t: TokenView::Keyword("return"@), start: j, end: ie }
        } else if word_at(s, j, "true"@) {
            ScanStep::Tok { t: TokenView::BoolLiteral(true), start: j, end: ie }
        } else if word_at(s, j, "false"@) {
            ScanStep::Tok { t: TokenView::BoolLiteral(false), start: j, end: ie }
        } else if number_token_end(s, j) == ie {
            ScanStep::Tok { t: TokenView::NumberLiteral(s.subrange(j, ie)), start: j, end: ie }
        } else if op_match(s, j) matches Some((t, l)) && j + l == ie {
            ScanStep::Tok { t: op_match(s, j)->Some_0.0, start: j, end: ie }
        } else {
            ScanStep::Tok { t: TokenView::Identifier(s.subrange(j, ie)), start: j, end: ie }
        }
    }
}

// ---------------------------------------------------------------------------
// Scanning a whole input
// ---------------------------------------------------------------------------

/// Scanning the rest of the input from `i`: the token sequence, or the lex
/// error that stops it.  The terminating end-of-input token is not listed.
pub open spec fn scan_tokens(s: Seq<char>, i: int) -> Result<Seq<TokenView>, LexErrorView>
    decreases s.len() - i,
{
    match scan_at(s, i) {
        ScanStep::Finished => Ok(Seq::empty()),
        ScanStep::Fail { at } => Err(lex_error_at(s, at)),
        ScanStep::Tok { t, start, end } => {
            if i < end <= s.len() {
                match scan_tokens(s, end) {
                    Ok(rest) => Ok(seq![t] + rest),
                    Err(e) => Err(e),
                }
            } else {
                // unreachable: a scanned token always advances the cursor
                Err(lex_error_at(s, i))
            }
        },
    }
}

/// The views of a sequence of tokens.
pub open spec fn token_views(v: Seq<Token>) -> Seq<TokenView> {
    v.map_values(|t: Token| t@)
}

// ---------------------------------------------------------------------------
// Lexical errors
// ---------------------------------------------------------------------------

/// Unscannable input: no rule matches at `position`.  `snippet` holds the
/// offending text, at most seven characters of it.  A lexical error is a
/// returned value, never an abort, so one bad line never ends the session.
#[derive(Debug, Clone, PartialEq)]
pub struct LexError {
    pub position: usize,
    pub snippet: String,
}

/// The mathematical model of a `LexError`.
pub struct LexErrorView {
    pub position: int,
    pub snippet: Seq<char>,
}

impl View for LexError {
    type V = LexErrorView;

    open spec fn view(&self) -> LexErrorView {
        LexErrorView { position: self.position as int, snippet: self.snippet@ }
    }
}

/// The error reported for unscannable input at `at`.
pub open spec fn lex_error_at(s: Seq<char>, at: int) -> LexErrorView {
    LexErrorView {
        position: at,
        snippet: s.subrange(at, if at + 7 <= s.len() { at + 7 } else { s.len() as int }),
    }
}

/// What `LexError::message` renders.
pub open spec fn lex_error_display(e: LexErrorView) -> Seq<char> {
    "Unknown token "@ + e.snippet + "..."@
}

impl LexError {
    /// A readable report of the error.
    pub fn message(&self) -> (r: String)
        ensures
            r@ == lex_error_display(self@),
    {
        let mut r = String::from_str("Unknown token ");
        r.append(self.snippet.as_str());
        r.append("...");
        r
    }
}

// ---------------------------------------------------------------------------
// Executable character classes
// ---------------------------------------------------------------------------

fn is_space(c: char) -> (b: bool)
    ensures
        b == is_space_char(c),
{
    c == ' ' || c == '\t' || c == '\n' || c == '\r'
}

fn is_ident(c: char) -> (b: bool)
    ensures
        b == is_ident_char(c),
{
    !(c == ' ' || c == '\t' || c == '\n' || c == '\r' || c == '"' || c == '(' || c == ')' || c
        == '{' || c == '}' || c == '@')
}

fn is_digit(c: char) -> (b: bool)
    ensures
        b == is_digit_char(c),
{
    '0' <= c && c <= '9'
}

// ---------------------------------------------------------------------------
// The scanner
// ---------------------------------------------------------------------------

/// What one call of `get_next_token` leaves behind: the returned value and
/// the cursor, both fixed by `scan_at` on the state the call found.
pub open spec fn next_token_post(
    s: Seq<char>,
    c0: int,
    r: Result<Token, LexError>,
    t2: Tokenizer,
) -> bool {
    match scan_at(s, c0) {
        ScanStep::Finished => r matches Ok(tok) && tok@ == TokenView::EndOfInput && t2.cursor
            == t2.len,
        ScanStep::Tok { t, start, end } => r matches Ok(tok) && tok@ == t && t2.cursor == end,
        ScanStep::Fail { at } => r matches Err(e) && e@ == lex_error_at(s, at) && t2.cursor == at,
    }
}

/// The scanner: owns the source text and a cursor, counted in characters,
/// advanced strictly monotonically by `get_next_token`.
#[derive(Debug)]
pub struct Tokenizer {
    pub program: String,
    pub cursor: usize,
    pub len: usize,
}

impl Tokenizer {
    /// Well-formedness: `len` caches the character length of the source and
    /// the cursor stays within it.
    pub open spec fn wf(self) -> bool {
        &&& self.len == self.program@.len()
        &&& self.cursor <= self.len
    }

    /// An empty scanner.
    pub fn new() -> (t: Tokenizer)
        ensures
            t.wf(),
            t.program@ == Seq::<char>::empty(),
            t.cursor == 0,
    {
        Tokenizer { program: String::new(), cursor: 0, len: 0 }
    }

    /// A scanner over `input`, cursor at the start.
    pub fn from(input: &str) -> (t: Tokenizer)
        ensures
            t.wf(),
            t.program@ == input@,
            t.cursor == 0,
    {
        let len = input.unicode_len();
        Tokenizer { program: String::from_str(input), cursor: 0, len }
    }

    /// Reset the scanner over a new source, cursor at the start.  Called
    /// before each top-level parse.
    pub fn init(&mut self, input: &str)
        ensures
            final(self).wf(),
            final(self).program@ == input@,
            final(self).cursor == 0,
    {
        self.len = input.unicode_len();
        self.program = String::from_str(input);
        self.cursor = 0;
    }

    /// Whether unscanned characters remain (they may still be all elidable).
    pub fn has_more_tokens(&self) -> (r: bool)
        ensures
            r == (self.cursor < self.len),
    {
        self.cursor < self.len
    }

    /// The source character at `i`.
    fn char_at(&self, i: usize) -> (c: char)
        requires
            self.wf(),
            i < self.len,
        ensures
            c == self.program@[i as int],
    {
        self.program.as_str().get_char(i)
    }

    /// The source text spanning `[from, to)`, as a fresh string.
    fn text_of(&self, from: usize, to: usize) -> (r: String)
        requires
            self.wf(),
            from <= to <= self.len,
        ensures
            r@ == self.program@.subrange(from as int, to as int),
    {
        let sub = self.program.as_str().substring_char(from, to);
        String::from_str(sub)
    }

    /// Elide whitespace and comments at the cursor.
    fn skip_ws_comments(&mut self)
        requires
            old(self).wf(),
        ensures
            final(self).wf(),
            final(self).program == old(self).program,
            final(self).len == old(self).len,
            final(self).cursor == skip_elided(old(self).program@, old(self).cursor as int),
            old(self).cursor <= final(self).cursor,
    {
        let ghost s = self.program@;
        let ghost c0 = self.cursor as int;
        let ghost p0 = self.program;
        loop
            invariant
                self.wf(),
                self.program == p0,
                self.program@ == s,
                c0 <= self.cursor as int,
                skip_elided(s, c0) == skip_elided(s, self.cursor as int),
            ensures
                self.wf(),
                self.program == p0,
                c0 <= self.cursor as int,
                self.cursor as int == skip_elided(s, c0),
            decreases self.len - self.cursor,
        {
            if self.cursor >= self.len {
                break;
            }
            let c = self.char_at(self.cursor);
            if is_space(c) {
                self.cursor = self.cursor + 1;
            } else if c == '#' {
                // a comment: discard through the next line terminator
                self.cursor = self.cursor + 1;
                let ghost mark = self.cursor;
                loop
                    invariant
                        self.wf(),
                        self.program == p0,
                        self.program@ == s,
                        c0 <= self.cursor as int,
                        mark <= self.cursor,
                        skip_elided(s, c0) == skip_comment(s, self.cursor as int),
                    ensures
                        self.wf(),
                        self.program == p0,
                        c0 <= self.cursor as int,
                        mark <= self.cursor,
                        skip_elided(s, c0) == skip_comment(s, self.cursor as int),
                        self.cursor >= self.len || s[self.cursor as int] == '\n',
                    decreases self.len - self.cursor,
                {
                    if self.cursor >= self.len {
                        break;
                    }
                    let c2 = self.char_at(self.cursor);
                    if c2 == '\n' {
                        break;
                    }
                    self.cursor = self.cursor + 1;
                }
                if self.cursor >= self.len {
                    break;
                }
                // standing on the line terminator, itself whitespace
                proof {
                    assert(skip_comment(s, self.cursor as int) == skip_elided(
                        s,
                        self.cursor as int + 1,
                    ));
                    assert(skip_elided(s, self.cursor as int) == skip_elided(
                        s,
                        self.cursor as int + 1,
                    ));
                }
            } else {
                break;
            }
        }
    }

    /// The end of the maximal identifier run at `j`.
    fn ident_end(&self, j: usize) -> (e: usize)
        requires
            self.wf(),
            j <= self.len,
        ensures
            e as int == ident_run_end(self.program@, j as int),
            j <= e <= self.len,
    {
        let ghost s = self.program@;
        let mut k = j;
        loop
            invariant
                self.wf(),
                j <= k <= self.len,
                ident_run_end(s, j as int) == ident_run_end(s, k as int),
                s == self.program@,
            ensures
                j <= k <= self.len,
                k as int == ident_run_end(s, j as int),
            decreases self.len - k,
        {
            if k >= self.len {
                break;
            }
            let c = self.char_at(k);
            if !is_ident(c) {
                break;
            }
            k = k + 1;
        }
        k
    }

    /// The end of the maximal digit run at `j`.
    fn digit_end(&self, j: usize) -> (e: usize)
        requires
            self.wf(),
            j <= self.len,
        ensures
            e as int == digit_run_end(self.program@, j as int),
            j <= e <= self.len,
    {
        let ghost s = self.program@;
        let mut k = j;
        loop
            invariant
                self.wf(),
                j <= k <= self.len,
                digit_run_end(s, j as int) == digit_run_end(s, k as int),
                s == self.program@,
            ensures
                j <= k <= self.len,
                k as int == digit_run_end(s, j as int),
            decreases self.len - k,
        {
            if k >= self.len {
                break;
            }
            let c = self.char_at(k);
            if !is_digit(c) {
                break;
            }
            k = k + 1;
        }
        k
    }

    /// The end of a numeric literal at `j`, or `j` when none starts there.
    fn number_end(&self, j: usize) -> (e: usize)
        requires
            self.wf(),
            j <= self.len,
        ensures
            e as int == number_token_end(self.program@, j as int),
            j <= e <= self.len,
    {
        let d = self.digit_end(j);
        if d < self.len {
            let c = self.char_at(d);
            if c == '.' {
                let d2 = self.digit_end(d + 1);
                if d2 > d + 1 {
                    return d2;
                }
            }
        }
        d
    }

    /// The closing quote of a string literal whose body starts at `i`.
    fn find_string_close(&self, i: usize) -> (r: Option<usize>)
        requires
            self.wf(),
            i <= self.len,
        ensures
            match string_close(self.program@, i as int) {
                Some(k) => r matches Some(rk) && rk as int == k && i <= k < self.len,
                None => r is None,
            },
    {
        let ghost s = self.program@;
        let mut k = i;
        loop
            invariant
                self.wf(),
                i <= k <= self.len,
                string_close(s, i as int) == string_close(s, k as int),
                s == self.program@,
            decreases self.len - k,
        {
            if k >= self.len {
                return None;
            }
            let c = self.char_at(k);
            if c == '"' {
                return Some(k);
            }
            if c == '\n' {
                return None;
            }
            k = k + 1;
        }
    }

    /// `w` occurs literally at `j`.
    fn lit_at_exec(&self, j: usize, w: &str) -> (b: bool)
        requires
            self.wf(),
            j <= self.len,
        ensures
            b == lit_at(self.program@, j as int, w@),
    {
        let ghost s = self.program@;
        let wl = w.unicode_len();
        if wl > self.len - j {
            return false;
        }
        let mut k: usize = 0;
        loop
            invariant
                self.wf(),
                s == self.program@,
                j + wl <= self.len,
                wl == w@.len(),
                0 <= k <= wl,
                forall|m: int| 0 <= m < k ==> s[j + m] == w@[m],
            ensures
                forall|m: int| 0 <= m < wl ==> s[j + m] == w@[m],
            decreases wl - k,
        {
            if k >= wl {
                break;
            }
            if self.char_at(j + k) != w.get_char(k) {
                return false;
            }
            k = k + 1;
        }
        proof {
            assert(s.subrange(j as int, j + wl) =~= w@);
        }
        true
    }

    /// `w` occurs at `j` as a whole word.
    fn word_at_exec(&self, j: usize, w: &str) -> (b: bool)
        requires
            self.wf(),
            j <= self.len,
        ensures
            b == word_at(self.program@, j as int, w@),
    {
        if !self.lit_at_exec(j, w) {
            return false;
        }
        let wl = w.unicode_len();
        if j + wl == self.len {
            true
        } else {
            let c = self.char_at(j + wl);
            c == ' ' || c == '\t' || c == '\n' || c == '\r' || c == '"' || c == '(' || c == ')'
                || c == '{' || c == '}' || c == '@'
        }
    }

    /// The first operator literal of the fixed order at `j`, with its length.
    fn op_at(&self, j: usize) -> (r: Option<(Token, usize)>)
        requires
            self.wf(),
            j <= self.len,
        ensures
            match op_match(self.program@, j as int) {
                Some((tv, l)) => r matches Some(p) && p.0@ == tv && p.1 as int == l,
                None => r is None,
            },
    {
        if self.lit_at_exec(j, "||") {
            Some((Token::LogicalOp(String::from_str("||")), 2))
        } else if self.lit_at_exec(j, "|") {
            Some((Token::Pipe, 1))
        } else if self.lit_at_exec(j, "&&") {
            Some((Token::LogicalOp(String::from_str("&&")), 2))
        } else if self.lit_at_exec(j, "&") {
            Some((Token::LogicalOp(String::from_str("&")), 1))
        } else if self.lit_at_exec(j, "+=") {
            Some((Token::AssignmentOp(String::from_str("+=")), 2))
        } else if self.lit_at_exec(j, "-=") {
            Some((Token::AssignmentOp(String::from_str("-=")), 2))
        } else if self.lit_at_exec(j, "*=") {
            Some((Token::AssignmentOp(String::from_str("*=")), 2))
        } else if self.lit_at_exec(j, "/=") {
            Some((Token::AssignmentOp(String::from_str("/=")), 2))
        } else if self.lit_at_exec(j, "=") {
            Some((Token::AssignmentOp(String::from_str("=")), 1))
        } else if self.lit_at_exec(j, "+") {
            Some((Token::BinaryOp(String::from_str("+")), 1))
        } else if self.lit_at_exec(j, "-") {
            Some((Token::BinaryOp(String::from_str("-")), 1))
        } else if self.lit_at_exec(j, "*") {
            Some((Token::BinaryOp(String::from_str("*")), 1))
        } else if self.lit_at_exec(j, "/") {
            Some((Token::BinaryOp(String::from_str("/")), 1))
        } else {
            None
        }
    }

    /// The lexical error reported at `at`.
    fn make_lex_error(&self, at: usize) -> (r: LexError)
        requires
            self.wf(),
            at <= self.len,
        ensures
            r@ == lex_error_at(self.program@, at as int),
    {
        let end = if self.len - at >= 7 {
            at + 7
        } else {
            self.len
        };
        let snippet = self.text_of(at, end);
        LexError { position: at, snippet }
    }

    /// Scan the next token.  Calling it twice advances twice: a caller that
    /// needs lookahead buffers one token itself.  On exhausted input it
    /// returns the end-of-input token; on unscannable input, a `LexError`
    /// value.
    pub fn get_next_token(&mut self) -> (r: Result<Token, LexError>)
        requires
            old(self).wf(),
        ensures
            final(self).wf(),
            final(self).program == old(self).program,
            final(self).len == old(self).len,
            old(self).cursor <= final(self).cursor,
            scan_at(old(self).program@, old(self).cursor as int) is Tok ==> final(self).cursor
                > old(self).cursor,
            next_token_post(old(self).program@, old(self).cursor as int, r, *final(self)),
    {
        let ghost s = self.program@;
        let ghost c0 = self.cursor as int;
        self.skip_ws_comments();
        let j = self.cursor;
        if j >= self.len {
            self.cursor = self.len;
            return Ok(Token::EndOfInput);
        }
        let c = self.char_at(j);
        if c == '(' {
            self.cursor = j + 1;
            return Ok(Token::OpenParen);
        }
        if c == ')' {
            self.cursor = j + 1;
            return Ok(Token::CloseParen);
        }
        if c == '{' {
            self.cursor = j + 1;
            return Ok(Token::OpenBrace);
        }
        if c == '}' {
            self.cursor = j + 1;
            return Ok(Token::CloseBrace);
        }
        if c == '"' {
            match self.find_string_close(j + 1) {
                Some(k) => {
                    let payload = self.text_of(j + 1, k);
                    self.cursor = k + 1;
                    return Ok(Token::StringLiteral(payload));
                },
                None => {
                    return Err(self.make_lex_error(j));
                },
            }
        }
        let ie = self.ident_end(j);
        if ie == j {
            return Err(self.make_lex_error(j));
        }
        if self.word_at_exec(j, "let") {
            self.cursor = ie;
            return Ok(Token::Let);
        }
        if self.word_at_exec(j, "if") {
            self.cursor = ie;
            return Ok(Token::Keyword(String::from_str("if")));
        }
        if self.word_at_exec(j, "else") {
            self.cursor = ie;
            return Ok(Token::Keyword(String::from_str("else")));
        }
        if self.word_at_exec(j, "fn") {
            self.cursor = ie;
            return Ok(Token::Keyword(String::from_str("fn")));
        }
        if self.word_at_exec(j, "return") {
            self.cursor = ie;
            return Ok(Token::Keyword(String::from_str("return")));
        }
        if self.word_at_exec(j, "true") {
            self.cursor = ie;
            return Ok(Token::BoolLiteral(true));
        }
        if self.word_at_exec(j, "false") {
            self.cursor = ie;
            return Ok(Token::BoolLiteral(false));
        }
        let ne = self.number_end(j);
        if ne == ie {
            let payload = self.text_of(j, ie);
            self.cursor = ie;
            return Ok(Token::NumberLiteral(payload));
        }
        match self.op_at(j) {
            Some((tok, l)) => {
                if l == ie - j {
                    self.cursor = ie;
                    return Ok(tok);
                } else {
                    let payload = self.text_of(j, ie);
                    self.cursor = ie;
                    return Ok(Token::Identifier(payload));
                }
            },
            None => {
                let payload = self.text_of(j, ie);
                self.cursor = ie;
                return Ok(Token::Identifier(payload));
            },
        }
    }

    /// Scan the whole remaining input into a token vector, or stop at the
    /// first lexical error.  On success the input is exhausted: the cursor
    /// stands at the end, so a further call finds nothing more.
    pub fn exec(&mut self) -> (r: Result<Vec<Token>, LexError>)
        requires
            old(self).wf(),
        ensures
            final(self).wf(),
            final(self).program == old(self).program,
            match scan_tokens(old(self).program@, old(self).cursor as int) {
                Ok(ts) => r matches Ok(v) && token_views(v@) == ts,
                Err(e) => r matches Err(le) && le@ == e,
            },
            r is Ok ==> final(self).cursor == final(self).len,
    {
        let ghost s = self.program@;
        let ghost c0 = self.cursor as int;
        let mut acc: Vec<Token> = Vec::new();
        proof {
            assert(token_views(acc@) =~= Seq::<TokenView>::empty());
            match scan_tokens(s, c0) {
                Ok(rest) => {
                    assert(token_views(acc@) + rest =~= rest);
                },
                Err(e) => {},
            }
        }
        loop
            invariant
                self.wf(),
                s == old(self).program@,
                c0 == old(self).cursor as int,
                self.program@ == s,
                self.program == old(self).program,
                match scan_tokens(s, self.cursor as int) {
                    Ok(rest) => scan_tokens(s, c0) matches Ok(all) && all == token_views(acc@)
                        + rest,
                    Err(e) => scan_tokens(s, c0) == Err::<Seq<TokenView>, LexErrorView>(e),
                },
            decreases self.len - self.cursor,
        {
            let ghost c_here = self.cursor as int;
            let tok = match self.get_next_token() {
                Ok(t) => t,
                Err(e) => {
                    return Err(e);
                },
            };
            match tok {
                Token::EndOfInput => {
                    proof {
                        assert(scan_tokens(s, c_here) == Ok::<Seq<TokenView>, LexErrorView>(
                            Seq::<TokenView>::empty(),
                        ));
                        assert(token_views(acc@) + Seq::<TokenView>::empty() =~= token_views(
                            acc@,
                        ));
                    }
                    return Ok(acc);
                },
                _ => {
                    let ghost prev_acc = acc@;
                    acc.push(tok);
                    proof {
                        assert(token_views(acc@) =~= token_views(prev_acc) + seq![acc@.last()@]);
                        match scan_tokens(s, self.cursor as int) {
                            Ok(rest) => {
                                assert(token_views(prev_acc) + (seq![acc@.last()@] + rest)
                                    =~= token_views(acc@) + rest);
                            },
                            Err(e) => {},
                        }
                    }
                },
            }
        }
    }
}

} // verus!
