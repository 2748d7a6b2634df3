use vstd::prelude::*;
use crate::token::TokenView;
use crate::tokenizer::{
    ScanStep, scan_at, scan_tokens, skip_elided, skip_comment, is_space_char, is_ident_char,
    is_digit_char, ident_run_end, digit_run_end, number_token_end, string_close,
};

verus! {

// ---------------------------------------------------------------------------
// Token spans and elidable regions
// ---------------------------------------------------------------------------

/// The spans `[start, end)` of the tokens scanned from `i`, or `None` when
/// scanning stops on unscannable input.
pub open spec fn scan_spans(s: Seq<char>, i: int) -> Option<Seq<(int, int)>>
    decreases s.len() - i,
{
    match scan_at(s, i) {
        ScanStep::Finished => Some(Seq::empty()),
        ScanStep::Fail { at } => None,
        ScanStep::Tok { t, start, end } => {
            if i < end <= s.len() {
                match scan_spans(s, end) {
                    Some(rest) => Some(seq![(start, end)] + rest),
                    None => None,
                }
            } else {
                // unreachable: a scanned token always advances the cursor
                None
            }
        },
    }
}

/// `[lo, hi)` holds nothing but whitespace runs and `#` comments: exactly
/// what the scanner may elide.
pub open spec fn elidable_region(s: Seq<char>, lo: int, hi: int) -> bool
    decreases hi - lo, 0int,
{
    if lo >= hi {
        lo == hi
    } else if is_space_char(s[lo]) {
        elidable_region(s, lo + 1, hi)
    } else if s[lo] == '#' {
        elidable_comment(s, lo + 1, hi)
    } else {
        false
    }
}

/// The rest of a comment: anything up to a line terminator (or the end of
/// the region), elidable text after it.
pub open spec fn elidable_comment(s: Seq<char>, lo: int, hi: int) -> bool
    decreases hi - lo, 1int,
{
    if lo >= hi {
        lo == hi
    } else if s[lo] == '\n' {
        elidable_region(s, lo + 1, hi)
    } else {
        elidable_comment(s, lo + 1, hi)
    }
}

/// The spans tile the source from `i`: they are ordered and disjoint, each
/// gap between consecutive spans (and before the first, and after the
/// last) is an elidable region.  Re-concatenating the spans therefore
/// reconstructs the source text minus exactly the elided whitespace and
/// comments.
pub open spec fn spans_tile(s: Seq<char>, sp: Seq<(int, int)>, i: int) -> bool
    decreases sp.len(),
{
    if sp.len() == 0 {
        elidable_region(s, i, s.len() as int)
    } else {
        &&& i <= sp[0].0 < sp[0].1 <= s.len()
        &&& elidable_region(s, i, sp[0].0)
        &&& spans_tile(s, sp.drop_first(), sp[0].1)
    }
}

// ---------------------------------------------------------------------------
// Bounds of the scanning functions
// ---------------------------------------------------------------------------

proof fn lemma_skip_bounds(s: Seq<char>, i: int)
    requires
        0 <= i <= s.len(),
    ensures
        i <= skip_elided(s, i) <= s.len(),
    decreases s.len() - i, 0int,
{
    if i < s.len() {
        if is_space_char(s[i]) {
            lemma_skip_bounds(s, i + 1);
        } else if s[i] == '#' {
            lemma_skip_comment_bounds(s, i + 1);
        }
    }
}

proof fn lemma_skip_comment_bounds(s: Seq<char>, i: int)
    requires
        0 <= i <= s.len(),
    ensures
        i <= skip_comment(s, i) <= s.len(),
    decreases s.len() - i, 1int,
{
    if i < s.len() {
        if s[i] == '\n' {
            lemma_skip_bounds(s, i + 1);
        } else {
            lemma_skip_comment_bounds(s, i + 1);
        }
    }
}

proof fn lemma_ident_run_bounds(s: Seq<char>, j: int)
    requires
        0 <= j <= s.len(),
    ensures
        j <= ident_run_end(s, j) <= s.len(),
    decreases s.len() - j,
{
    if j < s.len() && is_ident_char(s[j]) {
        lemma_ident_run_bounds(s, j + 1);
    }
}

proof fn lemma_digit_run_bounds(s: Seq<char>, j: int)
    requires
        0 <= j <= s.len(),
    ensures
        j <= digit_run_end(s, j) <= s.len(),
    decreases s.len() - j,
{
    if j < s.len() && is_digit_char(s[j]) {
        lemma_digit_run_bounds(s, j + 1);
    }
}

proof fn lemma_string_close_bounds(s: Seq<char>, j: int)
    requires
        0 <= j <= s.len(),
    ensures
        string_close(s, j) matches Some(k) ==> j <= k < s.len(),
    decreases s.len() - j,
{
    if j < s.len() && s[j] != '"' && s[j] != '\n' {
        lemma_string_close_bounds(s, j + 1);
    }
}

/// A scanned token starts where elision stops and spans at least one
/// character, inside the source.
proof fn lemma_scan_tok_bounds(s: Seq<char>, i: int)
    requires
        0 <= i <= s.len(),
    ensures
        scan_at(s, i) matches ScanStep::Tok { t, start, end } ==> start == skip_elided(s, i)
            && i <= start < end <= s.len(),
{
    lemma_skip_bounds(s, i);
    let j = skip_elided(s, i);
    if j < s.len() {
        if s[j] == '"' {
            lemma_string_close_bounds(s, j + 1);
        } else {
            lemma_ident_run_bounds(s, j);
            lemma_digit_run_bounds(s, j);
            let d = digit_run_end(s, j);
            if d < s.len() {
                lemma_digit_run_bounds(s, d + 1);
            }
        }
    }
}

// ---------------------------------------------------------------------------
// Elision elides only whitespace and comments
// ---------------------------------------------------------------------------

proof fn lemma_skip_elidable(s: Seq<char>, i: int)
    requires
        0 <= i <= s.len(),
    ensures
        elidable_region(s, i, skip_elided(s, i)),
    decreases s.len() - i, 0int,
{
    if i < s.len() {
        if is_space_char(s[i]) {
            lemma_skip_bounds(s, i + 1);
            lemma_skip_elidable(s, i + 1);
        } else if s[i] == '#' {
            lemma_skip_comment_bounds(s, i + 1);
            lemma_skip_comment_elidable(s, i + 1);
        }
    }
}

proof fn lemma_skip_comment_elidable(s: Seq<char>, i: int)
    requires
        0 <= i <= s.len(),
    ensures
        elidable_comment(s, i, skip_comment(s, i)),
    decreases s.len() - i, 1int,
{
    if i < s.len() {
        if s[i] == '\n' {
            lemma_skip_bounds(s, i + 1);
            lemma_skip_elidable(s, i + 1);
        } else {
            lemma_skip_comment_bounds(s, i + 1);
            lemma_skip_comment_elidable(s, i + 1);
        }
    }
}

// ---------------------------------------------------------------------------
// The reconstruction law
// ---------------------------------------------------------------------------

/// On input the scanner accepts in full, the scanned token spans tile the
/// source: every character is either inside exactly one token's span or in
/// an elided region holding only whitespace and comments.  Re-concatenating
/// the token spans in order thus reconstructs the original non-whitespace,
/// non-comment content.
pub proof fn lemma_scanner_reconstructs(s: Seq<char>, i: int)
    requires
        0 <= i <= s.len(),
        scan_spans(s, i) is Some,
    ensures
        spans_tile(s, scan_spans(s, i)->Some_0, i),
    decreases s.len() - i,
{
    match scan_at(s, i) {
        ScanStep::Finished => {
            lemma_skip_bounds(s, i);
            lemma_skip_elidable(s, i);
            assert(skip_elided(s, i) == s.len());
        },
        ScanStep::Fail { at } => {
            assert(false);
        },
        ScanStep::Tok { t, start, end } => {
            lemma_scan_tok_bounds(s, i);
            lemma_skip_elidable(s, i);
            lemma_scanner_reconstructs(s, end);
            let sp = scan_spans(s, i)->Some_0;
            let rest = scan_spans(s, end)->Some_0;
            assert(sp[0] == (start, end));
            assert(sp.drop_first() =~= rest);
        },
    }
}

/// Exactly one end-of-input token terminates every stream: the scanned
/// token sequence itself never holds one, and at the end of the source the
/// scanner has nothing further to emit.
pub proof fn lemma_stream_end(s: Seq<char>, i: int)
    requires
        0 <= i <= s.len(),
    ensures
        scan_at(s, s.len() as int) is Finished,
        scan_tokens(s, i) matches Ok(ts) ==> forall|j: int|
            0 <= j < ts.len() ==> !((#[trigger] ts[j]) is EndOfInput),
    decreases s.len() - i,
{
    match scan_at(s, i) {
        ScanStep::Finished => {},
        ScanStep::Fail { at } => {},
        ScanStep::Tok { t, start, end } => {
            if i < end <= s.len() {
                lemma_stream_end(s, end);
                match scan_tokens(s, end) {
                    Ok(rest) => {
                        let ts = scan_tokens(s, i)->Ok_0;
                        assert(!(t is EndOfInput));
                        assert forall|j: int| 0 <= j < ts.len() implies !((#[trigger] ts[j])
                            is EndOfInput) by {
                            if j == 0 {
                                assert(ts[0] == t);
                            } else {
                                assert(ts[j] == rest[j - 1]);
                            }
                        }
                    },
                    Err(e) => {},
                }
            }
        },
    }
}

/// The spans are exactly the scanned tokens': both scans succeed together,
/// with one span per token.
pub proof fn lemma_spans_match_tokens(s: Seq<char>, i: int)
    requires
        0 <= i <= s.len(),
    ensures
        (scan_spans(s, i) is Some) == (scan_tokens(s, i) is Ok),
        scan_spans(s, i) matches Some(sp) ==> scan_tokens(s, i) matches Ok(ts) && sp.len()
            == ts.len(),
    decreases s.len() - i,
{
    match scan_at(s, i) {
        ScanStep::Finished => {},
        ScanStep::Fail { at } => {},
        ScanStep::Tok { t, start, end } => {
            if i < end <= s.len() {
                lemma_spans_match_tokens(s, end);
            }
        },
    }
}

} // verus!
