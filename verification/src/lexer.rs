//! The tokenizer of the evaluation language.
//!
//! Script text is a sequence of integer literals, identifiers, `+`, `-` and
//! spaces; `throw` is the one keyword. A literal must fit a 32-bit signed
//! integer and any other character is a syntax error. The spec-level lexer
//! [`spec_lex`] is the single definition of what a script's token stream is;
//! [`tokenize`] computes exactly it.

use vstd::prelude::*;

verus! {

/// Mathematical image of a [`Token`].
pub enum TokenView {
    Int(i32),
    Ident(Seq<char>),
    Plus,
    Minus,
    Throw,
}

/// One token of the evaluation language.
#[derive(Debug, Clone, PartialEq, Eq)]
pub enum Token {
    Int(i32),
    Ident(String),
    Plus,
    Minus,
    Throw,
}

impl View for Token {
    type V = TokenView;

    open spec fn view(&self) -> TokenView {
        match self {
            Token::Int(n) => TokenView::Int(*n),
            Token::Ident(w) => TokenView::Ident(w@),
            Token::Plus => TokenView::Plus,
            Token::Minus => TokenView::Minus,
            Token::Throw => TokenView::Throw,
        }
    }
}

/// A decimal digit.
pub open spec fn is_digit(ch: char) -> bool {
    48 <= ch as u32 <= 57
}

/// A character that may start an identifier.
pub open spec fn is_ident_start(ch: char) -> bool {
    ||| 97 <= ch as u32 <= 122
    ||| 65 <= ch as u32 <= 90
    ||| ch as u32 == 95
    ||| ch as u32 == 36
}

/// A character that may continue an identifier.
pub open spec fn is_ident_char(ch: char) -> bool {
    is_ident_start(ch) || is_digit(ch)
}

/// The end of the digit run starting at `i`.
pub open spec fn scan_digits(s: Seq<char>, i: int) -> int
    decreases s.len() - i when 0 <= i <= s.len()
{
    if i < s.len() && is_digit(s[i]) {
        scan_digits(s, i + 1)
    } else {
        i
    }
}

/// The end of the identifier run starting at `i`.
pub open spec fn scan_ident(s: Seq<char>, i: int) -> int
    decreases s.len() - i when 0 <= i <= s.len()
{
    if i < s.len() && is_ident_char(s[i]) {
        scan_ident(s, i + 1)
    } else {
        i
    }
}

/// The value a character contributes to a digit run.
pub open spec fn char_digit(ch: char) -> int {
    if is_digit(ch) {
        ch as u32 - 48
    } else {
        0
    }
}

/// The decimal value of the digits `s[i..j)`.
pub open spec fn digits_value(s: Seq<char>, i: int, j: int) -> int
    decreases j - i when i <= j
{
    if i >= j {
        0
    } else {
        digits_value(s, i, j - 1) * 10 + char_digit(s[j - 1])
    }
}

/// A run scan stays inside the text and does not move backwards.
pub proof fn lemma_scan_bounds(s: Seq<char>, i: int)
    requires
        0 <= i <= s.len(),
    ensures
        i <= scan_digits(s, i) <= s.len(),
        i <= scan_ident(s, i) <= s.len(),
    decreases s.len() - i,
{
    if i < s.len() && is_digit(s[i]) {
        lemma_scan_bounds(s, i + 1);
    }
    if i < s.len() && is_ident_char(s[i]) {
        lemma_scan_bounds(s, i + 1);
    }
}

/// The value of a digit run is never negative and never shrinks as the run
/// extends.
pub proof fn lemma_digits_value_monotone(s: Seq<char>, i: int, j: int, k: int)
    requires
        i <= j <= k,
    ensures
        digits_value(s, i, j) >= 0 ==> digits_value(s, i, k) >= digits_value(s, i, j),
    decreases k - j,
{
    if j < k {
        lemma_digits_value_monotone(s, i, j, k - 1);
    }
}

/// The value of a digit run of digit characters is never negative.
pub proof fn lemma_digits_value_nonneg(s: Seq<char>, i: int, j: int)
    requires
        i <= j,
    ensures
        digits_value(s, i, j) >= 0,
    decreases j - i,
{
    if i < j {
        lemma_digits_value_nonneg(s, i, j - 1);
    }
}

/// Prepends a token to a lexing result; a failed rest stays failed.
pub open spec fn cons_token(t: TokenView, rest: Option<Seq<TokenView>>) -> Option<
    Seq<TokenView>,
> {
    match rest {
        Some(ts) => Some(seq![t] + ts),
        None => None,
    }
}

/// The token stream of `s` from position `i` on: spaces separate tokens, a
/// digit run is an integer literal that must fit an `i32`, a letter run is an
/// identifier unless it is the keyword `throw`, `+` and `-` stand alone, and
/// anything else fails the lex.
pub open spec fn spec_lex(s: Seq<char>, i: int) -> Option<Seq<TokenView>>
    decreases s.len() - i when 0 <= i <= s.len() via spec_lex_decreases
{
    if i >= s.len() {
        Some(Seq::empty())
    } else {
        let ch = s[i];
        if ch == ' ' {
            spec_lex(s, i + 1)
        } else if ch == '+' {
            cons_token(TokenView::Plus, spec_lex(s, i + 1))
        } else if ch == '-' {
            cons_token(TokenView::Minus, spec_lex(s, i + 1))
        } else if is_digit(ch) {
            let j = scan_digits(s, i);
            if digits_value(s, i, j) <= i32::MAX {
                cons_token(TokenView::Int(digits_value(s, i, j) as i32), spec_lex(s, j))
            } else {
                None
            }
        } else if is_ident_start(ch) {
            let j = scan_ident(s, i);
            let w = s.subrange(i, j);
            if w == "throw"@ {
                cons_token(TokenView::Throw, spec_lex(s, j))
            } else {
                cons_token(TokenView::Ident(w), spec_lex(s, j))
            }
        } else {
            None
        }
    }
}

#[via_fn]
proof fn spec_lex_decreases(s: Seq<char>, i: int) {
    if 0 <= i <= s.len() && i < s.len() {
        lemma_scan_bounds(s, i + 1);
        if is_digit(s[i]) {
            assert(scan_digits(s, i) == scan_digits(s, i + 1));
        }
        if is_ident_start(s[i]) {
            assert(scan_ident(s, i) == scan_ident(s, i + 1));
        }
    }
}

/// Prepends already-lexed tokens to the result of lexing the rest.
pub open spec fn concat_lex(done: Seq<TokenView>, rest: Option<Seq<TokenView>>) -> Option<
    Seq<TokenView>,
> {
    match rest {
        Some(ts) => Some(done + ts),
        None => None,
    }
}

/// Whether the character at `j` is a decimal digit.
fn is_digit_at(s: &str, j: usize) -> (b: bool)
    requires
        j < s@.len(),
    ensures
        b == is_digit(s@[j as int]),
{
    let c = s.get_char(j);
    (c as u32) >= 48 && (c as u32) <= 57
}

/// Whether the character at `j` may continue an identifier.
fn is_ident_char_at(s: &str, j: usize) -> (b: bool)
    requires
        j < s@.len(),
    ensures
        b == is_ident_char(s@[j as int]),
{
    let c = s.get_char(j);
    ((c as u32) >= 97 && (c as u32) <= 122) || ((c as u32) >= 65 && (c as u32) <= 90) || (c as u32)
        == 95 || (c as u32) == 36 || ((c as u32) >= 48 && (c as u32) <= 57)
}

/// Turns script text into its token stream, or reports that the text is not
/// part of the evaluation language.
pub fn tokenize(s: &str) -> (r: Result<Vec<Token>, ()>)
    ensures
        match r {
            Ok(ts) => spec_lex(s@, 0) == Some(ts@.map_values(|t: Token| t@)),
            Err(_) => spec_lex(s@, 0) is None,
        },
{
    let n = s.unicode_len();
    let mut acc: Vec<Token> = Vec::new();
    let mut i: usize = 0;
    proof {
        assert(acc@.map_values(|t: Token| t@) =~= Seq::<TokenView>::empty());
    }
    while i < n
        invariant
            0 <= i <= n,
            n == s@.len(),
            spec_lex(s@, 0) == concat_lex(acc@.map_values(|t: Token| t@), spec_lex(s@, i as int)),
        decreases n - i,
    {
        let ch = s.get_char(i);
        if ch == ' ' {
            i = i + 1;
        } else if ch == '+' {
            push_and_reassociate(&mut acc, Token::Plus, Ghost(s@), Ghost(i as int), Ghost(i + 1));
            i = i + 1;
        } else if ch == '-' {
            push_and_reassociate(&mut acc, Token::Minus, Ghost(s@), Ghost(i as int), Ghost(i + 1));
            i = i + 1;
        } else if (ch as u32) >= 48 && (ch as u32) <= 57 {
            proof {
                lemma_scan_bounds(s@, i as int);
            }
            let mut j: usize = i;
            let mut value: i64 = 0;
            proof {
                lemma_digits_value_nonneg(s@, i as int, i as int);
            }
            while j < n && is_digit_at(s, j)
                invariant
                    i <= j <= n,
                    i < n,
                    n == s@.len(),
                    is_digit(s@[i as int]),
                    !is_ident_start(s@[i as int]),
                    scan_digits(s@, i as int) == scan_digits(s@, j as int),
                    0 <= value <= i32::MAX as i64,
                    value == digits_value(s@, i as int, j as int),
                    spec_lex(s@, 0) == concat_lex(
                        acc@.map_values(|t: Token| t@),
                        spec_lex(s@, i as int),
                    ),
                decreases n - j,
            {
                let d = (s.get_char(j) as u32) - 48;
                let next = value * 10 + d as i64;
                if next > i32::MAX as i64 {
                    proof {
                        let text = s@;
                        let fin = scan_digits(text, i as int);
                        lemma_scan_bounds(text, j as int + 1);
                        assert(scan_digits(text, j as int) == scan_digits(text, j as int + 1));
                        assert(digits_value(text, i as int, j as int + 1) == next);
                        lemma_digits_value_nonneg(text, i as int, j as int + 1);
                        lemma_digits_value_monotone(text, i as int, j as int + 1, fin);
                        assert(digits_value(text, i as int, fin) > i32::MAX);
                        assert(spec_lex(text, i as int) is None);
                    }
                    return Err(());
                }
                value = next;
                j = j + 1;
            }
            assert(scan_digits(s@, j as int) == j as int);
            push_and_reassociate(
                &mut acc,
                Token::Int(value as i32),
                Ghost(s@),
                Ghost(i as int),
                Ghost(j as int),
            );
            i = j;
        } else if ((ch as u32) >= 97 && (ch as u32) <= 122) || ((ch as u32) >= 65 && (ch as u32)
            <= 90) || (ch as u32) == 95 || (ch as u32) == 36 {
            proof {
                lemma_scan_bounds(s@, i as int);
            }
            let mut j: usize = i + 1;
            while j < n && is_ident_char_at(s, j)
                invariant
                    i < j <= n,
                    n == s@.len(),
                    scan_ident(s@, i as int) == scan_ident(s@, j as int),
                decreases n - j,
            {
                j = j + 1;
            }
            assert(scan_ident(s@, j as int) == j as int);
            let w = s.substring_char(i, j);
            let word = String::from_str(w);
            let keyword = String::from_str("throw");
            let tok = if word == keyword {
                Token::Throw
            } else {
                Token::Ident(word)
            };
            assert(tok@ == if s@.subrange(i as int, j as int) == "throw"@ {
                TokenView::Throw
            } else {
                TokenView::Ident(s@.subrange(i as int, j as int))
            });
            push_and_reassociate(&mut acc, tok, Ghost(s@), Ghost(i as int), Ghost(j as int));
            i = j;
        } else {
            return Err(());
        }
    }
    assert(spec_lex(s@, n as int) == Some(Seq::<TokenView>::empty()));
    assert(acc@.map_values(|t: Token| t@) + Seq::<TokenView>::empty() =~= acc@.map_values(
        |t: Token| t@,
    ));
    Ok(acc)
}

/// Appends the token that the text between `from` and `to` lexes to, keeping
/// the global lexing equation in shape.
fn push_and_reassociate(
    acc: &mut Vec<Token>,
    tok: Token,
    text: Ghost<Seq<char>>,
    from: Ghost<int>,
    to: Ghost<int>,
)
    requires
        0 <= from@ <= to@,
        spec_lex(text@, from@) == cons_token(tok@, spec_lex(text@, to@)),
        spec_lex(text@, 0) == concat_lex(
            old(acc)@.map_values(|t: Token| t@),
            spec_lex(text@, from@),
        ),
    ensures
        final(acc)@ == old(acc)@.push(tok),
        spec_lex(text@, 0) == concat_lex(
            final(acc)@.map_values(|t: Token| t@),
            spec_lex(text@, to@),
        ),
{
    proof {
        if spec_lex(text@, to@) is Some {
            assert(old(acc)@.map_values(|t: Token| t@) + (seq![tok@] + spec_lex(
                text@,
                to@,
            )->Some_0) =~= old(acc)@.push(tok).map_values(|t: Token| t@) + spec_lex(
                text@,
                to@,
            )->Some_0);
        }
    }
    acc.push(tok);
}

} // verus!
