//! Tokens of the expression language, evaluation errors, and the tokenizer.
use vstd::prelude::*;
use crate::text::{chars_of, is_alnum, is_alpha, is_digit, slice_text};

verus! {

/// Errors of tokenizing, parsing and evaluating an expression.
#[derive(Debug, Clone, PartialEq)]
pub enum EvalError {
    DivisionByZero,
    UnknownFunction(String),
    UnknownVariable(String),
    ParseError(String),
    InvalidExpression,
}

/// `EvalError` with its texts as character sequences.
pub enum EvalErrorView {
    DivisionByZero,
    UnknownFunction(Seq<char>),
    UnknownVariable(Seq<char>),
    ParseError(Seq<char>),
    InvalidExpression,
}

impl View for EvalError {
    type V = EvalErrorView;

    open spec fn view(&self) -> EvalErrorView {
        match self {
            EvalError::DivisionByZero => EvalErrorView::DivisionByZero,
            EvalError::UnknownFunction(s) => EvalErrorView::UnknownFunction(s@),
            EvalError::UnknownVariable(s) => EvalErrorView::UnknownVariable(s@),
            EvalError::ParseError(s) => EvalErrorView::ParseError(s@),
            EvalError::InvalidExpression => EvalErrorView::InvalidExpression,
        }
    }
}

/// The message of an error, as it is displayed.
pub open spec fn error_message(e: EvalErrorView) -> Seq<char> {
    match e {
        EvalErrorView::DivisionByZero => "Division by zero"@,
        EvalErrorView::UnknownFunction(s) => "Unknown function: "@ + s,
        EvalErrorView::UnknownVariable(s) => "Unknown variable: "@ + s,
        EvalErrorView::ParseError(s) => "Parse error: "@ + s,
        EvalErrorView::InvalidExpression => "Invalid expression"@,
    }
}

impl EvalError {
    /// The displayed message of this error.
    pub fn to_string(&self) -> (r: String)
        ensures
            r@ == error_message(self@),
    {
        match self {
            EvalError::DivisionByZero => "Division by zero".to_owned(),
            EvalError::UnknownFunction(s) => {
                let mut m = "Unknown function: ".to_owned();
                m.append(s.as_str());
                m
            },
            EvalError::UnknownVariable(s) => {
                let mut m = "Unknown variable: ".to_owned();
                m.append(s.as_str());
                m
            },
            EvalError::ParseError(s) => {
                let mut m = "Parse error: ".to_owned();
                m.append(s.as_str());
                m
            },
            EvalError::InvalidExpression => "Invalid expression".to_owned(),
        }
    }
}

/// Lexer token. A number carries its literal text, which is the syntax of a
/// decimal `f64` literal (see `valid_number`).
#[derive(Debug, Clone, PartialEq)]
pub enum Token {
    Number(String),
    Plus,
    Minus,
    Star,
    Slash,
    Percent,
    Power,
    LParen,
    RParen,
    Ident(String),
    Comma,
}

/// `Token` with its texts as character sequences.
pub enum TokenView {
    Number(Seq<char>),
    Plus,
    Minus,
    Star,
    Slash,
    Percent,
    Power,
    LParen,
    RParen,
    Ident(Seq<char>),
    Comma,
}

impl View for Token {
    type V = TokenView;

    open spec fn view(&self) -> TokenView {
        match self {
            Token::Number(s) => TokenView::Number(s@),
            Token::Plus => TokenView::Plus,
            Token::Minus => TokenView::Minus,
            Token::Star => TokenView::Star,
            Token::Slash => TokenView::Slash,
            Token::Percent => TokenView::Percent,
            Token::Power => TokenView::Power,
            Token::LParen => TokenView::LParen,
            Token::RParen => TokenView::RParen,
            Token::Ident(s) => TokenView::Ident(s@),
            Token::Comma => TokenView::Comma,
        }
    }
}

/// The views of a sequence of tokens.
pub open spec fn tokens_view(ts: Seq<Token>) -> Seq<TokenView> {
    ts.map_values(|t: Token| t@)
}

/// Characters skipped between tokens.
pub open spec fn is_blank(c: char) -> bool {
    c == ' ' || c == '\t' || c == '\n' || c == '\r'
}

/// Characters of a number literal.
pub open spec fn is_number_char(c: char) -> bool {
    is_digit(c) || c == '.'
}

/// Characters that start an identifier.
pub open spec fn is_ident_start(c: char) -> bool {
    is_alpha(c) || c == '_'
}

/// Characters inside an identifier.
pub open spec fn is_ident_char(c: char) -> bool {
    is_alnum(c) || c == '_'
}

/// The token of a one-character operator or punctuation mark.
pub open spec fn single_token(c: char) -> Option<TokenView> {
    if c == '+' {
        Some(TokenView::Plus)
    } else if c == '-' {
        Some(TokenView::Minus)
    } else if c == '*' {
        Some(TokenView::Star)
    } else if c == '/' {
        Some(TokenView::Slash)
    } else if c == '%' {
        Some(TokenView::Percent)
    } else if c == '^' {
        Some(TokenView::Power)
    } else if c == '(' {
        Some(TokenView::LParen)
    } else if c == ')' {
        Some(TokenView::RParen)
    } else if c == ',' {
        Some(TokenView::Comma)
    } else {
        None
    }
}

/// End of the run of number characters that starts at `i`.
pub open spec fn number_end(s: Seq<char>, i: int) -> int
    decreases s.len() - i,
{
    if 0 <= i < s.len() && is_number_char(s[i]) {
        number_end(s, i + 1)
    } else {
        i
    }
}

/// End of the run of identifier characters that starts at `i`.
pub open spec fn ident_end(s: Seq<char>, i: int) -> int
    decreases s.len() - i,
{
    if 0 <= i < s.len() && is_ident_char(s[i]) {
        ident_end(s, i + 1)
    } else {
        i
    }
}

/// A run of digits and dots is an `f64` literal (what `str::parse::<f64>`
/// accepts of such a run): it has a digit and at most one dot.
pub open spec fn valid_number(lex: Seq<char>) -> bool {
    &&& exists|k: int| 0 <= k < lex.len() && is_digit(lex[k])
    &&& forall|a: int, b: int| 0 <= a < b < lex.len() ==> !(lex[a] == '.' && lex[b] == '.')
}

/// `t` in front of the tokens of `r`, or `r`'s error.
pub open spec fn cons_token(t: TokenView, r: Result<Seq<TokenView>, EvalErrorView>) -> Result<
    Seq<TokenView>,
    EvalErrorView,
> {
    match r {
        Ok(ts) => Ok(seq![t] + ts),
        Err(e) => Err(e),
    }
}

/// `ts` in front of the tokens of `r`, or `r`'s error.
pub open spec fn prefix_tokens(ts: Seq<TokenView>, r: Result<Seq<TokenView>, EvalErrorView>) -> Result<
    Seq<TokenView>,
    EvalErrorView,
> {
    match r {
        Ok(rest) => Ok(ts + rest),
        Err(e) => Err(e),
    }
}

/// A run of number characters ends within the input, after its first character.
pub proof fn lemma_number_end(s: Seq<char>, i: int)
    requires
        0 <= i <= s.len(),
    ensures
        i <= number_end(s, i) <= s.len(),
        i < s.len() && is_number_char(s[i]) ==> i < number_end(s, i),
        forall|k: int| i <= k < number_end(s, i) ==> is_number_char(#[trigger] s[k]),
    decreases s.len() - i,
{
    if i < s.len() && is_number_char(s[i]) {
        lemma_number_end(s, i + 1);
    }
}

/// A run of identifier characters ends within the input, after its first character.
pub proof fn lemma_ident_end(s: Seq<char>, i: int)
    requires
        0 <= i <= s.len(),
    ensures
        i <= ident_end(s, i) <= s.len(),
        i < s.len() && is_ident_char(s[i]) ==> i < ident_end(s, i),
        forall|k: int| i <= k < ident_end(s, i) ==> is_ident_char(#[trigger] s[k]),
    decreases s.len() - i,
{
    if i < s.len() && is_ident_char(s[i]) {
        lemma_ident_end(s, i + 1);
    }
}

/// The tokens of `s` from position `i` on, or the first error met.
pub open spec fn lex_from(s: Seq<char>, i: int) -> Result<Seq<TokenView>, EvalErrorView>
    decreases s.len() - i,
{
    if i < 0 || i >= s.len() {
        Ok(seq![])
    } else if is_blank(s[i]) {
        lex_from(s, i + 1)
    } else if s[i] == '*' && i + 1 < s.len() && s[i + 1] == '*' {
        cons_token(TokenView::Power, lex_from(s, i + 2))
    } else if single_token(s[i]) is Some {
        cons_token(single_token(s[i])->0, lex_from(s, i + 1))
    } else if is_number_char(s[i]) {
        let e = number_end(s, i);
        proof {
            lemma_number_end(s, i);
        }
        if valid_number(s.subrange(i, e)) {
            cons_token(TokenView::Number(s.subrange(i, e)), lex_from(s, e))
        } else {
            Err(EvalErrorView::ParseError("Invalid number: "@ + s.subrange(i, e)))
        }
    } else if is_ident_start(s[i]) {
        let e = ident_end(s, i);
        proof {
            lemma_ident_end(s, i);
        }
        cons_token(TokenView::Ident(s.subrange(i, e)), lex_from(s, e))
    } else {
        Err(EvalErrorView::ParseError("Unexpected character: "@ + seq![s[i]]))
    }
}

/// A character that can begin a lexeme: white space, an operator or
/// punctuation mark, a number character or an identifier start.
pub open spec fn is_lexable(c: char) -> bool {
    is_blank(c) || single_token(c) is Some || is_number_char(c) || is_ident_start(c)
}

/// The end of the lexeme that starts at `i`: one blank, `**`, one operator or
/// punctuation mark, a whole run of number characters, a whole run of
/// identifier characters, or one character that is not lexable.
pub open spec fn lexeme_end(s: Seq<char>, i: int) -> int {
    if s[i] == '*' && i + 1 < s.len() && s[i + 1] == '*' {
        i + 2
    } else if is_number_char(s[i]) {
        number_end(s, i)
    } else if is_ident_start(s[i]) {
        ident_end(s, i)
    } else {
        i + 1
    }
}

/// Each lexeme ends within the input, after its first character.
pub proof fn lemma_lexeme_end(s: Seq<char>, i: int)
    requires
        0 <= i < s.len(),
    ensures
        i < lexeme_end(s, i) <= s.len(),
{
    lemma_number_end(s, i);
    lemma_ident_end(s, i);
}

/// `i` is where a lexeme starts when lexemes are laid end to end from `from`.
pub open spec fn starts_from(s: Seq<char>, from: int, i: int) -> bool
    decreases s.len() - from,
{
    if from == i {
        true
    } else if 0 <= from < i && from < s.len() {
        proof {
            lemma_lexeme_end(s, from);
        }
        starts_from(s, lexeme_end(s, from), i)
    } else {
        false
    }
}

/// The lexeme at `i` is rejected: its character is not lexable, or it is a run
/// of number characters that is no valid number.
pub open spec fn lexeme_fails(s: Seq<char>, i: int) -> bool {
    ||| !is_lexable(s[i])
    ||| is_number_char(s[i]) && !valid_number(s.subrange(i, number_end(s, i)))
}

/// Lexing from `from` fails exactly when one of the lexemes laid end to end
/// from `from` is rejected.
proof fn lemma_lex_from_fails(s: Seq<char>, from: int)
    requires
        0 <= from <= s.len(),
    ensures
        lex_from(s, from) is Err <==> exists|i: int|
            from <= i < s.len() && starts_from(s, from, i) && lexeme_fails(s, i),
    decreases s.len() - from,
{
    if from < s.len() {
        if lexeme_fails(s, from) {
            assert(starts_from(s, from, from));
        } else {
            let e = lexeme_end(s, from);
            lemma_lexeme_end(s, from);
            lemma_lex_from_fails(s, e);
            assert(lex_from(s, from) is Err <==> lex_from(s, e) is Err);
            assert forall|i: int| from < i implies starts_from(s, from, i) == starts_from(s, e, i) by {}
            if lex_from(s, e) is Err {
                let i = choose|i: int| e <= i < s.len() && starts_from(s, e, i) && lexeme_fails(s, i);
                assert(starts_from(s, from, i));
            }
            assert forall|i: int| from <= i < s.len() && starts_from(s, from, i) && lexeme_fails(s, i)
                implies e <= i && starts_from(s, e, i) by {
                if i < e {
                    assert(!starts_from(s, e, i));
                }
            }
        }
    }
}

/// Tokenizing fails exactly when the input holds a rejected lexeme: a
/// character that is not white space, an operator, a parenthesis, a comma, a
/// digit, a dot, a letter or an underscore, or a run of digits and dots that
/// starts a lexeme (so it is not the tail of an identifier) and is no valid
/// number. Lexemes are laid end to end from the start of the input.
pub proof fn lemma_lex_fails(s: Seq<char>)
    ensures
        lex(s) is Err <==> exists|i: int| 0 <= i < s.len() && starts_from(s, 0, i) && lexeme_fails(s, i),
{
    lemma_lex_from_fails(s, 0);
}

/// Every position lies in one of the lexemes laid end to end from `from`.
proof fn lemma_lexeme_cover(s: Seq<char>, from: int, i: int) -> (j: int)
    requires
        0 <= from <= i < s.len(),
    ensures
        from <= j <= i,
        starts_from(s, from, j),
        i < lexeme_end(s, j),
    decreases i - from,
{
    lemma_lexeme_end(s, from);
    let e = lexeme_end(s, from);
    if i < e {
        from
    } else {
        let j = lemma_lexeme_cover(s, e, i);
        assert(starts_from(s, from, j));
        j
    }
}

/// A character that no lexeme can begin with makes tokenizing fail, wherever
/// it stands: no number run or identifier holds it.
pub proof fn lemma_unexpected_char_fails(s: Seq<char>, i: int)
    requires
        0 <= i < s.len(),
        !is_lexable(s[i]),
    ensures
        lex(s) is Err,
{
    let j = lemma_lexeme_cover(s, 0, i);
    lemma_number_end(s, j);
    lemma_ident_end(s, j);
    if j < i {
        assert(is_number_char(s[i]) || is_ident_char(s[i]) || s[i] == '*');
        assert(is_lexable(s[i]));
    }
    assert(starts_from(s, 0, i) && lexeme_fails(s, i));
    lemma_lex_fails(s);
}

/// The identifier lexeme that starts at `i`: `s[i]` begins an identifier
/// (a letter or `_`), and the lexeme runs to the end of its identifier
/// characters.
pub open spec fn ident_lexeme(s: Seq<char>, i: int) -> Seq<char> {
    s.subrange(i, ident_end(s, i))
}

/// Lexing from `from` yields, for each identifier lexeme laid from `from`, an
/// identifier token with exactly its characters, and no other identifier
/// tokens.
proof fn lemma_ident_tokens_from(s: Seq<char>, from: int)
    requires
        0 <= from <= s.len(),
        lex_from(s, from) is Ok,
    ensures
        ({
            let ts = lex_from(s, from)->Ok_0;
            &&& forall|k: int| 0 <= k < ts.len() && #[trigger] ts[k] is Ident ==> exists|i: int|
                from <= i < s.len() && starts_from(s, from, i) && is_ident_start(s[i])
                    && ts[k] == TokenView::Ident(ident_lexeme(s, i))
            &&& forall|i: int| from <= i < s.len() && starts_from(s, from, i) && is_ident_start(
                #[trigger] s[i],
            ) ==> exists|k: int| 0 <= k < ts.len() && ts[k] == TokenView::Ident(ident_lexeme(s, i))
        }),
    decreases s.len() - from,
{
    if from < s.len() {
        let e = lexeme_end(s, from);
        lemma_lexeme_end(s, from);
        lemma_ident_end(s, from);
        let ts = lex_from(s, from)->Ok_0;
        assert(lex_from(s, e) is Ok);
        lemma_ident_tokens_from(s, e);
        let rest = lex_from(s, e)->Ok_0;
        let skip = is_blank(s[from]);
        assert(!(is_blank(s[from]) && is_ident_start(s[from])));
        if skip {
            assert(ts == rest);
        } else {
            assert(ts =~= seq![ts[0]] + rest);
            assert(ts[0] is Ident <==> is_ident_start(s[from]));
            assert(is_ident_start(s[from]) ==> ts[0] == TokenView::Ident(ident_lexeme(s, from)));
        }
        assert forall|i: int| from < i implies starts_from(s, from, i) == starts_from(s, e, i) by {}
        assert forall|i: int| from < i < e implies !starts_from(s, e, i) by {}
        assert forall|k: int| 0 <= k < ts.len() && #[trigger] ts[k] is Ident implies exists|i: int|
            from <= i < s.len() && starts_from(s, from, i) && is_ident_start(s[i])
                && ts[k] == TokenView::Ident(ident_lexeme(s, i)) by {
            if !skip && k == 0 {
                assert(starts_from(s, from, from));
            } else {
                let kr = if skip { k } else { k - 1 };
                assert(rest[kr] == ts[k]);
                let i = choose|i: int|
                    e <= i < s.len() && starts_from(s, e, i) && is_ident_start(s[i])
                        && rest[kr] == TokenView::Ident(ident_lexeme(s, i));
                assert(starts_from(s, from, i));
            }
        }
        assert forall|i: int| from <= i < s.len() && starts_from(s, from, i) && is_ident_start(
            #[trigger] s[i],
        ) implies exists|k: int| 0 <= k < ts.len() && ts[k] == TokenView::Ident(ident_lexeme(s, i)) by {
            if i == from {
                assert(ts[0] == TokenView::Ident(ident_lexeme(s, i)));
            } else {
                assert(starts_from(s, e, i));
                let kr = choose|k: int| 0 <= k < rest.len() && rest[k] == TokenView::Ident(ident_lexeme(s, i));
                if skip {
                    assert(ts[kr] == rest[kr]);
                } else {
                    assert(ts[kr + 1] == rest[kr]);
                }
            }
        }
    }
}

/// Identifier tokens keep the text of the source: when an input tokenizes,
/// each identifier lexeme (a letter or `_` that begins a lexeme, and the
/// letters, digits and `_` after it) gives an identifier token with exactly
/// its characters, case included, and every identifier token is such a lexeme.
pub proof fn lemma_ident_tokens(s: Seq<char>)
    requires
        lex(s) is Ok,
    ensures
        forall|k: int| 0 <= k < lex(s)->Ok_0.len() && #[trigger] lex(s)->Ok_0[k] is Ident ==> exists|i: int|
            0 <= i < s.len() && starts_from(s, 0, i) && is_ident_start(s[i]) && lex(s)->Ok_0[k]
                == TokenView::Ident(ident_lexeme(s, i)),
        forall|i: int| 0 <= i < s.len() && starts_from(s, 0, i) && is_ident_start(#[trigger] s[i]) ==> exists|k: int|
            0 <= k < lex(s)->Ok_0.len() && lex(s)->Ok_0[k] == TokenView::Ident(ident_lexeme(s, i)),
{
    lemma_ident_tokens_from(s, 0);
}

/// The tokens of a whole input, or the first error met.
pub open spec fn lex(s: Seq<char>) -> Result<Seq<TokenView>, EvalErrorView> {
    lex_from(s, 0)
}

fn blank(c: char) -> (r: bool)
    ensures
        r == is_blank(c),
{
    c == ' ' || c == '\t' || c == '\n' || c == '\r'
}

fn number_char(c: char) -> (r: bool)
    ensures
        r == is_number_char(c),
{
    ('0' <= c && c <= '9') || c == '.'
}

fn ident_start(c: char) -> (r: bool)
    ensures
        r == is_ident_start(c),
{
    ('a' <= c && c <= 'z') || ('A' <= c && c <= 'Z') || c == '_'
}

fn ident_char(c: char) -> (r: bool)
    ensures
        r == is_ident_char(c),
{
    ('a' <= c && c <= 'z') || ('A' <= c && c <= 'Z') || ('0' <= c && c <= '9') || c == '_'
}

fn single(c: char) -> (r: Option<Token>)
    ensures
        match r {
            Some(t) => single_token(c) == Some(t@),
            None => single_token(c) is None,
        },
{
    if c == '+' {
        Some(Token::Plus)
    } else if c == '-' {
        Some(Token::Minus)
    } else if c == '*' {
        Some(Token::Star)
    } else if c == '/' {
        Some(Token::Slash)
    } else if c == '%' {
        Some(Token::Percent)
    } else if c == '^' {
        Some(Token::Power)
    } else if c == '(' {
        Some(Token::LParen)
    } else if c == ')' {
        Some(Token::RParen)
    } else if c == ',' {
        Some(Token::Comma)
    } else {
        None
    }
}

/// Checks `valid_number` on `cs[lo..hi]`, a run of number characters.
fn number_is_valid(cs: &Vec<char>, lo: usize, hi: usize) -> (r: bool)
    requires
        lo <= hi <= cs.len(),
        forall|k: int| lo <= k < hi ==> is_number_char(#[trigger] cs@[k]),
    ensures
        r == valid_number(cs@.subrange(lo as int, hi as int)),
{
    let ghost lex = cs@.subrange(lo as int, hi as int);
    let mut has_digit = false;
    let mut seen_dot = false;
    let mut ok = true;
    let mut j = lo;
    while j < hi
        invariant
            lo <= j <= hi <= cs.len(),
            lex == cs@.subrange(lo as int, hi as int),
            forall|k: int| lo <= k < hi ==> is_number_char(#[trigger] cs@[k]),
            has_digit == exists|k: int| 0 <= k < j - lo && is_digit(#[trigger] lex[k]),
            seen_dot == exists|k: int| 0 <= k < j - lo && #[trigger] lex[k] == '.',
            ok == forall|a: int, b: int|
                0 <= a < b < j - lo ==> !(#[trigger] lex[a] == '.' && #[trigger] lex[b] == '.'),
        decreases hi - j,
    {
        let c = cs[j];
        assert(lex[j - lo] == c);
        if c == '.' {
            if seen_dot {
                let ghost k = choose|k: int| 0 <= k < j - lo && #[trigger] lex[k] == '.';
                assert(!(lex[k] == '.' && lex[j - lo] == '.') == false);
                ok = false;
            }
            seen_dot = true;
        } else {
            assert(is_digit(lex[j - lo]));
            has_digit = true;
        }
        j = j + 1;
        assert forall|a: int, b: int| 0 <= a < b < j - lo && ok implies !(#[trigger] lex[a] == '.'
            && #[trigger] lex[b] == '.') by {
            if b == j - 1 - lo && lex[b] == '.' && lex[a] == '.' {
                assert(seen_dot);
            }
        }
    }
    ok && has_digit
}

/// Tokenize an expression string.
pub fn tokenize(input: &str) -> (r: Result<Vec<Token>, EvalError>)
    ensures
        match r {
            Ok(ts) => lex(input@) == Ok::<Seq<TokenView>, EvalErrorView>(tokens_view(ts@)),
            Err(e) => lex(input@) == Err::<Seq<TokenView>, EvalErrorView>(e@),
        },
{
    let cs = chars_of(input);
    let n = cs.len();
    let ghost s = input@;
    let mut tokens: Vec<Token> = Vec::new();
    let mut i: usize = 0;
    assert(tokens_view(tokens@) =~= seq![]);
    while i < n
        invariant
            cs@ == s,
            s == input@,
            n == s.len(),
            i <= n,
            lex(s) == prefix_tokens(tokens_view(tokens@), lex_from(s, i as int)),
        decreases n - i,
    {
        let ghost before = tokens_view(tokens@);
        let c = cs[i];
        if blank(c) {
            i = i + 1;
        } else if c == '*' && i + 1 < n && cs[i + 1] == '*' {
            tokens.push(Token::Power);
            proof {
                assert(tokens_view(tokens@) =~= before + seq![TokenView::Power]);
                assert(forall|x: Seq<TokenView>|
                    (before + seq![TokenView::Power]) + x =~= before + (seq![TokenView::Power] + x));
            }
            i = i + 2;
        } else if let Some(t) = single(c) {
            let ghost tv = t@;
            tokens.push(t);
            proof {
                assert(tokens_view(tokens@) =~= before + seq![tv]);
                assert(forall|x: Seq<TokenView>| (before + seq![tv]) + x =~= before + (seq![tv] + x));
            }
            i = i + 1;
        } else if number_char(c) {
            let mut e = i;
            while e < n && number_char(cs[e])
                invariant
                    cs@ == s,
                    n == s.len(),
                    i <= e <= n,
                    number_end(s, e as int) == number_end(s, i as int),
                    forall|k: int| i <= k < e ==> is_number_char(#[trigger] s[k]),
                decreases n - e,
            {
                e = e + 1;
            }
            let lexeme = slice_text(&cs, input, i, e);
            if !number_is_valid(&cs, i, e) {
                let mut msg = "Invalid number: ".to_owned();
                msg.append(lexeme.as_str());
                return Err(EvalError::ParseError(msg));
            }
            let ghost tv = TokenView::Number(lexeme@);
            tokens.push(Token::Number(lexeme));
            proof {
                assert(tokens_view(tokens@) =~= before + seq![tv]);
                assert(forall|x: Seq<TokenView>| (before + seq![tv]) + x =~= before + (seq![tv] + x));
            }
            i = e;
        } else if ident_start(c) {
            let mut e = i;
            while e < n && ident_char(cs[e])
                invariant
                    cs@ == s,
                    n == s.len(),
                    i <= e <= n,
                    ident_end(s, e as int) == ident_end(s, i as int),
                decreases n - e,
            {
                e = e + 1;
            }
            proof {
                lemma_ident_end(s, i as int);
            }
            let name = slice_text(&cs, input, i, e);
            let ghost tv = TokenView::Ident(name@);
            tokens.push(Token::Ident(name));
            proof {
                assert(tokens_view(tokens@) =~= before + seq![tv]);
                assert(forall|x: Seq<TokenView>| (before + seq![tv]) + x =~= before + (seq![tv] + x));
            }
            i = e;
        } else {
            let mut msg = "Unexpected character: ".to_owned();
            let one = slice_text(&cs, input, i, i + 1);
            assert(one@ =~= seq![c]);
            msg.append(one.as_str());
            return Err(EvalError::ParseError(msg));
        }
    }
    assert(tokens_view(tokens@) + seq![] =~= tokens_view(tokens@));
    Ok(tokens)
}

} // verus!
