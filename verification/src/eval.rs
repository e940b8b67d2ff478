//! The expression evaluator's decisions: variables, and compilation of a
//! token stream into a stack program by recursive descent.
//!
//! Grammar (highest binding last):
//!   expr    := term (('+' | '-') term)*
//!   term    := power (('*' | '/' | '%') power)*
//!   power   := unary ('^' power)?            (right-associative)
//!   unary   := ('-' | '+') unary | primary
//!   primary := number | '(' expr ')' | ident '(' [expr (',' expr)*] ')' | ident
//!
//! The compiled program pushes operands and applies operators in exactly the
//! order in which an evaluator that computes while it parses would compute
//! them. When the
//! input is rejected, the program holds the operations computed before the
//! rejection, so that a division by zero among them is reported first, as an
//! evaluation that interleaves parsing and arithmetic reports it.
use vstd::prelude::*;
use crate::lexer::{lex, tokenize, tokens_view, EvalError, EvalErrorView, Token, TokenView};
use crate::literals::{code_numbers_valid, lemma_program_numbers_valid};
use crate::stack::{lemma_compiled_program_balanced, run_depth};
use crate::text::{decimal, decimal_string, same_text};

verus! {

/// A named constant.
#[derive(Debug, Clone, Copy, PartialEq, Eq, Structural)]
pub enum Constant {
    Pi,
    E,
    Tau,
}

/// A function of one argument.
#[derive(Debug, Clone, Copy, PartialEq, Eq, Structural)]
pub enum Func1 {
    Sqrt,
    Sin,
    Cos,
    Tan,
    Log10,
    Ln,
    Log2,
    Abs,
    Ceil,
    Floor,
    Round,
    Exp,
    Asin,
    Acos,
    Atan,
}

/// A function of two arguments.
#[derive(Debug, Clone, Copy, PartialEq, Eq, Structural)]
pub enum Func2 {
    Min,
    Max,
    Pow,
    Atan2,
}

/// One step of a stack program.
#[derive(Debug, Clone, PartialEq)]
pub enum Instr {
    /// Push the value of a number literal.
    Num(String),
    /// Push a constant.
    Const(Constant),
    /// Push the `f64` whose bits are given (a variable's value).
    Var(u64),
    /// Negate the top value.
    Neg,
    /// Pop `b`, pop `a`, push `a + b` (and so on for the other binary operators).
    Add,
    Sub,
    Mul,
    /// Division; a zero divisor is an error.
    Div,
    /// Remainder; a zero divisor is an error.
    Rem,
    /// `a` raised to the power `b`.
    Pow,
    /// Apply a one-argument function to the top value.
    Call1(Func1),
    /// Pop the second argument, pop the first, push the function's value.
    Call2(Func2),
}

/// `Instr` with its texts as character sequences.
pub enum InstrView {
    Num(Seq<char>),
    Const(Constant),
    Var(u64),
    Neg,
    Add,
    Sub,
    Mul,
    Div,
    Rem,
    Pow,
    Call1(Func1),
    Call2(Func2),
}

impl View for Instr {
    type V = InstrView;

    open spec fn view(&self) -> InstrView {
        match self {
            Instr::Num(s) => InstrView::Num(s@),
            Instr::Const(c) => InstrView::Const(*c),
            Instr::Var(b) => InstrView::Var(*b),
            Instr::Neg => InstrView::Neg,
            Instr::Add => InstrView::Add,
            Instr::Sub => InstrView::Sub,
            Instr::Mul => InstrView::Mul,
            Instr::Div => InstrView::Div,
            Instr::Rem => InstrView::Rem,
            Instr::Pow => InstrView::Pow,
            Instr::Call1(f) => InstrView::Call1(*f),
            Instr::Call2(f) => InstrView::Call2(*f),
        }
    }
}

/// The views of a sequence of instructions.
pub open spec fn instrs_view(s: Seq<Instr>) -> Seq<InstrView> {
    s.map_values(|i: Instr| i@)
}

/// The views of an optional error.
pub open spec fn error_view(e: Option<EvalError>) -> Option<EvalErrorView> {
    match e {
        Some(x) => Some(x@),
        None => None,
    }
}

/// The one-argument function a name stands for.
#[verifier::opaque]
pub open spec fn func1_named(n: Seq<char>) -> Option<Func1> {
    if n == "sqrt"@ {
        Some(Func1::Sqrt)
    } else if n == "sin"@ {
        Some(Func1::Sin)
    } else if n == "cos"@ {
        Some(Func1::Cos)
    } else if n == "tan"@ {
        Some(Func1::Tan)
    } else if n == "log"@ || n == "log10"@ {
        Some(Func1::Log10)
    } else if n == "ln"@ {
        Some(Func1::Ln)
    } else if n == "log2"@ {
        Some(Func1::Log2)
    } else if n == "abs"@ {
        Some(Func1::Abs)
    } else if n == "ceil"@ {
        Some(Func1::Ceil)
    } else if n == "floor"@ {
        Some(Func1::Floor)
    } else if n == "round"@ {
        Some(Func1::Round)
    } else if n == "exp"@ {
        Some(Func1::Exp)
    } else if n == "asin"@ {
        Some(Func1::Asin)
    } else if n == "acos"@ {
        Some(Func1::Acos)
    } else if n == "atan"@ {
        Some(Func1::Atan)
    } else {
        None
    }
}

/// The two-argument function a name stands for.
#[verifier::opaque]
pub open spec fn func2_named(n: Seq<char>) -> Option<Func2> {
    if n == "min"@ {
        Some(Func2::Min)
    } else if n == "max"@ {
        Some(Func2::Max)
    } else if n == "pow"@ {
        Some(Func2::Pow)
    } else if n == "atan2"@ {
        Some(Func2::Atan2)
    } else {
        None
    }
}

/// The constant a name stands for.
#[verifier::opaque]
pub open spec fn constant_named(n: Seq<char>) -> Option<Constant> {
    if n == "pi"@ || n == "PI"@ {
        Some(Constant::Pi)
    } else if n == "e"@ || n == "E"@ {
        Some(Constant::E)
    } else if n == "tau"@ || n == "TAU"@ {
        Some(Constant::Tau)
    } else {
        None
    }
}

/// The instruction that pushes the constant or variable `name`, or the error
/// for an unknown name.
#[verifier::opaque]
pub open spec fn name_operand(name: Seq<char>, v: Map<Seq<char>, u64>) -> Result<InstrView, EvalErrorView> {
    match constant_named(name) {
        Some(k) => Ok(InstrView::Const(k)),
        None => if v.contains_key(name) {
            Ok(InstrView::Var(v[name]))
        } else {
            Err(EvalErrorView::UnknownVariable(name))
        },
    }
}

/// The rest of a call whose first arguments produced `args` (`nargs` of them)
/// and end at `end`: further arguments, then the closing parenthesis.
pub open spec fn rest_of_call(
    args: Seq<InstrView>,
    t: Seq<TokenView>,
    v: Map<Seq<char>, u64>,
    end: int,
    name: Seq<char>,
    nargs: nat,
) -> Emitted {
    let (c2, r2) = args_tail(t, v, end);
    match r2 {
        Ok((e, more)) => finish_call(args + c2, t, e, name, more + nargs),
        Err(x) => (args + c2, Err(x)),
    }
}

/// The instruction that calls function `name` with `nargs` arguments, or the
/// error for an unknown name or a wrong number of arguments.
#[verifier::opaque]
pub open spec fn call_instr(name: Seq<char>, nargs: nat) -> Result<InstrView, EvalErrorView> {
    match func1_named(name) {
        Some(f) => if nargs == 1 {
            Ok(InstrView::Call1(f))
        } else {
            Err(
                EvalErrorView::ParseError(
                    "Function "@ + name + " expects 1 argument, got "@ + decimal(nargs),
                ),
            )
        },
        None => match func2_named(name) {
            Some(f) => if nargs == 2 {
                Ok(InstrView::Call2(f))
            } else {
                Err(
                    EvalErrorView::ParseError(
                        "Function "@ + name + " expects 2 arguments, got "@ + decimal(nargs),
                    ),
                )
            },
            None => Err(EvalErrorView::UnknownFunction(name)),
        },
    }
}

/// The debug name of a token that cannot start an operand.
#[verifier::opaque]
pub open spec fn token_debug_name(t: TokenView) -> Seq<char> {
    match t {
        TokenView::Plus => "Plus"@,
        TokenView::Minus => "Minus"@,
        TokenView::Star => "Star"@,
        TokenView::Slash => "Slash"@,
        TokenView::Percent => "Percent"@,
        TokenView::Power => "Power"@,
        TokenView::LParen => "LParen"@,
        TokenView::RParen => "RParen"@,
        TokenView::Comma => "Comma"@,
        TokenView::Number(s) => s,
        TokenView::Ident(s) => s,
    }
}

/// What a parsing function produced: the instructions it emitted, and the
/// position after what it read or the error that stopped it.
pub type Emitted = (Seq<InstrView>, Result<int, EvalErrorView>);

/// expr := term (('+' | '-') term)*
pub open spec fn expr_code(t: Seq<TokenView>, v: Map<Seq<char>, u64>, pos: int) -> Emitted
    decreases t.len() - pos, 6nat,
{
    let (c, r) = term_code(t, v, pos);
    match r {
        Ok(p) => if pos < p <= t.len() {
            let (c2, r2) = expr_tail(t, v, p);
            (c + c2, r2)
        } else {
            (c, r)
        },
        Err(e) => (c, Err(e)),
    }
}

/// The `(('+' | '-') term)*` part of an expression, from `pos` on.
pub open spec fn expr_tail(t: Seq<TokenView>, v: Map<Seq<char>, u64>, pos: int) -> Emitted
    decreases t.len() - pos, 0nat,
{
    if 0 <= pos < t.len() && (t[pos] is Plus || t[pos] is Minus) {
        let op = if t[pos] is Plus {
            InstrView::Add
        } else {
            InstrView::Sub
        };
        let (c, r) = term_code(t, v, pos + 1);
        match r {
            Ok(p) => if pos + 1 < p <= t.len() {
                let (c2, r2) = expr_tail(t, v, p);
                (c.push(op) + c2, r2)
            } else {
                (c.push(op), r)
            },
            Err(e) => (c, Err(e)),
        }
    } else {
        (seq![], Ok(pos))
    }
}

/// term := power (('*' | '/' | '%') power)*
pub open spec fn term_code(t: Seq<TokenView>, v: Map<Seq<char>, u64>, pos: int) -> Emitted
    decreases t.len() - pos, 5nat,
{
    let (c, r) = power_code(t, v, pos);
    match r {
        Ok(p) => if pos < p <= t.len() {
            let (c2, r2) = term_tail(t, v, p);
            (c + c2, r2)
        } else {
            (c, r)
        },
        Err(e) => (c, Err(e)),
    }
}

/// The `(('*' | '/' | '%') power)*` part of a term, from `pos` on.
pub open spec fn term_tail(t: Seq<TokenView>, v: Map<Seq<char>, u64>, pos: int) -> Emitted
    decreases t.len() - pos, 0nat,
{
    if 0 <= pos < t.len() && (t[pos] is Star || t[pos] is Slash || t[pos] is Percent) {
        let op = if t[pos] is Star {
            InstrView::Mul
        } else if t[pos] is Slash {
            InstrView::Div
        } else {
            InstrView::Rem
        };
        let (c, r) = power_code(t, v, pos + 1);
        match r {
            Ok(p) => if pos + 1 < p <= t.len() {
                let (c2, r2) = term_tail(t, v, p);
                (c.push(op) + c2, r2)
            } else {
                (c.push(op), r)
            },
            Err(e) => (c, Err(e)),
        }
    } else {
        (seq![], Ok(pos))
    }
}

/// power := unary ('^' power)?
pub open spec fn power_code(t: Seq<TokenView>, v: Map<Seq<char>, u64>, pos: int) -> Emitted
    decreases t.len() - pos, 4nat,
{
    let (c, r) = unary_code(t, v, pos);
    match r {
        Ok(p) => if pos < p < t.len() && t[p] is Power {
            let (c2, r2) = power_code(t, v, p + 1);
            match r2 {
                Ok(_) => (c + c2.push(InstrView::Pow), r2),
                Err(_) => (c + c2, r2),
            }
        } else {
            (c, r)
        },
        Err(e) => (c, Err(e)),
    }
}

/// unary := ('-' | '+') unary | primary
pub open spec fn unary_code(t: Seq<TokenView>, v: Map<Seq<char>, u64>, pos: int) -> Emitted
    decreases t.len() - pos, 3nat,
{
    if 0 <= pos < t.len() {
        if t[pos] is Minus {
            let (c, r) = unary_code(t, v, pos + 1);
            match r {
                Ok(_) => (c.push(InstrView::Neg), r),
                Err(_) => (c, r),
            }
        } else if t[pos] is Plus {
            unary_code(t, v, pos + 1)
        } else {
            primary_code(t, v, pos)
        }
    } else {
        (seq![], Err(EvalErrorView::InvalidExpression))
    }
}

/// primary := number | '(' expr ')' | call | constant | variable
pub open spec fn primary_code(t: Seq<TokenView>, v: Map<Seq<char>, u64>, pos: int) -> Emitted
    decreases t.len() - pos, 2nat,
{
    if 0 <= pos < t.len() {
        match t[pos] {
            TokenView::Number(s) => (seq![InstrView::Num(s)], Ok(pos + 1)),
            TokenView::LParen => group_code(t, v, pos),
            TokenView::Ident(name) => ident_code(t, v, pos, name),
            _ => (
                seq![],
                Err(EvalErrorView::ParseError("Unexpected token: "@ + token_debug_name(t[pos]))),
            ),
        }
    } else {
        (seq![], Err(EvalErrorView::InvalidExpression))
    }
}

/// A parenthesized expression whose `(` is at `pos`.
pub open spec fn group_code(t: Seq<TokenView>, v: Map<Seq<char>, u64>, pos: int) -> Emitted
    decreases t.len() - pos, 0nat,
{
    if 0 <= pos < t.len() {
        let (c, r) = expr_code(t, v, pos + 1);
        match r {
            Ok(p) => if 0 <= p < t.len() && t[p] is RParen {
                (c, Ok(p + 1))
            } else {
                (c, Err(EvalErrorView::ParseError("Missing closing parenthesis"@)))
            },
            Err(e) => (c, Err(e)),
        }
    } else {
        (seq![], Err(EvalErrorView::InvalidExpression))
    }
}

/// An operand that starts with the identifier `name` at `pos`: a call, a constant or a variable.
pub open spec fn ident_code(t: Seq<TokenView>, v: Map<Seq<char>, u64>, pos: int, name: Seq<char>) -> Emitted
    decreases t.len() - pos, 1nat,
{
    if pos + 1 < t.len() && t[pos + 1] is LParen {
        call_code(t, v, pos, name)
    } else {
        match name_operand(name, v) {
            Ok(i) => (seq![i], Ok(pos + 1)),
            Err(e) => (seq![], Err(e)),
        }
    }
}

/// A call `name ( args )`, where `t[pos]` is the name and `t[pos + 1]` is `(`.
pub open spec fn call_code(t: Seq<TokenView>, v: Map<Seq<char>, u64>, pos: int, name: Seq<char>) -> Emitted
    decreases t.len() - pos, 0nat,
{
    let first = pos + 2;
    if 0 <= pos && first < t.len() && !(t[first] is RParen) {
        let (c1, r1) = expr_code(t, v, first);
        match r1 {
            Ok(q) => if first < q <= t.len() {
                let (c2, r2) = args_tail(t, v, q);
                match r2 {
                    Ok((end, more)) => finish_call(c1 + c2, t, end, name, more + 1),
                    Err(e) => (c1 + c2, Err(e)),
                }
            } else {
                (c1, Err(EvalErrorView::InvalidExpression))
            },
            Err(e) => (c1, Err(e)),
        }
    } else {
        finish_call(seq![], t, first, name, 0)
    }
}

/// Closes a call whose arguments end at `end`: expects `)`, then resolves the function.
pub open spec fn finish_call(code: Seq<InstrView>, t: Seq<TokenView>, end: int, name: Seq<char>, nargs: nat) -> Emitted {
    if 0 <= end < t.len() && t[end] is RParen {
        match call_instr(name, nargs) {
            Ok(i) => (code.push(i), Ok(end + 1)),
            Err(e) => (code, Err(e)),
        }
    } else {
        (code, Err(EvalErrorView::ParseError("Missing closing parenthesis"@)))
    }
}

/// The `(',' expr)*` part of an argument list, from `pos` on: the code, and the
/// end position with the number of arguments read, or the error.
pub open spec fn args_tail(t: Seq<TokenView>, v: Map<Seq<char>, u64>, pos: int) -> (
    Seq<InstrView>,
    Result<(int, nat), EvalErrorView>,
)
    decreases t.len() - pos, 0nat,
{
    if 0 <= pos < t.len() && t[pos] is Comma {
        let (c, r) = expr_code(t, v, pos + 1);
        match r {
            Ok(q) => if pos + 1 < q <= t.len() {
                let (c2, r2) = args_tail(t, v, q);
                match r2 {
                    Ok((e, n)) => (c + c2, Ok((e, n + 1))),
                    Err(x) => (c + c2, Err(x)),
                }
            } else {
                (c, Err(EvalErrorView::InvalidExpression))
            },
            Err(e) => (c, Err(e)),
        }
    } else {
        (seq![], Ok((pos, 0)))
    }
}

/// The program for a whole token stream, and the error that stopped it, if any.
pub open spec fn compile_tokens(t: Seq<TokenView>, v: Map<Seq<char>, u64>) -> (Seq<InstrView>, Option<EvalErrorView>) {
    if t.len() == 0 {
        (seq![], Some(EvalErrorView::InvalidExpression))
    } else {
        let (c, r) = expr_code(t, v, 0);
        match r {
            Ok(p) => if p < t.len() {
                (c, Some(EvalErrorView::ParseError("Unexpected token at position "@ + decimal(p as nat))))
            } else {
                (c, None)
            },
            Err(e) => (c, Some(e)),
        }
    }
}

/// The program for an expression text: its tokens' program, or the tokenizer's error.
pub open spec fn compile_text(s: Seq<char>, v: Map<Seq<char>, u64>) -> (Seq<InstrView>, Option<EvalErrorView>) {
    match lex(s) {
        Ok(t) => compile_tokens(t, v),
        Err(e) => (seq![], Some(e)),
    }
}

/// The value of the first binding of `name` in `vars`.
pub open spec fn lookup(vars: Seq<(String, u64)>, name: Seq<char>) -> Option<u64>
    decreases vars.len(),
{
    if vars.len() == 0 {
        None
    } else if vars[0].0@ == name {
        Some(vars[0].1)
    } else {
        lookup(vars.drop_first(), name)
    }
}

/// The names of the one-argument functions.
pub open spec fn unary_function_names() -> Set<Seq<char>> {
    set!["sqrt"@, "sin"@, "cos"@, "tan"@, "log"@, "log10"@, "ln"@, "log2"@, "abs"@, "ceil"@, "floor"@, "round"@, "exp"@, "asin"@, "acos"@, "atan"@]
}

/// The names of the two-argument functions.
pub open spec fn binary_function_names() -> Set<Seq<char>> {
    set!["min"@, "max"@, "pow"@, "atan2"@]
}

/// The function and constant names: each name calls the function of that name
/// (`log` is the decimal logarithm, `ln` the natural one) and each constant
/// name, in lower or upper case, stands for that constant.
pub proof fn lemma_name_table()
    ensures
        call_instr("sqrt"@, 1) == Ok::<InstrView, EvalErrorView>(InstrView::Call1(Func1::Sqrt)),
        call_instr("sin"@, 1) == Ok::<InstrView, EvalErrorView>(InstrView::Call1(Func1::Sin)),
        call_instr("cos"@, 1) == Ok::<InstrView, EvalErrorView>(InstrView::Call1(Func1::Cos)),
        call_instr("tan"@, 1) == Ok::<InstrView, EvalErrorView>(InstrView::Call1(Func1::Tan)),
        call_instr("log"@, 1) == Ok::<InstrView, EvalErrorView>(InstrView::Call1(Func1::Log10)),
        call_instr("log10"@, 1) == Ok::<InstrView, EvalErrorView>(InstrView::Call1(Func1::Log10)),
        call_instr("ln"@, 1) == Ok::<InstrView, EvalErrorView>(InstrView::Call1(Func1::Ln)),
        call_instr("log2"@, 1) == Ok::<InstrView, EvalErrorView>(InstrView::Call1(Func1::Log2)),
        call_instr("abs"@, 1) == Ok::<InstrView, EvalErrorView>(InstrView::Call1(Func1::Abs)),
        call_instr("ceil"@, 1) == Ok::<InstrView, EvalErrorView>(InstrView::Call1(Func1::Ceil)),
        call_instr("floor"@, 1) == Ok::<InstrView, EvalErrorView>(InstrView::Call1(Func1::Floor)),
        call_instr("round"@, 1) == Ok::<InstrView, EvalErrorView>(InstrView::Call1(Func1::Round)),
        call_instr("exp"@, 1) == Ok::<InstrView, EvalErrorView>(InstrView::Call1(Func1::Exp)),
        call_instr("asin"@, 1) == Ok::<InstrView, EvalErrorView>(InstrView::Call1(Func1::Asin)),
        call_instr("acos"@, 1) == Ok::<InstrView, EvalErrorView>(InstrView::Call1(Func1::Acos)),
        call_instr("atan"@, 1) == Ok::<InstrView, EvalErrorView>(InstrView::Call1(Func1::Atan)),
        call_instr("min"@, 2) == Ok::<InstrView, EvalErrorView>(InstrView::Call2(Func2::Min)),
        call_instr("max"@, 2) == Ok::<InstrView, EvalErrorView>(InstrView::Call2(Func2::Max)),
        call_instr("pow"@, 2) == Ok::<InstrView, EvalErrorView>(InstrView::Call2(Func2::Pow)),
        call_instr("atan2"@, 2) == Ok::<InstrView, EvalErrorView>(InstrView::Call2(Func2::Atan2)),
        constant_named("pi"@) == Some(Constant::Pi),
        constant_named("PI"@) == Some(Constant::Pi),
        constant_named("e"@) == Some(Constant::E),
        constant_named("E"@) == Some(Constant::E),
        constant_named("tau"@) == Some(Constant::Tau),
        constant_named("TAU"@) == Some(Constant::Tau),
{
    reveal(call_instr);
    reveal(func1_named);
    reveal(func2_named);
    reveal(constant_named);
    reveal_strlit("sqrt");
    reveal_strlit("sin");
    reveal_strlit("cos");
    reveal_strlit("tan");
    reveal_strlit("log");
    reveal_strlit("log10");
    reveal_strlit("ln");
    reveal_strlit("log2");
    reveal_strlit("abs");
    reveal_strlit("ceil");
    reveal_strlit("floor");
    reveal_strlit("round");
    reveal_strlit("exp");
    reveal_strlit("asin");
    reveal_strlit("acos");
    reveal_strlit("atan");
    reveal_strlit("min");
    reveal_strlit("max");
    reveal_strlit("pow");
    reveal_strlit("atan2");
    reveal_strlit("pi");
    reveal_strlit("PI");
    reveal_strlit("e");
    reveal_strlit("E");
    reveal_strlit("tau");
    reveal_strlit("TAU");
    assert("cos"@[0] != "sin"@[0]);
    assert("tan"@[0] != "sin"@[0]);
    assert("tan"@[0] != "cos"@[0]);
    assert("log"@[0] != "sin"@[0]);
    assert("log"@[0] != "cos"@[0]);
    assert("log"@[0] != "tan"@[0]);
    assert("log2"@[0] != "sqrt"@[0]);
    assert("abs"@[0] != "sin"@[0]);
    assert("abs"@[0] != "cos"@[0]);
    assert("abs"@[0] != "tan"@[0]);
    assert("abs"@[0] != "log"@[0]);
    assert("ceil"@[0] != "sqrt"@[0]);
    assert("ceil"@[0] != "log2"@[0]);
    assert("floor"@[0] != "log10"@[0]);
    assert("round"@[0] != "log10"@[0]);
    assert("round"@[0] != "floor"@[0]);
    assert("exp"@[0] != "sin"@[0]);
    assert("exp"@[0] != "cos"@[0]);
    assert("exp"@[0] != "tan"@[0]);
    assert("exp"@[0] != "log"@[0]);
    assert("exp"@[0] != "abs"@[0]);
    assert("asin"@[0] != "sqrt"@[0]);
    assert("asin"@[0] != "log2"@[0]);
    assert("asin"@[0] != "ceil"@[0]);
    assert("acos"@[0] != "sqrt"@[0]);
    assert("acos"@[0] != "log2"@[0]);
    assert("acos"@[0] != "ceil"@[0]);
    assert("acos"@[1] != "asin"@[1]);
    assert("atan"@[0] != "sqrt"@[0]);
    assert("atan"@[0] != "log2"@[0]);
    assert("atan"@[0] != "ceil"@[0]);
    assert("atan"@[1] != "asin"@[1]);
    assert("atan"@[1] != "acos"@[1]);
    assert("min"@[0] != "sin"@[0]);
    assert("min"@[0] != "cos"@[0]);
    assert("min"@[0] != "tan"@[0]);
    assert("min"@[0] != "log"@[0]);
    assert("min"@[0] != "abs"@[0]);
    assert("min"@[0] != "exp"@[0]);
    assert("max"@[0] != "sin"@[0]);
    assert("max"@[0] != "cos"@[0]);
    assert("max"@[0] != "tan"@[0]);
    assert("max"@[0] != "log"@[0]);
    assert("max"@[0] != "abs"@[0]);
    assert("max"@[0] != "exp"@[0]);
    assert("max"@[1] != "min"@[1]);
    assert("pow"@[0] != "sin"@[0]);
    assert("pow"@[0] != "cos"@[0]);
    assert("pow"@[0] != "tan"@[0]);
    assert("pow"@[0] != "log"@[0]);
    assert("pow"@[0] != "abs"@[0]);
    assert("pow"@[0] != "exp"@[0]);
    assert("pow"@[0] != "min"@[0]);
    assert("pow"@[0] != "max"@[0]);
    assert("atan2"@[0] != "log10"@[0]);
    assert("atan2"@[0] != "floor"@[0]);
    assert("atan2"@[0] != "round"@[0]);
    assert("PI"@[0] != "pi"@[0]);
    assert("E"@[0] != "e"@[0]);
    assert("TAU"@[0] != "tau"@[0]);
    assert("sqrt"@.len() == 4);
    assert("sin"@.len() == 3);
    assert("cos"@.len() == 3);
    assert("tan"@.len() == 3);
    assert("log"@.len() == 3);
    assert("log10"@.len() == 5);
    assert("ln"@.len() == 2);
    assert("log2"@.len() == 4);
    assert("abs"@.len() == 3);
    assert("ceil"@.len() == 4);
    assert("floor"@.len() == 5);
    assert("round"@.len() == 5);
    assert("exp"@.len() == 3);
    assert("asin"@.len() == 4);
    assert("acos"@.len() == 4);
    assert("atan"@.len() == 4);
    assert("min"@.len() == 3);
    assert("max"@.len() == 3);
    assert("pow"@.len() == 3);
    assert("atan2"@.len() == 5);
    assert("pi"@.len() == 2);
    assert("PI"@.len() == 2);
    assert("e"@.len() == 1);
    assert("E"@.len() == 1);
    assert("tau"@.len() == 3);
    assert("TAU"@.len() == 3);
}

/// Function calls and their arity: a one-argument function called with `n`
/// arguments compiles only for `n == 1`, else fails with "Function NAME expects
/// 1 argument, got N"; a two-argument function only for `n == 2`, else "Function
/// NAME expects 2 arguments, got N"; any other name fails as an unknown function
/// whatever the count.
pub proof fn lemma_call_arity(name: Seq<char>, n: nat)
    ensures
        unary_function_names().contains(name) ==> (n == 1 <==> call_instr(name, n) is Ok),
        unary_function_names().contains(name) && n != 1 ==> call_instr(name, n) == Err::<InstrView, EvalErrorView>(
            EvalErrorView::ParseError("Function "@ + name + " expects 1 argument, got "@ + decimal(n)),
        ),
        binary_function_names().contains(name) ==> (n == 2 <==> call_instr(name, n) is Ok),
        binary_function_names().contains(name) && n != 2 ==> call_instr(name, n) == Err::<InstrView, EvalErrorView>(
            EvalErrorView::ParseError("Function "@ + name + " expects 2 arguments, got "@ + decimal(n)),
        ),
        !unary_function_names().contains(name) && !binary_function_names().contains(name)
            ==> call_instr(name, n) == Err::<InstrView, EvalErrorView>(EvalErrorView::UnknownFunction(name)),
{
    reveal(call_instr);
    reveal(func1_named);
    reveal(func2_named);
    reveal_strlit("sqrt");
    reveal_strlit("sin");
    reveal_strlit("cos");
    reveal_strlit("tan");
    reveal_strlit("log");
    reveal_strlit("log10");
    reveal_strlit("ln");
    reveal_strlit("log2");
    reveal_strlit("abs");
    reveal_strlit("ceil");
    reveal_strlit("floor");
    reveal_strlit("round");
    reveal_strlit("exp");
    reveal_strlit("asin");
    reveal_strlit("acos");
    reveal_strlit("atan");
    reveal_strlit("min");
    reveal_strlit("max");
    reveal_strlit("pow");
    reveal_strlit("atan2");
    if binary_function_names().contains(name) {
        if name == "min"@ {
            assert("min"@[0] != "sin"@[0]);
            assert("min"@[0] != "cos"@[0]);
            assert("min"@[0] != "tan"@[0]);
            assert("min"@[0] != "log"@[0]);
            assert("min"@[0] != "abs"@[0]);
            assert("min"@[0] != "exp"@[0]);
        }
        if name == "max"@ {
            assert("max"@[0] != "sin"@[0]);
            assert("max"@[0] != "cos"@[0]);
            assert("max"@[0] != "tan"@[0]);
            assert("max"@[0] != "log"@[0]);
            assert("max"@[0] != "abs"@[0]);
            assert("max"@[0] != "exp"@[0]);
        }
        if name == "pow"@ {
            assert("pow"@[0] != "sin"@[0]);
            assert("pow"@[0] != "cos"@[0]);
            assert("pow"@[0] != "tan"@[0]);
            assert("pow"@[0] != "log"@[0]);
            assert("pow"@[0] != "abs"@[0]);
            assert("pow"@[0] != "exp"@[0]);
        }
        if name == "atan2"@ {
            assert("atan2"@[0] != "log10"@[0]);
            assert("atan2"@[0] != "floor"@[0]);
            assert("atan2"@[0] != "round"@[0]);
        }
    }
}

/// Reading a variable gives back the value last written to it, and writing a
/// variable leaves every other variable as it was (the views that
/// `Evaluator::set_variable` and `Evaluator::get_variable` speak of).
pub proof fn lemma_variable_read_after_write(
    vars: Map<Seq<char>, u64>,
    name: Seq<char>,
    value: u64,
    other: Seq<char>,
)
    ensures
        vars.insert(name, value).contains_key(name),
        vars.insert(name, value)[name] == value,
        other != name ==> vars.insert(name, value).contains_key(other) == vars.contains_key(other),
        other != name && vars.contains_key(other) ==> vars.insert(name, value)[other] == vars[other],
{
}

/// A compiled expression: the program, and the error that stopped compilation.
/// When there is no error, running the program leaves exactly the expression's value.
pub struct Program {
    pub code: Vec<Instr>,
    pub error: Option<EvalError>,
}

/// Expression evaluator with variable support. Variable values are the bits
/// of `f64` values.
pub struct Evaluator {
    variables: Vec<(String, u64)>,
}

impl View for Evaluator {
    type V = Map<Seq<char>, u64>;

    closed spec fn view(&self) -> Map<Seq<char>, u64> {
        Map::new(
            |n: Seq<char>| lookup(self.variables@, n) is Some,
            |n: Seq<char>| lookup(self.variables@, n)->0,
        )
    }
}

proof fn lemma_lookup_skip(vars: Seq<(String, u64)>, name: Seq<char>, i: int)
    requires
        0 <= i <= vars.len(),
        forall|k: int| 0 <= k < i ==> (#[trigger] vars[k]).0@ != name,
    ensures
        lookup(vars, name) == lookup(vars.subrange(i, vars.len() as int), name),
    decreases i,
{
    if i > 0 {
        let rest = vars.drop_first();
        assert forall|k: int| 0 <= k < i - 1 implies (#[trigger] rest[k]).0@ != name by {
            assert(rest[k] == vars[k + 1]);
        }
        lemma_lookup_skip(rest, name, i - 1);
        assert(rest.subrange(i - 1, rest.len() as int) =~= vars.subrange(i, vars.len() as int));
    } else {
        assert(vars.subrange(0, vars.len() as int) =~= vars);
    }
}

proof fn lemma_lookup_update(vars: Seq<(String, u64)>, i: int, entry: (String, u64), m: Seq<char>)
    requires
        0 <= i < vars.len(),
        vars[i].0@ == entry.0@,
        forall|k: int| 0 <= k < i ==> (#[trigger] vars[k]).0@ != entry.0@,
    ensures
        lookup(vars.update(i, entry), m) == if m == entry.0@ {
            Some(entry.1)
        } else {
            lookup(vars, m)
        },
    decreases i,
{
    if i > 0 {
        let rest = vars.drop_first();
        assert forall|k: int| 0 <= k < i - 1 implies (#[trigger] rest[k]).0@ != entry.0@ by {
            assert(rest[k] == vars[k + 1]);
        }
        lemma_lookup_update(rest, i - 1, entry, m);
        assert(vars.update(i, entry).drop_first() =~= rest.update(i - 1, entry));
        assert(vars.update(i, entry)[0] == vars[0]);
        if vars[0].0@ == m {
            assert(m != entry.0@);
        }
    } else {
        assert(vars.update(0, entry).drop_first() =~= vars.drop_first());
    }
}

proof fn lemma_lookup_push(vars: Seq<(String, u64)>, entry: (String, u64), m: Seq<char>)
    requires
        forall|k: int| 0 <= k < vars.len() ==> (#[trigger] vars[k]).0@ != entry.0@,
    ensures
        lookup(vars.push(entry), m) == if m == entry.0@ {
            Some(entry.1)
        } else {
            lookup(vars, m)
        },
    decreases vars.len(),
{
    if vars.len() > 0 {
        let rest = vars.drop_first();
        assert forall|k: int| 0 <= k < rest.len() implies (#[trigger] rest[k]).0@ != entry.0@ by {
            assert(rest[k] == vars[k + 1]);
        }
        lemma_lookup_push(rest, entry, m);
        assert(vars.push(entry).drop_first() =~= rest.push(entry));
    } else {
        assert(vars.push(entry).drop_first() =~= vars);
    }
}

/// The function of one argument that `name` stands for.
fn func1_of(name: &String) -> (r: Option<Func1>)
    ensures
        r == func1_named(name@),
{
    reveal(func1_named);
    if same_text(name, "sqrt") {
        Some(Func1::Sqrt)
    } else if same_text(name, "sin") {
        Some(Func1::Sin)
    } else if same_text(name, "cos") {
        Some(Func1::Cos)
    } else if same_text(name, "tan") {
        Some(Func1::Tan)
    } else if same_text(name, "log") || same_text(name, "log10") {
        Some(Func1::Log10)
    } else if same_text(name, "ln") {
        Some(Func1::Ln)
    } else if same_text(name, "log2") {
        Some(Func1::Log2)
    } else if same_text(name, "abs") {
        Some(Func1::Abs)
    } else if same_text(name, "ceil") {
        Some(Func1::Ceil)
    } else if same_text(name, "floor") {
        Some(Func1::Floor)
    } else if same_text(name, "round") {
        Some(Func1::Round)
    } else if same_text(name, "exp") {
        Some(Func1::Exp)
    } else if same_text(name, "asin") {
        Some(Func1::Asin)
    } else if same_text(name, "acos") {
        Some(Func1::Acos)
    } else if same_text(name, "atan") {
        Some(Func1::Atan)
    } else {
        None
    }
}

/// The function of two arguments that `name` stands for.
fn func2_of(name: &String) -> (r: Option<Func2>)
    ensures
        r == func2_named(name@),
{
    reveal(func2_named);
    if same_text(name, "min") {
        Some(Func2::Min)
    } else if same_text(name, "max") {
        Some(Func2::Max)
    } else if same_text(name, "pow") {
        Some(Func2::Pow)
    } else if same_text(name, "atan2") {
        Some(Func2::Atan2)
    } else {
        None
    }
}

/// The constant that `name` stands for.
fn constant_of(name: &String) -> (r: Option<Constant>)
    ensures
        r == constant_named(name@),
{
    reveal(constant_named);
    if same_text(name, "pi") || same_text(name, "PI") {
        Some(Constant::Pi)
    } else if same_text(name, "e") || same_text(name, "E") {
        Some(Constant::E)
    } else if same_text(name, "tau") || same_text(name, "TAU") {
        Some(Constant::Tau)
    } else {
        None
    }
}

/// Resolves a call of `name` with `nargs` arguments.
fn resolve_call(name: &String, nargs: usize) -> (r: Result<Instr, EvalError>)
    ensures
        match r {
            Ok(i) => call_instr(name@, nargs as nat) == Ok::<InstrView, EvalErrorView>(i@),
            Err(e) => call_instr(name@, nargs as nat) == Err::<InstrView, EvalErrorView>(e@),
        },
{
    reveal(call_instr);
    match func1_of(name) {
        Some(f) => if nargs == 1 {
            Ok(Instr::Call1(f))
        } else {
            let mut m = "Function ".to_owned();
            m.append(name.as_str());
            m.append(" expects 1 argument, got ");
            let d = decimal_string(nargs);
            m.append(d.as_str());
            Err(EvalError::ParseError(m))
        },
        None => match func2_of(name) {
            Some(f) => if nargs == 2 {
                Ok(Instr::Call2(f))
            } else {
                let mut m = "Function ".to_owned();
                m.append(name.as_str());
                m.append(" expects 2 arguments, got ");
                let d = decimal_string(nargs);
                m.append(d.as_str());
                Err(EvalError::ParseError(m))
            },
            None => Err(EvalError::UnknownFunction(name.clone())),
        },
    }
}

/// The debug name of a token that cannot start an operand.
fn token_name(t: &Token) -> (r: String)
    requires
        !(t is Number || t is Ident),
    ensures
        r@ == token_debug_name(t@),
{
    reveal(token_debug_name);
    let s = match t {
        Token::Plus => "Plus",
        Token::Minus => "Minus",
        Token::Star => "Star",
        Token::Slash => "Slash",
        Token::Percent => "Percent",
        Token::Power => "Power",
        Token::LParen => "LParen",
        Token::RParen => "RParen",
        _ => "Comma",
    };
    s.to_owned()
}

/// `code` extended by `x`, seen through the views.
proof fn lemma_push_view(code: Seq<Instr>, x: Instr)
    ensures
        instrs_view(code.push(x)) == instrs_view(code).push(x@),
{
    assert(instrs_view(code.push(x)) =~= instrs_view(code).push(x@));
}

impl Default for Evaluator {
    fn default() -> (r: Evaluator)
        ensures
            r@ == Map::<Seq<char>, u64>::empty(),
    {
        Evaluator::new()
    }
}

impl Evaluator {
    pub fn new() -> (r: Evaluator)
        ensures
            r@ == Map::<Seq<char>, u64>::empty(),
    {
        let r = Evaluator { variables: Vec::new() };
        assert(r@ =~= Map::<Seq<char>, u64>::empty());
        r
    }

    /// Binds `name` to the `f64` whose bits are `value`.
    pub fn set_variable(&mut self, name: &str, value: u64)
        ensures
            final(self)@ == old(self)@.insert(name@, value),
    {
        let n = self.variables.len();
        let mut i: usize = 0;
        while i < n
            invariant
                n == self.variables.len(),
                self.variables@ == old(self).variables@,
                i <= n,
                forall|k: int| 0 <= k < i ==> (#[trigger] self.variables@[k]).0@ != name@,
            decreases n - i,
        {
            if same_text(&self.variables[i].0, name) {
                let entry = (name.to_owned(), value);
                proof {
                    assert forall|m: Seq<char>| #![auto]
                        lookup(self.variables@.update(i as int, entry), m) == if m == name@ {
                            Some(value)
                        } else {
                            lookup(self.variables@, m)
                        } by {
                        lemma_lookup_update(self.variables@, i as int, entry, m);
                    }
                }
                self.variables.set(i, entry);
                assert(self@ =~= old(self)@.insert(name@, value));
                return;
            }
            i = i + 1;
        }
        let entry = (name.to_owned(), value);
        proof {
            assert forall|m: Seq<char>| #![auto]
                lookup(self.variables@.push(entry), m) == if m == name@ {
                    Some(value)
                } else {
                    lookup(self.variables@, m)
                } by {
                lemma_lookup_push(self.variables@, entry, m);
            }
        }
        self.variables.push(entry);
        assert(self@ =~= old(self)@.insert(name@, value));
    }

    /// The bits of the value bound to `name`, if any.
    pub fn get_variable(&self, name: &str) -> (r: Option<u64>)
        ensures
            r == if self@.contains_key(name@) {
                Some(self@[name@])
            } else {
                None::<u64>
            },
    {
        let n = self.variables.len();
        let mut i: usize = 0;
        while i < n
            invariant
                n == self.variables.len(),
                i <= n,
                forall|k: int| 0 <= k < i ==> (#[trigger] self.variables@[k]).0@ != name@,
            decreases n - i,
        {
            if same_text(&self.variables[i].0, name) {
                proof {
                    lemma_lookup_skip(self.variables@, name@, i as int);
                }
                return Some(self.variables[i].1);
            }
            i = i + 1;
        }
        proof {
            lemma_lookup_skip(self.variables@, name@, n as int);
        }
        None
    }

    /// Compiles an expression string into a stack program.
    pub fn compile(&self, expr: &str) -> (r: Program)
        ensures
            (instrs_view(r.code@), error_view(r.error)) == compile_text(expr@, self@),
            run_depth(instrs_view(r.code@), 0) is Some,
            r.error is None ==> run_depth(instrs_view(r.code@), 0) == Some(1int),
            code_numbers_valid(instrs_view(r.code@)),
    {
        proof {
            lemma_compiled_program_balanced(expr@, self@);
            lemma_program_numbers_valid(expr@, self@);
        }
        match tokenize(expr) {
            Ok(tokens) => self.compile_tokens(&tokens),
            Err(e) => {
                let r = Program { code: Vec::new(), error: Some(e) };
                assert(instrs_view(r.code@) =~= seq![]);
                r
            },
        }
    }

    /// Compiles a token stream into a stack program.
    pub fn compile_tokens(&self, t: &Vec<Token>) -> (r: Program)
        ensures
            (instrs_view(r.code@), error_view(r.error)) == compile_tokens(tokens_view(t@), self@),
    {
        let mut code: Vec<Instr> = Vec::new();
        assert(instrs_view(code@) =~= seq![]);
        if t.len() == 0 {
            return Program { code, error: Some(EvalError::InvalidExpression) };
        }
        match self.parse_expr(t, 0, &mut code) {
            Ok(p) => if p < t.len() {
                let mut m = "Unexpected token at position ".to_owned();
                let d = decimal_string(p);
                m.append(d.as_str());
                Program { code, error: Some(EvalError::ParseError(m)) }
            } else {
                Program { code, error: None }
            },
            Err(e) => Program { code, error: Some(e) },
        }
    }

    #[verifier::spinoff_prover]
    #[verifier::rlimit(60)]
    fn parse_expr(&self, t: &Vec<Token>, pos: usize, code: &mut Vec<Instr>) -> (r: Result<usize, EvalError>)
        requires
            pos <= t.len(),
        ensures
            instrs_view(final(code)@) == instrs_view(old(code)@) + expr_code(tokens_view(t@), self@, pos as int).0,
            match r {
                Ok(p) => expr_code(tokens_view(t@), self@, pos as int).1 == Ok::<int, EvalErrorView>(p as int)
                    && pos < p <= t.len(),
                Err(e) => expr_code(tokens_view(t@), self@, pos as int).1 == Err::<int, EvalErrorView>(e@),
            },
        decreases t.len() - pos, 6nat,
    {
        let ghost tv = tokens_view(t@);
        let ghost start = instrs_view(code@);
        let p0 = match self.parse_term(t, pos, code) {
            Ok(p) => p,
            Err(e) => return Err(e),
        };
        let ghost mut acc = term_code(tv, self@, pos as int).0;
        let mut p = p0;
        loop
            invariant_except_break
                tv == tokens_view(t@),
                start == instrs_view(old(code)@),
                pos < p <= t.len(),
                instrs_view(code@) == start + acc,
                expr_code(tv, self@, pos as int) == (acc + expr_tail(tv, self@, p as int).0, expr_tail(tv, self@, p as int).1),
            ensures
                instrs_view(code@) == start + expr_code(tv, self@, pos as int).0,
                expr_code(tv, self@, pos as int).1 == Ok::<int, EvalErrorView>(p as int),
                pos < p <= t.len(),
            decreases t.len() - p,
        {
            proof {
                if p < t.len() {
                    assert(tv[p as int] == t@[p as int]@);
                }
            }
            let is_plus = p < t.len() && matches!(t[p], Token::Plus);
            let is_minus = p < t.len() && matches!(t[p], Token::Minus);
            if !is_plus && !is_minus {
                assert(acc + seq![] =~= acc);
                break;
            }
            let ghost before = instrs_view(code@);
            let q = match self.parse_term(t, p + 1, code) {
                Ok(q) => q,
                Err(e) => {
                    assert(start + (acc + term_code(tv, self@, p + 1).0) =~= before + term_code(tv, self@, p + 1).0);
                    return Err(e);
                },
            };
            let op = if is_plus { Instr::Add } else { Instr::Sub };
            let ghost c = term_code(tv, self@, p + 1).0;
            proof { lemma_push_view(code@, op); }
            code.push(op);
            proof {
                assert((acc + c.push(op@)) + expr_tail(tv, self@, q as int).0 =~= acc + (c.push(op@) + expr_tail(tv, self@, q as int).0));
                assert(start + (acc + c.push(op@)) =~= (start + acc + c).push(op@));
                acc = acc + c.push(op@);
            }
            p = q;
        }
        Ok(p)
    }

    #[verifier::spinoff_prover]
    #[verifier::rlimit(60)]
    fn parse_term(&self, t: &Vec<Token>, pos: usize, code: &mut Vec<Instr>) -> (r: Result<usize, EvalError>)
        requires
            pos <= t.len(),
        ensures
            instrs_view(final(code)@) == instrs_view(old(code)@) + term_code(tokens_view(t@), self@, pos as int).0,
            match r {
                Ok(p) => term_code(tokens_view(t@), self@, pos as int).1 == Ok::<int, EvalErrorView>(p as int)
                    && pos < p <= t.len(),
                Err(e) => term_code(tokens_view(t@), self@, pos as int).1 == Err::<int, EvalErrorView>(e@),
            },
        decreases t.len() - pos, 5nat,
    {
        let ghost tv = tokens_view(t@);
        let ghost start = instrs_view(code@);
        let p0 = match self.parse_power(t, pos, code) {
            Ok(p) => p,
            Err(e) => return Err(e),
        };
        let ghost mut acc = power_code(tv, self@, pos as int).0;
        let mut p = p0;
        loop
            invariant_except_break
                tv == tokens_view(t@),
                start == instrs_view(old(code)@),
                pos < p <= t.len(),
                instrs_view(code@) == start + acc,
                term_code(tv, self@, pos as int) == (acc + term_tail(tv, self@, p as int).0, term_tail(tv, self@, p as int).1),
            ensures
                instrs_view(code@) == start + term_code(tv, self@, pos as int).0,
                term_code(tv, self@, pos as int).1 == Ok::<int, EvalErrorView>(p as int),
                pos < p <= t.len(),
            decreases t.len() - p,
        {
            proof {
                if p < t.len() {
                    assert(tv[p as int] == t@[p as int]@);
                }
            }
            let is_star = p < t.len() && matches!(t[p], Token::Star);
            let is_slash = p < t.len() && matches!(t[p], Token::Slash);
            let is_percent = p < t.len() && matches!(t[p], Token::Percent);
            if !is_star && !is_slash && !is_percent {
                assert(acc + seq![] =~= acc);
                break;
            }
            let ghost before = instrs_view(code@);
            let q = match self.parse_power(t, p + 1, code) {
                Ok(q) => q,
                Err(e) => {
                    assert(start + (acc + power_code(tv, self@, p + 1).0) =~= before + power_code(tv, self@, p + 1).0);
                    return Err(e);
                },
            };
            let op = if is_star {
                Instr::Mul
            } else if is_slash {
                Instr::Div
            } else {
                Instr::Rem
            };
            let ghost c = power_code(tv, self@, p + 1).0;
            proof { lemma_push_view(code@, op); }
            code.push(op);
            proof {
                assert((acc + c.push(op@)) + term_tail(tv, self@, q as int).0 =~= acc + (c.push(op@) + term_tail(tv, self@, q as int).0));
                assert(start + (acc + c.push(op@)) =~= (start + acc + c).push(op@));
                acc = acc + c.push(op@);
            }
            p = q;
        }
        Ok(p)
    }

    #[verifier::spinoff_prover]
    #[verifier::rlimit(60)]
    fn parse_power(&self, t: &Vec<Token>, pos: usize, code: &mut Vec<Instr>) -> (r: Result<usize, EvalError>)
        requires
            pos <= t.len(),
        ensures
            instrs_view(final(code)@) == instrs_view(old(code)@) + power_code(tokens_view(t@), self@, pos as int).0,
            match r {
                Ok(p) => power_code(tokens_view(t@), self@, pos as int).1 == Ok::<int, EvalErrorView>(p as int)
                    && pos < p <= t.len(),
                Err(e) => power_code(tokens_view(t@), self@, pos as int).1 == Err::<int, EvalErrorView>(e@),
            },
        decreases t.len() - pos, 4nat,
    {
        let ghost tv = tokens_view(t@);
        let ghost start = instrs_view(code@);
        let p = match self.parse_unary(t, pos, code) {
            Ok(p) => p,
            Err(e) => return Err(e),
        };
        if p < t.len() && matches!(t[p], Token::Power) {
            let ghost mid = instrs_view(code@);
            match self.parse_power(t, p + 1, code) {
                Ok(q) => {
                    proof { lemma_push_view(code@, Instr::Pow); }
                    code.push(Instr::Pow);
                    assert(start + (unary_code(tv, self@, pos as int).0 + power_code(tv, self@, p + 1).0.push(InstrView::Pow))
                        =~= (mid + power_code(tv, self@, p + 1).0).push(InstrView::Pow));
                    Ok(q)
                },
                Err(e) => {
                    assert(start + (unary_code(tv, self@, pos as int).0 + power_code(tv, self@, p + 1).0)
                        =~= mid + power_code(tv, self@, p + 1).0);
                    Err(e)
                },
            }
        } else {
            Ok(p)
        }
    }

    #[verifier::spinoff_prover]
    #[verifier::rlimit(60)]
    fn parse_unary(&self, t: &Vec<Token>, pos: usize, code: &mut Vec<Instr>) -> (r: Result<usize, EvalError>)
        requires
            pos <= t.len(),
        ensures
            instrs_view(final(code)@) == instrs_view(old(code)@) + unary_code(tokens_view(t@), self@, pos as int).0,
            match r {
                Ok(p) => unary_code(tokens_view(t@), self@, pos as int).1 == Ok::<int, EvalErrorView>(p as int)
                    && pos < p <= t.len(),
                Err(e) => unary_code(tokens_view(t@), self@, pos as int).1 == Err::<int, EvalErrorView>(e@),
            },
        decreases t.len() - pos, 3nat,
    {
        let ghost tv = tokens_view(t@);
        let ghost start = instrs_view(code@);
        if pos < t.len() {
            if matches!(t[pos], Token::Minus) {
                match self.parse_unary(t, pos + 1, code) {
                    Ok(p) => {
                        proof { lemma_push_view(code@, Instr::Neg); }
                        code.push(Instr::Neg);
                        assert(start + unary_code(tv, self@, pos + 1).0.push(InstrView::Neg)
                            =~= (start + unary_code(tv, self@, pos + 1).0).push(InstrView::Neg));
                        Ok(p)
                    },
                    Err(e) => Err(e),
                }
            } else if matches!(t[pos], Token::Plus) {
                self.parse_unary(t, pos + 1, code)
            } else {
                self.parse_primary(t, pos, code)
            }
        } else {
            assert(start + seq![] =~= start);
            Err(EvalError::InvalidExpression)
        }
    }

    #[verifier::spinoff_prover]
    #[verifier::rlimit(60)]
    fn parse_primary(&self, t: &Vec<Token>, pos: usize, code: &mut Vec<Instr>) -> (r: Result<usize, EvalError>)
        requires
            pos <= t.len(),
        ensures
            instrs_view(final(code)@) == instrs_view(old(code)@) + primary_code(tokens_view(t@), self@, pos as int).0,
            match r {
                Ok(p) => primary_code(tokens_view(t@), self@, pos as int).1 == Ok::<int, EvalErrorView>(p as int)
                    && pos < p <= t.len(),
                Err(e) => primary_code(tokens_view(t@), self@, pos as int).1 == Err::<int, EvalErrorView>(e@),
            },
        decreases t.len() - pos, 2nat,
    {
        let ghost tv = tokens_view(t@);
        let ghost start = instrs_view(code@);
        if pos >= t.len() {
            assert(start + seq![] =~= start);
            return Err(EvalError::InvalidExpression);
        }
        assert(tv[pos as int] == t@[pos as int]@);
        match &t[pos] {
            Token::Number(s) => {
                let i = Instr::Num(s.clone());
                proof { lemma_push_view(code@, i); }
                code.push(i);
                assert(start.push(i@) =~= start + seq![i@]);
                Ok(pos + 1)
            },
            Token::LParen => self.parse_group(t, pos, code),
            Token::Ident(name) => self.parse_ident(t, pos, name, code),
            other => {
                assert(start + seq![] =~= start);
                let mut m = "Unexpected token: ".to_owned();
                let nm = token_name(other);
                m.append(nm.as_str());
                Err(EvalError::ParseError(m))
            },
        }
    }

    #[verifier::spinoff_prover]
    #[verifier::rlimit(60)]
    fn parse_group(&self, t: &Vec<Token>, pos: usize, code: &mut Vec<Instr>) -> (r: Result<usize, EvalError>)
        requires
            pos < t.len(),
        ensures
            instrs_view(final(code)@) == instrs_view(old(code)@) + group_code(tokens_view(t@), self@, pos as int).0,
            match r {
                Ok(p) => group_code(tokens_view(t@), self@, pos as int).1 == Ok::<int, EvalErrorView>(p as int)
                    && pos < p <= t.len(),
                Err(e) => group_code(tokens_view(t@), self@, pos as int).1 == Err::<int, EvalErrorView>(e@),
            },
        decreases t.len() - pos, 0nat,
    {
        let ghost tv = tokens_view(t@);
        match self.parse_expr(t, pos + 1, code) {
            Ok(p) => {
                proof {
                    if p < t.len() {
                        assert(tv[p as int] == t@[p as int]@);
                    }
                }
                if p < t.len() && matches!(t[p], Token::RParen) {
                    Ok(p + 1)
                } else {
                    Err(EvalError::ParseError("Missing closing parenthesis".to_owned()))
                }
            },
            Err(e) => Err(e),
        }
    }

    #[verifier::spinoff_prover]
    #[verifier::rlimit(60)]
    fn parse_ident(&self, t: &Vec<Token>, pos: usize, name: &String, code: &mut Vec<Instr>) -> (r: Result<usize, EvalError>)
        requires
            pos < t.len(),
            t@[pos as int] == Token::Ident(*name),
        ensures
            instrs_view(final(code)@) == instrs_view(old(code)@) + ident_code(tokens_view(t@), self@, pos as int, name@).0,
            match r {
                Ok(p) => ident_code(tokens_view(t@), self@, pos as int, name@).1 == Ok::<int, EvalErrorView>(p as int)
                    && pos < p <= t.len(),
                Err(e) => ident_code(tokens_view(t@), self@, pos as int, name@).1 == Err::<int, EvalErrorView>(e@),
            },
        decreases t.len() - pos, 1nat,
    {
        let ghost tv = tokens_view(t@);
        let ghost start = instrs_view(code@);
        proof {
            if pos + 1 < t.len() {
                assert(tv[pos + 1] == t@[pos + 1]@);
            }
        }
        if pos + 1 < t.len() && matches!(t[pos + 1], Token::LParen) {
            self.parse_call(t, pos, name, code)
        } else {
            match self.resolve_name(name) {
                Ok(i) => {
                    proof { lemma_push_view(code@, i); }
                    code.push(i);
                    assert(start.push(i@) =~= start + seq![i@]);
                    Ok(pos + 1)
                },
                Err(e) => {
                    assert(start + seq![] =~= start);
                    Err(e)
                },
            }
        }
    }

    /// The instruction pushing the constant or variable `name`.
    fn resolve_name(&self, name: &String) -> (r: Result<Instr, EvalError>)
        ensures
            match r {
                Ok(i) => name_operand(name@, self@) == Ok::<InstrView, EvalErrorView>(i@),
                Err(e) => name_operand(name@, self@) == Err::<InstrView, EvalErrorView>(e@),
            },
    {
        reveal(name_operand);
        match constant_of(name) {
            Some(k) => Ok(Instr::Const(k)),
            None => match self.get_variable(name.as_str()) {
                Some(bits) => Ok(Instr::Var(bits)),
                None => Err(EvalError::UnknownVariable(name.clone())),
            },
        }
    }

    #[verifier::spinoff_prover]
    #[verifier::rlimit(60)]
    fn parse_call(&self, t: &Vec<Token>, pos: usize, name: &String, code: &mut Vec<Instr>) -> (r: Result<usize, EvalError>)
        requires
            pos + 1 < t.len(),
            t@[pos as int] == Token::Ident(*name),
            t@[pos + 1] is LParen,
        ensures
            instrs_view(final(code)@) == instrs_view(old(code)@) + call_code(tokens_view(t@), self@, pos as int, name@).0,
            match r {
                Ok(p) => call_code(tokens_view(t@), self@, pos as int, name@).1 == Ok::<int, EvalErrorView>(p as int)
                    && pos < p <= t.len(),
                Err(e) => call_code(tokens_view(t@), self@, pos as int, name@).1 == Err::<int, EvalErrorView>(e@),
            },
        decreases t.len() - pos, 0nat,
    {
        let ghost tv = tokens_view(t@);
        let ghost start = instrs_view(code@);
        let first = pos + 2;
        let mut nargs: usize = 0;
        let mut end = first;
        let ghost mut args = seq![];
        if first < t.len() && !(matches!(t[first], Token::RParen)) {
            let q = match self.parse_expr(t, first, code) {
                Ok(q) => q,
                Err(e) => return Err(e),
            };
            let ghost c1 = expr_code(tv, self@, first as int).0;
            proof { args = c1; }
            nargs = 1;
            end = q;
            loop
                invariant_except_break
                    tv == tokens_view(t@),
                    start == instrs_view(old(code)@),
                    first == pos + 2,
                    first < end <= t.len(),
                    1 <= nargs <= end,
                    instrs_view(code@) == start + args,
                    call_code(tv, self@, pos as int, name@) == rest_of_call(args, tv, self@, end as int, name@, nargs as nat),
                ensures
                    first < end <= t.len(),
                    1 <= nargs <= end,
                    instrs_view(code@) == start + args,
                    call_code(tv, self@, pos as int, name@) == finish_call(args, tv, end as int, name@, nargs as nat),
                decreases t.len() - end,
            {
                proof {
                    if end < t.len() {
                        assert(tv[end as int] == t@[end as int]@);
                    }
                }
                if !(end < t.len() && matches!(t[end], Token::Comma)) {
                    assert(args + seq![] =~= args);
                    break;
                }
                let ghost before = instrs_view(code@);
                let q2 = match self.parse_expr(t, end + 1, code) {
                    Ok(q2) => q2,
                    Err(e) => {
                        assert(start + (args + expr_code(tv, self@, end + 1).0) =~= before + expr_code(tv, self@, end + 1).0);
                        return Err(e);
                    },
                };
                proof {
                    let c = expr_code(tv, self@, end + 1).0;
                    let (c2, r2) = args_tail(tv, self@, q2 as int);
                    assert((args + c) + c2 =~= args + (c + c2));
                    assert(start + (args + c) =~= before + c);
                    args = args + c;
                }
                nargs = nargs + 1;
                end = q2;
            }
        } else {
            assert(start + seq![] =~= start);
        }
        if end < t.len() && matches!(t[end], Token::RParen) {
            match resolve_call(name, nargs) {
                Ok(i) => {
                    proof { lemma_push_view(code@, i); }
                    code.push(i);
                    assert(start + args.push(i@) =~= (start + args).push(i@));
                    Ok(end + 1)
                },
                Err(e) => Err(e),
            }
        } else {
            Err(EvalError::ParseError("Missing closing parenthesis".to_owned()))
        }
    }
}

} // verus!
