//! The stack discipline of compiled programs: running a program never asks for
//! a value that is not there, and a program compiled without error leaves
//! exactly one value, the expression's.
use vstd::prelude::*;
use crate::eval::{
    args_tail, call_code, call_instr, compile_text, compile_tokens, expr_code, expr_tail,
    finish_call, group_code, ident_code, name_operand, power_code, primary_code, term_code,
    term_tail, unary_code, Emitted, InstrView,
};
use crate::lexer::{lex, EvalErrorView, TokenView};

verus! {

/// How many values an instruction takes from the stack (each pushes one).
pub open spec fn pops(i: InstrView) -> nat {
    match i {
        InstrView::Num(_) | InstrView::Const(_) | InstrView::Var(_) => 0,
        InstrView::Neg | InstrView::Call1(_) => 1,
        _ => 2,
    }
}

/// The stack depth after running `code` from depth `d`, or `None` if some
/// instruction finds fewer values than it takes.
pub open spec fn run_depth(code: Seq<InstrView>, d: int) -> Option<int>
    decreases code.len(),
{
    if code.len() == 0 {
        Some(d)
    } else if d < pops(code[0]) {
        None
    } else {
        run_depth(code.drop_first(), d - pops(code[0]) + 1)
    }
}

/// Code emitted for one operand: from depth `d` it leaves one more value when
/// it succeeded, and never goes below `d` when it stopped on an error.
pub open spec fn operand_balanced(e: Emitted, d: int) -> bool {
    match e.1 {
        Ok(_) => run_depth(e.0, d) == Some(d + 1),
        Err(_) => run_depth(e.0, d) matches Some(k) && k >= d,
    }
}

/// Code emitted for the operator tail of an expression or term: from depth `d`
/// it leaves the depth unchanged when it succeeded, and never goes below `d`.
pub open spec fn tail_balanced(e: Emitted, d: int) -> bool {
    match e.1 {
        Ok(_) => run_depth(e.0, d) == Some(d),
        Err(_) => run_depth(e.0, d) matches Some(k) && k >= d,
    }
}

pub proof fn lemma_run_depth_append(a: Seq<InstrView>, b: Seq<InstrView>, d: int)
    ensures
        run_depth(a + b, d) == match run_depth(a, d) {
            Some(k) => run_depth(b, k),
            None => None,
        },
    decreases a.len(),
{
    if a.len() > 0 {
        assert((a + b).drop_first() =~= a.drop_first() + b);
        lemma_run_depth_append(a.drop_first(), b, d - pops(a[0]) + 1);
    } else {
        assert(a + b =~= b);
    }
}

proof fn lemma_run_depth_one(i: InstrView, d: int)
    ensures
        run_depth(seq![i], d) == if d < pops(i) {
            None
        } else {
            Some(d - pops(i) + 1)
        },
{
    assert(seq![i].drop_first() =~= Seq::<InstrView>::empty());
    assert(run_depth(Seq::<InstrView>::empty(), d - pops(i) + 1) == Some(d - pops(i) + 1));
}

proof fn lemma_run_depth_push(a: Seq<InstrView>, i: InstrView, d: int)
    ensures
        run_depth(a.push(i), d) == match run_depth(a, d) {
            Some(k) => if k < pops(i) {
                None
            } else {
                Some(k - pops(i) + 1)
            },
            None => None,
        },
{
    assert(a.push(i) =~= a + seq![i]);
    lemma_run_depth_append(a, seq![i], d);
    if let Some(k) = run_depth(a, d) {
        lemma_run_depth_one(i, k);
    }
}

proof fn lemma_call_pops(name: Seq<char>, n: nat)
    ensures
        call_instr(name, n) matches Ok(i) ==> pops(i) == n,
{
    reveal(call_instr);
}

proof fn lemma_name_operand_pops(name: Seq<char>, v: Map<Seq<char>, u64>)
    ensures
        name_operand(name, v) matches Ok(i) ==> pops(i) == 0,
{
    reveal(name_operand);
}

proof fn lemma_finish_call(code: Seq<InstrView>, t: Seq<TokenView>, end: int, name: Seq<char>, n: nat, d: int)
    requires
        d >= 0,
        run_depth(code, d) == Some(d + n),
    ensures
        operand_balanced(finish_call(code, t, end, name, n), d),
{
    lemma_call_pops(name, n);
    if 0 <= end < t.len() && t[end] is RParen {
        if let Ok(i) = call_instr(name, n) {
            lemma_run_depth_push(code, i, d);
        }
    }
}

#[verifier::spinoff_prover]
#[verifier::rlimit(60)]
pub proof fn lemma_expr_balanced(t: Seq<TokenView>, v: Map<Seq<char>, u64>, pos: int, d: int)
    requires
        d >= 0,
    ensures
        operand_balanced(expr_code(t, v, pos), d),
    decreases t.len() - pos, 6nat,
{
    let (c, r) = term_code(t, v, pos);
    lemma_term_balanced(t, v, pos, d);
    if let Ok(p) = r {
        if pos < p <= t.len() {
            let (c2, r2) = expr_tail(t, v, p);
            lemma_expr_tail_balanced(t, v, p, d + 1);
            lemma_run_depth_append(c, c2, d);
        }
    }
}

#[verifier::spinoff_prover]
#[verifier::rlimit(60)]
pub proof fn lemma_expr_tail_balanced(t: Seq<TokenView>, v: Map<Seq<char>, u64>, pos: int, d: int)
    requires
        d >= 1,
    ensures
        tail_balanced(expr_tail(t, v, pos), d),
    decreases t.len() - pos, 0nat,
{
    if 0 <= pos < t.len() && (t[pos] is Plus || t[pos] is Minus) {
        let op = if t[pos] is Plus {
            InstrView::Add
        } else {
            InstrView::Sub
        };
        let (c, r) = term_code(t, v, pos + 1);
        lemma_term_balanced(t, v, pos + 1, d);
        lemma_run_depth_push(c, op, d);
        if let Ok(p) = r {
            if pos + 1 < p <= t.len() {
                let (c2, r2) = expr_tail(t, v, p);
                lemma_expr_tail_balanced(t, v, p, d);
                lemma_run_depth_append(c.push(op), c2, d);
            }
        }
    }
}

#[verifier::spinoff_prover]
#[verifier::rlimit(60)]
pub proof fn lemma_term_balanced(t: Seq<TokenView>, v: Map<Seq<char>, u64>, pos: int, d: int)
    requires
        d >= 0,
    ensures
        operand_balanced(term_code(t, v, pos), d),
    decreases t.len() - pos, 5nat,
{
    let (c, r) = power_code(t, v, pos);
    lemma_power_balanced(t, v, pos, d);
    if let Ok(p) = r {
        if pos < p <= t.len() {
            let (c2, r2) = term_tail(t, v, p);
            lemma_term_tail_balanced(t, v, p, d + 1);
            lemma_run_depth_append(c, c2, d);
        }
    }
}

#[verifier::spinoff_prover]
#[verifier::rlimit(60)]
pub proof fn lemma_term_tail_balanced(t: Seq<TokenView>, v: Map<Seq<char>, u64>, pos: int, d: int)
    requires
        d >= 1,
    ensures
        tail_balanced(term_tail(t, v, pos), d),
    decreases t.len() - pos, 0nat,
{
    if 0 <= pos < t.len() && (t[pos] is Star || t[pos] is Slash || t[pos] is Percent) {
        let op = if t[pos] is Star {
            InstrView::Mul
        } else if t[pos] is Slash {
            InstrView::Div
        } else {
            InstrView::Rem
        };
        let (c, r) = power_code(t, v, pos + 1);
        lemma_power_balanced(t, v, pos + 1, d);
        lemma_run_depth_push(c, op, d);
        if let Ok(p) = r {
            if pos + 1 < p <= t.len() {
                let (c2, r2) = term_tail(t, v, p);
                lemma_term_tail_balanced(t, v, p, d);
                lemma_run_depth_append(c.push(op), c2, d);
            }
        }
    }
}

#[verifier::spinoff_prover]
#[verifier::rlimit(60)]
pub proof fn lemma_power_balanced(t: Seq<TokenView>, v: Map<Seq<char>, u64>, pos: int, d: int)
    requires
        d >= 0,
    ensures
        operand_balanced(power_code(t, v, pos), d),
    decreases t.len() - pos, 4nat,
{
    let (c, r) = unary_code(t, v, pos);
    lemma_unary_balanced(t, v, pos, d);
    if let Ok(p) = r {
        if pos < p < t.len() && t[p] is Power {
            let (c2, r2) = power_code(t, v, p + 1);
            lemma_power_balanced(t, v, p + 1, d + 1);
            lemma_run_depth_append(c, c2, d);
            lemma_run_depth_append(c, c2.push(InstrView::Pow), d);
            lemma_run_depth_push(c2, InstrView::Pow, d + 1);
        }
    }
}

#[verifier::spinoff_prover]
#[verifier::rlimit(60)]
pub proof fn lemma_unary_balanced(t: Seq<TokenView>, v: Map<Seq<char>, u64>, pos: int, d: int)
    requires
        d >= 0,
    ensures
        operand_balanced(unary_code(t, v, pos), d),
    decreases t.len() - pos, 3nat,
{
    if 0 <= pos < t.len() {
        if t[pos] is Minus {
            let (c, r) = unary_code(t, v, pos + 1);
            lemma_unary_balanced(t, v, pos + 1, d);
            lemma_run_depth_push(c, InstrView::Neg, d);
        } else if t[pos] is Plus {
            lemma_unary_balanced(t, v, pos + 1, d);
        } else {
            lemma_primary_balanced(t, v, pos, d);
        }
    }
}

#[verifier::spinoff_prover]
#[verifier::rlimit(60)]
pub proof fn lemma_primary_balanced(t: Seq<TokenView>, v: Map<Seq<char>, u64>, pos: int, d: int)
    requires
        d >= 0,
    ensures
        operand_balanced(primary_code(t, v, pos), d),
    decreases t.len() - pos, 2nat,
{
    if 0 <= pos < t.len() {
        match t[pos] {
            TokenView::Number(s) => {
                lemma_run_depth_one(InstrView::Num(s), d);
            },
            TokenView::LParen => {
                lemma_group_balanced(t, v, pos, d);
            },
            TokenView::Ident(name) => {
                lemma_ident_balanced(t, v, pos, name, d);
            },
            _ => {},
        }
    }
}

#[verifier::spinoff_prover]
#[verifier::rlimit(60)]
pub proof fn lemma_group_balanced(t: Seq<TokenView>, v: Map<Seq<char>, u64>, pos: int, d: int)
    requires
        d >= 0,
    ensures
        operand_balanced(group_code(t, v, pos), d),
    decreases t.len() - pos, 0nat,
{
    if 0 <= pos < t.len() {
        lemma_expr_balanced(t, v, pos + 1, d);
    }
}

#[verifier::spinoff_prover]
#[verifier::rlimit(60)]
pub proof fn lemma_ident_balanced(t: Seq<TokenView>, v: Map<Seq<char>, u64>, pos: int, name: Seq<char>, d: int)
    requires
        d >= 0,
    ensures
        operand_balanced(ident_code(t, v, pos, name), d),
    decreases t.len() - pos, 1nat,
{
    if pos + 1 < t.len() && t[pos + 1] is LParen {
        lemma_call_balanced(t, v, pos, name, d);
    } else {
        lemma_name_operand_pops(name, v);
        if let Ok(i) = name_operand(name, v) {
            lemma_run_depth_one(i, d);
        }
    }
}

#[verifier::spinoff_prover]
#[verifier::rlimit(60)]
pub proof fn lemma_call_balanced(t: Seq<TokenView>, v: Map<Seq<char>, u64>, pos: int, name: Seq<char>, d: int)
    requires
        d >= 0,
    ensures
        operand_balanced(call_code(t, v, pos, name), d),
    decreases t.len() - pos, 0nat,
{
    let first = pos + 2;
    if 0 <= pos && first < t.len() && !(t[first] is RParen) {
        let (c1, r1) = expr_code(t, v, first);
        lemma_expr_balanced(t, v, first, d);
        if let Ok(q) = r1 {
            if first < q <= t.len() {
                let (c2, r2) = args_tail(t, v, q);
                lemma_args_balanced(t, v, q, d + 1);
                lemma_run_depth_append(c1, c2, d);
                if let Ok((end, more)) = r2 {
                    lemma_finish_call(c1 + c2, t, end, name, more + 1, d);
                }
            }
        }
    } else {
        lemma_finish_call(seq![], t, first, name, 0, d);
    }
}

#[verifier::spinoff_prover]
#[verifier::rlimit(60)]
pub proof fn lemma_args_balanced(t: Seq<TokenView>, v: Map<Seq<char>, u64>, pos: int, d: int)
    requires
        d >= 0,
    ensures
        match args_tail(t, v, pos) {
            (c, Ok((_, n))) => run_depth(c, d) == Some(d + n),
            (c, Err(_)) => run_depth(c, d) matches Some(k) && k >= d,
        },
    decreases t.len() - pos, 0nat,
{
    if 0 <= pos < t.len() && t[pos] is Comma {
        let (c, r) = expr_code(t, v, pos + 1);
        lemma_expr_balanced(t, v, pos + 1, d);
        if let Ok(q) = r {
            if pos + 1 < q <= t.len() {
                let (c2, r2) = args_tail(t, v, q);
                lemma_args_balanced(t, v, q, d + 1);
                lemma_run_depth_append(c, c2, d);
            }
        }
    }
}

/// Running a compiled program from an empty stack never finds too few values
/// on the stack, and when compilation met no error it ends with exactly one
/// value on the stack.
#[verifier::spinoff_prover]
#[verifier::rlimit(60)]
pub proof fn lemma_compiled_program_balanced(s: Seq<char>, v: Map<Seq<char>, u64>)
    ensures
        compile_text(s, v).1 is None ==> run_depth(compile_text(s, v).0, 0) == Some(1int),
        run_depth(compile_text(s, v).0, 0) is Some,
{
    if let Ok(t) = lex(s) {
        if t.len() > 0 {
            lemma_expr_balanced(t, v, 0, 0);
        }
    }
}

} // verus!
