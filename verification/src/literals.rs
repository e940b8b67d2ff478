//! Number literals: every number that a compiled program pushes is written
//! in the syntax of an `f64` literal, so reading it as an `f64` cannot fail.
use vstd::prelude::*;
use crate::eval::{
    args_tail, call_code, call_instr, compile_text, expr_code, expr_tail, finish_call, group_code,
    ident_code, name_operand, power_code, primary_code, term_code, term_tail, unary_code, Emitted,
    InstrView,
};
use crate::lexer::{
    cons_token, ident_end, lemma_ident_end, lemma_number_end, lex, lex_from, number_end,
    single_token, valid_number, EvalErrorView, TokenView,
};

verus! {

/// Every number token of `t` is an `f64` literal.
pub open spec fn token_numbers_valid(t: Seq<TokenView>) -> bool {
    forall|k: int| 0 <= k < t.len() ==> (#[trigger] t[k] matches TokenView::Number(s) ==> valid_number(s))
}

/// Every number that `c` pushes is an `f64` literal.
pub open spec fn code_numbers_valid(c: Seq<InstrView>) -> bool {
    forall|k: int| 0 <= k < c.len() ==> (#[trigger] c[k] matches InstrView::Num(s) ==> valid_number(s))
}

proof fn lemma_code_append(a: Seq<InstrView>, b: Seq<InstrView>)
    requires
        code_numbers_valid(a),
        code_numbers_valid(b),
    ensures
        code_numbers_valid(a + b),
{
    assert forall|k: int| 0 <= k < (a + b).len() implies (#[trigger] (a + b)[k] matches InstrView::Num(s)
        ==> valid_number(s)) by {
        if k < a.len() {
            assert((a + b)[k] == a[k]);
        } else {
            assert((a + b)[k] == b[k - a.len()]);
        }
    }
}

proof fn lemma_code_push(a: Seq<InstrView>, i: InstrView)
    requires
        code_numbers_valid(a),
        !(i is Num),
    ensures
        code_numbers_valid(a.push(i)),
{
    assert forall|k: int| 0 <= k < a.push(i).len() implies (#[trigger] a.push(i)[k] matches InstrView::Num(s)
        ==> valid_number(s)) by {
        if k < a.len() {
            assert(a.push(i)[k] == a[k]);
        }
    }
}

proof fn lemma_cons_valid(t: TokenView, r: Result<Seq<TokenView>, EvalErrorView>)
    requires
        t matches TokenView::Number(s) ==> valid_number(s),
        r matches Ok(ts) ==> token_numbers_valid(ts),
    ensures
        cons_token(t, r) matches Ok(ts) ==> token_numbers_valid(ts),
{
    if let Ok(ts) = r {
        let all = seq![t] + ts;
        assert forall|k: int| 0 <= k < all.len() implies (#[trigger] all[k] matches TokenView::Number(s)
            ==> valid_number(s)) by {
            if k > 0 {
                assert(all[k] == ts[k - 1]);
            }
        }
    }
}

/// Every number token that the tokenizer produces is an `f64` literal.
pub proof fn lemma_lex_numbers_valid(s: Seq<char>, i: int)
    ensures
        lex_from(s, i) matches Ok(ts) ==> token_numbers_valid(ts),
    decreases s.len() - i,
{
    if i < 0 || i >= s.len() {
    } else if crate::lexer::is_blank(s[i]) {
        lemma_lex_numbers_valid(s, i + 1);
    } else if s[i] == '*' && i + 1 < s.len() && s[i + 1] == '*' {
        lemma_lex_numbers_valid(s, i + 2);
        lemma_cons_valid(TokenView::Power, lex_from(s, i + 2));
    } else if single_token(s[i]) is Some {
        lemma_lex_numbers_valid(s, i + 1);
        lemma_cons_valid(single_token(s[i])->0, lex_from(s, i + 1));
    } else if crate::lexer::is_number_char(s[i]) {
        lemma_number_end(s, i);
        let e = number_end(s, i);
        lemma_lex_numbers_valid(s, e);
        if valid_number(s.subrange(i, e)) {
            lemma_cons_valid(TokenView::Number(s.subrange(i, e)), lex_from(s, e));
        }
    } else if crate::lexer::is_ident_start(s[i]) {
        lemma_ident_end(s, i);
        let e = ident_end(s, i);
        lemma_lex_numbers_valid(s, e);
        lemma_cons_valid(TokenView::Ident(s.subrange(i, e)), lex_from(s, e));
    }
}

/// Code emitted by a parsing function pushes only valid number literals.
pub open spec fn emitted_valid(e: Emitted) -> bool {
    code_numbers_valid(e.0)
}

proof fn lemma_call_not_num(name: Seq<char>, n: nat)
    ensures
        call_instr(name, n) matches Ok(i) ==> !(i is Num),
{
    reveal(call_instr);
}

proof fn lemma_name_not_num(name: Seq<char>, v: Map<Seq<char>, u64>)
    ensures
        name_operand(name, v) matches Ok(i) ==> !(i is Num),
{
    reveal(name_operand);
}

proof fn lemma_finish_valid(code: Seq<InstrView>, t: Seq<TokenView>, end: int, name: Seq<char>, n: nat)
    requires
        code_numbers_valid(code),
    ensures
        emitted_valid(finish_call(code, t, end, name, n)),
{
    lemma_call_not_num(name, n);
    if 0 <= end < t.len() && t[end] is RParen {
        if let Ok(i) = call_instr(name, n) {
            lemma_code_push(code, i);
        }
    }
}

#[verifier::spinoff_prover]
pub proof fn lemma_expr_valid(t: Seq<TokenView>, v: Map<Seq<char>, u64>, pos: int)
    requires
        token_numbers_valid(t),
    ensures
        emitted_valid(expr_code(t, v, pos)),
    decreases t.len() - pos, 6nat,
{
    let (c, r) = term_code(t, v, pos);
    lemma_term_valid(t, v, pos);
    if let Ok(p) = r {
        if pos < p <= t.len() {
            lemma_expr_tail_valid(t, v, p);
            lemma_code_append(c, expr_tail(t, v, p).0);
        }
    }
}

#[verifier::spinoff_prover]
pub proof fn lemma_expr_tail_valid(t: Seq<TokenView>, v: Map<Seq<char>, u64>, pos: int)
    requires
        token_numbers_valid(t),
    ensures
        emitted_valid(expr_tail(t, v, pos)),
    decreases t.len() - pos, 0nat,
{
    if 0 <= pos < t.len() && (t[pos] is Plus || t[pos] is Minus) {
        let op = if t[pos] is Plus {
            InstrView::Add
        } else {
            InstrView::Sub
        };
        let (c, r) = term_code(t, v, pos + 1);
        lemma_term_valid(t, v, pos + 1);
        lemma_code_push(c, op);
        if let Ok(p) = r {
            if pos + 1 < p <= t.len() {
                lemma_expr_tail_valid(t, v, p);
                lemma_code_append(c.push(op), expr_tail(t, v, p).0);
            }
        }
    }
}

#[verifier::spinoff_prover]
pub proof fn lemma_term_valid(t: Seq<TokenView>, v: Map<Seq<char>, u64>, pos: int)
    requires
        token_numbers_valid(t),
    ensures
        emitted_valid(term_code(t, v, pos)),
    decreases t.len() - pos, 5nat,
{
    let (c, r) = power_code(t, v, pos);
    lemma_power_valid(t, v, pos);
    if let Ok(p) = r {
        if pos < p <= t.len() {
            lemma_term_tail_valid(t, v, p);
            lemma_code_append(c, term_tail(t, v, p).0);
        }
    }
}

#[verifier::spinoff_prover]
pub proof fn lemma_term_tail_valid(t: Seq<TokenView>, v: Map<Seq<char>, u64>, pos: int)
    requires
        token_numbers_valid(t),
    ensures
        emitted_valid(term_tail(t, v, pos)),
    decreases t.len() - pos, 0nat,
{
    if 0 <= pos < t.len() && (t[pos] is Star || t[pos] is Slash || t[pos] is Percent) {
        let op = if t[pos] is Star {
            InstrView::Mul
        } else if t[pos] is Slash {
            InstrView::Div
        } else {
            InstrView::Rem
        };
        let (c, r) = power_code(t, v, pos + 1);
        lemma_power_valid(t, v, pos + 1);
        lemma_code_push(c, op);
        if let Ok(p) = r {
            if pos + 1 < p <= t.len() {
                lemma_term_tail_valid(t, v, p);
                lemma_code_append(c.push(op), term_tail(t, v, p).0);
            }
        }
    }
}

#[verifier::spinoff_prover]
pub proof fn lemma_power_valid(t: Seq<TokenView>, v: Map<Seq<char>, u64>, pos: int)
    requires
        token_numbers_valid(t),
    ensures
        emitted_valid(power_code(t, v, pos)),
    decreases t.len() - pos, 4nat,
{
    let (c, r) = unary_code(t, v, pos);
    lemma_unary_valid(t, v, pos);
    if let Ok(p) = r {
        if pos < p < t.len() && t[p] is Power {
            let (c2, r2) = power_code(t, v, p + 1);
            lemma_power_valid(t, v, p + 1);
            lemma_code_append(c, c2);
            lemma_code_push(c2, InstrView::Pow);
            lemma_code_append(c, c2.push(InstrView::Pow));
        }
    }
}

#[verifier::spinoff_prover]
pub proof fn lemma_unary_valid(t: Seq<TokenView>, v: Map<Seq<char>, u64>, pos: int)
    requires
        token_numbers_valid(t),
    ensures
        emitted_valid(unary_code(t, v, pos)),
    decreases t.len() - pos, 3nat,
{
    if 0 <= pos < t.len() {
        if t[pos] is Minus {
            let (c, r) = unary_code(t, v, pos + 1);
            lemma_unary_valid(t, v, pos + 1);
            lemma_code_push(c, InstrView::Neg);
        } else if t[pos] is Plus {
            lemma_unary_valid(t, v, pos + 1);
        } else {
            lemma_primary_valid(t, v, pos);
        }
    }
}

#[verifier::spinoff_prover]
pub proof fn lemma_primary_valid(t: Seq<TokenView>, v: Map<Seq<char>, u64>, pos: int)
    requires
        token_numbers_valid(t),
    ensures
        emitted_valid(primary_code(t, v, pos)),
    decreases t.len() - pos, 2nat,
{
    if 0 <= pos < t.len() {
        match t[pos] {
            TokenView::Number(s) => {
                assert(t[pos] matches TokenView::Number(s) ==> valid_number(s));
                assert(seq![InstrView::Num(s)][0] == InstrView::Num(s));
            },
            TokenView::LParen => {
                lemma_group_valid(t, v, pos);
            },
            TokenView::Ident(name) => {
                lemma_ident_valid(t, v, pos, name);
            },
            _ => {},
        }
    }
}

#[verifier::spinoff_prover]
pub proof fn lemma_group_valid(t: Seq<TokenView>, v: Map<Seq<char>, u64>, pos: int)
    requires
        token_numbers_valid(t),
    ensures
        emitted_valid(group_code(t, v, pos)),
    decreases t.len() - pos, 0nat,
{
    if 0 <= pos < t.len() {
        lemma_expr_valid(t, v, pos + 1);
    }
}

#[verifier::spinoff_prover]
pub proof fn lemma_ident_valid(t: Seq<TokenView>, v: Map<Seq<char>, u64>, pos: int, name: Seq<char>)
    requires
        token_numbers_valid(t),
    ensures
        emitted_valid(ident_code(t, v, pos, name)),
    decreases t.len() - pos, 1nat,
{
    if pos + 1 < t.len() && t[pos + 1] is LParen {
        lemma_call_valid(t, v, pos, name);
    } else {
        lemma_name_not_num(name, v);
        if let Ok(i) = name_operand(name, v) {
            assert(seq![i][0] == i);
        }
    }
}

#[verifier::spinoff_prover]
pub proof fn lemma_call_valid(t: Seq<TokenView>, v: Map<Seq<char>, u64>, pos: int, name: Seq<char>)
    requires
        token_numbers_valid(t),
    ensures
        emitted_valid(call_code(t, v, pos, name)),
    decreases t.len() - pos, 0nat,
{
    let first = pos + 2;
    if 0 <= pos && first < t.len() && !(t[first] is RParen) {
        let (c1, r1) = expr_code(t, v, first);
        lemma_expr_valid(t, v, first);
        if let Ok(q) = r1 {
            if first < q <= t.len() {
                let (c2, r2) = args_tail(t, v, q);
                lemma_args_valid(t, v, q);
                lemma_code_append(c1, c2);
                if let Ok((end, more)) = r2 {
                    lemma_finish_valid(c1 + c2, t, end, name, more + 1);
                }
            }
        }
    } else {
        lemma_finish_valid(seq![], t, first, name, 0);
    }
}

#[verifier::spinoff_prover]
pub proof fn lemma_args_valid(t: Seq<TokenView>, v: Map<Seq<char>, u64>, pos: int)
    requires
        token_numbers_valid(t),
    ensures
        code_numbers_valid(args_tail(t, v, pos).0),
    decreases t.len() - pos, 0nat,
{
    if 0 <= pos < t.len() && t[pos] is Comma {
        let (c, r) = expr_code(t, v, pos + 1);
        lemma_expr_valid(t, v, pos + 1);
        if let Ok(q) = r {
            if pos + 1 < q <= t.len() {
                lemma_args_valid(t, v, q);
                lemma_code_append(c, args_tail(t, v, q).0);
            }
        }
    }
}

/// Every number that a compiled program pushes is an `f64` literal.
pub proof fn lemma_program_numbers_valid(s: Seq<char>, v: Map<Seq<char>, u64>)
    ensures
        code_numbers_valid(compile_text(s, v).0),
{
    lemma_lex_numbers_valid(s, 0);
    if let Ok(t) = lex(s) {
        if t.len() > 0 {
            lemma_expr_valid(t, v, 0);
        }
    }
}

} // verus!
