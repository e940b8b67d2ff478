//! Decisions of the interactive front ends: what a line typed at the prompt
//! asks for, and variable assignments `name = expression`.
use vstd::prelude::*;
use crate::lexer::{is_ident_char, is_ident_start};
use crate::text::{chars_of, is_white_space, skip_white_back, skip_white_front, slice_text, trim, trimmed};

verus! {

/// Index of the first `c` in `s` at or after `i`.
pub open spec fn first_index_of(s: Seq<char>, c: char, i: int) -> Option<int>
    decreases s.len() - i,
{
    if i < 0 || i >= s.len() {
        None
    } else if s[i] == c {
        Some(i)
    } else {
        first_index_of(s, c, i + 1)
    }
}

/// `s` is an identifier: an ASCII letter or `_`, then ASCII letters, digits and `_`.
pub open spec fn is_identifier(s: Seq<char>) -> bool {
    &&& s.len() > 0
    &&& is_ident_start(s[0])
    &&& forall|i: int| 0 <= i < s.len() ==> is_ident_char(#[trigger] s[i])
}

/// The assignment that an input line writes: the text before its first `=`,
/// trimmed, must be an identifier; the expression is the trimmed text after it.
pub open spec fn assignment_of(s: Seq<char>) -> Option<(Seq<char>, Seq<char>)> {
    match first_index_of(s, '=', 0) {
        Some(k) => {
            let name = trimmed(s.subrange(0, k));
            if is_identifier(name) {
                Some((name, trimmed(s.subrange(k + 1, s.len() as int))))
            } else {
                None
            }
        },
        None => None,
    }
}

/// `c` may start a variable name: an ASCII letter of either case, or `_`.
pub open spec fn name_start(c: char) -> bool {
    ('a' <= c && c <= 'z') || ('A' <= c && c <= 'Z') || c == '_'
}

/// `c` may continue a variable name: an ASCII letter of either case, an ASCII
/// digit, or `_`.
pub open spec fn name_char(c: char) -> bool {
    name_start(c) || ('0' <= c && c <= '9')
}

/// `n = e` assigns `e` (trimmed) to `n` exactly when `n` is a variable name: it
/// is not empty, starts with an ASCII letter of either case or `_`, and goes
/// on with ASCII letters, digits and `_`. Any other `n` (without `=` and white
/// space) makes the line no assignment.
pub proof fn lemma_assignment_names(n: Seq<char>, e: Seq<char>)
    requires
        forall|k: int| 0 <= k < n.len() ==> #[trigger] n[k] != '=' && !is_white_space(n[k]),
    ensures
        assignment_of(n + "="@ + e) == if n.len() > 0 && name_start(n[0]) && (forall|k: int|
            0 <= k < n.len() ==> name_char(#[trigger] n[k])) {
            Some((n, trimmed(e)))
        } else {
            None::<(Seq<char>, Seq<char>)>
        },
{
    reveal_strlit("=");
    let s = n + "="@ + e;
    assert(s[n.len() as int] == '=');
    lemma_no_equals_before(s, n.len() as int, 0);
    assert(s.subrange(0, n.len() as int) =~= n);
    assert(s.subrange(n.len() as int + 1, s.len() as int) =~= e);
    assert(skip_white_front(n, 0) == 0);
    assert(skip_white_back(n, 0, n.len() as int) == n.len());
    assert(trimmed(n) =~= n);
}

/// The first `=` of `s` at or after `i` is at `k` when none comes before it.
proof fn lemma_no_equals_before(s: Seq<char>, k: int, i: int)
    requires
        0 <= i <= k < s.len(),
        s[k] == '=',
        forall|j: int| i <= j < k ==> s[j] != '=',
    ensures
        first_index_of(s, '=', i) == Some(k),
    decreases k - i,
{
    if i < k {
        lemma_no_equals_before(s, k, i + 1);
    }
}

/// Tests `is_identifier`.
fn identifier(s: &String) -> (r: bool)
    ensures
        r == is_identifier(s@),
{
    let cs = chars_of(s.as_str());
    let n = cs.len();
    if n == 0 {
        return false;
    }
    let c0 = cs[0];
    if !(('a' <= c0 && c0 <= 'z') || ('A' <= c0 && c0 <= 'Z') || c0 == '_') {
        return false;
    }
    let mut i: usize = 0;
    while i < n
        invariant
            n == cs@.len(),
            cs@ == s@,
            i <= n,
            forall|k: int| 0 <= k < i ==> is_ident_char(#[trigger] cs@[k]),
        decreases n - i,
    {
        let c = cs[i];
        if !(('a' <= c && c <= 'z') || ('A' <= c && c <= 'Z') || ('0' <= c && c <= '9') || c == '_') {
            return false;
        }
        i = i + 1;
    }
    true
}

/// Splits `name = expression` (see `assignment_of`).
pub fn split_assignment(input: &str) -> (r: Option<(String, String)>)
    ensures
        match r {
            Some((name, expr)) => assignment_of(input@) == Some((name@, expr@)),
            None => assignment_of(input@) is None,
        },
{
    let cs = chars_of(input);
    let n = cs.len();
    let mut k: usize = 0;
    while k < n && cs[k] != '='
        invariant
            n == cs@.len(),
            cs@ == input@,
            k <= n,
            first_index_of(input@, '=', 0) == first_index_of(input@, '=', k as int),
        decreases n - k,
    {
        k = k + 1;
    }
    if k == n {
        return None;
    }
    let before = slice_text(&cs, input, 0, k);
    let name = trim(before.as_str());
    if !identifier(&name) {
        return None;
    }
    let after = slice_text(&cs, input, k + 1, n);
    let expr = trim(after.as_str());
    Some((name, expr))
}

/// What a line typed at the interactive prompt asks for.
#[derive(Debug, Clone, PartialEq)]
pub enum Command {
    /// A blank line: nothing to do.
    Skip,
    /// `quit` or `exit`.
    Quit,
    /// `history`: show the calculation history.
    ShowHistory,
    /// `name = expression`: evaluate and bind.
    Assign { name: String, expr: String },
    /// Anything else: a query or an expression (the trimmed line).
    Evaluate(String),
}

/// Classifies a line typed at the prompt.
pub fn classify_line(line: &str) -> (r: Command)
    ensures
        match r {
            Command::Skip => trimmed(line@).len() == 0,
            Command::Quit => trimmed(line@) == "quit"@ || trimmed(line@) == "exit"@,
            Command::ShowHistory => trimmed(line@) == "history"@,
            Command::Assign { name, expr } => {
                &&& trimmed(line@).len() != 0
                &&& trimmed(line@) != "quit"@ && trimmed(line@) != "exit"@ && trimmed(line@) != "history"@
                &&& assignment_of(trimmed(line@)) == Some((name@, expr@))
            },
            Command::Evaluate(s) => {
                &&& trimmed(line@).len() != 0
                &&& trimmed(line@) != "quit"@ && trimmed(line@) != "exit"@ && trimmed(line@) != "history"@
                &&& assignment_of(trimmed(line@)) is None
                &&& s@ == trimmed(line@)
            },
        },
{
    let input = trim(line);
    if input.unicode_len() == 0 {
        return Command::Skip;
    }
    if input == "quit".to_owned() || input == "exit".to_owned() {
        return Command::Quit;
    }
    if input == "history".to_owned() {
        return Command::ShowHistory;
    }
    match split_assignment(input.as_str()) {
        Some((name, expr)) => Command::Assign { name, expr },
        None => Command::Evaluate(input),
    }
}

} // verus!
