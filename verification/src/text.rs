//! Character-level text helpers: identifier and type-path validation for
//! target paths, and decimal rendering of positional field indices.

use vstd::prelude::*;
use vstd::string::StrSliceExecFns;
use vstd::string::StringExecFns;

verus! {

/// Whether `c` can start an identifier: a letter or an underscore.
pub open spec fn is_ident_start(c: char) -> bool {
    ('a' as u32) <= (c as u32) && (c as u32) <= ('z' as u32)
        || ('A' as u32) <= (c as u32) && (c as u32) <= ('Z' as u32)
        || c == '_'
}

/// Whether `c` can continue an identifier: a letter, a digit or an
/// underscore.
pub open spec fn is_ident_char(c: char) -> bool {
    is_ident_start(c) || ('0' as u32) <= (c as u32) && (c as u32) <= ('9' as u32)
}

/// The end of the run of identifier characters beginning at `i`.
pub open spec fn ident_run_end(s: Seq<char>, i: int) -> int
    decreases s.len() - i,
{
    if 0 <= i && i < s.len() && is_ident_char(s[i]) {
        ident_run_end(s, i + 1)
    } else {
        i
    }
}

/// Characterizes [`ident_run_end`]: it stays within bounds, everything
/// before it is an identifier character, and it stops only at the end of the
/// text or at a non-identifier character.
pub proof fn lemma_ident_run_end(s: Seq<char>, i: int)
    requires
        0 <= i <= s.len(),
    ensures
        i <= ident_run_end(s, i) <= s.len(),
        forall|j: int| i <= j < ident_run_end(s, i) ==> is_ident_char(#[trigger] s[j]),
        ident_run_end(s, i) < s.len() ==> !is_ident_char(s[ident_run_end(s, i)]),
    decreases s.len() - i,
{
    if i < s.len() && is_ident_char(s[i]) {
        lemma_ident_run_end(s, i + 1);
    }
}

/// Whether `s`, from position `i` on, is a type path: identifier segments
/// separated by `::`, reaching exactly to the end of the text.
pub open spec fn path_ok_from(s: Seq<char>, i: int) -> bool
    decreases s.len() - i,
        via path_ok_from_dec
{
    if 0 <= i && i < s.len() && is_ident_start(s[i]) {
        let j = ident_run_end(s, i + 1);
        if j == s.len() {
            true
        } else if j + 2 <= s.len() && s[j] == ':' && s[j + 1] == ':' {
            path_ok_from(s, j + 2)
        } else {
            false
        }
    } else {
        false
    }
}

#[via_fn]
proof fn path_ok_from_dec(s: Seq<char>, i: int) {
    if 0 <= i && i < s.len() && is_ident_start(s[i]) {
        lemma_ident_run_end(s, i + 1);
    }
}

/// Whether the whole of `s` is a type path.
pub open spec fn path_ok(s: Seq<char>) -> bool {
    path_ok_from(s, 0)
}

/// Decide [`is_ident_start`].
pub fn is_ident_start_exec(c: char) -> (r: bool)
    ensures
        r == is_ident_start(c),
{
    let u = c as u32;
    ('a' as u32) <= u && u <= ('z' as u32) || ('A' as u32) <= u && u <= ('Z' as u32) || c == '_'
}

/// Decide [`is_ident_char`].
pub fn is_ident_char_exec(c: char) -> (r: bool)
    ensures
        r == is_ident_char(c),
{
    is_ident_start_exec(c) || ('0' as u32) <= (c as u32) && (c as u32) <= ('9' as u32)
}

/// Find [`ident_run_end`] in `s`, whose character count is `n`.
fn ident_run_end_exec(s: &str, i: usize, n: usize) -> (r: usize)
    requires
        n == s@.len(),
        i <= n,
    ensures
        r == ident_run_end(s@, i as int),
        i <= r <= n,
    decreases n - i,
{
    proof {
        lemma_ident_run_end(s@, i as int);
    }
    if i < n && is_ident_char_exec(s.get_char(i)) {
        ident_run_end_exec(s, i + 1, n)
    } else {
        i
    }
}

/// Decide [`path_ok_from`] in `s`, whose character count is `n`.
fn path_ok_from_exec(s: &str, i: usize, n: usize) -> (r: bool)
    requires
        n == s@.len(),
        i <= n,
    ensures
        r == path_ok_from(s@, i as int),
    decreases n - i,
{
    if i < n && is_ident_start_exec(s.get_char(i)) {
        proof {
            lemma_ident_run_end(s@, i as int + 1);
        }
        let j = ident_run_end_exec(s, i + 1, n);
        if j == n {
            true
        } else if n - j >= 2 && s.get_char(j) == ':' && s.get_char(j + 1) == ':' {
            path_ok_from_exec(s, j + 2, n)
        } else {
            false
        }
    } else {
        false
    }
}

/// Decide whether `s` is a well-formed type path.
pub fn path_ok_exec(s: &str) -> (r: bool)
    ensures
        r == path_ok(s@),
{
    let n = s.unicode_len();
    path_ok_from_exec(s, 0, n)
}

/// The decimal digit character for `d`.
pub open spec fn dec_digit(d: int) -> char {
    if d == 0 {
        '0'
    } else if d == 1 {
        '1'
    } else if d == 2 {
        '2'
    } else if d == 3 {
        '3'
    } else if d == 4 {
        '4'
    } else if d == 5 {
        '5'
    } else if d == 6 {
        '6'
    } else if d == 7 {
        '7'
    } else if d == 8 {
        '8'
    } else {
        '9'
    }
}

/// The decimal rendering of `n`, without a sign and without leading zeros
/// (except for `n == 0` itself).
pub open spec fn dec_str(n: int) -> Seq<char>
    decreases n,
{
    if n < 10 {
        seq![dec_digit(n)]
    } else {
        dec_str(n / 10) + seq![dec_digit(n % 10)]
    }
}

/// The decimal digit character for `d`, as text.
fn digit_str(d: usize) -> (r: &'static str)
    requires
        d < 10,
    ensures
        r@ =~= seq![dec_digit(d as int)],
{
    proof {
        reveal_strlit("0");
        reveal_strlit("1");
        reveal_strlit("2");
        reveal_strlit("3");
        reveal_strlit("4");
        reveal_strlit("5");
        reveal_strlit("6");
        reveal_strlit("7");
        reveal_strlit("8");
        reveal_strlit("9");
    }
    match d {
        0 => "0",
        1 => "1",
        2 => "2",
        3 => "3",
        4 => "4",
        5 => "5",
        6 => "6",
        7 => "7",
        8 => "8",
        _ => "9",
    }
}

/// Render `n` in decimal.
pub fn render_index(n: usize) -> (s: String)
    ensures
        s@ == dec_str(n as int),
    decreases n,
{
    let d = n % 10;
    if n < 10 {
        digit_str(d).to_owned()
    } else {
        proof {
            assert(n / 10 < n) by (nonlinear_arith)
                requires
                    n >= 10,
            ;
        }
        let mut s = render_index(n / 10);
        s.append(digit_str(d));
        s
    }
}

/// Whether a string equals a literal keyword.
pub fn string_eq_str(a: &String, b: &str) -> (r: bool)
    ensures
        r == (a@ == b@),
{
    let bs: String = b.to_owned();
    *a == bs
}

} // verus!
