//! Plain-text helpers for the short-message command channel: splitting a
//! message into whitespace-separated words, case-folding command words,
//! and parsing signed decimal numbers.

use vstd::prelude::*;

verus! {

/// The whitespace that separates words of a message.
pub open spec fn is_space_char(c: char) -> bool {
    c == ' ' || c == '\t' || c == '\n' || c == '\r'
}

/// Whether `c` separates words of a message.
pub fn is_space(c: char) -> (r: bool)
    ensures
        r == is_space_char(c),
{
    c == ' ' || c == '\t' || c == '\n' || c == '\r'
}

/// The length of the leading run of non-space characters.
pub open spec fn run_len(s: Seq<char>) -> nat
    decreases s.len(),
{
    if s.len() == 0 || is_space_char(s[0]) {
        0
    } else {
        1 + run_len(s.drop_first())
    }
}

/// The words of `s`: its maximal runs of non-space characters, in order.
pub open spec fn tokens_of(s: Seq<char>) -> Seq<Seq<char>>
    decreases s.len(),
    via tokens_of_decreases
{
    if s.len() == 0 {
        Seq::empty()
    } else if is_space_char(s[0]) {
        tokens_of(s.drop_first())
    } else {
        seq![s.take(run_len(s) as int)] + tokens_of(s.skip(run_len(s) as int))
    }
}

#[via_fn]
proof fn tokens_of_decreases(s: Seq<char>) {
    if s.len() > 0 && !is_space_char(s[0]) {
        lemma_run_len_le(s);
    }
}

/// The views of a vector of words.
pub open spec fn views_of(ts: Seq<String>) -> Seq<Seq<char>> {
    ts.map_values(|t: String| t@)
}

proof fn lemma_run_len_le(s: Seq<char>)
    ensures
        run_len(s) <= s.len(),
    decreases s.len(),
{
    if s.len() > 0 && !is_space_char(s[0]) {
        lemma_run_len_le(s.drop_first());
    }
}

/// The leading run of non-space characters ends exactly at the first
/// space (or at the end of the sequence).
proof fn lemma_run_len_exact(s: Seq<char>, k: int)
    requires
        0 <= k <= s.len(),
        forall|m: int| 0 <= m < k ==> !is_space_char(s[m]),
        k == s.len() || is_space_char(s[k]),
    ensures
        run_len(s) == k,
    decreases k,
{
    if k == 0 {
    } else {
        assert(!is_space_char(s[0]));
        let t = s.drop_first();
        assert forall|m: int| 0 <= m < k - 1 implies !is_space_char(t[m]) by {
            assert(t[m] == s[m + 1]);
        }
        if k < s.len() {
            assert(t[k - 1] == s[k]);
        }
        lemma_run_len_exact(t, k - 1);
    }
}

/// Splits `s` into its whitespace-separated words, exactly as
/// [`tokens_of`] describes them.
pub fn tokenize(s: &str) -> (r: Vec<String>)
    ensures
        views_of(r@) =~= tokens_of(s@),
{
    let n = s.unicode_len();
    let mut out: Vec<String> = Vec::new();
    let mut i: usize = 0;
    proof {
        assert(s@.skip(0) =~= s@);
    }
    while i < n
        invariant
            i <= n,
            n == s@.len(),
            tokens_of(s@) =~= views_of(out@) + tokens_of(s@.skip(i as int)),
        decreases n - i,
    {
        let c = s.get_char(i);
        if is_space(c) {
            proof {
                let rest = s@.skip(i as int);
                assert(rest[0] == s@[i as int]);
                assert(rest.drop_first() =~= s@.skip(i as int + 1));
            }
            i = i + 1;
        } else {
            let start = i;
            let mut j = i + 1;
            proof {
                lemma_run_len_le(s@.skip(i as int));
            }
            while j < n && !is_space(s.get_char(j))
                invariant
                    i < j <= n,
                    n == s@.len(),
                    forall|m: int| i <= m < j ==> !is_space_char(s@[m]),
                decreases n - j,
            {
                j = j + 1;
            }
            let token = s.substring_char(start, j).to_owned();
            proof {
                let rest = s@.skip(i as int);
                assert forall|m: int| 0 <= m < j - i implies !is_space_char(rest[m]) by {
                    assert(rest[m] == s@[i + m]);
                }
                if j < n {
                    assert(rest[j - i] == s@[j as int]);
                }
                lemma_run_len_exact(rest, j - i);
                assert(rest.take(j - i) =~= s@.subrange(i as int, j as int));
                assert(rest.skip(j - i) =~= s@.skip(j as int));
                assert(token@ == s@.subrange(i as int, j as int));
                assert(views_of(out@.push(token)) =~= views_of(out@).push(token@));
            }
            out.push(token);
            i = j;
        }
    }
    proof {
        assert(s@.skip(i as int).len() == 0);
        assert(views_of(out@) + tokens_of(s@.skip(i as int)) =~= views_of(out@));
    }
    out
}

/// Whether two pieces of text hold the same characters.
pub fn str_eq(a: &str, b: &str) -> (r: bool)
    ensures
        r == (a@ == b@),
{
    let na = a.unicode_len();
    let nb = b.unicode_len();
    if na != nb {
        return false;
    }
    let mut i: usize = 0;
    while i < na
        invariant
            i <= na,
            na == a@.len(),
            na == b@.len(),
            forall|m: int| 0 <= m < i ==> a@[m] == b@[m],
        decreases na - i,
    {
        if a.get_char(i) != b.get_char(i) {
            return false;
        }
        i = i + 1;
    }
    proof {
        assert(a@ =~= b@);
    }
    true
}

/// Lower-case form of an ASCII letter; anything else is unchanged.
pub open spec fn lower_char(c: char) -> char {
    if c == 'A' { 'a' } else if c == 'B' { 'b' } else if c == 'C' { 'c' }
    else if c == 'D' { 'd' } else if c == 'E' { 'e' } else if c == 'F' { 'f' }
    else if c == 'G' { 'g' } else if c == 'H' { 'h' } else if c == 'I' { 'i' }
    else if c == 'J' { 'j' } else if c == 'K' { 'k' } else if c == 'L' { 'l' }
    else if c == 'M' { 'm' } else if c == 'N' { 'n' } else if c == 'O' { 'o' }
    else if c == 'P' { 'p' } else if c == 'Q' { 'q' } else if c == 'R' { 'r' }
    else if c == 'S' { 's' } else if c == 'T' { 't' } else if c == 'U' { 'u' }
    else if c == 'V' { 'v' } else if c == 'W' { 'w' } else if c == 'X' { 'x' }
    else if c == 'Y' { 'y' } else if c == 'Z' { 'z' } else { c }
}

/// A word with each ASCII upper-case letter folded to lower case.
pub open spec fn lower_seq(s: Seq<char>) -> Seq<char> {
    s.map_values(|c: char| lower_char(c))
}

/// Whether `s`, folded to ASCII lower case, equals `t` (which callers
/// pass already in lower case).
pub fn eq_lowered(s: &str, t: &str) -> (r: bool)
    ensures
        r == (lower_seq(s@) == t@),
{
    let ns = s.unicode_len();
    let nt = t.unicode_len();
    if ns != nt {
        proof {
            assert(lower_seq(s@).len() == s@.len());
        }
        return false;
    }
    let mut i: usize = 0;
    while i < ns
        invariant
            i <= ns,
            ns == s@.len(),
            ns == t@.len(),
            forall|m: int| 0 <= m < i ==> lower_char(s@[m]) == t@[m],
        decreases ns - i,
    {
        let c = s.get_char(i);
        let folded: char =
            if c == 'A' { 'a' } else if c == 'B' { 'b' } else if c == 'C' { 'c' }
            else if c == 'D' { 'd' } else if c == 'E' { 'e' } else if c == 'F' { 'f' }
            else if c == 'G' { 'g' } else if c == 'H' { 'h' } else if c == 'I' { 'i' }
            else if c == 'J' { 'j' } else if c == 'K' { 'k' } else if c == 'L' { 'l' }
            else if c == 'M' { 'm' } else if c == 'N' { 'n' } else if c == 'O' { 'o' }
            else if c == 'P' { 'p' } else if c == 'Q' { 'q' } else if c == 'R' { 'r' }
            else if c == 'S' { 's' } else if c == 'T' { 't' } else if c == 'U' { 'u' }
            else if c == 'V' { 'v' } else if c == 'W' { 'w' } else if c == 'X' { 'x' }
            else if c == 'Y' { 'y' } else if c == 'Z' { 'z' } else { c };
        assert(folded == lower_char(s@[i as int]));
        if folded != t.get_char(i) {
            assert(lower_seq(s@)[i as int] != t@[i as int]);
            return false;
        }
        i = i + 1;
    }
    proof {
        assert(lower_seq(s@) =~= t@);
    }
    true
}

/// The numeric value of a decimal digit; ten marks a non-digit.
pub open spec fn digit_val(c: char) -> int {
    if c == '0' { 0 } else if c == '1' { 1 } else if c == '2' { 2 }
    else if c == '3' { 3 } else if c == '4' { 4 } else if c == '5' { 5 }
    else if c == '6' { 6 } else if c == '7' { 7 } else if c == '8' { 8 }
    else if c == '9' { 9 } else { 10 }
}

/// Whether `c` is a decimal digit.
pub open spec fn is_digit_char(c: char) -> bool {
    digit_val(c) < 10
}

/// Whether every character of `s` is a decimal digit.
pub open spec fn all_digits(s: Seq<char>) -> bool {
    forall|m: int| 0 <= m < s.len() ==> is_digit_char(s[m])
}

/// The value of a digit string read in base ten.
pub open spec fn digits_val(s: Seq<char>) -> int
    decreases s.len(),
{
    if s.len() == 0 {
        0
    } else {
        digits_val(s.drop_last()) * 10 + digit_val(s.last())
    }
}

/// What a signed decimal literal denotes: an optional `+` or `-` sign,
/// then at least one digit and nothing else, rejected when the value does
/// not fit an `i64`.
pub open spec fn parse_i64_spec(s: Seq<char>) -> Option<i64> {
    let neg = s.len() > 0 && s[0] == '-';
    let ds = if s.len() > 0 && (s[0] == '-' || s[0] == '+') {
        s.drop_first()
    } else {
        s
    };
    if ds.len() == 0 || !all_digits(ds) {
        None
    } else {
        let v = if neg {
            -digits_val(ds)
        } else {
            digits_val(ds)
        };
        if i64::MIN <= v <= i64::MAX {
            Some(v as i64)
        } else {
            None
        }
    }
}

/// Same as [`parse_i64_spec`], narrowed to the `i32` range.
pub open spec fn parse_i32_spec(s: Seq<char>) -> Option<i32> {
    match parse_i64_spec(s) {
        Some(v) => if i32::MIN <= v <= i32::MAX {
            Some(v as i32)
        } else {
            None
        },
        None => None,
    }
}

proof fn lemma_digits_val_nonneg(s: Seq<char>)
    requires
        all_digits(s),
    ensures
        digits_val(s) >= 0,
    decreases s.len(),
{
    if s.len() > 0 {
        assert(all_digits(s.drop_last()));
        lemma_digits_val_nonneg(s.drop_last());
    }
}

/// Reads `c` as a decimal digit, or reports that it is none.
fn read_digit(c: char) -> (r: Option<u64>)
    ensures
        r matches Some(d) ==> d == digit_val(c) && is_digit_char(c),
        r is None ==> !is_digit_char(c),
{
    if c == '0' { Some(0) } else if c == '1' { Some(1) } else if c == '2' { Some(2) }
    else if c == '3' { Some(3) } else if c == '4' { Some(4) } else if c == '5' { Some(5) }
    else if c == '6' { Some(6) } else if c == '7' { Some(7) } else if c == '8' { Some(8) }
    else if c == '9' { Some(9) } else { None }
}

/// Parses a signed decimal `i64` exactly as [`parse_i64_spec`] says:
/// an optional sign, then digits only, `None` on anything else or on a
/// value out of range.
pub fn parse_i64(s: &str) -> (r: Option<i64>)
    ensures
        r == parse_i64_spec(s@),
{
    let n = s.unicode_len();
    let mut start: usize = 0;
    let mut neg = false;
    if n > 0 {
        let c0 = s.get_char(0);
        if c0 == '-' {
            neg = true;
            start = 1;
        } else if c0 == '+' {
            start = 1;
        }
    }
    let ghost ds = if start == 1 { s@.drop_first() } else { s@ };
    if start >= n {
        // Empty input, or a bare sign with no digits.
        return None;
    }
    // The magnitude cap: one past `i64::MAX`, the magnitude of `i64::MIN`.
    let bound: u64 = 9223372036854775808;
    let mut acc: u64 = 0;
    let mut over = false;
    let mut i: usize = start;
    while i < n
        invariant
            start <= i <= n,
            n == s@.len(),
            start == 0 || start == 1,
            start < n,
            bound == 9223372036854775808u64,
            (start == 1) == (s@.len() > 0 && (s@[0] == '-' || s@[0] == '+')),
            neg == (s@.len() > 0 && s@[0] == '-'),
            ds == if start == 1 { s@.drop_first() } else { s@ },
            ds.len() == n - start,
            forall|m: int| 0 <= m < i - start ==> is_digit_char(ds[m]),
            !over ==> acc == digits_val(ds.take(i - start)) && acc <= 9223372036854775808u64,
            over ==> digits_val(ds.take(i - start)) > 9223372036854775808u64,
        decreases n - i,
    {
        let c = s.get_char(i);
        proof {
            assert(ds[i - start] == s@[i as int]);
        }
        match read_digit(c) {
            None => {
                assert(!all_digits(ds));
                return None;
            },
            Some(d) => {
                proof {
                    let seen = ds.take(i - start);
                    let next = ds.take(i + 1 - start);
                    assert(next.drop_last() =~= seen);
                    assert(next.last() == ds[i - start]);
                    assert(digits_val(next) == digits_val(seen) * 10 + d);
                    assert(all_digits(seen));
                    lemma_digits_val_nonneg(seen);
                }
                if over || acc >= 1000000000000000000u64 {
                    over = true;
                } else {
                    acc = acc * 10 + d;
                    if acc > bound {
                        over = true;
                    }
                }
            },
        }
        i = i + 1;
    }
    proof {
        assert(ds.take(n - start) =~= ds);
    }
    if over {
        return None;
    }
    if neg {
        if acc == bound {
            Some(i64::MIN)
        } else {
            Some(-(acc as i64))
        }
    } else {
        if acc == bound {
            None
        } else {
            Some(acc as i64)
        }
    }
}

/// Parses a signed decimal `i32` exactly as [`parse_i32_spec`] says.
pub fn parse_i32(s: &str) -> (r: Option<i32>)
    ensures
        r == parse_i32_spec(s@),
{
    match parse_i64(s) {
        Some(v) => if i32::MIN as i64 <= v && v <= i32::MAX as i64 {
            Some(v as i32)
        } else {
            None
        },
        None => None,
    }
}

} // verus!
