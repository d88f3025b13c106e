//! Text helpers shared by the request descriptors: the select-field policy
//! that forces the identifier field into every selection, and rendering of
//! page numbers as decimal strings.

use vstd::prelude::*;
use vstd::string::{StrSliceExecFns, StringExecFns};

verus! {

/// True when the two-character sequence `id` occurs somewhere in `s`.
///
/// This is a purely textual containment check, so a value such as
/// `gridSize` already counts as containing `id`.
pub open spec fn seq_contains_id(s: Seq<char>) -> bool {
    exists|i: int| 0 <= i && i + 2 <= s.len() && #[trigger] s[i] == 'i' && s[i + 1] == 'd'
}

/// Reports whether `s` contains the substring `id`.
pub fn contains_id(s: &str) -> (r: bool)
    ensures
        r == seq_contains_id(s@),
{
    let n = s.unicode_len();
    if n < 2 {
        return false;
    }
    let mut i: usize = 0;
    while i + 1 < n
        invariant
            n == s@.len(),
            0 <= i,
            i + 1 <= n,
            forall|j: int| 0 <= j && j < i ==> !(#[trigger] s@[j] == 'i' && s@[j + 1] == 'd'),
        decreases n - i,
    {
        let c0 = s.get_char(i);
        let c1 = s.get_char(i + 1);
        if c0 == 'i' && c1 == 'd' {
            return true;
        }
        i = i + 1;
    }
    return false;
}

/// What a caller-supplied select string becomes: unchanged when it already
/// contains `id`, otherwise with `,id` appended once.
pub open spec fn spec_with_required_id(s: Seq<char>) -> Seq<char> {
    if seq_contains_id(s) {
        s
    } else {
        s + ",id"@
    }
}

/// Applies the select-field policy: the identifier field is always part of
/// a selection, so `,id` is appended to any value that lacks the substring
/// `id`.
pub fn with_required_id(value: String) -> (r: String)
    ensures
        r@ == spec_with_required_id(value@),
{
    let mut val = value;
    if !contains_id(val.as_str()) {
        val.append(",id");
    }
    val
}

/// The select policy appends `,id` exactly once to a value lacking the
/// substring `id`, and leaves any value that already contains it untouched;
/// either way the result contains `id`.
pub proof fn lemma_select_id_policy(s: Seq<char>)
    ensures
        !seq_contains_id(s) ==> spec_with_required_id(s) == s + ",id"@,
        seq_contains_id(s) ==> spec_with_required_id(s) == s,
        seq_contains_id(spec_with_required_id(s)),
{
    reveal_strlit(",id");
    if !seq_contains_id(s) {
        let t = s + ",id"@;
        assert(t[s.len() as int + 1] == 'i');
        assert(t[s.len() as int + 2] == 'd');
        assert(seq_contains_id(t));
    }
}

/// The decimal digit character for `d`.
pub open spec fn spec_digit(d: int) -> char
    recommends
        0 <= d < 10,
{
    if d == 0 {
        '0'
    } else if d == 1 {
        '1'
    } else if d == 2 {
        '2'
    } else if d == 3 {
        '3'
    } else if d == 4 {
        '4'
    } else if d == 5 {
        '5'
    } else if d == 6 {
        '6'
    } else if d == 7 {
        '7'
    } else if d == 8 {
        '8'
    } else {
        '9'
    }
}

/// The decimal rendering of `n`, most significant digit first, with no
/// leading zeros (a single `0` for zero itself).
pub open spec fn spec_u32_digits(n: nat) -> Seq<char>
    decreases n,
{
    if n < 10 {
        seq![spec_digit(n as int)]
    } else {
        spec_u32_digits(n / 10).push(spec_digit((n % 10) as int))
    }
}

fn digit_str(d: u32) -> (r: &'static str)
    requires
        d < 10,
    ensures
        r@ == seq![spec_digit(d as int)],
{
    proof {
        reveal_strlit("0");
        reveal_strlit("1");
        reveal_strlit("2");
        reveal_strlit("3");
        reveal_strlit("4");
        reveal_strlit("5");
        reveal_strlit("6");
        reveal_strlit("7");
        reveal_strlit("8");
        reveal_strlit("9");
    }
    let r: &'static str = if d == 0 {
        "0"
    } else if d == 1 {
        "1"
    } else if d == 2 {
        "2"
    } else if d == 3 {
        "3"
    } else if d == 4 {
        "4"
    } else if d == 5 {
        "5"
    } else if d == 6 {
        "6"
    } else if d == 7 {
        "7"
    } else if d == 8 {
        "8"
    } else {
        "9"
    };
    proof {
        assert(r@ =~= seq![spec_digit(d as int)]);
    }
    r
}

/// Renders `n` in decimal, as the query string does for page numbers.
pub fn u32_to_string(n: u32) -> (r: String)
    ensures
        r@ == spec_u32_digits(n as nat),
    decreases n,
{
    if n < 10 {
        digit_str(n).to_owned()
    } else {
        proof {
            assert(n / 10 < n) by (nonlinear_arith)
                requires
                    n >= 10,
            ;
        }
        let mut r = u32_to_string(n / 10);
        r.append(digit_str(n % 10));
        proof {
            assert(r@ =~= spec_u32_digits(n as nat));
        }
        r
    }
}

} // verus!
