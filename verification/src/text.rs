//! Text helpers shared by the rest of the crate.

use vstd::prelude::*;
use vstd::string::*;

verus! {

/// The text that `str::to_uppercase` gives for `text`.
pub uninterp spec fn uppercase(text: Seq<char>) -> Seq<char>;

/// Calls `str::to_uppercase`. The result is named `uppercase` of the input;
/// as every character maps to one or more characters, it is never shorter
/// than the input, counted in characters.
#[verifier::external_body]
pub(crate) fn to_uppercase(s: &str) -> (r: String)
    ensures
        r@ == uppercase(s@),
        r@.len() >= s@.len(),
{
    s.to_uppercase()
}

/// The character of one decimal digit.
pub open spec fn digit_char(d: nat) -> char {
    if d == 0 {
        '0'
    } else if d == 1 {
        '1'
    } else if d == 2 {
        '2'
    } else if d == 3 {
        '3'
    } else if d == 4 {
        '4'
    } else if d == 5 {
        '5'
    } else if d == 6 {
        '6'
    } else if d == 7 {
        '7'
    } else if d == 8 {
        '8'
    } else {
        '9'
    }
}

/// The decimal rendering of `n`, most significant digit first, without
/// leading zeros.
pub open spec fn decimal_text(n: nat) -> Seq<char>
    decreases n,
{
    if n < 10 {
        seq![digit_char(n)]
    } else {
        decimal_text(n / 10).push(digit_char(n % 10))
    }
}

fn digit_str(d: u16) -> (r: &'static str)
    requires
        d < 10,
    ensures
        r@ == seq![digit_char(d as nat)],
{
    let r = if d == 0 {
        "0"
    } else if d == 1 {
        "1"
    } else if d == 2 {
        "2"
    } else if d == 3 {
        "3"
    } else if d == 4 {
        "4"
    } else if d == 5 {
        "5"
    } else if d == 6 {
        "6"
    } else if d == 7 {
        "7"
    } else if d == 8 {
        "8"
    } else {
        "9"
    };
    proof {
        reveal_strlit("0");
        reveal_strlit("1");
        reveal_strlit("2");
        reveal_strlit("3");
        reveal_strlit("4");
        reveal_strlit("5");
        reveal_strlit("6");
        reveal_strlit("7");
        reveal_strlit("8");
        reveal_strlit("9");
        assert(r@ =~= seq![digit_char(d as nat)]);
    }
    r
}

/// Renders a 16-bit number in decimal.
pub fn decimal_string(n: u16) -> (r: String)
    ensures
        r@ == decimal_text(n as nat),
    decreases n,
{
    if n < 10 {
        String::from_str(digit_str(n))
    } else {
        let mut head = decimal_string(n / 10);
        let ghost before = head@;
        head.append(digit_str(n % 10));
        assert(head@ =~= before.push(digit_char((n % 10) as nat)));
        head
    }
}

/// `text` with every occurrence of `pattern` taken out, scanning from the
/// left; an occurrence that begins inside an earlier one does not count.
pub open spec fn without(text: Seq<char>, pattern: Seq<char>) -> Seq<char>
    decreases text.len(),
{
    if pattern.len() == 0 || text.len() < pattern.len() {
        text
    } else if text.subrange(0, pattern.len() as int) == pattern {
        without(text.subrange(pattern.len() as int, text.len() as int), pattern)
    } else {
        text.subrange(0, 1) + without(text.subrange(1, text.len() as int), pattern)
    }
}

/// Whether `pattern` stands in `text` at character `at`.
fn occurs_at(text: &str, at: usize, pattern: &str) -> (r: bool)
    requires
        at + pattern@.len() <= text@.len() <= usize::MAX,
    ensures
        r == (text@.subrange(at as int, at + pattern@.len()) == pattern@),
{
    let m = pattern.unicode_len();
    let ghost window = text@.subrange(at as int, at + m);
    let mut k: usize = 0;
    while k < m
        invariant
            k <= m,
            m == pattern@.len(),
            at + m <= text@.len() <= usize::MAX,
            window == text@.subrange(at as int, at + m),
            forall|j: int| 0 <= j < k ==> window[j] == pattern@[j],
        decreases m - k,
    {
        if text.get_char(at + k) != pattern.get_char(k) {
            assert(window[k as int] != pattern@[k as int]);
            return false;
        }
        k += 1;
    }
    assert(window =~= pattern@);
    true
}

/// Takes every occurrence of `pattern` out of `text`.
pub fn remove_all(text: &str, pattern: &str) -> (r: String)
    ensures
        r@ == without(text@, pattern@),
{
    let n = text.unicode_len();
    let m = pattern.unicode_len();
    if m == 0 || n < m {
        return String::from_str(text);
    }
    let mut out = String::new();
    let mut i: usize = 0;
    assert(out@ + without(text@.subrange(0, n as int), pattern@) == without(text@, pattern@)) by {
        assert(text@.subrange(0, n as int) =~= text@);
        assert(out@ + without(text@, pattern@) =~= without(text@, pattern@));
    }
    while n - i >= m
        invariant
            i <= n,
            0 < m <= n,
            n == text@.len(),
            m == pattern@.len(),
            out@ + without(text@.subrange(i as int, n as int), pattern@) == without(
                text@,
                pattern@,
            ),
        decreases n - i,
    {
        let ghost rest = text@.subrange(i as int, n as int);
        let ghost done = out@;
        if occurs_at(text, i, pattern) {
            proof {
                assert(rest.subrange(0, m as int) =~= text@.subrange(i as int, i + m));
                assert(rest.subrange(m as int, rest.len() as int) =~= text@.subrange(
                    i + m,
                    n as int,
                ));
            }
            i += m;
        } else {
            proof {
                assert(rest.subrange(0, m as int) =~= text@.subrange(i as int, i + m));
                assert(rest.subrange(0, 1) =~= text@.subrange(i as int, i + 1));
                assert(rest.subrange(1, rest.len() as int) =~= text@.subrange(i + 1, n as int));
                let tail = without(text@.subrange(i + 1, n as int), pattern@);
                assert(without(rest, pattern@) == rest.subrange(0, 1) + tail);
                assert((done + rest.subrange(0, 1)) + tail =~= done + (rest.subrange(0, 1) + tail));
            }
            out.append(text.substring_char(i, i + 1));
            i += 1;
        }
    }
    proof {
        let rest = text@.subrange(i as int, n as int);
        assert(without(rest, pattern@) == rest);
    }
    out.append(text.substring_char(i, n));
    out
}

} // verus!
