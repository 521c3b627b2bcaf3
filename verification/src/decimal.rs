//! Decimal rendering of unsigned integers, specified exactly: the result of
//! [`u64_to_dec`] is pinned, character by character, to the mathematical
//! decimal expansion [`decimal`].

use vstd::prelude::*;
use vstd::string::StringExecFns;

verus! {

/// The single character naming one decimal digit.
pub open spec fn digit(d: nat) -> Seq<char> {
    if d == 0 {
        "0"@
    } else if d == 1 {
        "1"@
    } else if d == 2 {
        "2"@
    } else if d == 3 {
        "3"@
    } else if d == 4 {
        "4"@
    } else if d == 5 {
        "5"@
    } else if d == 6 {
        "6"@
    } else if d == 7 {
        "7"@
    } else if d == 8 {
        "8"@
    } else {
        "9"@
    }
}

/// The usual decimal expansion of `n`, most significant digit first and
/// without leading zeros (`0` itself is the one-character "0").
pub open spec fn decimal(n: nat) -> Seq<char>
    decreases n,
{
    if n < 10 {
        digit(n)
    } else {
        decimal(n / 10) + digit(n % 10)
    }
}

/// The digits of `rev` read backwards, from the last element down to the
/// element at `i`.
spec fn digits_down(rev: Seq<u64>, i: int) -> Seq<char>
    decreases rev.len() - i,
{
    if i < 0 || i >= rev.len() {
        Seq::empty()
    } else {
        digits_down(rev, i + 1) + digit(rev[i] as nat)
    }
}

/// Appending a digit to the low end of the reversed-digit list prepends its
/// character to the rendering.
proof fn lemma_digits_down_push(rev: Seq<u64>, d: u64, i: int)
    requires
        0 <= i <= rev.len(),
    ensures
        digits_down(rev.push(d), i) == digit(d as nat) + digits_down(rev, i),
    decreases rev.len() - i,
{
    if i == rev.len() {
        assert(rev.push(d)[i] == d);
        assert(digits_down(rev.push(d), i + 1) =~= Seq::empty());
        assert(digits_down(rev.push(d), i) =~= digit(d as nat) + digits_down(rev, i));
    } else {
        lemma_digits_down_push(rev, d, i + 1);
        assert(rev.push(d)[i] == rev[i]);
        assert(digits_down(rev.push(d), i) =~= digit(d as nat) + digits_down(rev, i));
    }
}

/// Append the character of one digit.
fn append_digit(s: &mut String, d: u64)
    requires
        d < 10,
    ensures
        final(s)@ == old(s)@ + digit(d as nat),
{
    if d == 0 {
        s.append("0")
    } else if d == 1 {
        s.append("1")
    } else if d == 2 {
        s.append("2")
    } else if d == 3 {
        s.append("3")
    } else if d == 4 {
        s.append("4")
    } else if d == 5 {
        s.append("5")
    } else if d == 6 {
        s.append("6")
    } else if d == 7 {
        s.append("7")
    } else if d == 8 {
        s.append("8")
    } else {
        s.append("9")
    }
}

/// Render `n` in decimal.
pub fn u64_to_dec(n: u64) -> (s: String)
    ensures
        s@ == decimal(n as nat),
{
    let mut rev: Vec<u64> = Vec::new();
    let mut m: u64 = n;
    loop
        invariant_except_break
            forall|k: int| 0 <= k < rev@.len() ==> rev@[k] < 10,
            m > 0 ==> decimal(n as nat) == decimal(m as nat) + digits_down(rev@, 0),
            m == 0 ==> rev@.len() == 0 && n == 0,
        ensures
            forall|k: int| 0 <= k < rev@.len() ==> rev@[k] < 10,
            decimal(n as nat) == digits_down(rev@, 0),
        decreases m,
    {
        let d: u64 = m % 10;
        proof {
            lemma_digits_down_push(rev@, d, 0);
            if m >= 10 {
                assert(decimal(m as nat) == decimal((m / 10) as nat) + digit((m % 10) as nat));
                assert(decimal(m as nat) + digits_down(rev@, 0) =~= decimal((m / 10) as nat) + (
                digit(d as nat) + digits_down(rev@, 0)));
            } else if m > 0 {
                assert(decimal(m as nat) == digit(d as nat));
            } else {
                assert(decimal(n as nat) =~= digit(0nat) + digits_down(rev@, 0));
            }
        }
        rev.push(d);
        m = m / 10;
        if m == 0 {
            break;
        }
    }
    let mut s = String::new();
    let mut i: usize = rev.len();
    proof {
        assert(s@ =~= digits_down(rev@, i as int));
    }
    while i > 0
        invariant
            i <= rev@.len(),
            forall|k: int| 0 <= k < rev@.len() ==> rev@[k] < 10,
            s@ == digits_down(rev@, i as int),
            decimal(n as nat) == digits_down(rev@, 0),
        decreases i,
    {
        i = i - 1;
        append_digit(&mut s, rev[i]);
    }
    s
}

} // verus!
