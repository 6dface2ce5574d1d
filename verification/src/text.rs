//! Small string utilities: decimal rendering of integers, character pushes,
//! string equality and substring search.

use vstd::prelude::*;

verus! {

/// The character for one decimal digit.
pub open spec fn digit_char(d: nat) -> char
    recommends
        d < 10,
{
    ((d + 48) as u8) as char
}

/// The decimal rendering of a natural number, most significant digit first.
pub open spec fn spec_decimal(n: nat) -> Seq<char>
    decreases n,
{
    if n < 10 {
        seq![digit_char(n)]
    } else {
        spec_decimal((n / 10) as nat).push(digit_char((n % 10) as nat))
    }
}

/// The decimal rendering of an integer: a leading minus sign when negative.
pub open spec fn spec_int_decimal(i: int) -> Seq<char> {
    if i >= 0 {
        spec_decimal(i as nat)
    } else {
        seq!['-'] + spec_decimal((-i) as nat)
    }
}

/// Relies on `String::push`: appends exactly one character.
#[verifier::external_body]
pub(crate) fn push_char(s: &mut String, c: char)
    ensures
        final(s)@ == old(s)@.push(c),
{
    s.push(c);
}

/// Renders `n` in decimal.
pub fn u64_to_string(n: u64) -> (s: String)
    ensures
        s@ == spec_decimal(n as nat),
{
    let mut digits: Vec<char> = Vec::new();
    let mut m: u64 = n;
    proof {
        assert(spec_decimal(n as nat) =~= spec_decimal(m as nat) + digits@.reverse());
    }
    while m >= 10
        invariant
            spec_decimal(n as nat) == spec_decimal(m as nat) + digits@.reverse(),
        decreases m,
    {
        let d: char = (48 + (m % 10) as u8) as char;
        proof {
            let ghost olddigits = digits@;
            assert(olddigits.push(d).reverse() =~= seq![d] + olddigits.reverse());
            assert(spec_decimal(m as nat) == spec_decimal((m / 10) as nat).push(digit_char(
                (m % 10) as nat,
            )));
            assert(spec_decimal((m / 10) as nat).push(d) =~= spec_decimal((m / 10) as nat)
                + seq![d]);
            assert(spec_decimal((m / 10) as nat) + (olddigits.push(d).reverse())
                =~= (spec_decimal((m / 10) as nat) + seq![d]) + olddigits.reverse());
        }
        digits.push(d);
        m = m / 10;
    }
    let d: char = (48 + m as u8) as char;
    proof {
        let ghost olddigits = digits@;
        assert(olddigits.push(d).reverse() =~= seq![d] + olddigits.reverse());
        assert(spec_decimal(m as nat) =~= seq![d]);
    }
    digits.push(d);
    let ghost all = digits@;
    proof {
        assert(spec_decimal(n as nat) =~= all.reverse());
    }
    let mut s = String::new();
    let mut i: usize = digits.len();
    while i > 0
        invariant
            i <= digits.len(),
            digits@ == all,
            s@ == all.reverse().take(all.len() - i),
        decreases i,
    {
        i = i - 1;
        push_char(&mut s, digits[i]);
        proof {
            assert(all.reverse()[all.len() - i - 1] == all[i as int]);
            assert(s@ =~= all.reverse().take(all.len() - i));
        }
    }
    proof {
        assert(s@ =~= all.reverse());
    }
    s
}

/// Renders `n` in decimal.
pub fn usize_to_string(n: usize) -> (s: String)
    ensures
        s@ == spec_decimal(n as nat),
{
    u64_to_string(n as u64)
}

/// Renders `n` in decimal, with a leading minus sign when negative.
pub fn isize_to_string(n: isize) -> (s: String)
    ensures
        s@ == spec_int_decimal(n as int),
{
    if n >= 0 {
        u64_to_string(n as u64)
    } else {
        let mag: u64 = (-(n as i128)) as u64;
        let digits = u64_to_string(mag);
        let mut s = String::new();
        push_char(&mut s, '-');
        let r = s.concat(digits.as_str());
        proof {
            assert(r@ =~= seq!['-'] + spec_decimal((-(n as int)) as nat));
        }
        r
    }
}

/// True when `a` and `b` hold the same characters.
pub fn string_eq(a: &String, b: &str) -> (r: bool)
    ensures
        r == (a@ == b@),
{
    let owned: String = b.to_owned();
    let r = *a == owned;
    r
}

/// True when `p` occurs in `s` as a contiguous run of characters.
pub open spec fn spec_contains(s: Seq<char>, p: Seq<char>) -> bool {
    exists|i: int| 0 <= i && i + p.len() <= s.len() && #[trigger] s.subrange(i, i + p.len()) == p
}

/// True exactly when `p` occurs in `s` as a substring.
pub fn str_contains(s: &str, p: &str) -> (r: bool)
    ensures
        r == spec_contains(s@, p@),
{
    let n = s.unicode_len();
    let m = p.unicode_len();
    if m > n {
        proof {
            assert forall|k: int| !(0 <= k && k + p@.len() <= s@.len() && #[trigger] s@.subrange(
                k,
                k + p@.len(),
            ) == p@) by {}
        }
        return false;
    }
    let mut i: usize = 0;
    while i <= n - m
        invariant
            n == s@.len(),
            m == p@.len(),
            m <= n,
            i <= n - m + 1,
            forall|k: int| 0 <= k < i ==> #[trigger] s@.subrange(k, k + p@.len()) != p@,
        decreases n - m - i + 1,
    {
        let mut j: usize = 0;
        let mut eq = true;
        while j < m
            invariant
                n == s@.len(),
                m == p@.len(),
                i <= n - m,
                m <= n,
                j <= m,
                eq ==> forall|l: int| 0 <= l < j ==> s@[i + l] == p@[l],
                !eq ==> exists|l: int| 0 <= l < m && s@[i + l] != p@[l],
            decreases m - j,
    {
            if s.get_char(i + j) != p.get_char(j) {
                proof {
                    assert(s@[i + j] != p@[j as int]);
                }
                eq = false;
                j = m;
            } else {
                j = j + 1;
            }
        }
        if eq {
            proof {
                assert(s@.subrange(i as int, i + p@.len()) =~= p@);
            }
            return true;
        }
        proof {
            let l = choose|l: int| 0 <= l < m && s@[i + l] != p@[l];
            assert(s@.subrange(i as int, i + p@.len())[l] == s@[i + l]);
            assert(s@.subrange(i as int, i + p@.len()) != p@);
        }
        i = i + 1;
    }

    proof {
        assert forall|k: int| !(0 <= k && k + p@.len() <= s@.len() && #[trigger] s@.subrange(
            k,
            k + p@.len(),
        ) == p@) by {
            if 0 <= k && k + p@.len() <= s@.len() {
                assert(k < i);
            }
        }
    }
    false
}

} // verus!
