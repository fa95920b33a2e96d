//! Text utilities shared across the crate: decimal rendering of request
//! ids, string equality and substring search, and the two trusted text
//! operations — lowercasing and line splitting — with their meanings.

use vstd::prelude::*;

verus! {

/// The character for one decimal digit.
pub open spec fn digit_char(d: nat) -> char {
    if d == 0 {
        '0'
    } else if d == 1 {
        '1'
    } else if d == 2 {
        '2'
    } else if d == 3 {
        '3'
    } else if d == 4 {
        '4'
    } else if d == 5 {
        '5'
    } else if d == 6 {
        '6'
    } else if d == 7 {
        '7'
    } else if d == 8 {
        '8'
    } else {
        '9'
    }
}

/// Decimal digits of `n`, most significant first, no leading zeros
/// (a single `'0'` for zero itself).
pub open spec fn dec_digits(n: nat) -> Seq<char>
    decreases n,
{
    if n < 10 {
        seq![digit_char(n)]
    } else {
        dec_digits(n / 10) + seq![digit_char(n % 10)]
    }
}

fn digit_str(d: u64) -> (s: &'static str)
    requires
        d < 10,
    ensures
        s@ == seq![digit_char(d as nat)],
{
    let s: &'static str = if d == 0 {
        "0"
    } else if d == 1 {
        "1"
    } else if d == 2 {
        "2"
    } else if d == 3 {
        "3"
    } else if d == 4 {
        "4"
    } else if d == 5 {
        "5"
    } else if d == 6 {
        "6"
    } else if d == 7 {
        "7"
    } else if d == 8 {
        "8"
    } else {
        "9"
    };
    proof {
        reveal_strlit("0");
        reveal_strlit("1");
        reveal_strlit("2");
        reveal_strlit("3");
        reveal_strlit("4");
        reveal_strlit("5");
        reveal_strlit("6");
        reveal_strlit("7");
        reveal_strlit("8");
        reveal_strlit("9");
        assert(s@ =~= seq![digit_char(d as nat)]);
    }
    s
}

/// Append the decimal form of `n` to `out`.
pub fn push_decimal(n: u64, out: &mut String)
    ensures
        final(out)@ == old(out)@ + dec_digits(n as nat),
    decreases n,
{
    if n >= 10 {
        push_decimal(n / 10, out);
    }
    out.append(digit_str(n % 10));
    proof {
        if n >= 10 {
            assert(old(out)@ + dec_digits((n / 10) as nat) + seq![digit_char((n % 10) as nat)]
                =~= old(out)@ + dec_digits(n as nat));
        } else {
            assert(old(out)@ + seq![digit_char(n as nat)] =~= old(out)@ + dec_digits(n as nat));
        }
    }
}

/// The decimal form of `n` as a fresh string.
pub fn u64_to_string(n: u64) -> (s: String)
    ensures
        s@ == dec_digits(n as nat),
{
    let mut s = String::new();
    push_decimal(n, &mut s);
    proof {
        assert(s@ =~= dec_digits(n as nat));
    }
    s
}

/// `needle` occurs as a contiguous run somewhere in `hay`.
pub open spec fn contains_seq(hay: Seq<char>, needle: Seq<char>) -> bool {
    exists|k: int|
        0 <= k <= hay.len() - needle.len() && #[trigger] hay.subrange(k, k + needle.len())
            == needle
}

/// Substring search: whether `needle` occurs anywhere in `hay`.
pub fn str_contains(hay: &str, needle: &str) -> (r: bool)
    ensures
        r == contains_seq(hay@, needle@),
{
    let hn = hay.unicode_len();
    let nn = needle.unicode_len();
    if nn > hn {
        return false;
    }
    if nn == 0 {
        proof {
            assert(hay@.subrange(0, 0 + needle@.len() as int) =~= needle@);
            assert(contains_seq(hay@, needle@));
        }
        return true;
    }
    let mut k: usize = 0;
    while k <= hn - nn
        invariant
            1 <= nn <= hn,
            hn == hay@.len(),
            nn == needle@.len(),
            0 <= k <= hn - nn + 1,
            forall|j: int| 0 <= j < k ==> #[trigger] hay@.subrange(j, j + nn) != needle@,
        decreases hn - nn + 1 - k,
    {
        let mut m: usize = 0;
        let mut ok = true;
        while m < nn && ok
            invariant
                0 <= m <= nn,
                k + nn <= hn,
                hn == hay@.len(),
                nn == needle@.len(),
                ok ==> forall|j: int| 0 <= j < m ==> hay@[k + j] == needle@[j],
                !ok ==> hay@.subrange(k as int, k + nn) != needle@,
            decreases (nn - m) + (if ok { 1int } else { 0int }),
        {
            let a = hay.get_char(k + m);
            let b = needle.get_char(m);
            if a != b {
                proof {
                    assert(hay@.subrange(k as int, k + nn)[m as int] == hay@[k + m]);
                }
                ok = false;
            } else {
                m += 1;
            }
        }
        if ok {
            proof {
                assert(hay@.subrange(k as int, k + nn) =~= needle@);
            }
            return true;
        }
        k += 1;
    }
    false
}

/// Character-for-character equality of two string slices.
pub fn str_eq(a: &str, b: &str) -> (r: bool)
    ensures
        r == (a@ == b@),
{
    let sa = String::from_str(a);
    let sb = String::from_str(b);
    sa == sb
}

/// What lowercasing produces: the result depends on the characters alone.
pub uninterp spec fn lower_of(s: Seq<char>) -> Seq<char>;

/// Relies on str::to_lowercase: a pure function of the characters.
#[verifier::external_body]
pub fn to_lowercase(s: &str) -> (r: String)
    ensures
        r@ == lower_of(s@),
{
    s.to_lowercase()
}

/// The index of the first newline in `s`, or `s.len()` when there is none.
pub open spec fn first_nl(s: Seq<char>) -> int
    decreases s.len(),
{
    if s.len() == 0 {
        0
    } else if s[0] == '\n' {
        0
    } else {
        1 + first_nl(s.drop_first())
    }
}

/// One carriage return is dropped from the end of a line that was
/// terminated by a newline.
pub open spec fn strip_cr(l: Seq<char>) -> Seq<char> {
    if l.len() > 0 && l.last() == '\r' {
        l.drop_last()
    } else {
        l
    }
}

/// The lines of a text: split at `'\n'`, one trailing `'\r'` removed from
/// each terminated line, and no empty final line after a trailing newline.
pub open spec fn lines_of(s: Seq<char>) -> Seq<Seq<char>>
    decreases s.len(),
{
    if s.len() == 0 {
        Seq::empty()
    } else {
        let i = first_nl(s);
        if 0 <= i < s.len() {
            seq![strip_cr(s.take(i))] + lines_of(s.subrange(i + 1, s.len() as int))
        } else {
            seq![s]
        }
    }
}

/// Relies on str::lines: it splits at newlines, removing the line ending
/// (including a preceding carriage return) from each terminated line.
#[verifier::external_body]
pub fn split_lines(s: &str) -> (r: Vec<String>)
    ensures
        r@.len() == lines_of(s@).len(),
        forall|i: int| 0 <= i < r@.len() ==> (#[trigger] r@[i])@ == lines_of(s@)[i],
{
    let mut out = Vec::new();
    for line in s.lines() {
        out.push(line.to_string());
    }
    out
}

} // verus!
