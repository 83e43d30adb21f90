//! Character-level helpers: decimal rendering and substring search.

use vstd::prelude::*;

verus! {

/// The ASCII digit for `d` (meaningful for `d < 10`).
pub open spec fn digit_char(d: nat) -> char {
    (d + 48) as char
}

/// The decimal rendering of `n`, without sign or leading zeros.
pub open spec fn decimal(n: nat) -> Seq<char>
    decreases n,
{
    if n < 10 {
        seq![digit_char(n)]
    } else {
        decimal(n / 10).push(digit_char(n % 10))
    }
}

/// A decimal rendering is never empty.
pub proof fn lemma_decimal_nonempty(n: nat)
    ensures
        decimal(n).len() >= 1,
    decreases n,
{
    if n >= 10 {
        lemma_decimal_nonempty(n / 10);
    }
}

/// Distinct numbers have distinct decimal renderings.
pub proof fn lemma_decimal_injective(a: nat, b: nat)
    requires
        decimal(a) == decimal(b),
    ensures
        a == b,
    decreases a,
{
    if a < 10 && b < 10 {
        assert(decimal(a)[0] == digit_char(a));
        assert(decimal(b)[0] == digit_char(b));
    } else if a < 10 {
        lemma_decimal_nonempty(b / 10);
        assert(decimal(b).len() >= 2);
    } else if b < 10 {
        lemma_decimal_nonempty(a / 10);
        assert(decimal(a).len() >= 2);
    } else {
        let da = decimal(a / 10);
        let db = decimal(b / 10);
        assert(decimal(a) == da.push(digit_char(a % 10)));
        assert(decimal(b) == db.push(digit_char(b % 10)));
        assert(da.len() == db.len());
        assert(decimal(a)[da.len() as int] == digit_char(a % 10));
        assert(decimal(b)[db.len() as int] == digit_char(b % 10));
        assert(a % 10 == b % 10);
        assert(da =~= decimal(a).subrange(0, da.len() as int));
        assert(db =~= decimal(b).subrange(0, db.len() as int));
        lemma_decimal_injective(a / 10, b / 10);
    }
}

/// `needle` occurs as a contiguous run of characters in `hay`, starting at `start`.
pub open spec fn occurs_at(hay: Seq<char>, needle: Seq<char>, start: int) -> bool {
    &&& 0 <= start
    &&& start + needle.len() <= hay.len()
    &&& hay.subrange(start, start + needle.len()) =~= needle
}

/// `needle` occurs somewhere in `hay`.
pub open spec fn contains_seq(hay: Seq<char>, needle: Seq<char>) -> bool {
    exists|start: int| occurs_at(hay, needle, start)
}

/// Appends one character to a `String` (std's `String::push`).
#[verifier::external_body]
fn string_push(s: &mut String, c: char)
    ensures
        final(s)@ == old(s)@.push(c),
{
    s.push(c);
}

/// Appends the decimal rendering of `n` to `s`.
pub fn push_decimal(s: &mut String, n: u64)
    ensures
        final(s)@ == old(s)@ + decimal(n as nat),
    decreases n,
{
    if n >= 10 {
        push_decimal(s, n / 10);
    }
    let d: u8 = (n % 10) as u8;
    let c: char = (d + 48u8) as char;
    proof {
        assert(c == digit_char((n % 10) as nat));
    }
    string_push(s, c);
    proof {
        if n >= 10 {
            assert(decimal(n as nat) == decimal((n / 10) as nat).push(digit_char((n % 10) as nat)));
        }
    }
}

/// The decimal rendering of `n` as a new `String`.
pub fn decimal_string(n: u64) -> (s: String)
    ensures
        s@ == decimal(n as nat),
{
    let mut s = String::new();
    push_decimal(&mut s, n);
    proof {
        assert(s@ =~= decimal(n as nat));
    }
    s
}

/// The decimal rendering of `n`, with a leading `-` when it is negative.
pub open spec fn signed_decimal(n: int) -> Seq<char> {
    if n < 0 {
        seq!['-'] + decimal((-n) as nat)
    } else {
        decimal(n as nat)
    }
}

/// Appends the decimal rendering of `n`, with its sign, to `s`.
pub fn push_signed_decimal(s: &mut String, n: i64)
    ensures
        final(s)@ == old(s)@ + signed_decimal(n as int),
{
    if n < 0 {
        let magnitude: u64 = if n == i64::MIN {
            9223372036854775808u64
        } else {
            (-n) as u64
        };
        string_push(s, '-');
        push_decimal(s, magnitude);
        proof {
            assert(s@ =~= old(s)@ + signed_decimal(n as int));
        }
    } else {
        push_decimal(s, n as u64);
    }
}

/// The characters of `s`, in order.
fn chars_of(s: &str) -> (v: Vec<char>)
    ensures
        v@ == s@,
{
    let n: usize = s.unicode_len();
    let mut v: Vec<char> = Vec::new();
    let mut i: usize = 0;
    while i < n
        invariant
            n == s@.len(),
            i <= n,
            v@ =~= s@.subrange(0, i as int),
        decreases n - i,
    {
        let c: char = s.get_char(i);
        v.push(c);
        i = i + 1;
    }
    v
}

/// Whether `needle` occurs in `hay` (as `str::contains` with a `&str` pattern).
pub fn str_contains(hay: &str, needle: &str) -> (r: bool)
    ensures
        r == contains_seq(hay@, needle@),
{
    let h = chars_of(hay);
    let w = chars_of(needle);
    let hn: usize = h.len();
    let wn: usize = w.len();
    if wn > hn {
        proof {
            assert forall|start: int| !occurs_at(hay@, needle@, start) by {}
        }
        return false;
    }
    let mut start: usize = 0;
    while start <= hn - wn
        invariant
            h@ == hay@,
            w@ == needle@,
            hn == h@.len(),
            wn == w@.len(),
            wn <= hn,
            start <= hn - wn + 1,
            forall|k: int| 0 <= k < start ==> !occurs_at(hay@, needle@, k),
        decreases hn - wn + 1 - start,
    {
        let mut j: usize = 0;
        let mut same = true;
        while j < wn
            invariant
                h@ == hay@,
                w@ == needle@,
                hn == h@.len(),
                wn == w@.len(),
                start + wn <= hn,
                j <= wn,
                same ==> forall|m: int| 0 <= m < j ==> h@[start + m] == w@[m],
                !same ==> !occurs_at(hay@, needle@, start as int),
            decreases wn - j,
        {
            if h[start + j] != w[j] {
                proof {
                    let sub = hay@.subrange(start as int, start + wn);
                    assert(sub[j as int] == h@[start + j]);
                }
                same = false;
            }
            j = j + 1;
        }
        if same {
            proof {
                assert(hay@.subrange(start as int, start + wn) =~= needle@);
                assert(occurs_at(hay@, needle@, start as int));
            }
            return true;
        }
        start = start + 1;
    }
    proof {
        assert forall|k: int| !occurs_at(hay@, needle@, k) by {
            if 0 <= k && k + wn <= hn {
                assert(k < start);
            }
        }
    }
    false
}

} // verus!
