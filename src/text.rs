//! Character-sequence helpers with exact specifications: prefix tests,
//! replacement of every occurrence of a pattern, and decimal rendering.

use vstd::prelude::*;

verus! {

/// `p` is a prefix of `s`.
pub open spec fn has_prefix(s: Seq<char>, p: Seq<char>) -> bool {
    p.len() <= s.len() && s.subrange(0, p.len() as int) == p
}

/// Every non-overlapping occurrence of `pat` in `s`, scanned from the left,
/// replaced by `rep`. An empty pattern matches before every character and
/// at the end, so `rep` is inserted at each of those places.
pub open spec fn replace_all(s: Seq<char>, pat: Seq<char>, rep: Seq<char>) -> Seq<char>
    decreases s.len(),
{
    if pat.len() == 0 {
        if s.len() == 0 {
            rep
        } else {
            rep + seq![s[0]] + replace_all(s.drop_first(), pat, rep)
        }
    } else if has_prefix(s, pat) {
        rep + replace_all(s.subrange(pat.len() as int, s.len() as int), pat, rep)
    } else if s.len() == 0 {
        s
    } else {
        seq![s[0]] + replace_all(s.drop_first(), pat, rep)
    }
}

/// The character of a decimal digit.
pub open spec fn digit_char(d: nat) -> char {
    if d == 0 {
        '0'
    } else if d == 1 {
        '1'
    } else if d == 2 {
        '2'
    } else if d == 3 {
        '3'
    } else if d == 4 {
        '4'
    } else if d == 5 {
        '5'
    } else if d == 6 {
        '6'
    } else if d == 7 {
        '7'
    } else if d == 8 {
        '8'
    } else {
        '9'
    }
}

pub open spec fn is_digit(c: char) -> bool {
    '0' <= c && c <= '9'
}

/// Shortest decimal rendering of `n`.
pub open spec fn decimal(n: nat) -> Seq<char>
    decreases n,
{
    if n < 10 {
        seq![digit_char(n)]
    } else {
        decimal(n / 10).push(digit_char(n % 10))
    }
}

/// Decimal rendering of `i`, with a leading `-` when negative.
pub open spec fn signed_decimal(i: int) -> Seq<char> {
    if i < 0 {
        seq!['-'] + decimal((-i) as nat)
    } else {
        decimal(i as nat)
    }
}

/// The lowest `width` decimal digits of `n`, zero-padded on the left.
pub open spec fn fixed_decimal(n: nat, width: nat) -> Seq<char>
    decreases width,
{
    if width == 0 {
        Seq::empty()
    } else {
        fixed_decimal(n / 10, (width - 1) as nat).push(digit_char(n % 10))
    }
}

pub proof fn lemma_fixed_decimal_digits(n: nat, width: nat)
    ensures
        fixed_decimal(n, width).len() == width,
        forall|i: int| 0 <= i < width ==> is_digit(#[trigger] fixed_decimal(n, width)[i]),
    decreases width,
{
    if width > 0 {
        lemma_fixed_decimal_digits(n / 10, (width - 1) as nat);
    }
}

fn digit_str(d: u64) -> (r: &'static str)
    requires
        d < 10,
    ensures
        r@ == seq![digit_char(d as nat)],
{
    proof {
        reveal_strlit("0");
        reveal_strlit("1");
        reveal_strlit("2");
        reveal_strlit("3");
        reveal_strlit("4");
        reveal_strlit("5");
        reveal_strlit("6");
        reveal_strlit("7");
        reveal_strlit("8");
        reveal_strlit("9");
    }
    let r = if d == 0 {
        "0"
    } else if d == 1 {
        "1"
    } else if d == 2 {
        "2"
    } else if d == 3 {
        "3"
    } else if d == 4 {
        "4"
    } else if d == 5 {
        "5"
    } else if d == 6 {
        "6"
    } else if d == 7 {
        "7"
    } else if d == 8 {
        "8"
    } else {
        "9"
    };
    assert(r@ =~= seq![digit_char(d as nat)]);
    r
}

/// Appends the decimal rendering of `n`.
pub fn push_decimal(out: &mut String, n: u64)
    ensures
        final(out)@ == old(out)@ + decimal(n as nat),
    decreases n,
{
    if n >= 10 {
        push_decimal(out, n / 10);
    }
    let d = digit_str(n % 10);
    out.append(d);
    assert(final(out)@ =~= old(out)@ + decimal(n as nat));
}

/// Appends the decimal rendering of `i`, signed.
pub fn push_signed_decimal(out: &mut String, i: i64)
    ensures
        final(out)@ == old(out)@ + signed_decimal(i as int),
{
    if i < 0 {
        proof {
            reveal_strlit("-");
        }
        out.append("-");
        let magnitude: u64 = (0i128 - i as i128) as u64;
        push_decimal(out, magnitude);
        assert(final(out)@ =~= old(out)@ + signed_decimal(i as int));
    } else {
        push_decimal(out, i as u64);
    }
}

/// Appends the lowest `width` digits of `n`, zero-padded.
pub fn push_fixed_decimal(out: &mut String, n: u64, width: u64)
    ensures
        final(out)@ == old(out)@ + fixed_decimal(n as nat, width as nat),
    decreases width,
{
    if width > 0 {
        push_fixed_decimal(out, n / 10, width - 1);
        let d = digit_str(n % 10);
        out.append(d);
        assert(final(out)@ =~= old(out)@ + fixed_decimal(n as nat, width as nat));
    } else {
        assert(final(out)@ =~= old(out)@ + fixed_decimal(n as nat, width as nat));
    }
}

/// Whether `p` occurs in `s` at character position `at`.
pub fn occurs_at(s: &str, at: usize, p: &str) -> (r: bool)
    requires
        at <= s@.len(),
    ensures
        r == has_prefix(s@.subrange(at as int, s@.len() as int), p@),
{
    let n = s.unicode_len();
    let pl = p.unicode_len();
    let ghost rest = s@.subrange(at as int, n as int);
    if pl > n - at {
        return false;
    }
    let mut i: usize = 0;
    while i < pl
        invariant
            n == s@.len(),
            pl == p@.len(),
            at + pl <= n,
            i <= pl,
            rest == s@.subrange(at as int, n as int),
            forall|j: int| 0 <= j < i ==> rest[j] == p@[j],
        decreases pl - i,
    {
        if s.get_char(at + i) != p.get_char(i) {
            assert(rest.subrange(0, pl as int)[i as int] != p@[i as int]);
            return false;
        }
        i = i + 1;
    }
    assert(rest.subrange(0, pl as int) =~= p@);
    true
}

/// Whether `p` is a prefix of `s`.
pub fn starts_with(s: &str, p: &str) -> (r: bool)
    ensures
        r == has_prefix(s@, p@),
{
    let r = occurs_at(s, 0, p);
    assert(s@.subrange(0, s@.len() as int) =~= s@);
    r
}

/// `s` with every occurrence of `pat` replaced by `rep`.
pub fn replace_every(s: &str, pat: &str, rep: &str) -> (r: String)
    ensures
        r@ == replace_all(s@, pat@, rep@),
{
    let n = s.unicode_len();
    let pl = pat.unicode_len();
    let mut out = String::new();
    let mut i: usize = 0;
    assert(s@.subrange(0, n as int) =~= s@);
    if pl == 0 {
        while i < n
            invariant
                n == s@.len(),
                pl == pat@.len() == 0,
                i <= n,
                out@ + replace_all(s@.subrange(i as int, n as int), pat@, rep@) == replace_all(
                    s@,
                    pat@,
                    rep@,
                ),
            decreases n - i,
        {
            let ghost t = s@.subrange(i as int, n as int);
            let ghost before = out@;
            out.append(rep);
            let c = s.substring_char(i, i + 1);
            out.append(c);
            assert(t.drop_first() =~= s@.subrange(i + 1, n as int));
            assert(c@ =~= seq![t[0]]);
            assert(before + replace_all(t, pat@, rep@) =~= out@ + replace_all(
                s@.subrange(i + 1, n as int),
                pat@,
                rep@,
            ));
            i = i + 1;
        }
        out.append(rep);
        assert(s@.subrange(n as int, n as int).len() == 0);
        out
    } else {
        while i < n
            invariant
                n == s@.len(),
                pl == pat@.len() > 0,
                i <= n,
                out@ + replace_all(s@.subrange(i as int, n as int), pat@, rep@) == replace_all(
                    s@,
                    pat@,
                    rep@,
                ),
            decreases n - i,
        {
            let ghost t = s@.subrange(i as int, n as int);
            let ghost before = out@;
            if occurs_at(s, i, pat) {
                out.append(rep);
                assert(t.subrange(pl as int, t.len() as int) =~= s@.subrange(
                    (i + pl) as int,
                    n as int,
                ));
                assert(before + replace_all(t, pat@, rep@) =~= out@ + replace_all(
                    s@.subrange((i + pl) as int, n as int),
                    pat@,
                    rep@,
                ));
                i = i + pl;
            } else {
                let c = s.substring_char(i, i + 1);
                out.append(c);
                assert(t.drop_first() =~= s@.subrange(i + 1, n as int));
                assert(c@ =~= seq![t[0]]);
                assert(before + replace_all(t, pat@, rep@) =~= out@ + replace_all(
                    s@.subrange(i + 1, n as int),
                    pat@,
                    rep@,
                ));
                i = i + 1;
            }
        }
        assert(s@.subrange(n as int, n as int).len() == 0);
        out
    }
}

} // verus!
