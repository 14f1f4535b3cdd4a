//! Small verified string helpers shared by the other modules.
use vstd::prelude::*;
use vstd::string::*;

verus! {

/// Whether `s` starts with `p`.
pub fn starts_with(s: &str, p: &str) -> (r: bool)
    ensures
        r == p@.is_prefix_of(s@),
{
    let n = s.unicode_len();
    let m = p.unicode_len();
    if m > n {
        return false;
    }
    let mut i: usize = 0;
    while i < m
        invariant
            m == p@.len(),
            n == s@.len(),
            m <= n,
            i <= m,
            forall|j: int| 0 <= j < i ==> p@[j] == s@[j],
        decreases m - i,
    {
        if s.get_char(i) != p.get_char(i) {
            return false;
        }
        i = i + 1;
    }
    true
}

/// Whether two texts are equal.
pub fn text_eq(a: &str, b: &str) -> (r: bool)
    ensures
        r == (a@ == b@),
{
    let r = a.unicode_len() == b.unicode_len() && starts_with(a, b);
    proof {
        if r {
            assert(a@ =~= b@);
        }
    }
    r
}

/// `s` with every trailing `/` removed.
pub open spec fn trim_slashes(s: Seq<char>) -> Seq<char>
    decreases s.len(),
{
    if s.len() > 0 && s.last() == '/' {
        trim_slashes(s.drop_last())
    } else {
        s
    }
}

/// Decimal text of a single digit.
pub open spec fn digit_text(d: nat) -> Seq<char> {
    if d == 0 { "0"@ }
    else if d == 1 { "1"@ }
    else if d == 2 { "2"@ }
    else if d == 3 { "3"@ }
    else if d == 4 { "4"@ }
    else if d == 5 { "5"@ }
    else if d == 6 { "6"@ }
    else if d == 7 { "7"@ }
    else if d == 8 { "8"@ }
    else { "9"@ }
}

/// Decimal text of a natural number, most significant digit first.
pub open spec fn nat_decimal(n: nat) -> Seq<char>
    decreases n,
{
    if n < 10 {
        digit_text(n)
    } else {
        nat_decimal(n / 10) + digit_text(n % 10)
    }
}

/// Decimal text of an integer, with a leading `-` when it is negative.
pub open spec fn int_decimal(i: int) -> Seq<char> {
    if i < 0 {
        "-"@ + nat_decimal((-i) as nat)
    } else {
        nat_decimal(i as nat)
    }
}

fn digit_str(d: u64) -> (r: &'static str)
    requires
        d < 10,
    ensures
        r@ == digit_text(d as nat),
{
    if d == 0 { "0" }
    else if d == 1 { "1" }
    else if d == 2 { "2" }
    else if d == 3 { "3" }
    else if d == 4 { "4" }
    else if d == 5 { "5" }
    else if d == 6 { "6" }
    else if d == 7 { "7" }
    else if d == 8 { "8" }
    else { "9" }
}

/// Appends the decimal text of `n` to `out`.
pub fn push_decimal(out: &mut String, n: u64)
    ensures
        final(out)@ == old(out)@ + nat_decimal(n as nat),
    decreases n,
{
    if n >= 10 {
        push_decimal(out, n / 10);
    }
    let d = digit_str(n % 10);
    out.append(d);
    assert(final(out)@ =~= old(out)@ + nat_decimal(n as nat));
}

/// Appends the decimal text of a signed `n` to `out`.
pub fn push_signed_decimal(out: &mut String, n: i64)
    ensures
        final(out)@ == old(out)@ + int_decimal(n as int),
{
    if n < 0 {
        out.append("-");
        let magnitude: u64 = (0i128 - (n as i128)) as u64;
        push_decimal(out, magnitude);
        assert(final(out)@ =~= old(out)@ + int_decimal(n as int));
    } else {
        push_decimal(out, n as u64);
    }
}

/// `s` with every trailing `/` removed.
pub fn trim_trailing_slashes(s: &str) -> (r: String)
    ensures
        r@ == trim_slashes(s@),
{
    let mut end = s.unicode_len();
    assert(s@.subrange(0, end as int) =~= s@);
    while end > 0 && s.get_char(end - 1) == '/'
        invariant
            end <= s@.len(),
            trim_slashes(s@.subrange(0, end as int)) == trim_slashes(s@),
        decreases end,
    {
        assert(s@.subrange(0, end as int).drop_last() =~= s@.subrange(0, end - 1));
        end = end - 1;
    }
    String::from_str(s.substring_char(0, end))
}

} // verus!
