//! Text building blocks: decimal rendering of integers and joining of lists.

use vstd::prelude::*;
use vstd::string::StringExecFns;

verus! {

/// The character that stands for one decimal digit.
pub open spec fn digit_char(d: int) -> char
    recommends
        0 <= d < 10,
{
    if d == 0 {
        '0'
    } else if d == 1 {
        '1'
    } else if d == 2 {
        '2'
    } else if d == 3 {
        '3'
    } else if d == 4 {
        '4'
    } else if d == 5 {
        '5'
    } else if d == 6 {
        '6'
    } else if d == 7 {
        '7'
    } else if d == 8 {
        '8'
    } else {
        '9'
    }
}

/// The decimal digits of a natural number, most significant first, without
/// leading zeros; zero is the single digit `0`.
pub open spec fn decimal_nat(n: nat) -> Seq<char>
    decreases n,
{
    if n < 10 {
        seq![digit_char(n as int)]
    } else {
        decimal_nat(n / 10).push(digit_char((n % 10) as int))
    }
}

/// The decimal rendering of an integer: a minus sign for a negative number,
/// then the digits of its magnitude.
pub open spec fn decimal(n: int) -> Seq<char> {
    if n < 0 {
        seq!['-'] + decimal_nat((-n) as nat)
    } else {
        decimal_nat(n as nat)
    }
}

/// The one-character text of a decimal digit.
fn digit_str(d: u64) -> (s: &'static str)
    requires
        d < 10,
    ensures
        s@ == seq![digit_char(d as int)],
{
    proof {
        reveal_strlit("0");
        reveal_strlit("1");
        reveal_strlit("2");
        reveal_strlit("3");
        reveal_strlit("4");
        reveal_strlit("5");
        reveal_strlit("6");
        reveal_strlit("7");
        reveal_strlit("8");
        reveal_strlit("9");
    }
    let s: &'static str = if d == 0 {
        "0"
    } else if d == 1 {
        "1"
    } else if d == 2 {
        "2"
    } else if d == 3 {
        "3"
    } else if d == 4 {
        "4"
    } else if d == 5 {
        "5"
    } else if d == 6 {
        "6"
    } else if d == 7 {
        "7"
    } else if d == 8 {
        "8"
    } else {
        "9"
    };
    assert(s@ =~= seq![digit_char(d as int)]);
    s
}

/// Appends the decimal digits of `n` to `out`.
pub fn push_decimal_nat(out: &mut String, n: u64)
    ensures
        final(out)@ == old(out)@ + decimal_nat(n as nat),
    decreases n,
{
    if n >= 10 {
        push_decimal_nat(out, n / 10);
    }
    out.append(digit_str(n % 10));
    assert(out@ =~= old(out)@ + decimal_nat(n as nat));
}

/// Appends the decimal rendering of `n` to `out`.
pub fn push_decimal(out: &mut String, n: i64)
    ensures
        final(out)@ == old(out)@ + decimal(n as int),
{
    if n < 0 {
        out.append("-");
        proof {
            reveal_strlit("-");
        }
        // The magnitude of the least `i64` does not fit in an `i64`.
        let magnitude: u64 = (-(n + 1)) as u64 + 1;
        push_decimal_nat(out, magnitude);
        assert(out@ =~= old(out)@ + decimal(n as int));
    } else {
        push_decimal_nat(out, n as u64);
    }
}

/// The parts of a list, in order, with the separator between each two.
pub open spec fn join(parts: Seq<Seq<char>>, sep: Seq<char>) -> Seq<char>
    decreases parts.len(),
{
    if parts.len() == 0 {
        Seq::empty()
    } else if parts.len() == 1 {
        parts[0]
    } else {
        join(parts.drop_last(), sep) + sep + parts.last()
    }
}

/// The views of a list of texts.
pub open spec fn views(parts: Seq<&'static str>) -> Seq<Seq<char>> {
    parts.map_values(|p: &'static str| p@)
}

/// Appends the parts to `out`, in order, with the separator between each two.
pub fn push_joined(out: &mut String, parts: &Vec<&'static str>, sep: &str)
    ensures
        final(out)@ == old(out)@ + join(views(parts@), sep@),
{
    let n: usize = parts.len();
    let mut i: usize = 0;
    while i < n
        invariant
            n == parts@.len(),
            i <= n,
            out@ == old(out)@ + join(views(parts@).take(i as int), sep@),
        decreases n - i,
    {
        let ghost done = views(parts@).take(i as int);
        let ghost next = views(parts@).take(i + 1);
        assert(next.drop_last() =~= done);
        assert(next.last() == parts@[i as int]@);
        if i > 0 {
            out.append(sep);
        }
        out.append(parts[i]);
        assert(out@ =~= old(out)@ + join(next, sep@));
        i = i + 1;
    }
    assert(views(parts@).take(n as int) =~= views(parts@));
}

} // verus!
