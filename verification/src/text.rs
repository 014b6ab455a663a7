//! Building report text: padding to a column width, repeated characters and
//! decimal numbers.
use vstd::prelude::*;

verus! {

/// `n` copies of the character `c`.
pub open spec fn repeated(c: char, n: nat) -> Seq<char> {
    Seq::new(n, |_i: int| c)
}

/// `s` followed by spaces up to `width` characters (what `{:<width}` prints);
/// a longer text is left as it is.
pub open spec fn padded(s: Seq<char>, width: nat) -> Seq<char> {
    if s.len() >= width {
        s
    } else {
        s + repeated(' ', (width - s.len()) as nat)
    }
}

/// The decimal digit for `d` (below ten).
pub open spec fn digit_char(d: nat) -> char {
    if d == 0 {
        '0'
    } else if d == 1 {
        '1'
    } else if d == 2 {
        '2'
    } else if d == 3 {
        '3'
    } else if d == 4 {
        '4'
    } else if d == 5 {
        '5'
    } else if d == 6 {
        '6'
    } else if d == 7 {
        '7'
    } else if d == 8 {
        '8'
    } else {
        '9'
    }
}

/// The decimal notation of `n`, without leading zeros.
pub open spec fn decimal(n: nat) -> Seq<char>
    decreases n,
{
    if n < 10 {
        seq![digit_char(n)]
    } else {
        decimal(n / 10).push(digit_char(n % 10))
    }
}

/// Append `c` (a one-character text) `n` times.
pub fn push_repeated(out: &mut String, c: &str, n: usize)
    requires
        c@.len() == 1,
    ensures
        final(out)@ == old(out)@ + repeated(c@[0], n as nat),
{
    let mut i: usize = 0;
    while i < n
        invariant
            i <= n,
            c@.len() == 1,
            out@ == old(out)@ + repeated(c@[0], i as nat),
        decreases n - i,
    {
        let ghost before = out@;
        out.append(c);
        assert(out@ =~= old(out)@ + repeated(c@[0], (i + 1) as nat));
        i = i + 1;
    }
}

/// Append `s` padded with spaces to `width` characters.
pub fn push_padded(out: &mut String, s: &str, width: usize)
    ensures
        final(out)@ == old(out)@ + padded(s@, width as nat),
{
    out.append(s);
    let len = s.unicode_len();
    if len < width {
        proof {
            reveal_strlit(" ");
        }
        push_repeated(out, " ", width - len);
        assert(out@ =~= old(out)@ + padded(s@, width as nat));
    } else {
        assert(out@ =~= old(out)@ + padded(s@, width as nat));
    }
}

/// The one-character text of a decimal digit.
fn digit_text(d: u64) -> (t: &'static str)
    requires
        d < 10,
    ensures
        t@ == seq![digit_char(d as nat)],
{
    proof {
        reveal_strlit("0");
        reveal_strlit("1");
        reveal_strlit("2");
        reveal_strlit("3");
        reveal_strlit("4");
        reveal_strlit("5");
        reveal_strlit("6");
        reveal_strlit("7");
        reveal_strlit("8");
        reveal_strlit("9");
    }
    let t = if d == 0 {
        "0"
    } else if d == 1 {
        "1"
    } else if d == 2 {
        "2"
    } else if d == 3 {
        "3"
    } else if d == 4 {
        "4"
    } else if d == 5 {
        "5"
    } else if d == 6 {
        "6"
    } else if d == 7 {
        "7"
    } else if d == 8 {
        "8"
    } else {
        "9"
    };
    assert(t@ =~= seq![digit_char(d as nat)]);
    t
}

/// Append the decimal notation of `n`.
pub fn push_decimal(out: &mut String, n: u64)
    ensures
        final(out)@ == old(out)@ + decimal(n as nat),
    decreases n,
{
    if n >= 10 {
        push_decimal(out, n / 10);
    }
    out.append(digit_text(n % 10));
    assert(out@ =~= old(out)@ + decimal(n as nat));
}

} // verus!
