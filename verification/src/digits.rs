use vstd::prelude::*;

verus! {

/// The ASCII character for a single decimal digit.
pub open spec fn digit_char(d: nat) -> char
    recommends
        d < 10,
{
    if d == 0 {
        '0'
    } else if d == 1 {
        '1'
    } else if d == 2 {
        '2'
    } else if d == 3 {
        '3'
    } else if d == 4 {
        '4'
    } else if d == 5 {
        '5'
    } else if d == 6 {
        '6'
    } else if d == 7 {
        '7'
    } else if d == 8 {
        '8'
    } else {
        '9'
    }
}

/// The decimal rendering of `n`: most significant digit first, no leading
/// zeros, no separators. Zero renders as the single character `0`.
pub open spec fn decimal_seq(n: nat) -> Seq<char>
    decreases n,
{
    if n < 10 {
        seq![digit_char(n)]
    } else {
        decimal_seq(n / 10).push(digit_char(n % 10))
    }
}

/// A decimal rendering is never empty.
pub proof fn lemma_decimal_seq_len(n: nat)
    ensures
        decimal_seq(n).len() >= 1,
    decreases n,
{
    if n >= 10 {
        lemma_decimal_seq_len(n / 10);
    }
}

/// Distinct digits render as distinct characters.
proof fn lemma_digit_char_injective(a: nat, b: nat)
    requires
        a < 10,
        b < 10,
        digit_char(a) == digit_char(b),
    ensures
        a == b,
{
}

/// Distinct numbers have distinct decimal renderings.
pub proof fn lemma_decimal_seq_injective(a: nat, b: nat)
    requires
        decimal_seq(a) == decimal_seq(b),
    ensures
        a == b,
    decreases a,
{
    lemma_decimal_seq_len(a);
    lemma_decimal_seq_len(b);
    if a < 10 && b < 10 {
        assert(decimal_seq(a)[0] == digit_char(a));
        assert(decimal_seq(b)[0] == digit_char(b));
        lemma_digit_char_injective(a, b);
    } else if a < 10 {
        lemma_decimal_seq_len(b / 10);
        assert(decimal_seq(b).len() >= 2);
    } else if b < 10 {
        lemma_decimal_seq_len(a / 10);
        assert(decimal_seq(a).len() >= 2);
    } else {
        assert(decimal_seq(a).last() == digit_char(a % 10));
        assert(decimal_seq(b).last() == digit_char(b % 10));
        lemma_digit_char_injective(a % 10, b % 10);
        assert(decimal_seq(a).drop_last() =~= decimal_seq(a / 10));
        assert(decimal_seq(b).drop_last() =~= decimal_seq(b / 10));
        lemma_decimal_seq_injective(a / 10, b / 10);
    }
}

/// The rendering of a byte-sized number, written out by digit count.
pub proof fn lemma_decimal_seq_u8(n: nat)
    requires
        n < 256,
    ensures
        n < 10 ==> decimal_seq(n) == seq![digit_char(n)],
        10 <= n < 100 ==> decimal_seq(n) == seq![digit_char(n / 10), digit_char(n % 10)],
        100 <= n ==> decimal_seq(n) == seq![
            digit_char(n / 100),
            digit_char((n / 10) % 10),
            digit_char(n % 10),
        ],
{
    reveal_with_fuel(decimal_seq, 4);
    if 10 <= n < 100 {
        assert(decimal_seq(n) =~= seq![digit_char(n / 10), digit_char(n % 10)]);
    } else if 100 <= n {
        assert((n / 10) / 10 == n / 100) by (nonlinear_arith)
            requires 100 <= n < 256;
        assert(decimal_seq(n) =~= seq![
            digit_char(n / 100),
            digit_char((n / 10) % 10),
            digit_char(n % 10),
        ]);
    }
}

/// The one-character string for a decimal digit.
pub fn digit_str(d: u8) -> (r: &'static str)
    requires
        d < 10,
    ensures
        r@ == seq![digit_char(d as nat)],
{
    proof {
        reveal_strlit("0");
        reveal_strlit("1");
        reveal_strlit("2");
        reveal_strlit("3");
        reveal_strlit("4");
        reveal_strlit("5");
        reveal_strlit("6");
        reveal_strlit("7");
        reveal_strlit("8");
        reveal_strlit("9");
    }
    let r: &'static str = if d == 0 {
        "0"
    } else if d == 1 {
        "1"
    } else if d == 2 {
        "2"
    } else if d == 3 {
        "3"
    } else if d == 4 {
        "4"
    } else if d == 5 {
        "5"
    } else if d == 6 {
        "6"
    } else if d == 7 {
        "7"
    } else if d == 8 {
        "8"
    } else {
        "9"
    };
    proof {
        assert(r@ =~= seq![digit_char(d as nat)]);
    }
    r
}

/// Appends the decimal rendering of `n` to `s`.
pub fn append_decimal(s: &mut String, n: u8)
    ensures
        final(s)@ == old(s)@ + decimal_seq(n as nat),
{
    if n >= 100 {
        s.append(digit_str(n / 100));
    }
    if n >= 10 {
        s.append(digit_str((n / 10) % 10));
    }
    s.append(digit_str(n % 10));
    proof {
        lemma_decimal_seq_u8(n as nat);
        assert(s@ =~= old(s)@ + decimal_seq(n as nat));
    }
}

} // verus!
