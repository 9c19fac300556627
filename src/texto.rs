//! Decimal writing of numbers inside rule messages.

use vstd::prelude::*;

verus! {

/// The character of the decimal digit `d` (for `d < 10`).
pub open spec fn digito(d: nat) -> char {
    if d == 0 {
        '0'
    } else if d == 1 {
        '1'
    } else if d == 2 {
        '2'
    } else if d == 3 {
        '3'
    } else if d == 4 {
        '4'
    } else if d == 5 {
        '5'
    } else if d == 6 {
        '6'
    } else if d == 7 {
        '7'
    } else if d == 8 {
        '8'
    } else {
        '9'
    }
}

/// The decimal digits of `n`, without leading zeros (zero is written "0").
pub open spec fn decimal(n: nat) -> Seq<char>
    decreases n,
{
    if n < 10 {
        seq![digito(n)]
    } else {
        decimal(n / 10).push(digito(n % 10))
    }
}

/// The last `k` decimal digits of `n`, padded with leading zeros.
pub open spec fn decimal_fixo(n: nat, k: nat) -> Seq<char>
    decreases k,
{
    if k == 0 {
        seq![]
    } else {
        decimal_fixo(n / 10, (k - 1) as nat).push(digito(n % 10))
    }
}

fn texto_digito(d: u64) -> (r: &'static str)
    requires
        d < 10,
    ensures
        r@ == seq![digito(d as nat)],
{
    let r = if d == 0 {
        proof { reveal_strlit("0"); }
        "0"
    } else if d == 1 {
        proof { reveal_strlit("1"); }
        "1"
    } else if d == 2 {
        proof { reveal_strlit("2"); }
        "2"
    } else if d == 3 {
        proof { reveal_strlit("3"); }
        "3"
    } else if d == 4 {
        proof { reveal_strlit("4"); }
        "4"
    } else if d == 5 {
        proof { reveal_strlit("5"); }
        "5"
    } else if d == 6 {
        proof { reveal_strlit("6"); }
        "6"
    } else if d == 7 {
        proof { reveal_strlit("7"); }
        "7"
    } else if d == 8 {
        proof { reveal_strlit("8"); }
        "8"
    } else {
        proof { reveal_strlit("9"); }
        "9"
    };
    assert(r@ =~= seq![digito(d as nat)]);
    r
}

/// Appends the decimal digits of `n`.
pub fn escrever_natural(s: &mut String, n: u64)
    ensures
        final(s)@ == old(s)@ + decimal(n as nat),
    decreases n,
{
    if n >= 10 {
        escrever_natural(s, n / 10);
    }
    s.append(texto_digito(n % 10));
    assert(s@ =~= old(s)@ + decimal(n as nat));
}

/// Appends the last `k` decimal digits of `n`, padded with leading zeros.
pub fn escrever_fixo(s: &mut String, n: u64, k: u64)
    ensures
        final(s)@ == old(s)@ + decimal_fixo(n as nat, k as nat),
    decreases k,
{
    if k > 0 {
        escrever_fixo(s, n / 10, k - 1);
        s.append(texto_digito(n % 10));
        assert(s@ =~= old(s)@ + decimal_fixo(n as nat, k as nat));
    } else {
        assert(s@ =~= old(s)@ + decimal_fixo(n as nat, k as nat));
    }
}

/// Exact comparison of two texts: no case folding, no trimming.
pub fn mesmo_texto(a: &str, b: &str) -> (r: bool)
    ensures
        r == (a@ == b@),
{
    String::from_str(a) == String::from_str(b)
}

} // verus!
