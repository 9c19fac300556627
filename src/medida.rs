//! Lengths and areas as fixed-point decimals with three places.

use vstd::prelude::*;
use crate::texto::{decimal, decimal_fixo, escrever_fixo, escrever_natural};

verus! {

/// A length (m) or an area (m²) held exactly, in thousandths of the unit.
#[derive(Clone, Copy, Debug, PartialEq, Eq, Structural)]
pub struct Medida {
    pub milesimos: i64,
}

/// The absolute value of `v`.
pub open spec fn magnitude(v: int) -> nat {
    if v < 0 {
        (-v) as nat
    } else {
        v as nat
    }
}

/// The sign that starts the writing of `v`.
pub open spec fn sinal(v: int) -> Seq<char> {
    if v < 0 {
        seq!['-']
    } else {
        seq![]
    }
}

/// The shortest decimal writing of `v` thousandths: the whole part, then the
/// fraction without trailing zeros ("30", "19.5", "29.999").
pub open spec fn texto_medida(v: int) -> Seq<char> {
    let m = magnitude(v);
    let f = m % 1000;
    sinal(v) + decimal(m / 1000) + if f == 0 {
        seq![]
    } else if f % 100 == 0 {
        seq!['.'] + decimal_fixo(f / 100, 1)
    } else if f % 10 == 0 {
        seq!['.'] + decimal_fixo(f / 10, 2)
    } else {
        seq!['.'] + decimal_fixo(f, 3)
    }
}

/// The writing of `v` thousandths with exactly two decimal places, the
/// third one rounded half away from zero ("80.00", "100.00" for 99.999).
pub open spec fn texto_duas_casas(v: int) -> Seq<char> {
    let c = (magnitude(v) + 5) / 10;
    sinal(v) + decimal(c / 100) + seq!['.'] + decimal_fixo(c % 100, 2)
}

impl Medida {
    /// `n` whole units.
    pub fn unidades(n: i64) -> (r: Medida)
        requires
            -9_223_372_036_854_775 <= n <= 9_223_372_036_854_775,
        ensures
            r.milesimos == n * 1000,
    {
        Medida { milesimos: n * 1000 }
    }

    /// `n` thousandths of a unit.
    pub fn milesimos(n: i64) -> (r: Medida)
        ensures
            r.milesimos == n,
    {
        Medida { milesimos: n }
    }
}

fn valor_absoluto(v: i64) -> (r: u64)
    ensures
        r as nat == magnitude(v as int),
{
    if v < 0 {
        (0i128 - v as i128) as u64
    } else {
        v as u64
    }
}

fn escrever_sinal(s: &mut String, v: i64)
    ensures
        final(s)@ == old(s)@ + sinal(v as int),
{
    if v < 0 {
        proof { reveal_strlit("-"); }
        s.append("-");
    }
    assert(s@ =~= old(s)@ + sinal(v as int));
}

fn escrever_ponto(s: &mut String)
    ensures
        final(s)@ == old(s)@ + seq!['.'],
{
    proof { reveal_strlit("."); }
    s.append(".");
    assert(s@ =~= old(s)@ + seq!['.']);
}

/// Appends the shortest decimal writing of `m`.
pub fn escrever_medida(s: &mut String, m: Medida)
    ensures
        final(s)@ == old(s)@ + texto_medida(m.milesimos as int),
{
    let v = m.milesimos;
    let a = valor_absoluto(v);
    let f = a % 1000;
    escrever_sinal(s, v);
    escrever_natural(s, a / 1000);
    if f != 0 {
        escrever_ponto(s);
        if f % 100 == 0 {
            escrever_fixo(s, f / 100, 1);
        } else if f % 10 == 0 {
            escrever_fixo(s, f / 10, 2);
        } else {
            escrever_fixo(s, f, 3);
        }
    }
    assert(s@ =~= old(s)@ + texto_medida(v as int));
}

/// Appends the writing of `m` with two decimal places.
pub fn escrever_duas_casas(s: &mut String, m: Medida)
    ensures
        final(s)@ == old(s)@ + texto_duas_casas(m.milesimos as int),
{
    let v = m.milesimos;
    let a = valor_absoluto(v);
    let c = a / 10 + if a % 10 >= 5 { 1 } else { 0 };
    assert(c == (a + 5) / 10);
    escrever_sinal(s, v);
    escrever_natural(s, c / 100);
    escrever_ponto(s);
    escrever_fixo(s, c % 100, 2);
    assert(s@ =~= old(s)@ + texto_duas_casas(v as int));
}

} // verus!
