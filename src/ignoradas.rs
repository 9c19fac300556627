//! The suppression table: rules that are not evaluated in some cities.

use vstd::prelude::*;
use crate::texto::mesmo_texto;

verus! {

/// The names of a sequence of rule identifiers, as characters.
pub open spec fn nomes_de(v: Seq<&str>) -> Seq<Seq<char>> {
    v.map_values(|s: &str| s@)
}

/// The configured entry of the city named `cidade`, if it has one.
pub open spec fn ignoradas_da_cidade(cidade: Seq<char>) -> Option<Seq<Seq<char>>> {
    if cidade == "Rio de Janeiro"@ {
        Some(seq!["RegraAreaLazerMin"@])
    } else if cidade == "São Paulo"@ {
        Some(seq!["RegraAlturaMax"@])
    } else {
        None
    }
}

/// The names of the rules suppressed in the city named `cidade`: its entry,
/// or none where the city has no entry.
pub open spec fn suprimidas(cidade: Seq<char>) -> Seq<Seq<char>> {
    match ignoradas_da_cidade(cidade) {
        Some(nomes) => nomes,
        None => seq![],
    }
}

/// Looks up the entry of the city named `cidade`, matched exactly.
pub fn regras_ignoradas_por_cidade(cidade: &str) -> (r: Option<Vec<&'static str>>)
    ensures
        match r {
            Some(v) => ignoradas_da_cidade(cidade@) == Some(nomes_de(v@)),
            None => ignoradas_da_cidade(cidade@) is None,
        },
{
    if mesmo_texto(cidade, "Rio de Janeiro") {
        let mut v: Vec<&'static str> = Vec::new();
        v.push("RegraAreaLazerMin");
        assert(nomes_de(v@) =~= seq!["RegraAreaLazerMin"@]);
        Some(v)
    } else if mesmo_texto(cidade, "São Paulo") {
        let mut v: Vec<&'static str> = Vec::new();
        v.push("RegraAlturaMax");
        assert(nomes_de(v@) =~= seq!["RegraAlturaMax"@]);
        Some(v)
    } else {
        None
    }
}

/// The names of the rules suppressed in the city named `cidade`.
pub fn regras_ignoradas(cidade: &str) -> (r: Vec<&'static str>)
    ensures
        nomes_de(r@) == suprimidas(cidade@),
{
    match regras_ignoradas_por_cidade(cidade) {
        Some(v) => v,
        None => {
            let v: Vec<&'static str> = Vec::new();
            assert(nomes_de(v@) =~= seq![]);
            v
        },
    }
}

/// Whether `nome` is one of `nomes`.
pub fn contem_nome(nomes: &Vec<&str>, nome: &str) -> (r: bool)
    ensures
        r == nomes_de(nomes@).contains(nome@),
{
    let mut i: usize = 0;
    while i < nomes.len()
        invariant
            i <= nomes.len(),
            forall|j: int| 0 <= j < i ==> nomes@[j]@ != nome@,
        decreases nomes.len() - i,
    {
        if mesmo_texto(nomes[i], nome) {
            assert(nomes_de(nomes@)[i as int] == nome@);
            return true;
        }
        i = i + 1;
    }
    assert forall|j: int| 0 <= j < nomes_de(nomes@).len() implies nomes_de(nomes@)[j] != nome@ by {
        assert(nomes@[j]@ != nome@);
    }
    false
}

} // verus!
