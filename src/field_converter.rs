//! Field-name aliases: kebab-case spellings of the record's fields.

use vstd::prelude::*;
use crate::texto::mesmo_texto;

verus! {

/// The snake-case name for a kebab-case field name; any other name is kept.
pub open spec fn nome_normalizado(campo: Seq<char>) -> Seq<char> {
    if campo == "area-do-terreno"@ {
        "area_do_terreno"@
    } else if campo == "numero-de-torres"@ {
        "numero_de_torres"@
    } else if campo == "altura-da-torre"@ {
        "altura_da_torre"@
    } else if campo == "area-da-torre"@ {
        "area_da_torre"@
    } else if campo == "area-de-lazer"@ {
        "area_de_lazer"@
    } else {
        campo
    }
}

/// Maps a field name to the spelling the record uses.
pub fn normalize_field_name<'a>(field_name: &'a str) -> (r: &'a str)
    ensures
        r@ == nome_normalizado(field_name@),
{
    if mesmo_texto(field_name, "area-do-terreno") {
        "area_do_terreno"
    } else if mesmo_texto(field_name, "numero-de-torres") {
        "numero_de_torres"
    } else if mesmo_texto(field_name, "altura-da-torre") {
        "altura_da_torre"
    } else if mesmo_texto(field_name, "area-da-torre") {
        "area_da_torre"
    } else if mesmo_texto(field_name, "area-de-lazer") {
        "area_de_lazer"
    } else {
        field_name
    }
}

} // verus!

verus! {

/// Whether the column named `nome` holds the field `campo`.
pub open spec fn coluna_do_campo(nome: Seq<char>, campo: Seq<char>) -> bool {
    nome_normalizado(nome) == campo
}

/// The position of the column that holds the field `campo`, where columns are
/// known by their names in either spelling. Where several hold it, the last
/// one is taken.
pub fn indice_da_coluna(colunas: &Vec<&str>, campo: &str) -> (r: Option<usize>)
    ensures
        match r {
            Some(i) => i < colunas@.len() && coluna_do_campo(colunas@[i as int]@, campo@) && forall|j: int|
                i < j < colunas@.len() ==> !coluna_do_campo(#[trigger] colunas@[j]@, campo@),
            None => forall|j: int|
                0 <= j < colunas@.len() ==> !coluna_do_campo(#[trigger] colunas@[j]@, campo@),
        },
{
    let mut i: usize = colunas.len();
    while i > 0
        invariant
            i <= colunas@.len(),
            forall|j: int| i <= j < colunas@.len() ==> !coluna_do_campo(#[trigger] colunas@[j]@, campo@),
        decreases i,
    {
        let nome = normalize_field_name(colunas[i - 1]);
        if mesmo_texto(nome, campo) {
            return Some(i - 1);
        }
        i = i - 1;
    }
    None
}

} // verus!
