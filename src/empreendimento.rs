//! The development record that the rules are evaluated on.

use vstd::prelude::*;
use crate::medida::Medida;

verus! {

/// One real-estate development. Areas are in m² and the height in m, each
/// held as a [`Medida`]; a missing leisure area is `None`, distinct from zero.
#[derive(Clone, Debug)]
pub struct Empreendimento {
    pub construtora: String,
    pub cidade: String,
    pub area_do_terreno: Medida,
    pub numero_de_torres: u32,
    pub altura_da_torre: Medida,
    pub area_da_torre: Medida,
    pub area_de_lazer: Option<Medida>,
}

/// What the rules read of a development: its names as characters and its
/// measures in thousandths.
pub ghost struct DadosEmpreendimento {
    pub construtora: Seq<char>,
    pub cidade: Seq<char>,
    pub area_do_terreno: int,
    pub numero_de_torres: nat,
    pub altura_da_torre: int,
    pub area_da_torre: int,
    pub area_de_lazer: Option<int>,
}

impl View for Empreendimento {
    type V = DadosEmpreendimento;

    open spec fn view(&self) -> DadosEmpreendimento {
        DadosEmpreendimento {
            construtora: self.construtora@,
            cidade: self.cidade@,
            area_do_terreno: self.area_do_terreno.milesimos as int,
            numero_de_torres: self.numero_de_torres as nat,
            altura_da_torre: self.altura_da_torre.milesimos as int,
            area_da_torre: self.area_da_torre.milesimos as int,
            area_de_lazer: match self.area_de_lazer {
                Some(a) => Some(a.milesimos as int),
                None => None,
            },
        }
    }
}

} // verus!
