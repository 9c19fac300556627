//! Rules that apply only to the builders that register them.

use vstd::prelude::*;
use crate::empreendimento::{DadosEmpreendimento, Empreendimento};
use crate::medida::{escrever_duas_casas, texto_duas_casas};
use crate::padrao::{lazer_atende, lazer_suficiente};
use crate::regras::RegraNegocio;

verus! {

/// The share of the lot, in percent, that builder Alpha must give to leisure.
pub const PERCENTUAL_LAZER_ALPHA: u32 = 10;

/// For builder "Alpha" (exact, case-sensitive name) with more than one tower,
/// the leisure area must be present and reach its share of the lot.
#[derive(Clone, Copy, Debug)]
pub struct RegraAreaLazerAlpha;

impl RegraNegocio for RegraAreaLazerAlpha {
    open spec fn violacao(&self, e: DadosEmpreendimento) -> Option<Seq<char>> {
        if e.construtora != "Alpha"@ || e.numero_de_torres <= 1 {
            None
        } else {
            match e.area_de_lazer {
                Some(a) => if lazer_suficiente(a, e.area_do_terreno, PERCENTUAL_LAZER_ALPHA as nat) {
                    None
                } else {
                    Some("Área de lazer insuficiente para Alpha: "@ + texto_duas_casas(a) + " m²."@)
                },
                None => Some("Faltando área de lazer para Alpha."@),
            }
        }
    }

    open spec fn nome_regra(&self) -> Seq<char> {
        "RegraAreaLazerAlpha"@
    }

    fn validar(&self, e: &Empreendimento) -> (r: Option<String>) {
        if e.construtora != String::from_str("Alpha") || e.numero_de_torres <= 1 {
            return None;
        }
        match e.area_de_lazer {
            Some(a) => {
                if lazer_atende(a.milesimos, e.area_do_terreno.milesimos, PERCENTUAL_LAZER_ALPHA) {
                    None
                } else {
                    let mut s = String::from_str("Área de lazer insuficiente para Alpha: ");
                    escrever_duas_casas(&mut s, a);
                    s.append(" m².");
                    Some(s)
                }
            },
            None => Some(String::from_str("Faltando área de lazer para Alpha.")),
        }
    }

    fn nome(&self) -> (r: &'static str) {
        "RegraAreaLazerAlpha"
    }
}

} // verus!
