//! The universal rules, applied to every development.

use vstd::prelude::*;
use crate::empreendimento::{DadosEmpreendimento, Empreendimento};
use crate::medida::{escrever_duas_casas, escrever_medida, texto_duas_casas, texto_medida, Medida};
use crate::regras::RegraNegocio;
use crate::texto::{decimal, escrever_natural};

verus! {

/// The tower height must stay below the limit: a height equal to it violates.
#[derive(Clone, Copy, Debug)]
pub struct RegraAlturaMax(pub Medida);

/// The towers together (count times area per tower) must cover less than the
/// given percentage of the lot.
#[derive(Clone, Copy, Debug)]
pub struct RegraAreaTorresMax(pub u32);

/// With more than one tower, the leisure area must be present and reach the
/// given percentage of the lot.
#[derive(Clone, Copy, Debug)]
pub struct RegraAreaLazerMin(pub u32);

/// Whether `n` towers of area `torre` cover at least `percentual`% of a lot
/// of area `terreno`.
pub open spec fn cobertura_excedida(n: nat, torre: int, terreno: int, percentual: nat) -> bool {
    n * torre * 100 >= terreno * percentual
}

/// Whether a leisure area `lazer` reaches `percentual`% of a lot of area `terreno`.
pub open spec fn lazer_suficiente(lazer: int, terreno: int, percentual: nat) -> bool {
    lazer * 100 >= terreno * percentual
}

/// Decides `cobertura_excedida` on machine values.
pub fn excede_cobertura(n: u32, torre: i64, terreno: i64, percentual: u32) -> (r: bool)
    ensures
        r == cobertura_excedida(n as nat, torre as int, terreno as int, percentual as nat),
{
    let n = n as i128;
    let torre = torre as i128;
    let terreno = terreno as i128;
    let percentual = percentual as i128;
    assert(-0x8000_0000_0000_0000_0000_0000 <= n * torre <= 0x8000_0000_0000_0000_0000_0000) by (nonlinear_arith)
        requires
            0 <= n < 0x1_0000_0000,
            -0x8000_0000_0000_0000 <= torre < 0x8000_0000_0000_0000,
    ;
    assert(-0x8000_0000_0000_0000_0000_0000 < terreno * percentual < 0x8000_0000_0000_0000_0000_0000) by (nonlinear_arith)
        requires
            0 <= percentual < 0x1_0000_0000,
            -0x8000_0000_0000_0000 <= terreno < 0x8000_0000_0000_0000,
    ;
    n * torre * 100 >= terreno * percentual
}

/// Decides `lazer_suficiente` on machine values.
pub fn lazer_atende(lazer: i64, terreno: i64, percentual: u32) -> (r: bool)
    ensures
        r == lazer_suficiente(lazer as int, terreno as int, percentual as nat),
{
    let lazer = lazer as i128;
    let terreno = terreno as i128;
    let percentual = percentual as i128;
    assert(-0x8000_0000_0000_0000_0000_0000 < terreno * percentual < 0x8000_0000_0000_0000_0000_0000) by (nonlinear_arith)
        requires
            0 <= percentual < 0x1_0000_0000,
            -0x8000_0000_0000_0000 <= terreno < 0x8000_0000_0000_0000,
    ;
    lazer * 100 >= terreno * percentual
}

impl RegraNegocio for RegraAlturaMax {
    open spec fn violacao(&self, e: DadosEmpreendimento) -> Option<Seq<char>> {
        if e.altura_da_torre >= self.0.milesimos {
            Some("Altura da torre deve ser inferior a "@ + texto_medida(self.0.milesimos as int) + "m."@)
        } else {
            None
        }
    }

    open spec fn nome_regra(&self) -> Seq<char> {
        "RegraAlturaMax"@
    }

    fn validar(&self, e: &Empreendimento) -> (r: Option<String>) {
        if e.altura_da_torre.milesimos >= self.0.milesimos {
            let mut s = String::from_str("Altura da torre deve ser inferior a ");
            escrever_medida(&mut s, self.0);
            s.append("m.");
            Some(s)
        } else {
            None
        }
    }

    fn nome(&self) -> (r: &'static str) {
        "RegraAlturaMax"
    }
}

impl RegraNegocio for RegraAreaTorresMax {
    open spec fn violacao(&self, e: DadosEmpreendimento) -> Option<Seq<char>> {
        if cobertura_excedida(e.numero_de_torres, e.area_da_torre, e.area_do_terreno, self.0 as nat) {
            Some("Área total das torres não pode exceder "@ + decimal(self.0 as nat) + "% do terreno."@)
        } else {
            None
        }
    }

    open spec fn nome_regra(&self) -> Seq<char> {
        "RegraAreaTorresMax"@
    }

    fn validar(&self, e: &Empreendimento) -> (r: Option<String>) {
        if excede_cobertura(
            e.numero_de_torres,
            e.area_da_torre.milesimos,
            e.area_do_terreno.milesimos,
            self.0,
        ) {
            let mut s = String::from_str("Área total das torres não pode exceder ");
            escrever_natural(&mut s, self.0 as u64);
            s.append("% do terreno.");
            Some(s)
        } else {
            None
        }
    }

    fn nome(&self) -> (r: &'static str) {
        "RegraAreaTorresMax"
    }
}

impl RegraNegocio for RegraAreaLazerMin {
    open spec fn violacao(&self, e: DadosEmpreendimento) -> Option<Seq<char>> {
        if e.numero_de_torres <= 1 {
            None
        } else {
            match e.area_de_lazer {
                Some(a) => if lazer_suficiente(a, e.area_do_terreno, self.0 as nat) {
                    None
                } else {
                    Some("Área de lazer insuficiente: "@ + texto_duas_casas(a) + " m²."@)
                },
                None => Some("Faltando campo 'area-de-lazer'."@),
            }
        }
    }

    open spec fn nome_regra(&self) -> Seq<char> {
        "RegraAreaLazerMin"@
    }

    fn validar(&self, e: &Empreendimento) -> (r: Option<String>) {
        if e.numero_de_torres <= 1 {
            return None;
        }
        match e.area_de_lazer {
            Some(a) => {
                if lazer_atende(a.milesimos, e.area_do_terreno.milesimos, self.0) {
                    None
                } else {
                    let mut s = String::from_str("Área de lazer insuficiente: ");
                    escrever_duas_casas(&mut s, a);
                    s.append(" m².");
                    Some(s)
                }
            },
            None => Some(String::from_str("Faltando campo 'area-de-lazer'.")),
        }
    }

    fn nome(&self) -> (r: &'static str) {
        "RegraAreaLazerMin"
    }
}

} // verus!
