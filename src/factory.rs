//! The rule catalog and its resolution for a development.

use vstd::prelude::*;
use crate::cidades::{RegraAlturaPorTorresGuaratingueta, RegraMaxTorres};
use crate::construtoras::RegraAreaLazerAlpha;
use crate::empreendimento::{DadosEmpreendimento, Empreendimento};
use crate::medida::Medida;
use crate::padrao::{RegraAlturaMax, RegraAreaLazerMin, RegraAreaTorresMax};
use crate::regras::RegraNegocio;
use crate::texto::mesmo_texto;

verus! {

/// The universal height limit, in thousandths of a metre.
pub const ALTURA_MAXIMA: i64 = 30_000;

/// The largest share of the lot, in percent, that the towers may cover.
pub const PERCENTUAL_COBERTURA_MAXIMA: u32 = 80;

/// The smallest share of the lot, in percent, kept for leisure.
pub const PERCENTUAL_LAZER_MINIMO: u32 = 10;

/// The largest number of towers allowed in Boituva.
pub const MAX_TORRES_BOITUVA: u32 = 5;

/// Any rule of the catalog.
#[derive(Clone, Copy, Debug)]
pub enum Regra {
    AlturaMax(RegraAlturaMax),
    AreaTorresMax(RegraAreaTorresMax),
    AreaLazerMin(RegraAreaLazerMin),
    MaxTorres(RegraMaxTorres),
    AlturaPorTorresGuaratingueta(RegraAlturaPorTorresGuaratingueta),
    AreaLazerAlpha(RegraAreaLazerAlpha),
}

impl RegraNegocio for Regra {
    open spec fn violacao(&self, e: DadosEmpreendimento) -> Option<Seq<char>> {
        match *self {
            Regra::AlturaMax(r) => r.violacao(e),
            Regra::AreaTorresMax(r) => r.violacao(e),
            Regra::AreaLazerMin(r) => r.violacao(e),
            Regra::MaxTorres(r) => r.violacao(e),
            Regra::AlturaPorTorresGuaratingueta(r) => r.violacao(e),
            Regra::AreaLazerAlpha(r) => r.violacao(e),
        }
    }

    open spec fn nome_regra(&self) -> Seq<char> {
        match *self {
            Regra::AlturaMax(r) => r.nome_regra(),
            Regra::AreaTorresMax(r) => r.nome_regra(),
            Regra::AreaLazerMin(r) => r.nome_regra(),
            Regra::MaxTorres(r) => r.nome_regra(),
            Regra::AlturaPorTorresGuaratingueta(r) => r.nome_regra(),
            Regra::AreaLazerAlpha(r) => r.nome_regra(),
        }
    }

    fn validar(&self, e: &Empreendimento) -> (r: Option<String>) {
        match self {
            Regra::AlturaMax(r) => r.validar(e),
            Regra::AreaTorresMax(r) => r.validar(e),
            Regra::AreaLazerMin(r) => r.validar(e),
            Regra::MaxTorres(r) => r.validar(e),
            Regra::AlturaPorTorresGuaratingueta(r) => r.validar(e),
            Regra::AreaLazerAlpha(r) => r.validar(e),
        }
    }

    fn nome(&self) -> (r: &'static str) {
        match self {
            Regra::AlturaMax(r) => r.nome(),
            Regra::AreaTorresMax(r) => r.nome(),
            Regra::AreaLazerMin(r) => r.nome(),
            Regra::MaxTorres(r) => r.nome(),
            Regra::AlturaPorTorresGuaratingueta(r) => r.nome(),
            Regra::AreaLazerAlpha(r) => r.nome(),
        }
    }
}

/// The universal rules, in the order they are declared.
pub open spec fn regras_padrao() -> Seq<Regra> {
    seq![
        Regra::AlturaMax(RegraAlturaMax(Medida { milesimos: ALTURA_MAXIMA })),
        Regra::AreaTorresMax(RegraAreaTorresMax(PERCENTUAL_COBERTURA_MAXIMA)),
        Regra::AreaLazerMin(RegraAreaLazerMin(PERCENTUAL_LAZER_MINIMO)),
    ]
}

/// The rules registered for the city named `cidade` (none for an unknown city).
pub open spec fn regras_da_cidade(cidade: Seq<char>) -> Seq<Regra> {
    if cidade == "Boituva"@ {
        seq![Regra::MaxTorres(RegraMaxTorres(MAX_TORRES_BOITUVA))]
    } else if cidade == "Guaratinguetá"@ {
        seq![Regra::AlturaPorTorresGuaratingueta(RegraAlturaPorTorresGuaratingueta)]
    } else {
        seq![]
    }
}

/// The rules registered for the builder named `construtora` (none for an
/// unknown builder).
pub open spec fn regras_da_construtora(construtora: Seq<char>) -> Seq<Regra> {
    if construtora == "Alpha"@ {
        seq![Regra::AreaLazerAlpha(RegraAreaLazerAlpha)]
    } else {
        seq![]
    }
}

/// The rules that apply to `e`: the universal ones, then its city's, then its
/// builder's.
pub open spec fn regras_aplicaveis(e: DadosEmpreendimento) -> Seq<Regra> {
    regras_padrao() + regras_da_cidade(e.cidade) + regras_da_construtora(e.construtora)
}

/// Every rule of the catalog: the universal ones, then those of each city,
/// then those of each builder.
pub open spec fn catalogo_completo() -> Seq<Regra> {
    regras_padrao() + seq![
        Regra::MaxTorres(RegraMaxTorres(MAX_TORRES_BOITUVA)),
        Regra::AlturaPorTorresGuaratingueta(RegraAlturaPorTorresGuaratingueta),
        Regra::AreaLazerAlpha(RegraAreaLazerAlpha),
    ]
}

/// Whether no two rules of `regras` share a name.
pub open spec fn nomes_distintos(regras: Seq<Regra>) -> bool {
    forall|i: int, j: int|
        0 <= i < j < regras.len() ==> #[trigger] regras[i].nome_regra() != #[trigger] regras[j].nome_regra()
}

/// Checks that no two rules of `regras` share a name, so that suppressing a
/// name reaches one rule only.
pub fn catalogo_sem_nomes_repetidos(regras: &Vec<Regra>) -> (r: bool)
    ensures
        r == nomes_distintos(regras@),
{
    let mut a: usize = 0;
    while a < regras.len()
        invariant
            a <= regras.len(),
            forall|i: int, j: int|
                0 <= i < a && i < j < regras@.len() ==> #[trigger] regras@[i].nome_regra()
                    != #[trigger] regras@[j].nome_regra(),
        decreases regras.len() - a,
    {
        let mut b: usize = a + 1;
        while b < regras.len()
            invariant
                a < regras.len(),
                a < b <= regras.len(),
                forall|i: int, j: int|
                    0 <= i < a && i < j < regras@.len() ==> #[trigger] regras@[i].nome_regra()
                        != #[trigger] regras@[j].nome_regra(),
                forall|j: int| a < j < b ==> regras@[a as int].nome_regra() != #[trigger] regras@[j].nome_regra(),
            decreases regras.len() - b,
        {
            if mesmo_texto(regras[a].nome(), regras[b].nome()) {
                return false;
            }
            b = b + 1;
        }
        a = a + 1;
    }
    true
}

/// Builds the groups of the rule catalog.
pub struct RegrasFactory;

impl RegrasFactory {
    /// The universal rules.
    pub fn padrao() -> (r: Vec<Regra>)
        ensures
            r@ == regras_padrao(),
    {
        let mut r: Vec<Regra> = Vec::new();
        r.push(Regra::AlturaMax(RegraAlturaMax(Medida { milesimos: ALTURA_MAXIMA })));
        r.push(Regra::AreaTorresMax(RegraAreaTorresMax(PERCENTUAL_COBERTURA_MAXIMA)));
        r.push(Regra::AreaLazerMin(RegraAreaLazerMin(PERCENTUAL_LAZER_MINIMO)));
        assert(r@ =~= regras_padrao());
        r
    }

    /// The rules of the city named `cidade`, matched exactly.
    pub fn por_cidade(cidade: &str) -> (r: Vec<Regra>)
        ensures
            r@ == regras_da_cidade(cidade@),
    {
        let mut r: Vec<Regra> = Vec::new();
        if mesmo_texto(cidade, "Boituva") {
            r.push(Regra::MaxTorres(RegraMaxTorres(MAX_TORRES_BOITUVA)));
        } else if mesmo_texto(cidade, "Guaratinguetá") {
            r.push(Regra::AlturaPorTorresGuaratingueta(RegraAlturaPorTorresGuaratingueta));
        }
        assert(r@ =~= regras_da_cidade(cidade@));
        r
    }

    /// The rules of the builder named `construtora`, matched exactly.
    pub fn por_construtora(construtora: &str) -> (r: Vec<Regra>)
        ensures
            r@ == regras_da_construtora(construtora@),
    {
        let mut r: Vec<Regra> = Vec::new();
        if mesmo_texto(construtora, "Alpha") {
            r.push(Regra::AreaLazerAlpha(RegraAreaLazerAlpha));
        }
        assert(r@ =~= regras_da_construtora(construtora@));
        r
    }

    /// Every rule of the catalog, each group in its declared order.
    pub fn catalogo() -> (r: Vec<Regra>)
        ensures
            r@ == catalogo_completo(),
    {
        let mut r = RegrasFactory::padrao();
        r.push(Regra::MaxTorres(RegraMaxTorres(MAX_TORRES_BOITUVA)));
        r.push(Regra::AlturaPorTorresGuaratingueta(RegraAlturaPorTorresGuaratingueta));
        r.push(Regra::AreaLazerAlpha(RegraAreaLazerAlpha));
        assert(r@ =~= catalogo_completo());
        r
    }

    /// All the rules that apply to `e`, in evaluation order.
    pub fn resolver(e: &Empreendimento) -> (r: Vec<Regra>)
        ensures
            r@ == regras_aplicaveis(e@),
    {
        let mut r = RegrasFactory::padrao();
        let mut cidade = RegrasFactory::por_cidade(e.cidade.as_str());
        let mut construtora = RegrasFactory::por_construtora(e.construtora.as_str());
        r.append(&mut cidade);
        r.append(&mut construtora);
        r
    }
}

} // verus!
