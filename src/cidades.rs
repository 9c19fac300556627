//! Rules that apply only in the cities that register them.

use vstd::prelude::*;
use crate::empreendimento::{DadosEmpreendimento, Empreendimento};
use crate::medida::{escrever_medida, texto_medida, Medida};
use crate::regras::RegraNegocio;
use crate::texto::{decimal, escrever_natural};

verus! {

/// The number of towers must not exceed the limit.
#[derive(Clone, Copy, Debug)]
pub struct RegraMaxTorres(pub u32);

/// The tower height must stay below a limit that steps down with the number
/// of towers: 25 m for one or two towers, 20 m for three, 15 m otherwise.
#[derive(Clone, Copy, Debug)]
pub struct RegraAlturaPorTorresGuaratingueta;

/// The height limit, in thousandths of a metre, for `n` towers.
pub open spec fn limite_por_torres(n: nat) -> int {
    if 1 <= n && n <= 2 {
        25_000
    } else if n == 3 {
        20_000
    } else {
        15_000
    }
}

fn limite_altura(n: u32) -> (r: Medida)
    ensures
        r.milesimos == limite_por_torres(n as nat),
{
    let milesimos: i64 = if 1 <= n && n <= 2 {
        25_000
    } else if n == 3 {
        20_000
    } else {
        15_000
    };
    Medida { milesimos }
}

impl RegraNegocio for RegraMaxTorres {
    open spec fn violacao(&self, e: DadosEmpreendimento) -> Option<Seq<char>> {
        if e.numero_de_torres > self.0 {
            Some("Número de torres ("@ + decimal(e.numero_de_torres) + ") excede o máximo permitido ("@
                + decimal(self.0 as nat) + ")"@)
        } else {
            None
        }
    }

    open spec fn nome_regra(&self) -> Seq<char> {
        "RegraMaxTorres"@
    }

    fn validar(&self, e: &Empreendimento) -> (r: Option<String>) {
        if e.numero_de_torres > self.0 {
            let mut s = String::from_str("Número de torres (");
            escrever_natural(&mut s, e.numero_de_torres as u64);
            s.append(") excede o máximo permitido (");
            escrever_natural(&mut s, self.0 as u64);
            s.append(")");
            Some(s)
        } else {
            None
        }
    }

    fn nome(&self) -> (r: &'static str) {
        "RegraMaxTorres"
    }
}

impl RegraNegocio for RegraAlturaPorTorresGuaratingueta {
    open spec fn violacao(&self, e: DadosEmpreendimento) -> Option<Seq<char>> {
        let limite = limite_por_torres(e.numero_de_torres);
        if e.altura_da_torre >= limite {
            Some("Altura da torre ("@ + texto_medida(e.altura_da_torre) + ") excede o limite para "@
                + decimal(e.numero_de_torres) + " torres ("@ + texto_medida(limite) + ")"@)
        } else {
            None
        }
    }

    open spec fn nome_regra(&self) -> Seq<char> {
        "RegraAlturaPorTorresGuaratingueta"@
    }

    fn validar(&self, e: &Empreendimento) -> (r: Option<String>) {
        let limite = limite_altura(e.numero_de_torres);
        if e.altura_da_torre.milesimos >= limite.milesimos {
            let mut s = String::from_str("Altura da torre (");
            escrever_medida(&mut s, e.altura_da_torre);
            s.append(") excede o limite para ");
            escrever_natural(&mut s, e.numero_de_torres as u64);
            s.append(" torres (");
            escrever_medida(&mut s, limite);
            s.append(")");
            Some(s)
        } else {
            None
        }
    }

    fn nome(&self) -> (r: &'static str) {
        "RegraAlturaPorTorresGuaratingueta"
    }
}

} // verus!
