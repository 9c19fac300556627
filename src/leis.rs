//! Properties that hold of every development and every suppression table.

use vstd::prelude::*;
use crate::cidades::{limite_por_torres, RegraAlturaPorTorresGuaratingueta};
use crate::construtoras::RegraAreaLazerAlpha;
use crate::empreendimento::DadosEmpreendimento;
use crate::factory::Regra;
use crate::padrao::RegraAreaLazerMin;
use crate::regras::RegraNegocio;
use crate::factory::{catalogo_completo, nomes_distintos, regras_aplicaveis};
use crate::validator::{avaliacoes, mensagens_de, resultado, sem_regra};

verus! {

/// With at most one tower, neither leisure-area rule reports a violation,
/// whatever the leisure area.
pub proof fn lazer_nao_se_aplica_com_uma_torre(e: DadosEmpreendimento, regra: RegraAreaLazerMin)
    requires
        e.numero_de_torres <= 1,
    ensures
        regra.violacao(e) is None,
        RegraAreaLazerAlpha.violacao(e) is None,
{
}

/// A report passes exactly when it holds no violation message.
pub proof fn aprovado_sem_violacoes(e: DadosEmpreendimento, ignoradas: Seq<Seq<char>>)
    ensures
        resultado(e, ignoradas).regras_ok == (resultado(e, ignoradas).mensagens.len() == 0),
{
}

/// Validation depends on the record alone: two records with the same content
/// get the same report.
pub proof fn validacao_deterministica(
    e1: DadosEmpreendimento,
    e2: DadosEmpreendimento,
    ignoradas: Seq<Seq<char>>,
)
    requires
        e1 == e2,
    ensures
        resultado(e1, ignoradas) == resultado(e2, ignoradas),
{
}

/// The tiered height limit: 25 m for one or two towers, 20 m for three and
/// 15 m for four or more; the rule is violated exactly when the height reaches
/// the limit.
pub proof fn altura_escalonada(e: DadosEmpreendimento)
    ensures
        1 <= e.numero_de_torres <= 2 ==> limite_por_torres(e.numero_de_torres) == 25_000,
        e.numero_de_torres == 3 ==> limite_por_torres(e.numero_de_torres) == 20_000,
        e.numero_de_torres >= 4 ==> limite_por_torres(e.numero_de_torres) == 15_000,
        RegraAlturaPorTorresGuaratingueta.violacao(e) is Some <==> e.altura_da_torre
            >= limite_por_torres(e.numero_de_torres),
{
}

/// Suppressing one more rule name removes exactly the reports of the rules of
/// that name and keeps all others, in their order, whatever the order of the
/// rules.
pub proof fn supressao_remove_so_a_regra(
    regras: Seq<Regra>,
    ignoradas: Seq<Seq<char>>,
    nome: Seq<char>,
    e: DadosEmpreendimento,
)
    ensures
        avaliacoes(regras, ignoradas.push(nome), e) == sem_regra(avaliacoes(regras, ignoradas, e), nome),
    decreases regras.len(),
{
    if regras.len() > 0 {
        supressao_remove_so_a_regra(regras.drop_last(), ignoradas, nome, e);
        let r = regras.last();
        let n = r.nome_regra();
        let anteriores = avaliacoes(regras.drop_last(), ignoradas, e);
        if ignoradas.contains(n) {
            let k = choose|k: int| 0 <= k < ignoradas.len() && ignoradas[k] == n;
            assert(ignoradas.push(nome)[k] == n);
        } else if n == nome {
            assert(ignoradas.push(nome)[ignoradas.len() as int] == n);
            match r.violacao(e) {
                Some(m) => {
                    assert(anteriores.push((n, m)).drop_last() =~= anteriores);
                },
                None => {},
            }
        } else {
            assert(!ignoradas.push(nome).contains(n)) by {
                if ignoradas.push(nome).contains(n) {
                    let k = choose|k: int| 0 <= k < ignoradas.push(nome).len() && ignoradas.push(nome)[k] == n;
                    assert(ignoradas[k] == n);
                }
            }
            match r.violacao(e) {
                Some(m) => {
                    assert(anteriores.push((n, m)).drop_last() =~= anteriores);
                },
                None => {},
            }
        }
    }
}

/// In a development's report, suppressing one more rule name drops exactly
/// the messages of the rules of that name.
pub proof fn supressao_no_relatorio(e: DadosEmpreendimento, ignoradas: Seq<Seq<char>>, nome: Seq<char>)
    ensures
        resultado(e, ignoradas.push(nome)).mensagens == mensagens_de(
            sem_regra(avaliacoes(regras_aplicaveis(e), ignoradas, e), nome),
        ),
{
    supressao_remove_so_a_regra(regras_aplicaveis(e), ignoradas, nome, e);
}

/// No two rules of the catalog share a name, so a suppression entry reaches
/// at most one rule.
pub proof fn catalogo_tem_nomes_distintos()
    ensures
        nomes_distintos(catalogo_completo()),
{
    reveal_strlit("RegraAlturaMax");
    reveal_strlit("RegraAreaTorresMax");
    reveal_strlit("RegraAreaLazerMin");
    reveal_strlit("RegraMaxTorres");
    reveal_strlit("RegraAlturaPorTorresGuaratingueta");
    reveal_strlit("RegraAreaLazerAlpha");
    let c = catalogo_completo();
    assert(c.len() == 6);
    assert(c[0].nome_regra()[5] != c[3].nome_regra()[5]);
    assert forall|i: int, j: int| 0 <= i < j < c.len() implies #[trigger] c[i].nome_regra()
        != #[trigger] c[j].nome_regra() by {
        if i == 0 && j == 3 {
            assert(c[i].nome_regra()[5] != c[j].nome_regra()[5]);
        } else {
            assert(c[i].nome_regra().len() != c[j].nome_regra().len());
        }
    }
}

} // verus!
