//! Evaluation of the applicable, non-suppressed rules on developments.

use vstd::prelude::*;
use crate::empreendimento::{DadosEmpreendimento, Empreendimento};
use crate::factory::{regras_aplicaveis, Regra, RegrasFactory};
use crate::ignoradas::{contem_nome, nomes_de, regras_ignoradas, suprimidas};
use crate::regras::RegraNegocio;

verus! {

/// The report on one development.
pub struct ValidationResult {
    /// The builder's name.
    pub empreendimento: String,
    /// Whether no rule was violated.
    pub regras_ok: bool,
    /// The violation messages, in evaluation order.
    pub mensagens: Vec<String>,
}

/// A report as characters.
pub ghost struct Relatorio {
    pub empreendimento: Seq<char>,
    pub regras_ok: bool,
    pub mensagens: Seq<Seq<char>>,
}

/// The characters of each message.
pub open spec fn textos(v: Seq<String>) -> Seq<Seq<char>> {
    v.map_values(|m: String| m@)
}

impl View for ValidationResult {
    type V = Relatorio;

    open spec fn view(&self) -> Relatorio {
        Relatorio {
            empreendimento: self.empreendimento@,
            regras_ok: self.regras_ok,
            mensagens: textos(self.mensagens@),
        }
    }
}

/// What each rule of `regras` not named in `ignoradas` reports on `e`: the
/// rule's name with its message, for every rule that `e` violates, in order.
pub open spec fn avaliacoes(
    regras: Seq<Regra>,
    ignoradas: Seq<Seq<char>>,
    e: DadosEmpreendimento,
) -> Seq<(Seq<char>, Seq<char>)>
    decreases regras.len(),
{
    if regras.len() == 0 {
        seq![]
    } else {
        let anteriores = avaliacoes(regras.drop_last(), ignoradas, e);
        let r = regras.last();
        if ignoradas.contains(r.nome_regra()) {
            anteriores
        } else {
            match r.violacao(e) {
                Some(m) => anteriores.push((r.nome_regra(), m)),
                None => anteriores,
            }
        }
    }
}

/// The entries of `avaliacoes` that do not come from a rule named `nome`.
pub open spec fn sem_regra(avaliacoes: Seq<(Seq<char>, Seq<char>)>, nome: Seq<char>) -> Seq<(Seq<char>, Seq<char>)>
    decreases avaliacoes.len(),
{
    if avaliacoes.len() == 0 {
        seq![]
    } else {
        let anteriores = sem_regra(avaliacoes.drop_last(), nome);
        if avaliacoes.last().0 == nome {
            anteriores
        } else {
            anteriores.push(avaliacoes.last())
        }
    }
}

/// The messages of a sequence of evaluations.
pub open spec fn mensagens_de(avaliacoes: Seq<(Seq<char>, Seq<char>)>) -> Seq<Seq<char>> {
    avaliacoes.map_values(|a: (Seq<char>, Seq<char>)| a.1)
}

/// The report on `e` when the rules named in `ignoradas` are suppressed.
pub open spec fn resultado(e: DadosEmpreendimento, ignoradas: Seq<Seq<char>>) -> Relatorio {
    let mensagens = mensagens_de(avaliacoes(regras_aplicaveis(e), ignoradas, e));
    Relatorio { empreendimento: e.construtora, regras_ok: mensagens.len() == 0, mensagens }
}

/// Validates `e`, leaving out the rules whose names are in `ignoradas`.
pub fn validar_com_ignoradas(e: &Empreendimento, ignoradas: &Vec<&str>) -> (r: ValidationResult)
    ensures
        r@ == resultado(e@, nomes_de(ignoradas@)),
        r.regras_ok == (r.mensagens.len() == 0),
{
    let regras = RegrasFactory::resolver(e);
    let ghost ign = nomes_de(ignoradas@);
    let mut mensagens: Vec<String> = Vec::new();
    let mut i: usize = 0;
    while i < regras.len()
        invariant
            i <= regras.len(),
            regras@ == regras_aplicaveis(e@),
            ign == nomes_de(ignoradas@),
            textos(mensagens@) == mensagens_de(avaliacoes(regras@.take(i as int), ign, e@)),
        decreases regras.len() - i,
    {
        let regra = &regras[i];
        let ghost antes = mensagens@;
        assert(regras@.take(i + 1).drop_last() =~= regras@.take(i as int));
        assert(regras@.take(i + 1).last() == regras@[i as int]);
        if !contem_nome(ignoradas, regra.nome()) {
            match regra.validar(e) {
                Some(m) => {
                    mensagens.push(m);
                    assert(textos(mensagens@) =~= textos(antes).push(m@));
                    assert(mensagens_de(avaliacoes(regras@.take(i + 1), ign, e@)) =~= mensagens_de(
                        avaliacoes(regras@.take(i as int), ign, e@),
                    ).push(m@));
                },
                None => {},
            }
        }
        i = i + 1;
    }
    assert(regras@.take(regras.len() as int) =~= regras@);
    let regras_ok = mensagens.len() == 0;
    ValidationResult { empreendimento: e.construtora.clone(), regras_ok, mensagens }
}

/// Validates `e` with the suppression table of its city.
pub fn validar_empreendimento(e: &Empreendimento) -> (r: ValidationResult)
    ensures
        r@ == resultado(e@, suprimidas(e@.cidade)),
        r.regras_ok == (r.mensagens.len() == 0),
{
    let ignoradas = regras_ignoradas(e.cidade.as_str());
    validar_com_ignoradas(e, &ignoradas)
}

/// Validates every development, one report each, in input order.
pub fn validar_empreendimentos(empreendimentos: &[Empreendimento]) -> (r: Vec<ValidationResult>)
    ensures
        r.len() == empreendimentos.len(),
        forall|i: int|
            0 <= i < r.len() ==> #[trigger] r[i]@ == resultado(
                empreendimentos[i]@,
                suprimidas(empreendimentos[i]@.cidade),
            ),
{
    let mut r: Vec<ValidationResult> = Vec::new();
    let mut i: usize = 0;
    while i < empreendimentos.len()
        invariant
            i <= empreendimentos.len(),
            r.len() == i,
            forall|j: int|
                0 <= j < i ==> #[trigger] r[j]@ == resultado(
                    empreendimentos[j]@,
                    suprimidas(empreendimentos[j]@.cidade),
                ),
        decreases empreendimentos.len() - i,
    {
        r.push(validar_empreendimento(&empreendimentos[i]));
        i = i + 1;
    }
    r
}

} // verus!
