//! The contract that every business rule meets.

use vstd::prelude::*;
use crate::empreendimento::{DadosEmpreendimento, Empreendimento};

verus! {

/// The characters of an optional message.
pub open spec fn texto_opcional(o: Option<String>) -> Option<Seq<char>> {
    match o {
        Some(s) => Some(s@),
        None => None,
    }
}

/// A named, pure predicate over a development.
pub trait RegraNegocio {
    /// The violation message that the rule gives for `e`, or `None` where `e`
    /// satisfies it.
    spec fn violacao(&self, e: DadosEmpreendimento) -> Option<Seq<char>>;

    /// The rule's stable identifier, used for lookup and suppression.
    spec fn nome_regra(&self) -> Seq<char>;

    /// Evaluates the rule on `e`.
    fn validar(&self, e: &Empreendimento) -> (r: Option<String>)
        ensures
            texto_opcional(r) == self.violacao(e@),
    ;

    /// The rule's identifier.
    fn nome(&self) -> (r: &'static str)
        ensures
            r@ == self.nome_regra(),
    ;
}

} // verus!
