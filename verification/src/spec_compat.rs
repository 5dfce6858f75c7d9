//! Canonical linear relations built term by term from a linear relation: each
//! term whose scalar is a variable is kept, in order, and nothing is merged or
//! simplified.

use vstd::prelude::*;
use crate::group::PrimeGroup;
use crate::linear_relation::{
    CanonicalLinearRelation, GroupVar, LinearCombination, LinearMap, LinearRelation, ScalarTerm,
    ScalarVar, Weighted,
};

pub use crate::rng::{ScalarCompatible, ScalarCompatibleRepr};

verus! {

/// A canonical linear relation built term by term from a linear relation.
pub struct CanonicalLinearRelationCompatible<G: PrimeGroup>(pub CanonicalLinearRelation<G>);

/// The `(scalar variable, group variable)` pairs of the terms of `terms`
/// whose scalar is a variable, in order; terms with the constant scalar, and
/// the weights, are dropped.
pub open spec fn var_terms<G: PrimeGroup>(terms: Seq<Weighted<G>>) -> Seq<(ScalarVar, GroupVar)>
    decreases terms.len(),
{
    if terms.len() == 0 {
        seq![]
    } else {
        let init = var_terms(terms.drop_last());
        match terms.last().term.scalar {
            ScalarTerm::Var(v) => init.push((v, terms.last().term.elem)),
            ScalarTerm::Unit => init,
        }
    }
}

/// The pair that a term contributes to its canonical combination: its scalar
/// variable and group variable when its scalar is a variable, nothing when it
/// is the constant scalar.
pub open spec fn variable_pair<G: PrimeGroup>(w: Weighted<G>) -> Option<(ScalarVar, GroupVar)> {
    match w.term.scalar {
        ScalarTerm::Var(v) => Some((v, w.term.elem)),
        ScalarTerm::Unit => None,
    }
}

/// A canonical combination keeps every variable term, in order, and nothing
/// else: it is the sequence of the terms' pairs with the constant-scalar terms
/// left out; it has as many pairs as the combination has variable terms; and
/// the pairs of two combinations written one after the other are the pairs of
/// the first followed by those of the second.
pub proof fn lemma_var_terms_keeps_every_variable_term<G: PrimeGroup>(terms: Seq<Weighted<G>>, more: Seq<Weighted<G>>)
    ensures
        var_terms(terms) == terms.filter_map(|w: Weighted<G>| variable_pair(w)),
        var_terms(terms).len() == terms.filter(|w: Weighted<G>| w.term.scalar is Var).len(),
        var_terms(terms + more) == var_terms(terms) + var_terms(more),
    decreases terms.len() + more.len(),
{
    reveal(Seq::filter);
    if more.len() > 0 {
        lemma_var_terms_keeps_every_variable_term(terms, more.drop_last());
        assert((terms + more).drop_last() =~= terms + more.drop_last());
        assert((terms + more).last() == more.last());
        assert(var_terms(terms) + var_terms(more.drop_last()).push((more.last().term.scalar->Var_0, more.last().term.elem))
            =~= (var_terms(terms) + var_terms(more.drop_last())).push((more.last().term.scalar->Var_0, more.last().term.elem)));
    } else {
        assert(terms + more =~= terms);
        assert(var_terms(terms) + var_terms(more) =~= var_terms(terms));
        if terms.len() > 0 {
            lemma_var_terms_keeps_every_variable_term(terms.drop_last(), more);
            if let Some(pair) = variable_pair(terms.last()) {
                assert(var_terms(terms.drop_last()).push(pair)
                    =~= terms.drop_last().filter_map(|w: Weighted<G>| variable_pair(w)) + seq![pair]);
            }
        }
    }
}

/// The pairs of the variable terms of one linear combination.
fn combination_var_terms<G: PrimeGroup>(lc: &LinearCombination<G>) -> (r: Vec<(ScalarVar, GroupVar)>)
    ensures
        r@ == var_terms(lc.0@),
{
    let mut out: Vec<(ScalarVar, GroupVar)> = Vec::new();
    let mut j: usize = 0;
    while j < lc.0.len()
        invariant
            j <= lc.0@.len(),
            out@ == var_terms(lc.0@.take(j as int)),
        decreases lc.0@.len() - j,
    {
        let w = &lc.0[j];
        proof {
            assert(lc.0@.take(j as int + 1).drop_last() =~= lc.0@.take(j as int));
        }
        match w.term.scalar {
            ScalarTerm::Var(v) => {
                out.push((v, w.term.elem));
            },
            ScalarTerm::Unit => {},
        }
        j = j + 1;
    }
    assert(lc.0@.take(lc.0@.len() as int) =~= lc.0@);
    out
}

impl<G: PrimeGroup> CanonicalLinearRelationCompatible<G> {
    /// Builds the canonical relation from `statement` with no optimization
    /// and no check: every linear combination keeps its variable terms in
    /// order, and the image, group elements and number of scalars are kept.
    pub fn new_from_lr(statement: LinearRelation<G>) -> (r: Self)
        ensures
            r.0.image == statement.image,
            r.0.group_elements == statement.linear_map.group_elements,
            r.0.num_scalars == statement.linear_map.num_scalars,
            r.0.linear_combinations@.len() == statement.linear_map.linear_combinations@.len(),
            forall|i: int| 0 <= i < r.0.linear_combinations@.len()
                ==> (#[trigger] r.0.linear_combinations@[i])@
                == var_terms(statement.linear_map.linear_combinations@[i].0@),
    {
        let mut linear_combinations: Vec<Vec<(ScalarVar, GroupVar)>> = Vec::new();
        let mut i: usize = 0;
        while i < statement.linear_map.linear_combinations.len()
            invariant
                i <= statement.linear_map.linear_combinations@.len(),
                linear_combinations@.len() == i,
                forall|k: int| 0 <= k < i ==> (#[trigger] linear_combinations@[k])@
                    == var_terms(statement.linear_map.linear_combinations@[k].0@),
            decreases statement.linear_map.linear_combinations@.len() - i,
        {
            let pairs = combination_var_terms(&statement.linear_map.linear_combinations[i]);
            linear_combinations.push(pairs);
            i = i + 1;
        }
        let LinearRelation { linear_map, image } = statement;
        let LinearMap { linear_combinations: _, group_elements, num_scalars } = linear_map;
        CanonicalLinearRelationCompatible(CanonicalLinearRelation {
            image,
            linear_combinations,
            group_elements,
            num_scalars,
        })
    }
}

} // verus!
