use ff::PrimeField;

use sigma_proofs::group::{GroupElement, Scalar, P256};
use sigma_proofs::linear_relation::{
    GroupMap, GroupVar, LinearCombination, LinearMap, LinearRelation, ScalarTerm, ScalarVar, Term,
    Weighted,
};
use sigma_proofs::spec_compat::CanonicalLinearRelationCompatible;

fn weight(v: u64) -> Scalar<P256> {
    Scalar::from_narg_bytes(&p256::Scalar::from(v).to_repr()).unwrap()
}

fn term(scalar: ScalarTerm, elem: usize, w: u64) -> Weighted<P256> {
    Weighted { term: Term { scalar, elem: GroupVar(elem) }, weight: weight(w) }
}

#[test]
fn new_from_lr_keeps_variable_terms_in_order() {
    let g = GroupElement::<P256>::mul_generator(&weight(1));
    let relation = LinearRelation {
        linear_map: LinearMap {
            linear_combinations: vec![
                LinearCombination(vec![
                    term(ScalarTerm::Var(ScalarVar(0)), 0, 1),
                    term(ScalarTerm::Unit, 1, 5),
                    term(ScalarTerm::Var(ScalarVar(1)), 2, 7),
                ]),
                LinearCombination(vec![term(ScalarTerm::Unit, 0, 1)]),
                LinearCombination(vec![term(ScalarTerm::Var(ScalarVar(1)), 1, 3)]),
            ],
            group_elements: GroupMap(vec![Some(g), None, None]),
            num_scalars: 2,
        },
        image: vec![GroupVar(3), GroupVar(4), GroupVar(5)],
    };
    let canonical = CanonicalLinearRelationCompatible::new_from_lr(relation).0;
    assert_eq!(canonical.num_scalars, 2);
    assert_eq!(canonical.image, vec![GroupVar(3), GroupVar(4), GroupVar(5)]);
    assert_eq!(canonical.group_elements.0.len(), 3);
    assert!(canonical.group_elements.0[0].is_some());
    assert_eq!(
        canonical.linear_combinations,
        vec![
            vec![(ScalarVar(0), GroupVar(0)), (ScalarVar(1), GroupVar(2))],
            vec![],
            vec![(ScalarVar(1), GroupVar(1))],
        ]
    );
}
