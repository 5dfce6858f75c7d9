//! Linear relations between group elements: each image element is stated to
//! be a linear combination of group elements with scalar coefficients, some
//! of them secret.

use vstd::prelude::*;
use crate::group::{GroupElement, PrimeGroup, Scalar};

verus! {

/// The index of a scalar variable (a secret) of a relation.
#[derive(Clone, Copy, Debug, PartialEq, Eq, Structural)]
pub struct ScalarVar(pub usize);

/// The index of a group variable (a public element) of a relation.
#[derive(Clone, Copy, Debug, PartialEq, Eq, Structural)]
pub struct GroupVar(pub usize);

/// The scalar factor of a term: a scalar variable, or the constant one.
#[derive(Clone, Copy, Debug, PartialEq, Eq, Structural)]
pub enum ScalarTerm {
    Var(ScalarVar),
    Unit,
}

/// A term `scalar * elem`.
#[derive(Clone, Copy, Debug, PartialEq, Eq, Structural)]
pub struct Term {
    pub scalar: ScalarTerm,
    pub elem: GroupVar,
}

/// A term with a public scalar weight.
pub struct Weighted<G: PrimeGroup> {
    pub term: Term,
    pub weight: Scalar<G>,
}

/// A sum of weighted terms.
pub struct LinearCombination<G: PrimeGroup>(pub Vec<Weighted<G>>);

/// The group elements assigned to the group variables, by index; `None` for
/// a variable not assigned yet.
pub struct GroupMap<G: PrimeGroup>(pub Vec<Option<GroupElement<G>>>);

/// A linear map from the scalar variables to group elements, one linear
/// combination per image element.
pub struct LinearMap<G: PrimeGroup> {
    pub linear_combinations: Vec<LinearCombination<G>>,
    pub group_elements: GroupMap<G>,
    pub num_scalars: usize,
}

/// A linear relation: the linear map applied to the secret scalars gives the
/// image elements.
pub struct LinearRelation<G: PrimeGroup> {
    pub linear_map: LinearMap<G>,
    pub image: Vec<GroupVar>,
}

/// A linear relation in canonical form: each linear combination is a list of
/// pairs of a scalar variable and a group variable.
pub struct CanonicalLinearRelation<G: PrimeGroup> {
    pub image: Vec<GroupVar>,
    pub linear_combinations: Vec<Vec<(ScalarVar, GroupVar)>>,
    pub group_elements: GroupMap<G>,
    pub num_scalars: usize,
}

} // verus!
