use vstd::prelude::*;
use crate::mixing::{
    entrywise, is_commutative, is_entrywise, is_functional, is_pairwise, is_square, is_symmetric,
    is_total, pairwise,
};
use crate::selection::{
    indices_below, is_selected_square, lemma_subset_of_entrywise, lemma_subset_of_pairwise,
    select, select_square, selected,
};
use crate::transport::{all_present, is_present_layout, transport_matrix};

verus! {

/// The molecular parameters of one component, over the number type `T`.
#[derive(Debug)]
pub struct ComponentRecord<T> {
    /// Segment diameter.
    pub sigma: T,
    /// Dispersion energy over Boltzmann's constant.
    pub epsilon_k: T,
    pub molarweight: T,
    /// Entropy-scaling coefficients for the viscosity.
    pub viscosity: Option<[T; 4]>,
    /// Entropy-scaling coefficients for the self-diffusion coefficient.
    pub diffusion: Option<[T; 5]>,
    /// Entropy-scaling coefficients for the thermal conductivity.
    pub thermal_conductivity: Option<[T; 4]>,
}

impl<T: Copy> Clone for ComponentRecord<T> {
    fn clone(&self) -> (r: Self)
        ensures
            r == *self,
    {
        *self
    }
}

impl<T: Copy> Copy for ComponentRecord<T> {

}

pub open spec fn sigmas<T>(rs: Seq<ComponentRecord<T>>) -> Seq<T> {
    rs.map_values(|r: ComponentRecord<T>| r.sigma)
}

pub open spec fn epsilons<T>(rs: Seq<ComponentRecord<T>>) -> Seq<T> {
    rs.map_values(|r: ComponentRecord<T>| r.epsilon_k)
}

pub open spec fn molarweights<T>(rs: Seq<ComponentRecord<T>>) -> Seq<T> {
    rs.map_values(|r: ComponentRecord<T>| r.molarweight)
}

pub open spec fn viscosity_sets<T>(rs: Seq<ComponentRecord<T>>) -> Seq<Option<[T; 4]>> {
    rs.map_values(|r: ComponentRecord<T>| r.viscosity)
}

pub open spec fn diffusion_sets<T>(rs: Seq<ComponentRecord<T>>) -> Seq<Option<[T; 5]>> {
    rs.map_values(|r: ComponentRecord<T>| r.diffusion)
}

pub open spec fn conductivity_sets<T>(rs: Seq<ComponentRecord<T>>) -> Seq<Option<[T; 4]>> {
    rs.map_values(|r: ComponentRecord<T>| r.thermal_conductivity)
}

/// Per-component parameters together with the pair matrices derived from them.
pub struct ParameterSet<T> {
    pub molarweight: Vec<T>,
    pub sigma: Vec<T>,
    pub epsilon_k: Vec<T>,
    /// Binary correction coefficients, kept exactly as supplied.
    pub k_ij: Vec<Vec<T>>,
    /// Combined segment diameters.
    pub sigma_ij: Vec<Vec<T>>,
    /// Combined energy parameters before the binary correction.
    pub e_k_ij: Vec<Vec<T>>,
    /// Combined energy parameters after the binary correction.
    pub epsilon_k_ij: Vec<Vec<T>>,
    pub viscosity: Option<Vec<Vec<T>>>,
    pub diffusion: Option<Vec<Vec<T>>>,
    pub thermal_conductivity: Option<Vec<Vec<T>>>,
}

/// An optional transport matrix is absent exactly when some component lacks its
/// coefficient set, and otherwise holds the sets as columns.
pub open spec fn transport_agrees<T, const K: usize>(
    sets: Seq<Option<[T; K]>>,
    m: Option<Vec<Vec<T>>>,
) -> bool {
    &&& (m is Some <==> all_present(sets))
    &&& (m matches Some(x) ==> is_present_layout(sets, x@))
}

/// `p` is the parameter set of the components `rs` with binary corrections `k_ij`,
/// combined by `mean` (diameters), `geometric` (energies) and `correction`
/// (applied to each binary coefficient and combined energy).
pub open spec fn is_built_from<T, M: Fn(T, T) -> T, G: Fn(T, T) -> T, C: Fn(T, T) -> T>(
    p: ParameterSet<T>,
    rs: Seq<ComponentRecord<T>>,
    k_ij: Seq<Vec<T>>,
    mean: M,
    geometric: G,
    correction: C,
) -> bool {
    &&& p.molarweight@ == molarweights(rs)
    &&& p.sigma@ == sigmas(rs)
    &&& p.epsilon_k@ == epsilons(rs)
    &&& p.k_ij@ == k_ij
    &&& is_pairwise(sigmas(rs), mean, p.sigma_ij@)
    &&& is_pairwise(epsilons(rs), geometric, p.e_k_ij@)
    &&& is_entrywise(k_ij, p.e_k_ij@, correction, p.epsilon_k_ij@)
    &&& transport_agrees(viscosity_sets(rs), p.viscosity)
    &&& transport_agrees(diffusion_sets(rs), p.diffusion)
    &&& transport_agrees(conductivity_sets(rs), p.thermal_conductivity)
}

impl<T> ParameterSet<T> {
    /// Every per-component vector has one entry per component, and every pair
    /// matrix is square over the components.
    pub open spec fn wf(&self) -> bool {
        let n = self.sigma@.len();
        &&& self.molarweight@.len() == n
        &&& self.epsilon_k@.len() == n
        &&& is_square(self.k_ij@, n)
        &&& is_square(self.sigma_ij@, n)
        &&& is_square(self.e_k_ij@, n)
        &&& is_square(self.epsilon_k_ij@, n)
    }
}

impl<T: Copy> ParameterSet<T> {
    /// Number of components.
    pub fn len(&self) -> (r: usize)
        ensures
            r == self.sigma@.len(),
    {
        self.sigma.len()
    }

    /// Builds the parameter set of the components `records`, in order, with the
    /// `n` by `n` binary correction matrix `k_ij`.
    pub fn from_records<M: Fn(T, T) -> T, G: Fn(T, T) -> T, C: Fn(T, T) -> T>(
        records: &Vec<ComponentRecord<T>>,
        k_ij: Vec<Vec<T>>,
        mean: M,
        geometric: G,
        correction: C,
    ) -> (p: ParameterSet<T>)
        requires
            is_square(k_ij@, records@.len()),
            is_total(mean),
            is_total(geometric),
            is_total(correction),
        ensures
            is_built_from(p, records@, k_ij@, mean, geometric, correction),
            p.wf(),
    {
        let n = records.len();
        let mut molarweight: Vec<T> = Vec::with_capacity(n);
        let mut sigma: Vec<T> = Vec::with_capacity(n);
        let mut epsilon_k: Vec<T> = Vec::with_capacity(n);
        let mut viscosity: Vec<Option<[T; 4]>> = Vec::with_capacity(n);
        let mut diffusion: Vec<Option<[T; 5]>> = Vec::with_capacity(n);
        let mut conductivity: Vec<Option<[T; 4]>> = Vec::with_capacity(n);
        let mut i: usize = 0;
        while i < n
            invariant
                n == records@.len(),
                i <= n,
                molarweight@.len() == i,
                sigma@.len() == i,
                epsilon_k@.len() == i,
                viscosity@.len() == i,
                diffusion@.len() == i,
                conductivity@.len() == i,
                forall|a: int| 0 <= a < i ==> #[trigger] molarweight@[a] == records@[a].molarweight,
                forall|a: int| 0 <= a < i ==> #[trigger] sigma@[a] == records@[a].sigma,
                forall|a: int| 0 <= a < i ==> #[trigger] epsilon_k@[a] == records@[a].epsilon_k,
                forall|a: int| 0 <= a < i ==> #[trigger] viscosity@[a] == records@[a].viscosity,
                forall|a: int| 0 <= a < i ==> #[trigger] diffusion@[a] == records@[a].diffusion,
                forall|a: int|
                    0 <= a < i ==> #[trigger] conductivity@[a] == records@[a].thermal_conductivity,
            decreases n - i,
        {
            let r = &records[i];
            molarweight.push(r.molarweight);
            sigma.push(r.sigma);
            epsilon_k.push(r.epsilon_k);
            viscosity.push(r.viscosity);
            diffusion.push(r.diffusion);
            conductivity.push(r.thermal_conductivity);
            i = i + 1;
        }
        assert(molarweight@ =~= molarweights(records@));
        assert(sigma@ =~= sigmas(records@));
        assert(epsilon_k@ =~= epsilons(records@));
        assert(viscosity@ =~= viscosity_sets(records@));
        assert(diffusion@ =~= diffusion_sets(records@));
        assert(conductivity@ =~= conductivity_sets(records@));

        let sigma_ij = pairwise(&sigma, mean);
        let e_k_ij = pairwise(&epsilon_k, geometric);
        let epsilon_k_ij = entrywise(&k_ij, &e_k_ij, correction);
        ParameterSet {
            molarweight,
            sigma,
            epsilon_k,
            k_ij,
            sigma_ij,
            e_k_ij,
            epsilon_k_ij,
            viscosity: transport_matrix(viscosity),
            diffusion: transport_matrix(diffusion),
            thermal_conductivity: transport_matrix(conductivity),
        }
    }

    /// Builds the parameter set of the components named by `indices`, taken from
    /// `records` and from the rows and columns of `k_ij` that belong to them.
    pub fn from_subset<M: Fn(T, T) -> T, G: Fn(T, T) -> T, C: Fn(T, T) -> T>(
        records: &Vec<ComponentRecord<T>>,
        k_ij: &Vec<Vec<T>>,
        indices: &Vec<usize>,
        mean: M,
        geometric: G,
        correction: C,
    ) -> (p: ParameterSet<T>)
        requires
            is_square(k_ij@, records@.len()),
            indices_below(indices@, records@.len()),
            is_total(mean),
            is_total(geometric),
            is_total(correction),
        ensures
            is_selected_square(k_ij@, indices@, p.k_ij@),
            is_built_from(p, selected(records@, indices@), p.k_ij@, mean, geometric, correction),
            p.wf(),
    {
        let sub_records = select(records, indices);
        let sub_k_ij = select_square(k_ij, indices);
        ParameterSet::from_records(&sub_records, sub_k_ij, mean, geometric, correction)
    }
}

/// Built with commutative combining rules, the combined diameters and the combined
/// energies are symmetric in the two components.
pub proof fn lemma_combined_parameters_symmetric<
    T,
    M: Fn(T, T) -> T,
    G: Fn(T, T) -> T,
    C: Fn(T, T) -> T,
>(
    p: ParameterSet<T>,
    rs: Seq<ComponentRecord<T>>,
    k_ij: Seq<Vec<T>>,
    mean: M,
    geometric: G,
    correction: C,
)
    requires
        is_built_from(p, rs, k_ij, mean, geometric, correction),
        is_commutative(mean),
        is_functional(mean),
        is_commutative(geometric),
        is_functional(geometric),
    ensures
        is_symmetric(p.sigma_ij@),
        is_symmetric(p.e_k_ij@),
{
    crate::mixing::lemma_pairwise_symmetric(sigmas(rs), mean, p.sigma_ij@);
    crate::mixing::lemma_pairwise_symmetric(epsilons(rs), geometric, p.e_k_ij@);
}

/// Where every binary coefficient is `zero` and the correction leaves an energy
/// unchanged for `zero`, the corrected energies equal the uncorrected ones.
pub proof fn lemma_zero_k_ij_keeps_energies<
    T,
    M: Fn(T, T) -> T,
    G: Fn(T, T) -> T,
    C: Fn(T, T) -> T,
>(
    p: ParameterSet<T>,
    rs: Seq<ComponentRecord<T>>,
    k_ij: Seq<Vec<T>>,
    mean: M,
    geometric: G,
    correction: C,
    zero: T,
)
    requires
        is_built_from(p, rs, k_ij, mean, geometric, correction),
        is_square(k_ij, rs.len()),
        forall|i: int, j: int| 0 <= i < rs.len() && 0 <= j < rs.len() ==> #[trigger] k_ij[i]@[j] == zero,
        forall|x: T, r: T| #[trigger] correction.ensures((zero, x), r) ==> r == x,
    ensures
        forall|i: int, j: int|
            0 <= i < rs.len() && 0 <= j < rs.len() ==> #[trigger] p.epsilon_k_ij@[i]@[j]
                == p.e_k_ij@[i]@[j],
{
    crate::mixing::lemma_zero_correction_is_identity(k_ij, p.e_k_ij@, zero, correction, p.epsilon_k_ij@);
}

/// The parameter set of a subset of the components holds the parameters of the
/// retained components, and the rows and columns of the full pair matrices that
/// belong to them.
pub proof fn lemma_subset_agrees<T, M: Fn(T, T) -> T, G: Fn(T, T) -> T, C: Fn(T, T) -> T>(
    full: ParameterSet<T>,
    sub: ParameterSet<T>,
    rs: Seq<ComponentRecord<T>>,
    k_ij: Seq<Vec<T>>,
    indices: Seq<usize>,
    mean: M,
    geometric: G,
    correction: C,
)
    requires
        is_square(k_ij, rs.len()),
        indices_below(indices, rs.len()),
        is_functional(mean),
        is_functional(geometric),
        is_functional(correction),
        is_built_from(full, rs, k_ij, mean, geometric, correction),
        is_selected_square(k_ij, indices, sub.k_ij@),
        is_built_from(sub, selected(rs, indices), sub.k_ij@, mean, geometric, correction),
    ensures
        sub.sigma@ == selected(full.sigma@, indices),
        sub.epsilon_k@ == selected(full.epsilon_k@, indices),
        sub.molarweight@ == selected(full.molarweight@, indices),
        is_selected_square(full.sigma_ij@, indices, sub.sigma_ij@),
        is_selected_square(full.e_k_ij@, indices, sub.e_k_ij@),
        is_selected_square(full.epsilon_k_ij@, indices, sub.epsilon_k_ij@),
{
    let s = selected(rs, indices);
    assert(sigmas(s) =~= selected(sigmas(rs), indices));
    assert(epsilons(s) =~= selected(epsilons(rs), indices));
    assert(molarweights(s) =~= selected(molarweights(rs), indices));
    lemma_subset_of_pairwise(sigmas(rs), indices, mean, full.sigma_ij@, sub.sigma_ij@);
    lemma_subset_of_pairwise(epsilons(rs), indices, geometric, full.e_k_ij@, sub.e_k_ij@);
    lemma_subset_of_entrywise(
        k_ij,
        full.e_k_ij@,
        indices,
        correction,
        sub.k_ij@,
        sub.e_k_ij@,
        full.epsilon_k_ij@,
        sub.epsilon_k_ij@,
    );
}

/// Retaining the single component `i` gives the per-component parameters of a set
/// built from that component's record alone.
pub proof fn lemma_single_component_subset<
    T,
    M: Fn(T, T) -> T,
    G: Fn(T, T) -> T,
    C: Fn(T, T) -> T,
>(
    sub: ParameterSet<T>,
    direct: ParameterSet<T>,
    rs: Seq<ComponentRecord<T>>,
    i: usize,
    k_sub: Seq<Vec<T>>,
    k_direct: Seq<Vec<T>>,
    mean: M,
    geometric: G,
    correction: C,
)
    requires
        i < rs.len(),
        is_functional(mean),
        is_functional(geometric),
        is_built_from(sub, selected(rs, seq![i]), k_sub, mean, geometric, correction),
        is_built_from(direct, seq![rs[i as int]], k_direct, mean, geometric, correction),
    ensures
        sub.sigma@ == direct.sigma@,
        sub.epsilon_k@ == direct.epsilon_k@,
        sub.molarweight@ == direct.molarweight@,
        sub.sigma_ij@[0]@[0] == direct.sigma_ij@[0]@[0],
        sub.e_k_ij@[0]@[0] == direct.e_k_ij@[0]@[0],
{
    assert(selected(rs, seq![i]) =~= seq![rs[i as int]]);
    let s = seq![rs[i as int]];
    assert(mean.ensures((sigmas(s)[0], sigmas(s)[0]), sub.sigma_ij@[0]@[0]));
    assert(mean.ensures((sigmas(s)[0], sigmas(s)[0]), direct.sigma_ij@[0]@[0]));
    assert(geometric.ensures((epsilons(s)[0], epsilons(s)[0]), sub.e_k_ij@[0]@[0]));
    assert(geometric.ensures((epsilons(s)[0], epsilons(s)[0]), direct.e_k_ij@[0]@[0]));
}

} // verus!
