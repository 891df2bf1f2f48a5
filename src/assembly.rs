use vstd::prelude::*;

verus! {

/// Closure of the fundamental-measure-theory hard-sphere functional.
#[derive(PartialEq, Eq, Structural, Clone, Copy, Debug)]
pub enum FmtVersion {
    WhiteBear,
    KierlikRosinberg,
    AntiSymWhiteBear,
}

/// The Helmholtz-energy contributions a model can be assembled from.
#[derive(PartialEq, Eq, Structural, Clone, Copy, Debug)]
pub enum ContributionKind {
    HardSpherePure,
    HardSphereMixture,
    DispersionPure,
    DispersionMixture,
}

/// The simplified single-component closed forms exist for the White-Bear closures only.
pub open spec fn has_pure_form(version: FmtVersion) -> bool {
    version == FmtVersion::WhiteBear || version == FmtVersion::AntiSymWhiteBear
}

pub open spec fn pure_path_spec(n_components: nat, version: FmtVersion) -> bool {
    n_components == 1 && has_pure_form(version)
}

/// Whether a model of `n_components` components with the given closure takes the
/// single-component fast path.
pub fn uses_pure_path(n_components: usize, version: FmtVersion) -> (r: bool)
    ensures
        r == pure_path_spec(n_components as nat, version),
{
    n_components == 1 && (version == FmtVersion::WhiteBear || version
        == FmtVersion::AntiSymWhiteBear)
}

/// The contributions of a model: hard-sphere repulsion, then dispersion, each in its
/// single-component form on the fast path and in its general form otherwise.
pub open spec fn contributions_spec(n_components: nat, version: FmtVersion) -> Seq<ContributionKind> {
    if pure_path_spec(n_components, version) {
        seq![ContributionKind::HardSpherePure, ContributionKind::DispersionPure]
    } else {
        seq![ContributionKind::HardSphereMixture, ContributionKind::DispersionMixture]
    }
}

/// The contributions, in order, of a model of `n_components` components.
pub fn select_contributions(n_components: usize, version: FmtVersion) -> (r: Vec<ContributionKind>)
    ensures
        r@ == contributions_spec(n_components as nat, version),
{
    let mut r: Vec<ContributionKind> = Vec::with_capacity(2);
    if uses_pure_path(n_components, version) {
        r.push(ContributionKind::HardSpherePure);
        r.push(ContributionKind::DispersionPure);
    } else {
        r.push(ContributionKind::HardSphereMixture);
        r.push(ContributionKind::DispersionMixture);
    }
    assert(r@ =~= contributions_spec(n_components as nat, version));
    r
}

/// The choices a model fixes when it is built: its size, its hard-sphere closure and
/// the contributions that follow from the two.
pub struct Assembly {
    pub n_components: usize,
    pub fmt_version: FmtVersion,
    pub contributions: Vec<ContributionKind>,
}

impl Assembly {
    pub open spec fn wf(&self) -> bool {
        self.contributions@ == contributions_spec(self.n_components as nat, self.fmt_version)
    }

    pub fn new(n_components: usize, fmt_version: FmtVersion) -> (a: Assembly)
        ensures
            a.n_components == n_components,
            a.fmt_version == fmt_version,
            a.wf(),
    {
        Assembly {
            n_components,
            fmt_version,
            contributions: select_contributions(n_components, fmt_version),
        }
    }

    /// The assembly of a model restricted to `n_retained` of the components: the same
    /// closure, with the contributions chosen afresh for the new size.
    pub fn subset(&self, n_retained: usize) -> (a: Assembly)
        ensures
            a.n_components == n_retained,
            a.fmt_version == self.fmt_version,
            a.wf(),
    {
        Assembly::new(n_retained, self.fmt_version)
    }
}

} // verus!
