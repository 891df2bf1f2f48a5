use feos_pets::assembly::{select_contributions, uses_pure_path, Assembly, ContributionKind, FmtVersion};
use feos_pets::mixing::{entrywise, pairwise};
use feos_pets::parameters::{ComponentRecord, ParameterSet};
use feos_pets::selection::{component_index, indices_in_range, select, select_square};
use feos_pets::transport::{all_or_nothing, coefficient_columns, transport_matrix};

fn mean(a: f64, b: f64) -> f64 {
    0.5 * (a + b)
}

fn geometric(a: f64, b: f64) -> f64 {
    (a * b).sqrt()
}

fn correction(k: f64, e: f64) -> f64 {
    (1.0 - k) * e
}

fn argon() -> ComponentRecord<f64> {
    ComponentRecord {
        sigma: 3.4050,
        epsilon_k: 119.8,
        molarweight: 39.948,
        viscosity: Some([0.0, 0.0, 0.0, 0.0]),
        diffusion: Some([0.0, 0.0, 0.0, 0.0, 0.0]),
        thermal_conductivity: Some([0.0, 0.0, 0.0, 0.0]),
    }
}

fn krypton() -> ComponentRecord<f64> {
    ComponentRecord {
        sigma: 3.6300,
        epsilon_k: 163.10,
        molarweight: 83.798,
        viscosity: None,
        diffusion: None,
        thermal_conductivity: None,
    }
}

fn krypton_with_transport() -> ComponentRecord<f64> {
    ComponentRecord {
        viscosity: Some([1.0, 2.0, 3.0, 4.0]),
        diffusion: Some([5.0, 6.0, 7.0, 8.0, 9.0]),
        thermal_conductivity: Some([10.0, 11.0, 12.0, 13.0]),
        ..krypton()
    }
}

fn zeros(n: usize) -> Vec<Vec<f64>> {
    vec![vec![0.0; n]; n]
}

fn build(records: &Vec<ComponentRecord<f64>>, k_ij: Vec<Vec<f64>>) -> ParameterSet<f64> {
    ParameterSet::from_records(records, k_ij, mean, geometric, correction)
}

#[test]
fn argon_krypton_combining_rules() {
    let p = build(&vec![argon(), krypton()], zeros(2));
    assert!((p.sigma_ij[0][1] - 3.5175).abs() < 1e-12);
    assert_eq!(p.epsilon_k_ij[0][1], (119.8f64 * 163.10).sqrt());
    assert!((p.epsilon_k_ij[0][1] - 139.7833).abs() < 1e-3);
    assert_eq!(p.sigma_ij[0][0], 3.4050);
    assert_eq!(p.sigma_ij[1][1], 3.6300);
    assert_eq!(p.len(), 2);
}

#[test]
fn combined_matrices_are_symmetric() {
    let records = vec![argon(), krypton(), ComponentRecord { sigma: 3.0, epsilon_k: 100.0, ..argon() }];
    let p = build(&records, zeros(3));
    for i in 0..3 {
        for j in 0..3 {
            assert_eq!(p.sigma_ij[i][j], p.sigma_ij[j][i]);
            assert_eq!(p.e_k_ij[i][j], p.e_k_ij[j][i]);
        }
    }
}

#[test]
fn zero_k_ij_keeps_energies_exactly() {
    let p = build(&vec![argon(), krypton()], zeros(2));
    for i in 0..2 {
        for j in 0..2 {
            assert_eq!(p.epsilon_k_ij[i][j], p.e_k_ij[i][j]);
        }
    }
}

#[test]
fn k_ij_corrects_energies_and_is_kept_as_given() {
    let k_ij = vec![vec![0.0, 0.1], vec![0.0, 0.0]];
    let p = build(&vec![argon(), krypton()], k_ij.clone());
    assert_eq!(p.k_ij, k_ij);
    assert_eq!(p.epsilon_k_ij[0][1], 0.9 * p.e_k_ij[0][1]);
    assert_eq!(p.epsilon_k_ij[1][0], p.e_k_ij[1][0]);
}

#[test]
fn transport_absent_when_one_component_lacks_it() {
    let p = build(&vec![argon(), krypton()], zeros(2));
    assert!(p.viscosity.is_none());
    assert!(p.diffusion.is_none());
    assert!(p.thermal_conductivity.is_none());
}

#[test]
fn transport_present_when_all_components_have_it() {
    let p = build(&vec![argon(), krypton_with_transport()], zeros(2));
    let v = p.viscosity.unwrap();
    assert_eq!(v, vec![vec![0.0, 1.0], vec![0.0, 2.0], vec![0.0, 3.0], vec![0.0, 4.0]]);
    let d = p.diffusion.unwrap();
    assert_eq!(d.len(), 5);
    assert_eq!(d[4], vec![0.0, 9.0]);
    let t = p.thermal_conductivity.unwrap();
    assert_eq!(t[0], vec![0.0, 10.0]);
}

#[test]
fn pure_argon_has_transport_matrices() {
    let p = build(&vec![argon()], zeros(1));
    assert_eq!(p.viscosity, Some(vec![vec![0.0]; 4]));
    assert_eq!(p.diffusion, Some(vec![vec![0.0]; 5]));
}

#[test]
fn subset_matches_direct_build() {
    let records = vec![argon(), krypton()];
    let k_ij = vec![vec![0.0, 0.2], vec![0.3, 0.0]];
    let sub = ParameterSet::from_subset(&records, &k_ij, &vec![1], mean, geometric, correction);
    let direct = build(&vec![krypton()], zeros(1));
    assert_eq!(sub.sigma, direct.sigma);
    assert_eq!(sub.epsilon_k, direct.epsilon_k);
    assert_eq!(sub.molarweight, direct.molarweight);
    assert_eq!(sub.sigma_ij, direct.sigma_ij);
    assert_eq!(sub.e_k_ij, direct.e_k_ij);
    assert_eq!(sub.epsilon_k_ij, direct.epsilon_k_ij);
}

#[test]
fn subset_reorders_and_keeps_pair_coefficients() {
    let records = vec![argon(), krypton(), ComponentRecord { sigma: 3.0, ..argon() }];
    let k_ij = vec![vec![0.0, 0.1, 0.2], vec![0.3, 0.0, 0.4], vec![0.5, 0.6, 0.0]];
    let full = build(&records, k_ij.clone());
    let sub = ParameterSet::from_subset(&records, &k_ij, &vec![2, 0], mean, geometric, correction);
    assert_eq!(sub.sigma, vec![3.0, 3.4050]);
    assert_eq!(sub.k_ij, vec![vec![0.0, 0.5], vec![0.2, 0.0]]);
    assert_eq!(sub.sigma_ij[0][1], full.sigma_ij[2][0]);
    assert_eq!(sub.epsilon_k_ij[1][0], full.epsilon_k_ij[0][2]);
}

#[test]
fn pairwise_and_entrywise_on_integers() {
    let m = pairwise(&vec![1u32, 2, 3], |a: u32, b: u32| a * 10 + b);
    assert_eq!(m, vec![vec![11, 12, 13], vec![21, 22, 23], vec![31, 32, 33]]);
    let e = entrywise(&m, &m, |a: u32, b: u32| a + b);
    assert_eq!(e[2][1], 64);
    assert!(pairwise(&Vec::<u32>::new(), |a: u32, b: u32| a + b).is_empty());
}

#[test]
fn selection_helpers() {
    assert_eq!(component_index(3), vec![0, 1, 2]);
    assert!(indices_in_range(&vec![0, 2, 1], 3));
    assert!(!indices_in_range(&vec![0, 3], 3));
    assert!(indices_in_range(&vec![], 0));
    assert!(component_index(0).is_empty());
    assert_eq!(select(&vec![10, 20, 30], &vec![2, 2, 0]), vec![30, 30, 10]);
    let m = vec![vec![1, 2], vec![3, 4]];
    assert_eq!(select_square(&m, &vec![1, 0]), vec![vec![4, 3], vec![2, 1]]);
    assert!(select_square(&m, &vec![]).is_empty());
}

#[test]
fn all_or_nothing_cases() {
    assert_eq!(all_or_nothing(vec![Some(1), Some(2)]), Some(vec![1, 2]));
    assert_eq!(all_or_nothing(vec![Some(1), None, Some(3)]), None);
    assert_eq!(all_or_nothing(Vec::<Option<u8>>::new()), Some(vec![]));
    assert_eq!(coefficient_columns(&vec![[1, 2], [3, 4], [5, 6]]), vec![vec![1, 3, 5], vec![2, 4, 6]]);
    assert_eq!(transport_matrix(vec![Some([1, 2]), None]), None);
    assert_eq!(transport_matrix(vec![Some([1, 2]), Some([3, 4])]), Some(vec![vec![1, 3], vec![2, 4]]));
}

#[test]
fn path_selection() {
    assert!(uses_pure_path(1, FmtVersion::WhiteBear));
    assert!(uses_pure_path(1, FmtVersion::AntiSymWhiteBear));
    assert!(!uses_pure_path(1, FmtVersion::KierlikRosinberg));
    assert!(!uses_pure_path(2, FmtVersion::WhiteBear));
    assert_eq!(
        select_contributions(1, FmtVersion::WhiteBear),
        vec![ContributionKind::HardSpherePure, ContributionKind::DispersionPure]
    );
    assert_eq!(
        select_contributions(3, FmtVersion::AntiSymWhiteBear),
        vec![ContributionKind::HardSphereMixture, ContributionKind::DispersionMixture]
    );
}

#[test]
fn assembly_subset_reselects_contributions() {
    let a = Assembly::new(2, FmtVersion::WhiteBear);
    assert_eq!(a.contributions, vec![ContributionKind::HardSphereMixture, ContributionKind::DispersionMixture]);
    let s = a.subset(1);
    assert_eq!(s.n_components, 1);
    assert_eq!(s.fmt_version, FmtVersion::WhiteBear);
    assert_eq!(s.contributions, vec![ContributionKind::HardSpherePure, ContributionKind::DispersionPure]);
}
