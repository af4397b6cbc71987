use gravitas::layout::{component_index, TENSOR_LEN};
use gravitas::metric::{CoordinateSystem, Minkowski, Orbit};

#[test]
fn components_are_row_major() {
    assert_eq!(component_index(0, 0), 0);
    assert_eq!(component_index(0, 3), 3);
    assert_eq!(component_index(1, 1), 5);
    assert_eq!(component_index(2, 2), 10);
    assert_eq!(component_index(3, 0), 12);
    assert_eq!(component_index(3, 3), 15);
    assert_eq!(TENSOR_LEN, 16);
}

#[test]
fn every_component_has_its_own_slot() {
    let mut seen = [false; 16];
    for mu in 0..4 {
        for nu in 0..4 {
            let i = component_index(mu, nu);
            assert!(!seen[i]);
            seen[i] = true;
        }
    }
    assert!(seen.iter().all(|s| *s));
}

#[test]
fn isco_root_sign_follows_orbit_sense() {
    assert_eq!(Orbit::Prograde.isco_root_sign(), -1);
    assert_eq!(Orbit::Retrograde.isco_root_sign(), 1);
}

#[test]
fn only_kerr_schild_is_regular_on_the_horizon() {
    assert!(CoordinateSystem::KerrSchild.regular_on_horizon());
    assert!(!CoordinateSystem::BoyerLindquist.regular_on_horizon());
}

#[test]
fn minkowski_is_a_value() {
    let m = Minkowski;
    assert_eq!(m, Minkowski);
}
