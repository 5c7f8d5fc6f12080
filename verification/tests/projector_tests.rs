//! Numeric checks of the projector algebra built from a generic involution:
//! Π⁺ = (I + J) / 2 and Π⁻ = (I - J) / 2 over double-precision scalars.
//! The scalar projectors themselves run in the unverified driver, so the
//! formulas are exercised here directly.

#[test]
fn test_bifurcation_with_generic_j() {
    let custom_j = |psi: f64| -psi;

    let psi = 4.0;
    let plus = 0.5 * (psi + custom_j(psi));
    let minus = 0.5 * (psi - custom_j(psi));

    assert!((plus + minus - psi).abs() < 1e-10);
}
