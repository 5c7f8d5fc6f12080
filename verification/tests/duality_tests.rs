use crsm7::duality::{Dualizable, DualityOperator};

#[test]
fn test_rank_is_one() {
    let op = DualityOperator::new();
    assert_eq!(op.rank, 1);
}

#[test]
fn test_display_names_both_projectors() {
    let op = DualityOperator::new();
    let s = op.display();
    assert_eq!(s, "  Π⁺: 0.5(1+J) applied\n  Π⁻: 0.5(1-J) applied");
}

#[test]
fn test_default_is_rank_one() {
    let op = DualityOperator::default();
    assert_eq!(op.rank, 1);
}

#[derive(Debug, Clone, Copy, PartialEq)]
struct Value(f64);

impl Dualizable for Value {
    fn apply_pi_plus(&self, _op: &DualityOperator) -> Self {
        Value(0.5 * (self.0 + -self.0))
    }

    fn apply_pi_minus(&self, _op: &DualityOperator) -> Self {
        Value(0.5 * (self.0 - -self.0))
    }
}

#[test]
fn test_dualizable_projections_sum_to_identity() {
    let op = DualityOperator::new();
    let v = Value(2.5);
    let plus = v.apply_pi_plus(&op);
    let minus = v.apply_pi_minus(&op);
    assert!((plus.0 + minus.0 - v.0).abs() < 1e-10);
}
