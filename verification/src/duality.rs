//! The duality operator record and the trait for values it can transform.
//!
//! The operator itself carries only its rank; the two projector maps it
//! stands for act on double-precision scalars and therefore run in the
//! unverified driver.  A proper duality operator has rank one.

use vstd::prelude::*;

verus! {

/// Duality operator backing the projector pair.
#[derive(Debug, Clone)]
pub struct DualityOperator {
    /// Rank of the operator; a proper duality has rank 1.
    pub rank: i32,
}

impl DualityOperator {
    /// Create the canonical rank-one duality operator.
    pub fn new() -> (op: DualityOperator)
        ensures
            op.rank == 1,
    {
        DualityOperator { rank: 1 }
    }

    /// Status line describing the projector pair.
    pub fn display(&self) -> (s: String)
        ensures
            s@ == "  Π⁺: 0.5(1+J) applied\n  Π⁻: 0.5(1-J) applied"@,
    {
        "  Π⁺: 0.5(1+J) applied\n  Π⁻: 0.5(1-J) applied".to_owned()
    }
}

impl Default for DualityOperator {
    /// The default operator is the canonical rank-one one.
    fn default() -> (op: DualityOperator)
        ensures
            op.rank == 1,
    {
        DualityOperator::new()
    }
}

/// Values that can undergo the duality transformation.  The driver
/// implements this for its scalar type; nothing in the verified core does.
pub trait Dualizable: Sized {
    /// Apply the positive-polarity projection.
    fn apply_pi_plus(&self, op: &DualityOperator) -> Self;

    /// Apply the negative-polarity projection.
    fn apply_pi_minus(&self, op: &DualityOperator) -> Self;
}

} // verus!
