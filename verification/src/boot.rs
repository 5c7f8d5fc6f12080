//! Boot-sequence step records.
//!
//! The boot driver runs eight steps in a fixed order and records one
//! [`BootStep`] per step; the driver itself manipulates manifold scalars and
//! subsystem handles and therefore lives outside the verified core.

use vstd::prelude::*;

verus! {

/// Outcome record of one boot-sequence step.
#[derive(Debug)]
pub struct BootStep {
    /// Position of the step in the boot order, counted from 1.
    pub step: u8,
    /// Name of the step.
    pub name: &'static str,
    /// Whether the step completed.
    pub success: bool,
    /// Human-readable status message.
    pub message: String,
}

impl BootStep {
    /// Record the outcome of one boot step.
    pub fn new(step: u8, name: &'static str, success: bool, message: String) -> (b: BootStep)
        ensures
            b.step == step,
            b.name == name,
            b.success == success,
            b.message == message,
    {
        BootStep { step, name, success, message }
    }
}

} // verus!
