//! Flash memory peripheral handles.

use vstd::prelude::*;

verus! {

/// Extension trait that constrains a raw flash peripheral into its parts;
/// the layer that owns the register block implements it.
pub trait FlashExt {
    /// Consumes the raw peripheral and hands out the constrained parts.
    fn constrain(self) -> Parts;
}

/// Opaque access-control register handle; holding it grants exclusive
/// access to the flash wait-state configuration.
pub struct ACR {
    _p: (),
}

/// Constrained flash peripheral.
pub struct Parts {
    /// Opaque access-control register handle.
    pub acr: ACR,
}

impl Parts {
    /// Builds the constrained parts; intended to be called exactly once,
    /// by the layer that owns the flash register block.
    pub fn new() -> Parts {
        Parts { acr: ACR { _p: () } }
    }
}

} // verus!
