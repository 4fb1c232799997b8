use crate::promocode_response::shadow::ReasonsShadow;
use vstd::prelude::*;

verus! {

/// Why a promocode was denied. Nothing is told yet.
#[derive(Debug, Clone, Copy, PartialEq, Eq, Structural)]
pub struct Reasons {}

impl Reasons {
    /// There is nothing to check: hands back a copy.
    pub fn validate(&self) -> (res: Result<Reasons, String>)
        ensures
            res is Ok,
    {
        Ok(Reasons {  })
    }

    /// Validates a shadow: there is nothing to check.
    pub fn try_from(value: ReasonsShadow) -> (res: Result<Reasons, String>)
        ensures
            res is Ok,
    {
        Ok(Reasons {  })
    }

    /// The shadow with the same content.
    pub fn to_shadow(&self) -> (res: ReasonsShadow) {
        ReasonsShadow {  }
    }
}

} // verus!
