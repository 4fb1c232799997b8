//! The unvalidated mirrors of the two answers.

use crate::promocode::shadow::AvantageShadow;
use vstd::prelude::*;

verus! {

/// The content of an answer that accepts: the name of the promocode, the
/// word for the status, and the discount.
pub struct AcceptedView {
    pub promocode_name: Seq<char>,
    pub status: Seq<char>,
    pub percent: u8,
}

/// The content of an answer that denies: the name of the promocode and the
/// word for the status.
pub struct DeniedView {
    pub promocode_name: Seq<char>,
    pub status: Seq<char>,
}

/// An answer that accepts, as it arrives.
#[derive(Debug, PartialEq)]
pub struct PromocodeAcceptedShadow {
    pub promocode_name: String,
    pub status: String,
    pub avantage: AvantageShadow,
}

/// An answer that denies, as it arrives.
#[derive(Debug, PartialEq)]
pub struct PromocodeDeniedShadow {
    pub promocode_name: String,
    pub status: String,
    pub reasons: ReasonsShadow,
}

/// The reasons of a denial as they arrive. Nothing is told yet.
#[derive(Debug, Clone, Copy, PartialEq, Eq, Structural)]
pub struct ReasonsShadow {}

impl View for PromocodeAcceptedShadow {
    type V = AcceptedView;

    open spec fn view(&self) -> AcceptedView {
        AcceptedView {
            promocode_name: self.promocode_name@,
            status: self.status@,
            percent: self.avantage@,
        }
    }
}

impl View for PromocodeDeniedShadow {
    type V = DeniedView;

    open spec fn view(&self) -> DeniedView {
        DeniedView { promocode_name: self.promocode_name@, status: self.status@ }
    }
}

impl Clone for PromocodeAcceptedShadow {
    fn clone(&self) -> (res: Self)
        ensures
            res@ == self@,
    {
        PromocodeAcceptedShadow {
            promocode_name: self.promocode_name.clone(),
            status: self.status.clone(),
            avantage: self.avantage,
        }
    }
}

impl Clone for PromocodeDeniedShadow {
    fn clone(&self) -> (res: Self)
        ensures
            res@ == self@,
    {
        PromocodeDeniedShadow {
            promocode_name: self.promocode_name.clone(),
            status: self.status.clone(),
            reasons: self.reasons,
        }
    }
}

} // verus!
