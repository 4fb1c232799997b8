use crate::promocode_response::reason::Reasons;
use crate::promocode_response::shadow::{DeniedView, PromocodeDeniedShadow};
use crate::validate_type::string::{is_blank, str_is_blank};
use vstd::prelude::*;

verus! {

/// The answer that denies, as a record: the name of the promocode, the word
/// for the status, and the reasons.
#[derive(Debug, PartialEq)]
pub struct PromocodeDenied {
    pub promocode_name: String,
    pub status: String,
    pub reasons: Reasons,
}

impl View for PromocodeDenied {
    type V = DeniedView;

    open spec fn view(&self) -> DeniedView {
        DeniedView { promocode_name: self.promocode_name@, status: self.status@ }
    }
}

impl Clone for PromocodeDenied {
    fn clone(&self) -> (res: Self)
        ensures
            res@ == self@,
    {
        PromocodeDenied {
            promocode_name: self.promocode_name.clone(),
            status: self.status.clone(),
            reasons: self.reasons,
        }
    }
}

/// What is wrong with an answer that denies, or `None` where the name is
/// not blank.
pub open spec fn denied_fault(denied: DeniedView) -> Option<Seq<char>> {
    if is_blank(denied.promocode_name) {
        Some("`promocode_name` must be nonempty."@)
    } else {
        None
    }
}

impl PromocodeDenied {
    /// The name is not blank.
    pub open spec fn wf(&self) -> bool {
        denied_fault(self@) is None
    }

    /// Checks the record and hands back a copy.
    pub fn validate(&self) -> (res: Result<PromocodeDenied, String>)
        ensures
            match res {
                Ok(denied) => self.wf() && denied@ == self@,
                Err(err) => denied_fault(self@) == Some(err@),
            },
    {
        if str_is_blank(self.promocode_name.as_str()) {
            return Err(String::from_str("`promocode_name` must be nonempty."));
        }
        Ok(self.clone())
    }

    /// Validates a shadow.
    pub fn try_from(value: PromocodeDeniedShadow) -> (res: Result<Self, String>)
        ensures
            match res {
                Ok(denied) => denied.wf() && denied@ == value@,
                Err(err) => denied_fault(value@) == Some(err@),
            },
    {
        if str_is_blank(value.promocode_name.as_str()) {
            return Err(String::from_str("`promocode_name` must be nonempty."));
        }
        Ok(
            PromocodeDenied {
                promocode_name: value.promocode_name,
                status: value.status,
                reasons: Reasons {  },
            },
        )
    }

    /// The shadow with the same content.
    pub fn to_shadow(&self) -> (res: PromocodeDeniedShadow)
        ensures
            res@ == self@,
    {
        PromocodeDeniedShadow {
            promocode_name: self.promocode_name.clone(),
            status: self.status.clone(),
            reasons: self.reasons.to_shadow(),
        }
    }
}

} // verus!
