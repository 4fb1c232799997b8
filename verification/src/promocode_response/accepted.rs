use crate::promocode::avantage::{avantage_fault, Avantage};
use crate::promocode_response::shadow::{AcceptedView, PromocodeAcceptedShadow};
use crate::validate_type::string::{is_blank, str_is_blank};
use vstd::prelude::*;

verus! {

/// The answer that accepts, as a record: the name of the promocode, the
/// word for the status, and the discount.
#[derive(Debug, PartialEq)]
pub struct PromocodeAccepted {
    pub promocode_name: String,
    pub status: String,
    pub avantage: Avantage,
}

impl View for PromocodeAccepted {
    type V = AcceptedView;

    open spec fn view(&self) -> AcceptedView {
        AcceptedView {
            promocode_name: self.promocode_name@,
            status: self.status@,
            percent: self.avantage@,
        }
    }
}

impl Clone for PromocodeAccepted {
    fn clone(&self) -> (res: Self)
        ensures
            res@ == self@,
    {
        PromocodeAccepted {
            promocode_name: self.promocode_name.clone(),
            status: self.status.clone(),
            avantage: self.avantage.clone(),
        }
    }
}

/// What is wrong with an answer that accepts, or `None` where the name is
/// not blank and the discount is at most 100. The name is looked at first.
pub open spec fn accepted_fault(accepted: AcceptedView) -> Option<Seq<char>> {
    if is_blank(accepted.promocode_name) {
        Some("`promocode_name` must be nonempty."@)
    } else {
        avantage_fault(accepted.percent)
    }
}

impl PromocodeAccepted {
    /// The name is not blank and the discount is at most 100.
    pub open spec fn wf(&self) -> bool {
        accepted_fault(self@) is None
    }

    /// Checks the record and hands back a copy.
    pub fn validate(&self) -> (res: Result<PromocodeAccepted, String>)
        ensures
            match res {
                Ok(accepted) => self.wf() && accepted@ == self@,
                Err(err) => accepted_fault(self@) == Some(err@),
            },
    {
        if str_is_blank(self.promocode_name.as_str()) {
            return Err(String::from_str("`promocode_name` must be nonempty."));
        }
        match self.avantage.validate() {
            Ok(avantage) => Ok(
                PromocodeAccepted {
                    promocode_name: self.promocode_name.clone(),
                    status: self.status.clone(),
                    avantage,
                },
            ),
            Err(err) => Err(err),
        }
    }

    /// Validates a shadow.
    pub fn try_from(value: PromocodeAcceptedShadow) -> (res: Result<Self, String>)
        ensures
            match res {
                Ok(accepted) => accepted.wf() && accepted@ == value@,
                Err(err) => accepted_fault(value@) == Some(err@),
            },
    {
        if str_is_blank(value.promocode_name.as_str()) {
            return Err(String::from_str("`promocode_name` must be nonempty."));
        }
        match Avantage::try_from(value.avantage) {
            Ok(avantage) => Ok(
                PromocodeAccepted {
                    promocode_name: value.promocode_name,
                    status: value.status,
                    avantage,
                },
            ),
            Err(err) => Err(err),
        }
    }

    /// The shadow with the same content.
    pub fn to_shadow(&self) -> (res: PromocodeAcceptedShadow)
        ensures
            res@ == self@,
    {
        PromocodeAcceptedShadow {
            promocode_name: self.promocode_name.clone(),
            status: self.status.clone(),
            avantage: self.avantage.to_shadow(),
        }
    }
}

} // verus!
