use crate::promocode::avantage::{avantage_fault, Avantage};
use crate::promocode_response::accepted::PromocodeAccepted;
use crate::promocode_response::denied::PromocodeDenied;
use crate::promocode_response::reason::Reasons;
use crate::promocode_response::shadow::{AcceptedView, DeniedView};
use crate::promocode_response::status::Status;
use crate::validate_type::string::{is_blank, str_is_blank, NonBlankString};
use vstd::prelude::*;

verus! {

/// The answer to a request.
#[derive(Debug, PartialEq)]
pub enum PromocodeResponse {
    Accepted { promocode_name: NonBlankString, status: Status, avantage: Avantage },
    Denied { promocode_name: NonBlankString, status: Status, reasons: Reasons },
}

/// The content of an answer.
pub enum ResponseView {
    Accepted { promocode_name: Seq<char>, status: Status, percent: u8 },
    Denied { promocode_name: Seq<char>, status: Status },
}

impl View for PromocodeResponse {
    type V = ResponseView;

    open spec fn view(&self) -> ResponseView {
        match self {
            PromocodeResponse::Accepted { promocode_name, status, avantage } => {
                ResponseView::Accepted {
                    promocode_name: promocode_name@,
                    status: *status,
                    percent: avantage@,
                }
            },
            PromocodeResponse::Denied { promocode_name, status, reasons } => ResponseView::Denied {
                promocode_name: promocode_name@,
                status: *status,
            },
        }
    }
}

impl Clone for PromocodeResponse {
    fn clone(&self) -> (res: Self)
        ensures
            res@ == self@,
    {
        match self {
            PromocodeResponse::Accepted { promocode_name, status, avantage } => {
                PromocodeResponse::Accepted {
                    promocode_name: promocode_name.clone(),
                    status: *status,
                    avantage: avantage.clone(),
                }
            },
            PromocodeResponse::Denied { promocode_name, status, reasons } => {
                PromocodeResponse::Denied {
                    promocode_name: promocode_name.clone(),
                    status: *status,
                    reasons: *reasons,
                }
            },
        }
    }
}

/// An answer is well formed: the name is not blank, the status is that of
/// the variant, and the discount of an answer that accepts is at most 100.
pub open spec fn valid_response(response: ResponseView) -> bool {
    match response {
        ResponseView::Accepted { promocode_name, status, percent } => {
            &&& !is_blank(promocode_name)
            &&& status == Status::Accepted
            &&& percent <= 100
        },
        ResponseView::Denied { promocode_name, status } => {
            &&& !is_blank(promocode_name)
            &&& status == Status::Denied
        },
    }
}

/// What the parts of an answer make: the answer, or what is wrong with
/// them. The name is looked at first; then the status must be `Accepted`
/// with a discount and no reasons, or `Denied` with reasons and no
/// discount; then the discount is checked.
pub open spec fn response_of_parts(
    promocode_name: Seq<char>,
    status: Status,
    percent: Option<u8>,
    reasons: bool,
) -> Result<ResponseView, Seq<char>> {
    if is_blank(promocode_name) {
        Err("`promocode_name` must be nonempty."@)
    } else {
        match (status, percent, reasons) {
            (Status::Accepted, Some(discount), false) => match avantage_fault(discount) {
                Some(fault) => Err(fault),
                None => Ok(
                    ResponseView::Accepted {
                        promocode_name,
                        status: Status::Accepted,
                        percent: discount,
                    },
                ),
            },
            (Status::Denied, None, true) => Ok(
                ResponseView::Denied { promocode_name, status: Status::Denied },
            ),
            _ => Err("Invalid promocode response"@),
        }
    }
}

/// The discount inside an advantage that may be missing.
pub open spec fn percent_of(avantage: Option<Avantage>) -> Option<u8> {
    match avantage {
        Some(value) => Some(value@),
        None => None,
    }
}

impl PromocodeResponse {
    /// The answer is well formed.
    pub open spec fn wf(&self) -> bool {
        valid_response(self@)
    }

    /// The answer that accepts. Fails where the name is blank or the
    /// discount is above 100; the name is looked at first.
    pub fn accepted(promocode_name: String, avantage: Avantage) -> (res: Result<Self, String>)
        ensures
            match res {
                Ok(response) => response.wf() && Ok::<ResponseView, Seq<char>>(response@)
                    == response_of_parts(
                    promocode_name@,
                    Status::Accepted,
                    Some(avantage@),
                    false,
                ),
                Err(err) => Err::<ResponseView, Seq<char>>(err@) == response_of_parts(
                    promocode_name@,
                    Status::Accepted,
                    Some(avantage@),
                    false,
                ),
            },
    {
        if str_is_blank(promocode_name.as_str()) {
            return Err(String::from_str("`promocode_name` must be nonempty."));
        }
        match avantage.validate() {
            Ok(checked) => Ok(
                PromocodeResponse::Accepted {
                    promocode_name: NonBlankString::new_unchecked(promocode_name),
                    status: Status::Accepted,
                    avantage: checked,
                },
            ),
            Err(err) => Err(err),
        }
    }

    /// The answer that accepts, from parts that the caller has already
    /// checked.
    pub fn accepted_unchecked(promocode_name: String, avantage: Avantage) -> (res: Self)
        requires
            !is_blank(promocode_name@),
            avantage.wf(),
        ensures
            res@ == (ResponseView::Accepted {
                promocode_name: promocode_name@,
                status: Status::Accepted,
                percent: avantage@,
            }),
            res.wf(),
    {
        PromocodeResponse::Accepted {
            promocode_name: NonBlankString::new_unchecked(promocode_name),
            status: Status::Accepted,
            avantage,
        }
    }

    /// The answer that denies. Fails where the name is blank.
    pub fn denied(promocode_name: String, reasons: Reasons) -> (res: Result<Self, String>)
        ensures
            match res {
                Ok(response) => response.wf() && Ok::<ResponseView, Seq<char>>(response@)
                    == response_of_parts(promocode_name@, Status::Denied, None, true),
                Err(err) => Err::<ResponseView, Seq<char>>(err@) == response_of_parts(
                    promocode_name@,
                    Status::Denied,
                    None,
                    true,
                ),
            },
    {
        if str_is_blank(promocode_name.as_str()) {
            return Err(String::from_str("`promocode_name` must be nonempty."));
        }
        Ok(Self::denied_unchecked(promocode_name, reasons))
    }

    /// The answer that denies, from a name that the caller has already
    /// checked.
    pub fn denied_unchecked(promocode_name: String, reasons: Reasons) -> (res: Self)
        requires
            !is_blank(promocode_name@),
        ensures
            res@ == (ResponseView::Denied {
                promocode_name: promocode_name@,
                status: Status::Denied,
            }),
            res.wf(),
    {
        PromocodeResponse::Denied {
            promocode_name: NonBlankString::new_unchecked(promocode_name),
            status: Status::Denied,
            reasons,
        }
    }

    /// Puts an answer together from the parts that were read off the wire,
    /// where the discount and the reasons may each be missing.
    pub fn from_parts(
        promocode_name: String,
        status: Status,
        avantage: Option<Avantage>,
        reasons: Option<Reasons>,
    ) -> (res: Result<Self, String>)
        ensures
            match res {
                Ok(response) => response.wf() && Ok::<ResponseView, Seq<char>>(response@)
                    == response_of_parts(
                    promocode_name@,
                    status,
                    percent_of(avantage),
                    reasons is Some,
                ),
                Err(err) => Err::<ResponseView, Seq<char>>(err@) == response_of_parts(
                    promocode_name@,
                    status,
                    percent_of(avantage),
                    reasons is Some,
                ),
            },
    {
        if str_is_blank(promocode_name.as_str()) {
            return Err(String::from_str("`promocode_name` must be nonempty."));
        }
        match (status, avantage, reasons) {
            (Status::Accepted, Some(discount), None) => Self::accepted(promocode_name, discount),
            (Status::Denied, None, Some(given)) => Self::denied(promocode_name, given),
            _ => Err(String::from_str("Invalid promocode response")),
        }
    }

    /// The name of the promocode that the answer is about.
    pub fn promocode_name(&self) -> (res: String)
        ensures
            res@ == match self@ {
                ResponseView::Accepted { promocode_name, .. } => promocode_name,
                ResponseView::Denied { promocode_name, .. } => promocode_name,
            },
    {
        match self {
            PromocodeResponse::Accepted { promocode_name, .. } => promocode_name.clone().get(),
            PromocodeResponse::Denied { promocode_name, .. } => promocode_name.clone().get(),
        }
    }

    /// The answer as a record, with the status as its word: the record
    /// that accepts or, as the error, the record that denies.
    pub fn to_record(&self) -> (res: Result<PromocodeAccepted, PromocodeDenied>)
        ensures
            match (res, self@) {
                (Ok(accepted), ResponseView::Accepted { promocode_name, status, percent }) => {
                    accepted@ == (AcceptedView { promocode_name, status: status.word(), percent })
                },
                (Err(denied), ResponseView::Denied { promocode_name, status }) => denied@ == (
                DeniedView { promocode_name, status: status.word() }),
                _ => false,
            },
    {
        match self {
            PromocodeResponse::Accepted { promocode_name, status, avantage } => Ok(
                PromocodeAccepted {
                    promocode_name: promocode_name.clone().get(),
                    status: status.name(),
                    avantage: avantage.clone(),
                },
            ),
            PromocodeResponse::Denied { promocode_name, status, reasons } => Err(
                PromocodeDenied {
                    promocode_name: promocode_name.clone().get(),
                    status: status.name(),
                    reasons: *reasons,
                },
            ),
        }
    }
}

} // verus!
