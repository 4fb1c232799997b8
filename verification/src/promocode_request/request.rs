use crate::promocode_request::arguments::Arguments;
use crate::promocode_request::meteo::town_fault;
use crate::promocode_request::shadow::{PromocodeRequestShadow, PromocodeRequestView};
use crate::validate_type::string::{is_blank, str_is_blank, NonBlankString};
use vstd::prelude::*;

verus! {

/// A request: which promocode the customer wants applied, and what they
/// say of themselves.
#[derive(Debug, PartialEq)]
pub struct PromocodeRequest {
    promocode_name: NonBlankString,
    pub arguments: Arguments,
}

impl View for PromocodeRequest {
    type V = PromocodeRequestView;

    closed spec fn view(&self) -> PromocodeRequestView {
        PromocodeRequestView { promocode_name: self.promocode_name@, arguments: self.arguments@ }
    }
}

impl Clone for PromocodeRequest {
    fn clone(&self) -> (res: Self)
        ensures
            res@ == self@,
    {
        PromocodeRequest {
            promocode_name: self.promocode_name.clone(),
            arguments: self.arguments.clone(),
        }
    }
}

/// What is wrong with a request, or `None` where neither the name of the
/// promocode nor the town is blank. The name is looked at first.
pub open spec fn request_fault(request: PromocodeRequestView) -> Option<Seq<char>> {
    if is_blank(request.promocode_name) {
        Some("`promocode_name` must be nonempty."@)
    } else {
        town_fault(request.arguments.town)
    }
}

impl PromocodeRequest {
    /// Neither the name of the promocode nor the town is blank.
    pub open spec fn wf(&self) -> bool {
        request_fault(self@) is None
    }

    /// Puts a request together. A blank name is refused first; an error
    /// that came with `arguments` is handed on as it is; arguments that came
    /// without one are checked again.
    pub fn new(promocode_name: String, arguments: Result<Arguments, String>) -> (res: Result<
        Self,
        String,
    >)
        ensures
            match res {
                Ok(request) => arguments matches Ok(given) && request@ == (PromocodeRequestView {
                    promocode_name: promocode_name@,
                    arguments: given@,
                }) && request.wf(),
                Err(err) => if is_blank(promocode_name@) {
                    err@ == "`promocode_name` must be nonempty."@
                } else {
                    match arguments {
                        Ok(given) => town_fault(given@.town) == Some(err@),
                        Err(inner) => err@ == inner@,
                    }
                },
            },
    {
        if str_is_blank(promocode_name.as_str()) {
            return Err(String::from_str("`promocode_name` must be nonempty."));
        }
        match arguments {
            Ok(given) => match given.validate() {
                Ok(checked) => Ok(
                    PromocodeRequest {
                        promocode_name: NonBlankString::new_unchecked(promocode_name),
                        arguments: checked,
                    },
                ),
                Err(err) => Err(err),
            },
            Err(inner) => Err(inner),
        }
    }

    /// Puts together a request that the caller has already checked.
    pub fn new_unchecked(promocode_name: String, arguments: Arguments) -> (res: Self)
        requires
            !is_blank(promocode_name@),
            arguments.wf(),
        ensures
            res@ == (PromocodeRequestView {
                promocode_name: promocode_name@,
                arguments: arguments@,
            }),
            res.wf(),
    {
        PromocodeRequest {
            promocode_name: NonBlankString::new_unchecked(promocode_name),
            arguments,
        }
    }

    /// The name of the promocode.
    pub fn promocode_name(&self) -> (res: String)
        ensures
            res@ == self@.promocode_name,
    {
        self.promocode_name.clone().get()
    }

    /// What the customer says of themselves.
    pub fn arguments(&self) -> (res: &Arguments)
        ensures
            res@ == self@.arguments,
    {
        &self.arguments
    }

    /// Checks the request again and hands back a copy.
    pub fn validate(&self) -> (res: Result<PromocodeRequest, String>)
        ensures
            match res {
                Ok(request) => self.wf() && request@ == self@,
                Err(err) => request_fault(self@) == Some(err@),
            },
    {
        if str_is_blank(self.promocode_name.as_str()) {
            return Err(String::from_str("`promocode_name` must be nonempty."));
        }
        match self.arguments.validate() {
            Ok(checked) => Ok(
                PromocodeRequest { promocode_name: self.promocode_name.clone(), arguments: checked },
            ),
            Err(err) => Err(err),
        }
    }

    /// Validates a shadow.
    pub fn try_from(value: PromocodeRequestShadow) -> (res: Result<Self, String>)
        ensures
            match res {
                Ok(request) => request@ == value@ && request.wf(),
                Err(err) => request_fault(value@) == Some(err@),
            },
    {
        if str_is_blank(value.promocode_name.as_str()) {
            return Err(String::from_str("`promocode_name` must be nonempty."));
        }
        match Arguments::try_from(value.arguments) {
            Ok(arguments) => Ok(
                PromocodeRequest {
                    promocode_name: NonBlankString::new_unchecked(value.promocode_name),
                    arguments,
                },
            ),
            Err(err) => Err(err),
        }
    }

    /// The shadow with the same content.
    pub fn to_shadow(&self) -> (res: PromocodeRequestShadow)
        ensures
            res@ == self@,
    {
        PromocodeRequestShadow {
            promocode_name: self.promocode_name(),
            arguments: self.arguments.to_shadow(),
        }
    }
}

} // verus!
