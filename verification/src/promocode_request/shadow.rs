//! The unvalidated mirror of a request.

use vstd::prelude::*;

verus! {

/// The content of a request: the name of the promocode, the customer's age
/// and the town whose weather counts.
pub struct PromocodeRequestView {
    pub promocode_name: Seq<char>,
    pub arguments: ArgumentsView,
}

/// The content of a request's arguments.
pub struct ArgumentsView {
    pub age: u8,
    pub town: Seq<char>,
}

/// A request as it arrives.
#[derive(Debug, PartialEq)]
pub struct PromocodeRequestShadow {
    pub promocode_name: String,
    pub arguments: ArgumentsShadow,
}

/// The arguments of a request as they arrive.
#[derive(Debug, PartialEq)]
pub struct ArgumentsShadow {
    pub age: u8,
    pub meteo: MeteoShadow,
}

/// The place of a request as it arrives.
#[derive(Debug, PartialEq)]
pub struct MeteoShadow {
    pub town: String,
}

impl View for MeteoShadow {
    type V = Seq<char>;

    open spec fn view(&self) -> Seq<char> {
        self.town@
    }
}

impl View for ArgumentsShadow {
    type V = ArgumentsView;

    open spec fn view(&self) -> ArgumentsView {
        ArgumentsView { age: self.age, town: self.meteo@ }
    }
}

impl View for PromocodeRequestShadow {
    type V = PromocodeRequestView;

    open spec fn view(&self) -> PromocodeRequestView {
        PromocodeRequestView { promocode_name: self.promocode_name@, arguments: self.arguments@ }
    }
}

impl Clone for MeteoShadow {
    fn clone(&self) -> (res: Self)
        ensures
            res@ == self@,
    {
        MeteoShadow { town: self.town.clone() }
    }
}

impl Clone for ArgumentsShadow {
    fn clone(&self) -> (res: Self)
        ensures
            res@ == self@,
    {
        ArgumentsShadow { age: self.age, meteo: self.meteo.clone() }
    }
}

impl Clone for PromocodeRequestShadow {
    fn clone(&self) -> (res: Self)
        ensures
            res@ == self@,
    {
        PromocodeRequestShadow {
            promocode_name: self.promocode_name.clone(),
            arguments: self.arguments.clone(),
        }
    }
}

} // verus!
