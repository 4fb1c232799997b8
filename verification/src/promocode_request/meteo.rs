use crate::promocode_request::shadow::MeteoShadow;
use crate::validate_type::string::{is_blank, str_is_blank, NonBlankString};
use vstd::prelude::*;

verus! {

/// Where the customer is: the town whose weather counts.
#[derive(Debug, PartialEq)]
pub struct Meteo {
    town: NonBlankString,
}

impl View for Meteo {
    type V = Seq<char>;

    closed spec fn view(&self) -> Seq<char> {
        self.town@
    }
}

impl Clone for Meteo {
    fn clone(&self) -> (res: Self)
        ensures
            res@ == self@,
    {
        Meteo { town: self.town.clone() }
    }
}

/// What is wrong with a town, or `None` where it is not blank.
pub open spec fn town_fault(town: Seq<char>) -> Option<Seq<char>> {
    if is_blank(town) {
        Some("`town` must be nonempty."@)
    } else {
        None
    }
}

impl Meteo {
    /// The town is not blank.
    pub open spec fn wf(&self) -> bool {
        !is_blank(self@)
    }

    /// Accepts every town whose name is not blank.
    pub fn new(town: String) -> (res: Result<Self, String>)
        ensures
            match res {
                Ok(meteo) => town_fault(town@) is None && meteo@ == town@ && meteo.wf(),
                Err(err) => town_fault(town@) == Some(err@),
            },
    {
        if str_is_blank(town.as_str()) {
            Err(String::from_str("`town` must be nonempty."))
        } else {
            Ok(Self::new_unchecked(town))
        }
    }

    /// Wraps a town that the caller has already checked.
    pub fn new_unchecked(town: String) -> (res: Self)
        requires
            !is_blank(town@),
        ensures
            res@ == town@,
            res.wf(),
    {
        Meteo { town: NonBlankString::new_unchecked(town) }
    }

    /// The name of the town.
    pub fn town(&self) -> (res: String)
        ensures
            res@ == self@,
    {
        self.town.clone().get()
    }

    /// Checks the town again and hands back a copy.
    pub fn validate(&self) -> (res: Result<Meteo, String>)
        ensures
            match res {
                Ok(meteo) => self.wf() && meteo@ == self@,
                Err(err) => town_fault(self@) == Some(err@),
            },
    {
        if str_is_blank(self.town.as_str()) {
            Err(String::from_str("`town` must be nonempty."))
        } else {
            Ok(self.clone())
        }
    }

    /// Validates a shadow.
    pub fn try_from(value: MeteoShadow) -> (res: Result<Self, String>)
        ensures
            match res {
                Ok(meteo) => town_fault(value@) is None && meteo@ == value@ && meteo.wf(),
                Err(err) => town_fault(value@) == Some(err@),
            },
    {
        Self::new(value.town)
    }

    /// The shadow with the same content.
    pub fn to_shadow(&self) -> (res: MeteoShadow)
        ensures
            res@ == self@,
    {
        MeteoShadow { town: self.town() }
    }
}

} // verus!
