use crate::promocode_request::meteo::{town_fault, Meteo};
use crate::promocode_request::shadow::{ArgumentsShadow, ArgumentsView};
use vstd::prelude::*;

verus! {

/// What the customer says of themselves: their age, and where they are.
#[derive(Debug, PartialEq)]
pub struct Arguments {
    pub age: u8,
    pub meteo: Meteo,
}

impl View for Arguments {
    type V = ArgumentsView;

    open spec fn view(&self) -> ArgumentsView {
        ArgumentsView { age: self.age, town: self.meteo@ }
    }
}

impl Clone for Arguments {
    fn clone(&self) -> (res: Self)
        ensures
            res@ == self@,
    {
        Arguments { age: self.age, meteo: self.meteo.clone() }
    }
}

impl Arguments {
    /// The town is not blank.
    pub open spec fn wf(&self) -> bool {
        self.meteo.wf()
    }

    /// Puts the arguments together. An error that came with `meteo` is
    /// handed on as it is; a town that came without one is checked again.
    pub fn new(age: u8, meteo: Result<Meteo, String>) -> (res: Result<Self, String>)
        ensures
            match res {
                Ok(arguments) => meteo matches Ok(given) && town_fault(given@) is None
                    && arguments@ == (ArgumentsView { age, town: given@ }) && arguments.wf(),
                Err(err) => match meteo {
                    Ok(given) => town_fault(given@) == Some(err@),
                    Err(inner) => err@ == inner@,
                },
            },
    {
        match meteo {
            Ok(given) => match given.validate() {
                Ok(checked) => Ok(Arguments { age, meteo: checked }),
                Err(err) => Err(err),
            },
            Err(inner) => Err(inner),
        }
    }

    /// Puts together arguments that the caller has already checked.
    pub fn new_unchecked(age: u8, meteo: Meteo) -> (res: Self)
        requires
            meteo.wf(),
        ensures
            res@ == (ArgumentsView { age, town: meteo@ }),
            res.wf(),
    {
        Arguments { age, meteo }
    }

    /// Checks the arguments again and hands back a copy.
    pub fn validate(&self) -> (res: Result<Arguments, String>)
        ensures
            match res {
                Ok(arguments) => self.wf() && arguments@ == self@,
                Err(err) => town_fault(self@.town) == Some(err@),
            },
    {
        match self.meteo.validate() {
            Ok(checked) => Ok(Arguments { age: self.age, meteo: checked }),
            Err(err) => Err(err),
        }
    }

    /// Validates a shadow.
    pub fn try_from(value: ArgumentsShadow) -> (res: Result<Self, String>)
        ensures
            match res {
                Ok(arguments) => town_fault(value@.town) is None && arguments@ == value@
                    && arguments.wf(),
                Err(err) => town_fault(value@.town) == Some(err@),
            },
    {
        match Meteo::try_from(value.meteo) {
            Ok(meteo) => Ok(Arguments { age: value.age, meteo }),
            Err(err) => Err(err),
        }
    }

    /// The shadow with the same content.
    pub fn to_shadow(&self) -> (res: ArgumentsShadow)
        ensures
            res@ == self@,
    {
        ArgumentsShadow { age: self.age, meteo: self.meteo.to_shadow() }
    }
}

} // verus!
