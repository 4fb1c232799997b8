use crate::promocode::rules::temp_fault;
use crate::promocode::shadow::TempShadow;
use crate::promocode::temperature::{
    is_numeral,
    str_is_numeral,
    threshold_is_reached,
    threshold_reached,
};
use vstd::prelude::*;

verus! {

/// The temperature that a weather restriction asks for: a threshold,
/// written as a numeral, that the observed temperature must reach.
#[derive(Debug, PartialEq)]
pub struct Temp {
    pub gt: String,
}

impl View for Temp {
    type V = Seq<char>;

    open spec fn view(&self) -> Seq<char> {
        self.gt@
    }
}

impl Clone for Temp {
    fn clone(&self) -> (res: Self)
        ensures
            res@ == self@,
    {
        Temp { gt: self.gt.clone() }
    }
}

/// Checks a threshold as it is written.
pub fn check_temp(gt: &str) -> (res: Result<(), String>)
    ensures
        match res {
            Ok(_) => temp_fault(gt@) is None,
            Err(err) => temp_fault(gt@) == Some(err@),
        },
{
    if gt.is_empty() {
        Err(String::from_str("`gt` must be nonempty."))
    } else if !str_is_numeral(gt) {
        Err(String::from_str("`gt` must be numeric."))
    } else {
        Ok(())
    }
}

impl Temp {
    /// The threshold is a numeral.
    pub open spec fn wf(&self) -> bool {
        is_numeral(self@)
    }

    /// Checks the threshold and hands back a copy.
    pub fn validate(&self) -> (res: Result<Self, String>)
        ensures
            match res {
                Ok(temp) => self.wf() && temp@ == self@,
                Err(err) => temp_fault(self@) == Some(err@),
            },
    {
        match check_temp(self.gt.as_str()) {
            Ok(_) => Ok(self.clone()),
            Err(err) => Err(err),
        }
    }

    /// Validates a shadow.
    pub fn try_from(value: TempShadow) -> (res: Result<Self, String>)
        ensures
            match res {
                Ok(temp) => temp.wf() && temp@ == value@,
                Err(err) => temp_fault(value@) == Some(err@),
            },
    {
        match check_temp(value.gt.as_str()) {
            Ok(_) => Ok(Temp { gt: value.gt }),
            Err(err) => Err(err),
        }
    }

    /// The shadow with the same content.
    pub fn to_shadow(&self) -> (res: TempShadow)
        ensures
            res@ == self@,
    {
        TempShadow { gt: self.gt.clone() }
    }

    /// Whether a temperature of `millidegrees` thousandths of a degree is
    /// not below the threshold.
    pub fn is_reached(&self, millidegrees: i64) -> (res: bool)
        ensures
            res == threshold_reached(self@, millidegrees as int),
    {
        threshold_is_reached(self.gt.as_str(), millidegrees)
    }
}

} // verus!
