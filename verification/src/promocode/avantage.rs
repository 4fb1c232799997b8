use crate::promocode::shadow::AvantageShadow;
use crate::validate_type::number::BoundedU8;
use vstd::prelude::*;

verus! {

/// The discount that a promocode grants, in percent.
#[derive(Debug, PartialEq)]
pub struct Avantage {
    pub percent: BoundedU8<0, 100>,
}

impl View for Avantage {
    type V = u8;

    open spec fn view(&self) -> u8 {
        self.percent@
    }
}

impl Clone for Avantage {
    fn clone(&self) -> (res: Self)
        ensures
            res@ == self@,
    {
        Avantage { percent: self.percent }
    }
}

/// What is wrong with a discount, or `None` where it is at most 100.
pub open spec fn avantage_fault(percent: u8) -> Option<Seq<char>> {
    if percent > 100 {
        Some("`percent` must be between 0 and 100."@)
    } else {
        None
    }
}

impl Avantage {
    /// The discount is at most 100 percent.
    pub open spec fn wf(&self) -> bool {
        self@ <= 100
    }

    /// Accepts a discount of 0 to 100 percent.
    pub fn new(percent: u8) -> (res: Result<Self, String>)
        ensures
            match res {
                Ok(avantage) => percent <= 100 && avantage@ == percent && avantage.wf(),
                Err(err) => avantage_fault(percent) == Some(err@),
            },
    {
        match BoundedU8::new(percent) {
            Ok(value) => Ok(Avantage { percent: value }),
            Err(_) => Err(String::from_str("`percent` must be between 0 and 100.")),
        }
    }

    /// Wraps a discount that the caller has already checked.
    pub fn new_unchecked(percent: u8) -> (res: Self)
        requires
            percent <= 100,
        ensures
            res@ == percent,
            res.wf(),
    {
        Avantage { percent: BoundedU8::new_unchecked(percent) }
    }

    /// The discount in percent.
    pub fn percent(&self) -> (res: u8)
        ensures
            res == self@,
    {
        self.percent.get()
    }

    /// Checks the discount again and hands back a copy.
    pub fn validate(&self) -> (res: Result<Avantage, String>)
        ensures
            match res {
                Ok(avantage) => self.wf() && avantage@ == self@,
                Err(err) => avantage_fault(self@) == Some(err@),
            },
    {
        Self::new(self.percent.get())
    }

    /// Validates a shadow.
    pub fn try_from(value: AvantageShadow) -> (res: Result<Self, String>)
        ensures
            match res {
                Ok(avantage) => avantage.wf() && avantage@ == value@,
                Err(err) => avantage_fault(value@) == Some(err@),
            },
    {
        Self::new(value.percent)
    }

    /// The shadow with the same content.
    pub fn to_shadow(&self) -> (res: AvantageShadow)
        ensures
            res@ == self@,
    {
        AvantageShadow { percent: self.percent.get() }
    }
}

} // verus!
