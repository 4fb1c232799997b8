//! The unvalidated mirror of a promocode: the shape in which one arrives
//! from outside, with no rule checked yet.

use crate::promocode::rules::RestrictionView;
use vstd::prelude::*;

verus! {

/// The content of a promocode.
pub struct PromocodeView {
    pub id: Seq<char>,
    pub name: Seq<char>,
    pub percent: u8,
    pub restrictions: Seq<RestrictionView>,
}

/// A promocode as it arrives.
#[derive(Debug, PartialEq)]
pub struct PromocodeShadow {
    pub _id: String,
    pub name: String,
    pub avantage: AvantageShadow,
    pub restrictions: Vec<RestrictionShadow>,
}

/// A discount as it arrives.
#[derive(Debug, Clone, Copy, PartialEq)]
pub struct AvantageShadow {
    pub percent: u8,
}

/// A restriction as it arrives.
#[derive(Debug, PartialEq)]
pub enum RestrictionShadow {
    Date { after: String, before: String },
    Age { lt: Option<u8>, eq: Option<u8>, gt: Option<u8> },
    Meteo { is: String, temp: TempShadow },
    And(Vec<RestrictionShadow>),
    Or(Vec<RestrictionShadow>),
}

/// A temperature threshold as it arrives.
#[derive(Debug, PartialEq)]
pub struct TempShadow {
    pub gt: String,
}

impl View for AvantageShadow {
    type V = u8;

    open spec fn view(&self) -> u8 {
        self.percent
    }
}

impl View for PromocodeShadow {
    type V = PromocodeView;

    open spec fn view(&self) -> PromocodeView {
        PromocodeView {
            id: self._id@,
            name: self.name@,
            percent: self.avantage@,
            restrictions: shadows_view(self.restrictions@),
        }
    }
}

impl Clone for PromocodeShadow {
    fn clone(&self) -> (res: Self)
        ensures
            res@ == self@,
    {
        PromocodeShadow {
            _id: self._id.clone(),
            name: self.name.clone(),
            avantage: self.avantage,
            restrictions: clone_shadows(&self.restrictions),
        }
    }
}

impl View for TempShadow {
    type V = Seq<char>;

    open spec fn view(&self) -> Seq<char> {
        self.gt@
    }
}

impl View for RestrictionShadow {
    type V = RestrictionView;

    open spec fn view(&self) -> RestrictionView
        decreases self,
    {
        match self {
            RestrictionShadow::Date { after, before } => RestrictionView::Date {
                after: after@,
                before: before@,
            },
            RestrictionShadow::Age { lt, eq, gt } => RestrictionView::Age {
                lt: *lt,
                eq: *eq,
                gt: *gt,
            },
            RestrictionShadow::Meteo { is, temp } => RestrictionView::Meteo { is: is@, gt: temp@ },
            RestrictionShadow::And(children) => RestrictionView::And(shadows_view(children@)),
            RestrictionShadow::Or(children) => RestrictionView::Or(shadows_view(children@)),
        }
    }
}

/// The content of each shadow of a list.
pub open spec fn shadows_view(list: Seq<RestrictionShadow>) -> Seq<RestrictionView>
    decreases list,
{
    Seq::new(
        list.len(),
        |i: int|
            if 0 <= i < list.len() {
                list[i]@
            } else {
                arbitrary()
            },
    )
}

impl Clone for TempShadow {
    fn clone(&self) -> (res: Self)
        ensures
            res@ == self@,
    {
        TempShadow { gt: self.gt.clone() }
    }
}

impl Clone for RestrictionShadow {
    fn clone(&self) -> (res: Self)
        ensures
            res@ == self@,
        decreases self,
    {
        match self {
            RestrictionShadow::Date { after, before } => RestrictionShadow::Date {
                after: after.clone(),
                before: before.clone(),
            },
            RestrictionShadow::Age { lt, eq, gt } => RestrictionShadow::Age {
                lt: *lt,
                eq: *eq,
                gt: *gt,
            },
            RestrictionShadow::Meteo { is, temp } => RestrictionShadow::Meteo {
                is: is.clone(),
                temp: temp.clone(),
            },
            RestrictionShadow::And(children) => {
                let copies = clone_shadows(children);
                RestrictionShadow::And(copies)
            },
            RestrictionShadow::Or(children) => {
                let copies = clone_shadows(children);
                RestrictionShadow::Or(copies)
            },
        }
    }
}

/// A copy of each shadow of a list.
pub fn clone_shadows(list: &Vec<RestrictionShadow>) -> (res: Vec<RestrictionShadow>)
    ensures
        shadows_view(res@) == shadows_view(list@),
        res@.len() == list@.len(),
    decreases list,
{
    let mut copies: Vec<RestrictionShadow> = Vec::new();
    let mut i: usize = 0;
    while i < list.len()
        invariant
            i <= list.len(),
            copies@.len() == i,
            forall|j: int| 0 <= j < i ==> (#[trigger] copies@[j])@ == list@[j]@,
        decreases list.len() - i,
    {
        let copy = list[i].clone();
        copies.push(copy);
        i += 1;
    }
    assert(shadows_view(copies@) =~= shadows_view(list@));
    copies
}

} // verus!
