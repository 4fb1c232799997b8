//! The promocode aggregate and the restrictions that guard it.
//!
//! The restrictions of a promocode form a list that is read as a
//! disjunction: the promocode applies when one of them holds, so a promocode
//! without restrictions applies to nobody.
//!
//! `Promocode::new` puts any list of well-formed restrictions together.
//! `Promocode::validate` and `Promocode::try_from`, and with them the store,
//! ask for more: at most two restrictions, the first of them a date, an age
//! or a weather restriction, and the second, where there is one, an `@and`
//! or an `@or`.

pub mod avantage;
pub mod date;
pub mod decimal;
pub mod restriction;
pub mod restrictions;
pub mod rules;
pub mod shadow;
pub mod temp;
pub mod temperature;
pub mod wire;

use crate::promocode::avantage::{avantage_fault, Avantage};
use crate::promocode::restriction::{restrictions_view, Restriction};
use crate::promocode::restrictions::{
    check_restrictions,
    clone_list,
    collect_predicate,
    restrictions_from_shadows,
    restrictions_to_shadows,
    results_faults,
    results_values,
    Restrictions,
};
use crate::promocode::rules::{
    children_faults,
    first_fault,
    is_combinator,
    lemma_children_fault_iff_invalid,
    RestrictionView,
    starts_with_leaf,
    valid_restrictions,
    well_shaped,
};
use crate::promocode::shadow::{shadows_view, PromocodeShadow, PromocodeView, RestrictionShadow};
use crate::promocode_response::reason::Reasons;
use crate::promocode_response::response::{response_of_parts, PromocodeResponse, ResponseView};
use crate::promocode_response::status::Status;
use crate::validate_type::string::{is_blank, str_is_blank, NonBlankString};
use vstd::prelude::*;

verus! {

/// A promotional code: its identifier, its name, the discount it grants and
/// the restrictions that guard it.
#[derive(Debug, PartialEq)]
pub struct Promocode {
    _id: NonBlankString,
    name: NonBlankString,
    pub avantage: Avantage,
    pub restrictions: Restrictions,
}

impl View for Promocode {
    type V = PromocodeView;

    closed spec fn view(&self) -> PromocodeView {
        PromocodeView {
            id: self._id@,
            name: self.name@,
            percent: self.avantage@,
            restrictions: restrictions_view(self.restrictions@),
        }
    }
}

impl Clone for Promocode {
    fn clone(&self) -> (res: Self)
        ensures
            res@ == self@,
    {
        Promocode {
            _id: self._id.clone(),
            name: self.name.clone(),
            avantage: self.avantage.clone(),
            restrictions: clone_list(&self.restrictions),
        }
    }
}

/// A promocode is well formed: neither its identifier nor its name is
/// blank, its discount is at most 100, and each of its restrictions is well
/// formed.
pub open spec fn valid_promocode(promocode: PromocodeView) -> bool {
    &&& !is_blank(promocode.id)
    &&& !is_blank(promocode.name)
    &&& promocode.percent <= 100
    &&& valid_restrictions(promocode.restrictions)
}

/// What `validate` and `try_from` find wrong with a promocode, or `None`
/// where it is well formed and its list of restrictions is well shaped. The
/// identifier is looked at first, then the name, the discount, the length of
/// the list, its first entry, its second entry, and the restrictions in
/// their order.
pub open spec fn promocode_fault(promocode: PromocodeView) -> Option<Seq<char>> {
    if is_blank(promocode.id) {
        Some("`_id` must be nonempty."@)
    } else if is_blank(promocode.name) {
        Some("`name` must be nonempty."@)
    } else if promocode.percent > 100 {
        avantage_fault(promocode.percent)
    } else if shape_fault(promocode.restrictions) is Some {
        shape_fault(promocode.restrictions)
    } else {
        first_fault(children_faults(promocode.restrictions))
    }
}

/// What is wrong with the parts of a promocode, where the discount and
/// each restriction may have come with an error of its own, or `None`
/// where they make a well-formed promocode.
pub open spec fn parts_fault(
    id: Seq<char>,
    name: Seq<char>,
    avantage: Result<Avantage, String>,
    restrictions: Seq<Result<Restriction, String>>,
) -> Option<Seq<char>> {
    if is_blank(id) {
        Some("`_id` must be nonempty."@)
    } else if is_blank(name) {
        Some("`name` must be nonempty."@)
    } else {
        match avantage {
            Err(err) => Some(err@),
            Ok(discount) => if discount@ > 100 {
                avantage_fault(discount@)
            } else {
                first_fault(results_faults(restrictions))
            },
        }
    }
}

/// The answer to a request for a promocode of the given name and
/// discount: it is accepted when `predicate` is true and denied otherwise.
/// An answer that accepts needs a discount of at most 100, and every
/// answer a name that is not blank.
pub open spec fn response_for(promocode_name: Seq<char>, percent: u8, predicate: bool) -> Result<
    ResponseView,
    Seq<char>,
> {
    if predicate {
        match avantage_fault(percent) {
            Some(fault) => Err(fault),
            None => response_of_parts(promocode_name, Status::Accepted, Some(percent), false),
        }
    } else {
        response_of_parts(promocode_name, Status::Denied, None, true)
    }
}

/// `validate` and `try_from` find no fault in a promocode exactly when it
/// is well formed and its list of restrictions is well shaped.
pub proof fn lemma_promocode_fault_iff_invalid(promocode: PromocodeView)
    ensures
        promocode_fault(promocode) is None <==> valid_promocode(promocode) && well_shaped(
            promocode.restrictions,
        ),
{
    lemma_children_fault_iff_invalid(promocode.restrictions);
}

/// What is wrong with the shape of a list of restrictions, or `None` where
/// the list is well shaped. The length is looked at first, then the first
/// entry, then the second.
pub open spec fn shape_fault(list: Seq<RestrictionView>) -> Option<Seq<char>> {
    if list.len() > 2 {
        Some("`restrictions` must contain 0, 1 or 2 entries."@)
    } else if !starts_with_leaf(list) {
        Some("The first restriction must a @date, @age or @meteo."@)
    } else if list.len() == 2 && !is_combinator(list[1]) {
        Some("The next restriction must a @and or @or."@)
    } else {
        None
    }
}

/// Checks the shape of a list of which `first` tells whether its first
/// entry is a combinator and `second` whether its second is.
fn check_shape(len: usize, first: bool, second: bool, Ghost(list): Ghost<Seq<RestrictionView>>) -> (res:
    Result<(), String>)
    requires
        len == list.len(),
        len > 0 ==> first == is_combinator(list[0]),
        len > 1 ==> second == is_combinator(list[1]),
    ensures
        match res {
            Ok(_) => shape_fault(list) is None,
            Err(err) => shape_fault(list) == Some(err@),
        },
{
    if len > 2 {
        Err(String::from_str("`restrictions` must contain 0, 1 or 2 entries."))
    } else if len > 0 && first {
        Err(String::from_str("The first restriction must a @date, @age or @meteo."))
    } else if len == 2 && !second {
        Err(String::from_str("The next restriction must a @and or @or."))
    } else {
        Ok(())
    }
}

/// Whether the entry at `at` is a combinator; `false` where there is none.
fn is_combinator_at(list: &Vec<Restriction>, at: usize) -> (res: bool)
    ensures
        at < list@.len() ==> res == is_combinator(restrictions_view(list@)[at as int]),
{
    if at >= list.len() {
        return false;
    }
    assert(restrictions_view(list@)[at as int] == list@[at as int]@);
    match &list[at] {
        Restriction::And(_) => true,
        Restriction::Or(_) => true,
        _ => false,
    }
}

/// Whether the shadow at `at` is a combinator; `false` where there is none.
fn is_combinator_shadow_at(list: &Vec<RestrictionShadow>, at: usize) -> (res: bool)
    ensures
        at < list@.len() ==> res == is_combinator(shadows_view(list@)[at as int]),
{
    if at >= list.len() {
        return false;
    }
    assert(shadows_view(list@)[at as int] == list@[at as int]@);
    match &list[at] {
        RestrictionShadow::And(_) => true,
        RestrictionShadow::Or(_) => true,
        _ => false,
    }
}

impl Promocode {
    /// The promocode is well formed.
    pub open spec fn wf(&self) -> bool {
        valid_promocode(self@)
    }

    /// Puts a promocode together. The identifier is looked at first, then
    /// the name, the discount and the restrictions in their order; an error
    /// that came with a part is handed on as it is, and a part that came
    /// without one is checked again.
    pub fn new(
        _id: String,
        name: String,
        avantage: Result<Avantage, String>,
        restrictions: Vec<Result<Restriction, String>>,
    ) -> (res: Result<Self, String>)
        ensures
            match res {
                Ok(promocode) => {
                    &&& parts_fault(_id@, name@, avantage, restrictions@) is None
                    &&& avantage matches Ok(discount)
                    &&& promocode@ == (PromocodeView {
                        id: _id@,
                        name: name@,
                        percent: discount@,
                        restrictions: results_values(restrictions@),
                    })
                    &&& promocode.wf()
                },
                Err(err) => parts_fault(_id@, name@, avantage, restrictions@) == Some(err@),
            },
    {
        if str_is_blank(_id.as_str()) {
            return Err(String::from_str("`_id` must be nonempty."));
        }
        if str_is_blank(name.as_str()) {
            return Err(String::from_str("`name` must be nonempty."));
        }
        let discount = match avantage {
            Ok(given) => match given.validate() {
                Ok(checked) => checked,
                Err(err) => {
                    return Err(err);
                },
            },
            Err(err) => {
                return Err(err);
            },
        };
        match collect_predicate(&restrictions) {
            Ok(list) => Ok(Self::new_unchecked(_id, name, discount, list)),
            Err(err) => Err(err),
        }
    }

    /// Puts together a promocode whose parts the caller has already
    /// checked.
    pub fn new_unchecked(
        _id: String,
        name: String,
        avantage: Avantage,
        restrictions: Restrictions,
    ) -> (res: Self)
        requires
            valid_promocode(
                PromocodeView {
                    id: _id@,
                    name: name@,
                    percent: avantage@,
                    restrictions: restrictions_view(restrictions@),
                },
            ),
        ensures
            res@ == (PromocodeView {
                id: _id@,
                name: name@,
                percent: avantage@,
                restrictions: restrictions_view(restrictions@),
            }),
            res.wf(),
    {
        Promocode {
            _id: NonBlankString::new_unchecked(_id),
            name: NonBlankString::new_unchecked(name),
            avantage,
            restrictions,
        }
    }

    /// The identifier.
    pub fn _id(&self) -> (res: String)
        ensures
            res@ == self@.id,
    {
        self._id.clone().get()
    }

    /// The name.
    pub fn name(&self) -> (res: String)
        ensures
            res@ == self@.name,
    {
        self.name.clone().get()
    }

    /// Whether the identifier is `id`.
    pub fn has_id(&self, id: &String) -> (res: bool)
        ensures
            res == (self@.id == id@),
    {
        self._id.eq_string(id)
    }

    /// Whether the name is `name`.
    pub fn has_name(&self, name: &String) -> (res: bool)
        ensures
            res == (self@.name == name@),
    {
        self.name.eq_string(name)
    }

    /// The discount.
    pub fn avantage(&self) -> (res: &Avantage)
        ensures
            res@ == self@.percent,
    {
        &self.avantage
    }

    /// The restrictions, in their order.
    pub fn restrictions(&self) -> (res: &Restrictions)
        ensures
            restrictions_view(res@) == self@.restrictions,
    {
        &self.restrictions
    }

    /// Builds the answer to a request: the promocode is accepted, with its
    /// discount, when `predicate` is true, and denied otherwise.
    pub fn generate_response(promocode_name: String, percent: u8, predicate: bool) -> (res: Result<
        PromocodeResponse,
        String,
    >)
        ensures
            match res {
                Ok(response) => response.wf() && Ok::<ResponseView, Seq<char>>(response@)
                    == response_for(promocode_name@, percent, predicate),
                Err(err) => Err::<ResponseView, Seq<char>>(err@) == response_for(
                    promocode_name@,
                    percent,
                    predicate,
                ),
            },
    {
        if predicate {
            match Avantage::new(percent) {
                Ok(avantage) => PromocodeResponse::accepted(promocode_name, avantage),
                Err(err) => Err(err),
            }
        } else {
            PromocodeResponse::denied(promocode_name, Reasons {  })
        }
    }

    /// Checks the promocode again, and the shape of its list of
    /// restrictions, and hands back a copy. Fails with the first fault, in
    /// the order of `promocode_fault`.
    pub fn validate(&self) -> (res: Result<Promocode, String>)
        ensures
            match res {
                Ok(promocode) => self.wf() && well_shaped(self@.restrictions) && promocode@
                    == self@,
                Err(err) => promocode_fault(self@) == Some(err@),
            },
    {
        proof {
            lemma_promocode_fault_iff_invalid(self@);
        }
        if str_is_blank(self._id.as_str()) {
            return Err(String::from_str("`_id` must be nonempty."));
        }
        if str_is_blank(self.name.as_str()) {
            return Err(String::from_str("`name` must be nonempty."));
        }
        match self.avantage.validate() {
            Ok(_) => {},
            Err(err) => {
                return Err(err);
            },
        }
        match check_shape(
            self.restrictions.len(),
            is_combinator_at(&self.restrictions, 0),
            is_combinator_at(&self.restrictions, 1),
            Ghost(restrictions_view(self.restrictions@)),
        ) {
            Ok(_) => {},
            Err(err) => {
                return Err(err);
            },
        }
        match check_restrictions(&self.restrictions) {
            Ok(_) => Ok(self.clone()),
            Err(err) => Err(err),
        }
    }

    /// Validates a shadow, as `validate` checks a promocode. Fails with the
    /// first fault, in the order of `promocode_fault`.
    pub fn try_from(value: PromocodeShadow) -> (res: Result<Self, String>)
        ensures
            match res {
                Ok(promocode) => promocode.wf() && well_shaped(value@.restrictions) && promocode@
                    == value@,
                Err(err) => promocode_fault(value@) == Some(err@),
            },
    {
        proof {
            lemma_promocode_fault_iff_invalid(value@);
        }
        if str_is_blank(value._id.as_str()) {
            return Err(String::from_str("`_id` must be nonempty."));
        }
        if str_is_blank(value.name.as_str()) {
            return Err(String::from_str("`name` must be nonempty."));
        }
        let avantage = match Avantage::try_from(value.avantage) {
            Ok(checked) => checked,
            Err(err) => {
                return Err(err);
            },
        };
        match check_shape(
            value.restrictions.len(),
            is_combinator_shadow_at(&value.restrictions, 0),
            is_combinator_shadow_at(&value.restrictions, 1),
            Ghost(shadows_view(value.restrictions@)),
        ) {
            Ok(_) => {},
            Err(err) => {
                return Err(err);
            },
        }
        match restrictions_from_shadows(&value.restrictions) {
            Ok(restrictions) => Ok(
                Promocode {
                    _id: NonBlankString::new_unchecked(value._id),
                    name: NonBlankString::new_unchecked(value.name),
                    avantage,
                    restrictions,
                },
            ),
            Err(err) => Err(err),
        }
    }

    /// The shadow with the same content.
    pub fn to_shadow(&self) -> (res: PromocodeShadow)
        ensures
            res@ == self@,
    {
        PromocodeShadow {
            _id: self._id(),
            name: self.name(),
            avantage: self.avantage.to_shadow(),
            restrictions: restrictions_to_shadows(&self.restrictions),
        }
    }
}

} // verus!
