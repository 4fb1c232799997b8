use crate::promocode::date::{
    check_date_window,
    day_number,
    date_window_contains,
    read_date,
    today,
    window_contains,
};
use crate::laws::law_day_matters_to_dates_only;
use crate::promocode::restrictions::{
    all_hold_at,
    any_holds_at,
    check_restrictions,
    clone_list,
    collect_predicate,
    results_faults,
    results_values,
    restrictions_from_shadows,
    restrictions_to_shadows,
    SubRestrictions,
};
use crate::promocode::rules::{
    age_fault,
    age_matches,
    children_faults,
    date_fault,
    first_fault,
    lemma_children_fault_iff_invalid,
    lemma_fault_iff_invalid,
    meteo_fault,
    mentions_date,
    meteo_matches,
    restriction_fault,
    restriction_holds,
    valid_restriction,
    RestrictionView,
};
use crate::promocode::shadow::{shadows_view, RestrictionShadow};
use crate::promocode::temp::{check_temp, Temp};
use crate::promocode_request::arguments::Arguments;
use crate::validate_type::number::BoundedU8;
use crate::validate_type::string::{is_blank, str_is_blank, NonBlankString};
use crate::weather::{weather_view, WeatherObservation};
use vstd::prelude::*;

verus! {

/// One node of an eligibility rule. Build one with `date`, `age`, `meteo`,
/// `and` or `or`, which check every rule of the variant, or convert a
/// shadow with `try_from`.
#[derive(Debug, PartialEq)]
pub enum Restriction {
    Date { after: NonBlankString, before: NonBlankString },
    Age {
        lt: Option<BoundedU8<0, 255>>,
        eq: Option<BoundedU8<0, 255>>,
        gt: Option<BoundedU8<0, 255>>,
    },
    Meteo { is: NonBlankString, temp: Temp },
    And(SubRestrictions),
    Or(SubRestrictions),
}

/// The number inside an age bound that may be missing.
pub open spec fn bound_view(bound: Option<BoundedU8<0, 255>>) -> Option<u8> {
    match bound {
        Some(value) => Some(value@),
        None => None,
    }
}

/// The content of each restriction of a list.
pub open spec fn restrictions_view(list: Seq<Restriction>) -> Seq<RestrictionView>
    decreases list,
{
    Seq::new(
        list.len(),
        |i: int|
            if 0 <= i < list.len() {
                list[i]@
            } else {
                arbitrary()
            },
    )
}

impl View for Restriction {
    type V = RestrictionView;

    open spec fn view(&self) -> RestrictionView
        decreases self,
    {
        match self {
            Restriction::Date { after, before } => RestrictionView::Date {
                after: after@,
                before: before@,
            },
            Restriction::Age { lt, eq, gt } => RestrictionView::Age {
                lt: bound_view(*lt),
                eq: bound_view(*eq),
                gt: bound_view(*gt),
            },
            Restriction::Meteo { is, temp } => RestrictionView::Meteo { is: is@, gt: temp@ },
            Restriction::And(children) => {
                proof {
                    children.lemma_view_decreases();
                }
                RestrictionView::And(restrictions_view(children@))
            },
            Restriction::Or(children) => {
                proof {
                    children.lemma_view_decreases();
                }
                RestrictionView::Or(restrictions_view(children@))
            },
        }
    }
}

fn clone_bound(bound: &Option<BoundedU8<0, 255>>) -> (res: Option<BoundedU8<0, 255>>)
    ensures
        bound_view(res) == bound_view(*bound),
{
    match bound {
        Some(value) => Some(BoundedU8::new_unchecked(value.get())),
        None => None,
    }
}

fn bound_of(value: Option<u8>) -> (res: Option<BoundedU8<0, 255>>)
    ensures
        bound_view(res) == value,
{
    match value {
        Some(number) => Some(BoundedU8::new_unchecked(number)),
        None => None,
    }
}

fn number_of(bound: &Option<BoundedU8<0, 255>>) -> (res: Option<u8>)
    ensures
        res == bound_view(*bound),
{
    match bound {
        Some(value) => Some(value.get()),
        None => None,
    }
}

impl Clone for Restriction {
    fn clone(&self) -> (res: Self)
        ensures
            res@ == self@,
        decreases self,
    {
        match self {
            Restriction::Date { after, before } => Restriction::Date {
                after: after.clone(),
                before: before.clone(),
            },
            Restriction::Age { lt, eq, gt } => Restriction::Age {
                lt: clone_bound(lt),
                eq: clone_bound(eq),
                gt: clone_bound(gt),
            },
            Restriction::Meteo { is, temp } => Restriction::Meteo {
                is: is.clone(),
                temp: temp.clone(),
            },
            Restriction::And(children) => {
                proof {
                    children.lemma_view_decreases();
                }
                Restriction::And(SubRestrictions::unvalidated(clone_list(children.as_vec())))
            },
            Restriction::Or(children) => {
                proof {
                    children.lemma_view_decreases();
                }
                Restriction::Or(SubRestrictions::unvalidated(clone_list(children.as_vec())))
            },
        }
    }
}

/// Checks an age restriction.
pub fn check_age(lt: Option<u8>, eq: Option<u8>, gt: Option<u8>) -> (res: Result<(), String>)
    ensures
        match res {
            Ok(_) => age_fault(lt, eq, gt) is None,
            Err(err) => age_fault(lt, eq, gt) == Some(err@),
        },
{
    match (gt, eq, lt) {
        (None, None, None) => Err(String::from_str("One of `lt`, `eq` or `gt` must be present.")),
        (None, Some(_), None) => Ok(()),
        (Some(_), None, None) => Ok(()),
        (None, None, Some(_)) => Ok(()),
        (Some(lower), None, Some(upper)) => {
            if lower < upper {
                Ok(())
            } else {
                Err(String::from_str("`gt` cannot be lower than `lt`."))
            }
        },
        (_, _, _) => Err(String::from_str("Unsupported @age restriction.")),
    }
}

/// Checks a date restriction: neither bound is blank, both are dates, and
/// `after` is not later than `before`.
pub fn check_date(after: &str, before: &str) -> (res: Result<(), String>)
    ensures
        match res {
            Ok(_) => date_fault(after@, before@) is None,
            Err(err) => date_fault(after@, before@) == Some(err@),
        },
{
    if str_is_blank(after) {
        return Err(String::from_str("`after` must be nonempty."));
    }
    if str_is_blank(before) {
        return Err(String::from_str("`before` must be nonempty."));
    }
    check_date_window(read_date(after), read_date(before))
}

/// Checks a weather restriction: the weather is named and the threshold is
/// a numeral.
pub fn check_meteo(is: &str, gt: &str) -> (res: Result<(), String>)
    ensures
        match res {
            Ok(_) => meteo_fault(is@, gt@) is None,
            Err(err) => meteo_fault(is@, gt@) == Some(err@),
        },
{
    if str_is_blank(is) {
        return Err(String::from_str("`is` must be nonempty."));
    }
    check_temp(gt)
}

/// Validates a shadow, borrowed. Fails with the first fault that a
/// depth-first walk meets.
pub fn restriction_shadow_as_restriction(value: &RestrictionShadow) -> (res: Result<
    Restriction,
    String,
>)
    ensures
        match res {
            Ok(restriction) => restriction@ == value@ && restriction.wf(),
            Err(err) => restriction_fault(value@) == Some(err@),
        },
    decreases value,
{
    proof {
        lemma_fault_iff_invalid(value@);
    }
    match value {
        RestrictionShadow::Date { after, before } => Restriction::date(after.clone(), before.clone()),
        RestrictionShadow::Age { lt, eq, gt } => Restriction::age(*lt, *eq, *gt),
        RestrictionShadow::Meteo { is, temp } => Restriction::meteo(
            is.clone(),
            Temp { gt: temp.gt.clone() },
        ),
        RestrictionShadow::And(children) => {
            if children.len() == 0 {
                return Err(String::from_str("`@and` restrictions must be nonempty."));
            }
            match restrictions_from_shadows(children) {
                Ok(list) => {
                    assert(restrictions_view(list@) == shadows_view(children@));
                    Ok(Restriction::And(SubRestrictions::new_unchecked(list)))
                },
                Err(err) => Err(err),
            }
        },
        RestrictionShadow::Or(children) => {
            if children.len() == 0 {
                return Err(String::from_str("`@or` restrictions must be nonempty."));
            }
            match restrictions_from_shadows(children) {
                Ok(list) => {
                    assert(restrictions_view(list@) == shadows_view(children@));
                    Ok(Restriction::Or(SubRestrictions::new_unchecked(list)))
                },
                Err(err) => Err(err),
            }
        },
    }
}

impl Restriction {
    /// The restriction is well formed, and so is everything below it.
    pub open spec fn wf(&self) -> bool {
        valid_restriction(self@)
    }

    /// A date window. Fails where a bound is blank or is no date, or where
    /// `after` is later than `before`.
    pub fn date(after: String, before: String) -> (res: Result<Self, String>)
        ensures
            match res {
                Ok(restriction) => restriction@ == (RestrictionView::Date {
                    after: after@,
                    before: before@,
                }) && restriction.wf(),
                Err(err) => date_fault(after@, before@) == Some(err@),
            },
    {
        match check_date(after.as_str(), before.as_str()) {
            Ok(_) => Ok(Self::date_unchecked(after, before)),
            Err(err) => Err(err),
        }
    }

    /// A date window that the caller has already checked.
    pub fn date_unchecked(after: String, before: String) -> (res: Self)
        requires
            date_fault(after@, before@) is None,
        ensures
            res@ == (RestrictionView::Date { after: after@, before: before@ }),
            res.wf(),
    {
        Restriction::Date {
            after: NonBlankString::new_unchecked(after),
            before: NonBlankString::new_unchecked(before),
        }
    }

    /// An age range. Fails where no bound is given, where `eq` stands
    /// beside another bound, or where `gt` is not below `lt`.
    pub fn age(lt: Option<u8>, eq: Option<u8>, gt: Option<u8>) -> (res: Result<Self, String>)
        ensures
            match res {
                Ok(restriction) => restriction@ == (RestrictionView::Age { lt, eq, gt })
                    && restriction.wf(),
                Err(err) => age_fault(lt, eq, gt) == Some(err@),
            },
    {
        match check_age(lt, eq, gt) {
            Ok(_) => Ok(Self::age_unchecked(lt, eq, gt)),
            Err(err) => Err(err),
        }
    }

    /// An age range that the caller has already checked.
    pub fn age_unchecked(lt: Option<u8>, eq: Option<u8>, gt: Option<u8>) -> (res: Self)
        requires
            age_fault(lt, eq, gt) is None,
        ensures
            res@ == (RestrictionView::Age { lt, eq, gt }),
            res.wf(),
    {
        Restriction::Age { lt: bound_of(lt), eq: bound_of(eq), gt: bound_of(gt) }
    }

    /// A weather condition. Fails where the weather has no name or the
    /// threshold is no numeral.
    pub fn meteo(is: String, temp: Temp) -> (res: Result<Self, String>)
        ensures
            match res {
                Ok(restriction) => restriction@ == (RestrictionView::Meteo { is: is@, gt: temp@ })
                    && restriction.wf(),
                Err(err) => meteo_fault(is@, temp@) == Some(err@),
            },
    {
        match check_meteo(is.as_str(), temp.gt.as_str()) {
            Ok(_) => Ok(Self::meteo_unchecked(is, temp)),
            Err(err) => Err(err),
        }
    }

    /// A weather condition that the caller has already checked.
    pub fn meteo_unchecked(is: String, temp: Temp) -> (res: Self)
        requires
            meteo_fault(is@, temp@) is None,
        ensures
            res@ == (RestrictionView::Meteo { is: is@, gt: temp@ }),
            res.wf(),
    {
        Restriction::Meteo { is: NonBlankString::new_unchecked(is), temp }
    }

    /// The conjunction of the restrictions that a list of results holds.
    /// Fails where the list is empty, and else with the first error or
    /// fault in the list.
    pub fn and(restrictions: Vec<Result<Restriction, String>>) -> (res: Result<Self, String>)
        ensures
            match res {
                Ok(restriction) => {
                    &&& restrictions@.len() > 0
                    &&& first_fault(results_faults(restrictions@)) is None
                    &&& restriction@ == RestrictionView::And(results_values(restrictions@))
                    &&& restriction.wf()
                },
                Err(err) => if restrictions@.len() == 0 {
                    err@ == "`@and` restrictions must be nonempty."@
                } else {
                    first_fault(results_faults(restrictions@)) == Some(err@)
                },
            },
    {
        if restrictions.len() == 0 {
            return Err(String::from_str("`@and` restrictions must be nonempty."));
        }
        match collect_predicate(&restrictions) {
            Ok(list) => {
                proof {
                    lemma_children_fault_iff_invalid(restrictions_view(list@));
                }
                Ok(Self::and_unchecked(SubRestrictions::new_unchecked(list)))
            },
            Err(err) => Err(err),
        }
    }

    /// The disjunction of the restrictions that a list of results holds.
    /// Fails where the list is empty, and else with the first error or
    /// fault in the list.
    pub fn or(restrictions: Vec<Result<Restriction, String>>) -> (res: Result<Self, String>)
        ensures
            match res {
                Ok(restriction) => {
                    &&& restrictions@.len() > 0
                    &&& first_fault(results_faults(restrictions@)) is None
                    &&& restriction@ == RestrictionView::Or(results_values(restrictions@))
                    &&& restriction.wf()
                },
                Err(err) => if restrictions@.len() == 0 {
                    err@ == "`@or` restrictions must be nonempty."@
                } else {
                    first_fault(results_faults(restrictions@)) == Some(err@)
                },
            },
    {
        if restrictions.len() == 0 {
            return Err(String::from_str("`@or` restrictions must be nonempty."));
        }
        match collect_predicate(&restrictions) {
            Ok(list) => {
                proof {
                    lemma_children_fault_iff_invalid(restrictions_view(list@));
                }
                Ok(Self::or_unchecked(SubRestrictions::new_unchecked(list)))
            },
            Err(err) => Err(err),
        }
    }

    /// The conjunction of children that the caller has already checked.
    pub fn and_unchecked(restrictions: SubRestrictions) -> (res: Self)
        requires
            restrictions@.len() > 0,
            first_fault(children_faults(restrictions_view(restrictions@))) is None,
        ensures
            res@ == RestrictionView::And(restrictions_view(restrictions@)),
            res.wf(),
    {
        proof {
            lemma_fault_iff_invalid(RestrictionView::And(restrictions_view(restrictions@)));
        }
        Restriction::And(restrictions)
    }

    /// The disjunction of children that the caller has already checked.
    pub fn or_unchecked(restrictions: SubRestrictions) -> (res: Self)
        requires
            restrictions@.len() > 0,
            first_fault(children_faults(restrictions_view(restrictions@))) is None,
        ensures
            res@ == RestrictionView::Or(restrictions_view(restrictions@)),
            res.wf(),
    {
        proof {
            lemma_fault_iff_invalid(RestrictionView::Or(restrictions_view(restrictions@)));
        }
        Restriction::Or(restrictions)
    }

    /// Walks the tree depth first and reports the first fault.
    pub fn check(&self) -> (res: Result<(), String>)
        ensures
            match res {
                Ok(_) => self.wf(),
                Err(err) => restriction_fault(self@) == Some(err@),
            },
        decreases self,
    {
        proof {
            lemma_fault_iff_invalid(self@);
        }
        match self {
            Restriction::Date { after, before } => check_date(after.as_str(), before.as_str()),
            Restriction::Age { lt, eq, gt } => check_age(number_of(lt), number_of(eq), number_of(gt)),
            Restriction::Meteo { is, temp } => check_meteo(is.as_str(), temp.gt.as_str()),
            Restriction::And(children) => {
                proof {
                    children.lemma_view_decreases();
                }
                if children.as_vec().len() == 0 {
                    return Err(String::from_str("`@and` restrictions must be nonempty."));
                }
                check_restrictions(children.as_vec())
            },
            Restriction::Or(children) => {
                proof {
                    children.lemma_view_decreases();
                }
                if children.as_vec().len() == 0 {
                    return Err(String::from_str("`@or` restrictions must be nonempty."));
                }
                check_restrictions(children.as_vec())
            },
        }
    }

    /// Checks the whole tree and hands back a copy. Fails with the first
    /// fault that a depth-first walk meets.
    pub fn validate(&self) -> (res: Result<Self, String>)
        ensures
            match res {
                Ok(restriction) => self.wf() && restriction@ == self@,
                Err(err) => restriction_fault(self@) == Some(err@),
            },
    {
        match self.check() {
            Ok(_) => Ok(self.clone()),
            Err(err) => Err(err),
        }
    }

    /// Validates a shadow. Fails with the first fault that a depth-first
    /// walk meets.
    pub fn try_from(value: RestrictionShadow) -> (res: Result<Self, String>)
        ensures
            match res {
                Ok(restriction) => restriction@ == value@ && restriction.wf(),
                Err(err) => restriction_fault(value@) == Some(err@),
            },
    {
        restriction_shadow_as_restriction(&value)
    }

    /// The shadow with the same content.
    pub fn to_shadow(&self) -> (res: RestrictionShadow)
        ensures
            res@ == self@,
        decreases self,
    {
        match self {
            Restriction::Date { after, before } => RestrictionShadow::Date {
                after: after.clone().get(),
                before: before.clone().get(),
            },
            Restriction::Age { lt, eq, gt } => RestrictionShadow::Age {
                lt: number_of(lt),
                eq: number_of(eq),
                gt: number_of(gt),
            },
            Restriction::Meteo { is, temp } => RestrictionShadow::Meteo {
                is: is.clone().get(),
                temp: temp.to_shadow(),
            },
            Restriction::And(children) => {
                proof {
                    children.lemma_view_decreases();
                }
                RestrictionShadow::And(restrictions_to_shadows(children.as_vec()))
            },
            Restriction::Or(children) => {
                proof {
                    children.lemma_view_decreases();
                }
                RestrictionShadow::Or(restrictions_to_shadows(children.as_vec()))
            },
        }
    }

    /// Whether the customer satisfies the restriction today, under the
    /// observed weather. The day is read from the clock, once: the answer
    /// is that of the rules on some day, and on every day where no date
    /// restriction stands in the tree.
    pub fn check_restriction_generic(
        &self,
        arguments: Arguments,
        weather_and_temp: Option<WeatherObservation>,
    ) -> (res: bool)
        ensures
            exists|day: int|
                res == #[trigger] restriction_holds(
                    self@,
                    arguments.age,
                    weather_view(weather_and_temp),
                    day,
                ),
            !mentions_date(self@) ==> forall|day: int|
                res == #[trigger] restriction_holds(
                    self@,
                    arguments.age,
                    weather_view(weather_and_temp),
                    day,
                ),
    {
        let day = today();
        let res = self.check_restriction_at(&arguments, &weather_and_temp, day);
        assert(res == restriction_holds(
            self@,
            arguments.age,
            weather_view(weather_and_temp),
            day as int,
        ));
        proof {
            if !mentions_date(self@) {
                assert forall|other: int|
                    res == #[trigger] restriction_holds(
                        self@,
                        arguments.age,
                        weather_view(weather_and_temp),
                        other,
                    ) by {
                    law_day_matters_to_dates_only(
                        self@,
                        arguments.age,
                        weather_view(weather_and_temp),
                        day as int,
                        other,
                    );
                }
            }
        }
        res
    }

    /// Whether the customer satisfies the restriction on the day `day`,
    /// under the observed weather.
    pub fn check_restriction_at(
        &self,
        arguments: &Arguments,
        weather_and_temp: &Option<WeatherObservation>,
        day: i32,
    ) -> (res: bool)
        ensures
            res == restriction_holds(
                self@,
                arguments.age,
                weather_view(*weather_and_temp),
                day as int,
            ),
        decreases self,
    {
        match self {
            Restriction::Date { after, before } => Self::check_restriction_date(after, before, day),
            Restriction::Age { lt, eq, gt } => Self::check_restriction_age(arguments, lt, eq, gt),
            Restriction::Meteo { is, temp } => Self::check_restriction_meteo(
                weather_and_temp,
                is,
                temp,
            ),
            Restriction::Or(children) => {
                proof {
                    children.lemma_view_decreases();
                }
                any_holds_at(children.as_vec(), arguments, weather_and_temp, day)
            },
            Restriction::And(children) => {
                proof {
                    children.lemma_view_decreases();
                }
                all_hold_at(children.as_vec(), arguments, weather_and_temp, day)
            },
        }
    }

    /// Whether the day `day` lies in the window. A bound that is no date
    /// does not bind.
    pub fn check_restriction_date(after: &NonBlankString, before: &NonBlankString, day: i32) -> (res:
        bool)
        ensures
            res == window_contains(
                day_number(after@),
                day_number(before@),
                day as int,
            ),
    {
        date_window_contains(read_date(after.as_str()), read_date(before.as_str()), day)
    }

    /// Whether the customer's age lies in the range.
    pub fn check_restriction_age(
        arguments: &Arguments,
        lt: &Option<BoundedU8<0, 255>>,
        eq: &Option<BoundedU8<0, 255>>,
        gt: &Option<BoundedU8<0, 255>>,
    ) -> (res: bool)
        ensures
            res == age_matches(bound_view(*lt), bound_view(*eq), bound_view(*gt), arguments.age),
    {
        match (number_of(gt), number_of(eq), number_of(lt)) {
            (None, Some(exact), None) => arguments.age == exact,
            (Some(lower), None, None) => arguments.age >= lower,
            (None, None, Some(upper)) => arguments.age <= upper,
            (Some(lower), None, Some(upper)) => lower <= arguments.age && arguments.age <= upper,
            _ => false,
        }
    }

    /// Whether the observed weather is the one asked for and not colder
    /// than the threshold. Without an observation the answer is no.
    pub fn check_restriction_meteo(
        weather_and_temp: &Option<WeatherObservation>,
        is: &NonBlankString,
        temp: &Temp,
    ) -> (res: bool)
        ensures
            res == meteo_matches(is@, temp@, weather_view(*weather_and_temp)),
    {
        match weather_and_temp {
            None => false,
            Some(observed) => is.eq_string(&observed.condition) && temp.is_reached(
                observed.millidegrees,
            ),
        }
    }
}

} // verus!
