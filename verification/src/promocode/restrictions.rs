use crate::promocode::restriction::{
    restriction_shadow_as_restriction,
    restrictions_view,
    Restriction,
};
use crate::laws::law_dateless_list_holds_alike;
use crate::promocode::date::today;
use crate::promocode::rules::{
    all_hold,
    any_holds,
    any_mentions_date,
    children_faults,
    first_fault,
    lemma_children_fault_iff_invalid,
    lemma_fault_iff_invalid,
    lemma_first_fault_at,
    lemma_first_fault_none,
    restriction_fault,
    restriction_holds,
    valid_restriction,
    valid_restrictions,
    RestrictionView,
};
use crate::promocode::shadow::{shadows_view, RestrictionShadow};
use crate::promocode_request::arguments::Arguments;
use crate::validate_type::sequence::NonEmptyVec;
use crate::weather::{weather_view, WeatherObservation};
use vstd::prelude::*;

verus! {

/// The restrictions of a promocode, in their order.
pub type Restrictions = Vec<Restriction>;

/// The children of a combinator: at least one.
pub type SubRestrictions = NonEmptyVec<Restriction>;

/// A copy of each restriction of a list.
pub fn clone_list(list: &Vec<Restriction>) -> (res: Vec<Restriction>)
    ensures
        res@.len() == list@.len(),
        restrictions_view(res@) == restrictions_view(list@),
    decreases list@,
{
    let mut copies: Vec<Restriction> = Vec::new();
    let mut i: usize = 0;
    while i < list.len()
        invariant
            i <= list.len(),
            copies@.len() == i,
            forall|j: int| 0 <= j < i ==> (#[trigger] copies@[j])@ == list@[j]@,
        decreases list.len() - i,
    {
        let copy = list[i].clone();
        copies.push(copy);
        i += 1;
    }
    assert(restrictions_view(copies@) =~= restrictions_view(list@));
    copies
}

/// Walks the list in order, each tree depth first, and reports the first
/// fault.
pub fn check_restrictions(list: &Vec<Restriction>) -> (res: Result<(), String>)
    ensures
        match res {
            Ok(_) => valid_restrictions(restrictions_view(list@)),
            Err(err) => first_fault(children_faults(restrictions_view(list@))) == Some(err@),
        },
    decreases list@,
{
    let ghost views = restrictions_view(list@);
    let ghost faults = children_faults(views);
    let mut i: usize = 0;
    while i < list.len()
        invariant
            i <= list.len(),
            views == restrictions_view(list@),
            faults == children_faults(views),
            forall|j: int| 0 <= j < i ==> (#[trigger] faults[j]) is None,
        decreases list.len() - i,
    {
        match list[i].check() {
            Ok(_) => {
                proof {
                    lemma_fault_iff_invalid(views[i as int]);
                }
            },
            Err(err) => {
                proof {
                    lemma_first_fault_at(faults, i as int);
                }
                return Err(err);
            },
        }
        i += 1;
    }
    proof {
        lemma_first_fault_none(faults);
        lemma_children_fault_iff_invalid(views);
    }
    Ok(())
}

/// Validates each shadow of a list, in order, and stops at the first fault.
pub fn restrictions_from_shadows(list: &Vec<RestrictionShadow>) -> (res: Result<
    Vec<Restriction>,
    String,
>)
    ensures
        match res {
            Ok(restrictions) => restrictions@.len() == list@.len() && restrictions_view(
                restrictions@,
            ) == shadows_view(list@) && valid_restrictions(shadows_view(list@)),
            Err(err) => first_fault(children_faults(shadows_view(list@))) == Some(err@),
        },
    decreases list,
{
    let ghost views = shadows_view(list@);
    let ghost faults = children_faults(views);
    let mut restrictions: Vec<Restriction> = Vec::new();
    let mut i: usize = 0;
    while i < list.len()
        invariant
            i <= list.len(),
            views == shadows_view(list@),
            faults == children_faults(views),
            restrictions@.len() == i,
            forall|j: int| 0 <= j < i ==> (#[trigger] restrictions@[j])@ == list@[j]@,
            forall|j: int| 0 <= j < i ==> (#[trigger] faults[j]) is None,
        decreases list.len() - i,
    {
        match restriction_shadow_as_restriction(&list[i]) {
            Ok(restriction) => {
                proof {
                    lemma_fault_iff_invalid(views[i as int]);
                }
                restrictions.push(restriction);
            },
            Err(err) => {
                proof {
                    lemma_first_fault_at(faults, i as int);
                }
                return Err(err);
            },
        }
        i += 1;
    }
    proof {
        lemma_first_fault_none(faults);
        lemma_children_fault_iff_invalid(views);
        assert(restrictions_view(restrictions@) =~= shadows_view(list@));
    }
    Ok(restrictions)
}

/// The shadow of each restriction of a list.
pub fn restrictions_to_shadows(list: &Vec<Restriction>) -> (res: Vec<RestrictionShadow>)
    ensures
        res@.len() == list@.len(),
        shadows_view(res@) == restrictions_view(list@),
    decreases list@,
{
    let mut shadows: Vec<RestrictionShadow> = Vec::new();
    let mut i: usize = 0;
    while i < list.len()
        invariant
            i <= list.len(),
            shadows@.len() == i,
            forall|j: int| 0 <= j < i ==> (#[trigger] shadows@[j])@ == list@[j]@,
        decreases list.len() - i,
    {
        let shadow = list[i].to_shadow();
        shadows.push(shadow);
        i += 1;
    }
    assert(shadows_view(shadows@) =~= restrictions_view(list@));
    shadows
}

/// Whether every restriction of the list holds on the day `day`. Stops at
/// the first that does not.
pub fn all_hold_at(
    list: &Vec<Restriction>,
    arguments: &Arguments,
    weather_and_temp: &Option<WeatherObservation>,
    day: i32,
) -> (res: bool)
    ensures
        res == all_hold(
            restrictions_view(list@),
            arguments.age,
            weather_view(*weather_and_temp),
            day as int,
        ),
    decreases list@,
{
    let ghost views = restrictions_view(list@);
    let mut i: usize = 0;
    while i < list.len()
        invariant
            i <= list.len(),
            views == restrictions_view(list@),
            forall|j: int|
                0 <= j < i ==> restriction_holds(
                    #[trigger] views[j],
                    arguments.age,
                    weather_view(*weather_and_temp),
                    day as int,
                ),
        decreases list.len() - i,
    {
        if !list[i].check_restriction_at(arguments, weather_and_temp, day) {
            assert(!restriction_holds(
                views[i as int],
                arguments.age,
                weather_view(*weather_and_temp),
                day as int,
            ));
            return false;
        }
        i += 1;
    }
    true
}

/// Whether some restriction of the list holds on the day `day`. Stops at
/// the first that does.
pub fn any_holds_at(
    list: &Vec<Restriction>,
    arguments: &Arguments,
    weather_and_temp: &Option<WeatherObservation>,
    day: i32,
) -> (res: bool)
    ensures
        res == any_holds(
            restrictions_view(list@),
            arguments.age,
            weather_view(*weather_and_temp),
            day as int,
        ),
    decreases list@,
{
    let ghost views = restrictions_view(list@);
    let mut i: usize = 0;
    while i < list.len()
        invariant
            i <= list.len(),
            views == restrictions_view(list@),
            forall|j: int|
                0 <= j < i ==> !restriction_holds(
                    #[trigger] views[j],
                    arguments.age,
                    weather_view(*weather_and_temp),
                    day as int,
                ),
        decreases list.len() - i,
    {
        if list[i].check_restriction_at(arguments, weather_and_temp, day) {
            assert(restriction_holds(
                views[i as int],
                arguments.age,
                weather_view(*weather_and_temp),
                day as int,
            ));
            return true;
        }
        i += 1;
    }
    false
}

/// What is wrong with an entry of a list of results: the error that came
/// with it, or the fault of the restriction that it holds.
pub open spec fn result_fault(result: Result<Restriction, String>) -> Option<Seq<char>> {
    match result {
        Ok(restriction) => restriction_fault(restriction@),
        Err(err) => Some(err@),
    }
}

/// What is wrong with each entry of a list of results, in their order.
pub open spec fn results_faults(results: Seq<Result<Restriction, String>>) -> Seq<
    Option<Seq<char>>,
> {
    Seq::new(results.len(), |i: int| result_fault(results[i]))
}

/// The content of the restrictions that a list of results holds.
pub open spec fn results_values(results: Seq<Result<Restriction, String>>) -> Seq<RestrictionView> {
    Seq::new(
        results.len(),
        |i: int|
            match results[i] {
                Ok(restriction) => restriction@,
                Err(_) => arbitrary(),
            },
    )
}

/// Gathers the restrictions out of a list of results. The list is walked
/// in order: an error is handed on as it is, a restriction is checked again,
/// and the first of either kind ends the walk.
pub fn collect_predicate(results: &Vec<Result<Restriction, String>>) -> (res: Result<
    Restrictions,
    String,
>)
    ensures
        match res {
            Ok(list) => {
                &&& first_fault(results_faults(results@)) is None
                &&& list@.len() == results@.len()
                &&& restrictions_view(list@) == results_values(results@)
                &&& valid_restrictions(restrictions_view(list@))
            },
            Err(err) => first_fault(results_faults(results@)) == Some(err@),
        },
{
    let ghost faults = results_faults(results@);
    let mut list: Vec<Restriction> = Vec::new();
    let mut i: usize = 0;
    while i < results.len()
        invariant
            i <= results.len(),
            faults == results_faults(results@),
            list@.len() == i,
            forall|j: int| 0 <= j < i ==> (#[trigger] faults[j]) is None,
            forall|j: int| 0 <= j < i ==> (#[trigger] list@[j])@ == results_values(results@)[j],
            forall|j: int| 0 <= j < i ==> (#[trigger] list@[j]).wf(),
        decreases results.len() - i,
    {
        match &results[i] {
            Ok(restriction) => match restriction.validate() {
                Ok(checked) => {
                    proof {
                        lemma_fault_iff_invalid(restriction@);
                    }
                    list.push(checked);
                },
                Err(err) => {
                    proof {
                        lemma_first_fault_at(faults, i as int);
                    }
                    return Err(err);
                },
            },
            Err(err) => {
                proof {
                    lemma_first_fault_at(faults, i as int);
                }
                return Err(err.clone());
            },
        }
        i += 1;
    }
    proof {
        lemma_first_fault_none(faults);
        assert(restrictions_view(list@) =~= results_values(results@));
        assert forall|j: int| 0 <= j < list@.len() implies valid_restriction(
            #[trigger] restrictions_view(list@)[j],
        ) by {
            assert(list@[j].wf());
        }
    }
    Ok(list)
}

/// What a list of restrictions can do, whether it may be empty or not.
pub trait RestrictionsExt: Sized {
    /// The content of the restrictions, in their order.
    spec fn contents(&self) -> Seq<RestrictionView>;

    /// Whether a list of this kind may have `len` entries.
    spec fn admits(len: nat) -> bool;

    /// Gathers the restrictions out of a list of results. The first error
    /// or fault in the list is handed back; a list without one is refused
    /// only where it has a length that this kind of list does not admit.
    fn from_vec(value: Vec<Result<Restriction, String>>) -> (res: Result<Self, String>)
        ensures
            match res {
                Ok(list) => {
                    &&& first_fault(results_faults(value@)) is None
                    &&& Self::admits(value@.len())
                    &&& list.contents() == results_values(value@)
                    &&& valid_restrictions(list.contents())
                },
                Err(err) => match first_fault(results_faults(value@)) {
                    Some(fault) => err@ == fault,
                    None => !Self::admits(value@.len()) && err@ == "sequence is empty"@,
                },
            },
    ;

    /// Whether the customer satisfies one of the restrictions today. The
    /// day is read from the clock, once: the answer is that of the rules on
    /// some day, and on every day where no date restriction stands in the
    /// list.
    fn check_restriction_or(
        &self,
        arguments: Arguments,
        weather_and_temp: Option<WeatherObservation>,
    ) -> (res: bool)
        ensures
            exists|day: int|
                res == #[trigger] any_holds(
                    self.contents(),
                    arguments.age,
                    weather_view(weather_and_temp),
                    day,
                ),
            !any_mentions_date(self.contents()) ==> forall|day: int|
                res == #[trigger] any_holds(
                    self.contents(),
                    arguments.age,
                    weather_view(weather_and_temp),
                    day,
                ),
    ;

    /// Whether the customer satisfies all the restrictions today. The
    /// day is read from the clock, once: the answer is that of the rules on
    /// some day, and on every day where no date restriction stands in the
    /// list.
    fn check_restriction_and(
        &self,
        arguments: Arguments,
        weather_and_temp: Option<WeatherObservation>,
    ) -> (res: bool)
        ensures
            exists|day: int|
                res == #[trigger] all_hold(
                    self.contents(),
                    arguments.age,
                    weather_view(weather_and_temp),
                    day,
                ),
            !any_mentions_date(self.contents()) ==> forall|day: int|
                res == #[trigger] all_hold(
                    self.contents(),
                    arguments.age,
                    weather_view(weather_and_temp),
                    day,
                ),
    ;
}

impl RestrictionsExt for Restrictions {
    open spec fn contents(&self) -> Seq<RestrictionView> {
        restrictions_view(self@)
    }

    open spec fn admits(len: nat) -> bool {
        true
    }

    fn from_vec(value: Vec<Result<Restriction, String>>) -> (res: Result<Restrictions, String>) {
        collect_predicate(&value)
    }

    fn check_restriction_or(
        &self,
        arguments: Arguments,
        weather_and_temp: Option<WeatherObservation>,
    ) -> (res: bool) {
        let day = today();
        let res = any_holds_at(self, &arguments, &weather_and_temp, day);
        assert(res == any_holds(
            self.contents(),
            arguments.age,
            weather_view(weather_and_temp),
            day as int,
        ));
        proof {
            law_dateless_list_holds_alike(
                self.contents(),
                arguments.age,
                weather_view(weather_and_temp),
                day as int,
            );
        }
        res
    }

    fn check_restriction_and(
        &self,
        arguments: Arguments,
        weather_and_temp: Option<WeatherObservation>,
    ) -> (res: bool) {
        let day = today();
        let res = all_hold_at(self, &arguments, &weather_and_temp, day);
        assert(res == all_hold(
            self.contents(),
            arguments.age,
            weather_view(weather_and_temp),
            day as int,
        ));
        proof {
            law_dateless_list_holds_alike(
                self.contents(),
                arguments.age,
                weather_view(weather_and_temp),
                day as int,
            );
        }
        res
    }
}

impl RestrictionsExt for SubRestrictions {
    open spec fn contents(&self) -> Seq<RestrictionView> {
        restrictions_view(self@)
    }

    open spec fn admits(len: nat) -> bool {
        len > 0
    }

    fn from_vec(value: Vec<Result<Restriction, String>>) -> (res: Result<
        SubRestrictions,
        String,
    >) {
        match collect_predicate(&value) {
            Ok(list) => match SubRestrictions::new(list) {
                Ok(children) => Ok(children),
                Err(err) => Err(err.to_string()),
            },
            Err(err) => Err(err),
        }
    }

    fn check_restriction_or(
        &self,
        arguments: Arguments,
        weather_and_temp: Option<WeatherObservation>,
    ) -> (res: bool) {
        let day = today();
        let res = any_holds_at(self.as_vec(), &arguments, &weather_and_temp, day);
        assert(res == any_holds(
            self.contents(),
            arguments.age,
            weather_view(weather_and_temp),
            day as int,
        ));
        proof {
            law_dateless_list_holds_alike(
                self.contents(),
                arguments.age,
                weather_view(weather_and_temp),
                day as int,
            );
        }
        res
    }

    fn check_restriction_and(
        &self,
        arguments: Arguments,
        weather_and_temp: Option<WeatherObservation>,
    ) -> (res: bool) {
        let day = today();
        let res = all_hold_at(self.as_vec(), &arguments, &weather_and_temp, day);
        assert(res == all_hold(
            self.contents(),
            arguments.age,
            weather_view(weather_and_temp),
            day as int,
        ));
        proof {
            law_dateless_list_holds_alike(
                self.contents(),
                arguments.age,
                weather_view(weather_and_temp),
                day as int,
            );
        }
        res
    }
}

} // verus!
