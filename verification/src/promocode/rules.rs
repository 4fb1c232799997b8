//! What a restriction means: when a tree of restrictions is well formed,
//! what is wrong with one that is not, and when a customer satisfies it.
//!
//! The rules are stated over `RestrictionView`, the mathematical content
//! that a validated restriction and its unvalidated shadow have in common.

use crate::promocode::date::{day_number, window_contains, window_fault};
use crate::promocode::temperature::{is_numeral, lemma_empty_is_no_numeral, threshold_reached};
use crate::validate_type::string::is_blank;
use vstd::prelude::*;

verus! {

/// The content of a restriction.
pub enum RestrictionView {
    /// The day of the request lies between `after` and `before`.
    Date { after: Seq<char>, before: Seq<char> },
    /// The customer's age is `eq`, or at least `gt` and at most `lt`.
    Age { lt: Option<u8>, eq: Option<u8>, gt: Option<u8> },
    /// The weather is `is`, and it is not colder than `gt`.
    Meteo { is: Seq<char>, gt: Seq<char> },
    /// Every child holds.
    And(Seq<RestrictionView>),
    /// Some child holds.
    Or(Seq<RestrictionView>),
}

/// The weather as it was observed: its name, and the temperature in
/// thousandths of a degree Celsius.
pub struct WeatherView {
    pub condition: Seq<char>,
    pub millidegrees: int,
}

/// An age restriction is well formed when it gives `eq` alone, or one or
/// both of `gt` and `lt` with `gt` below `lt`.
pub open spec fn valid_age(lt: Option<u8>, eq: Option<u8>, gt: Option<u8>) -> bool {
    if eq is Some {
        lt is None && gt is None
    } else {
        &&& lt is Some || gt is Some
        &&& lt is Some && gt is Some ==> gt->0 < lt->0
    }
}

/// What is wrong with an age restriction, or `None` where it is well formed.
pub open spec fn age_fault(lt: Option<u8>, eq: Option<u8>, gt: Option<u8>) -> Option<Seq<char>> {
    if lt is None && eq is None && gt is None {
        Some("One of `lt`, `eq` or `gt` must be present."@)
    } else if eq is Some {
        if lt is None && gt is None {
            None
        } else {
            Some("Unsupported @age restriction."@)
        }
    } else if lt is Some && gt is Some && gt->0 >= lt->0 {
        Some("`gt` cannot be lower than `lt`."@)
    } else {
        None
    }
}

/// The age satisfies the restriction. Both bounds are inclusive. A
/// restriction that gives nothing, or `eq` beside a bound, is satisfied by
/// no age.
pub open spec fn age_matches(lt: Option<u8>, eq: Option<u8>, gt: Option<u8>, age: u8) -> bool {
    if eq is Some {
        lt is None && gt is None && age == eq->0
    } else {
        &&& lt is Some || gt is Some
        &&& gt is Some ==> gt->0 <= age
        &&& lt is Some ==> age <= lt->0
    }
}

/// The observed weather is the one asked for, and it is not colder than the
/// threshold. Without an observation the restriction is not satisfied.
pub open spec fn meteo_matches(is: Seq<char>, gt: Seq<char>, weather: Option<WeatherView>) -> bool {
    &&& weather matches Some(observed)
    &&& is == observed.condition
    &&& threshold_reached(gt, observed.millidegrees)
}

/// What is wrong with a temperature threshold, or `None` where it is a
/// numeral.
pub open spec fn temp_fault(gt: Seq<char>) -> Option<Seq<char>> {
    if gt.len() == 0 {
        Some("`gt` must be nonempty."@)
    } else if !is_numeral(gt) {
        Some("`gt` must be numeric."@)
    } else {
        None
    }
}

/// What is wrong with a date restriction, or `None` where both bounds are
/// dates and `after` is not later than `before`.
pub open spec fn date_fault(after: Seq<char>, before: Seq<char>) -> Option<Seq<char>> {
    if is_blank(after) {
        Some("`after` must be nonempty."@)
    } else if is_blank(before) {
        Some("`before` must be nonempty."@)
    } else {
        window_fault(day_number(after), day_number(before))
    }
}

/// What is wrong with a weather restriction, or `None` where it names a
/// weather and its threshold is a numeral.
pub open spec fn meteo_fault(is: Seq<char>, gt: Seq<char>) -> Option<Seq<char>> {
    if is_blank(is) {
        Some("`is` must be nonempty."@)
    } else {
        temp_fault(gt)
    }
}

/// The first fault in a list of findings, in the order of the list.
pub open spec fn first_fault(faults: Seq<Option<Seq<char>>>) -> Option<Seq<char>>
    decreases faults.len(),
{
    if faults.len() == 0 {
        None
    } else if faults[0] is Some {
        faults[0]
    } else {
        first_fault(faults.drop_first())
    }
}

/// What is wrong with each of the children, in their order.
pub open spec fn children_faults(children: Seq<RestrictionView>) -> Seq<Option<Seq<char>>>
    decreases children, 0nat,
{
    Seq::new(
        children.len(),
        |i: int|
            if 0 <= i < children.len() {
                restriction_fault(children[i])
            } else {
                None
            },
    )
}

/// What is wrong with a restriction: the fault that a depth-first walk of
/// the tree meets first, or `None` where the tree is well formed. A
/// combinator without children is at fault before any child is looked at.
pub open spec fn restriction_fault(v: RestrictionView) -> Option<Seq<char>>
    decreases v, 1nat,
{
    match v {
        RestrictionView::Date { after, before } => date_fault(after, before),
        RestrictionView::Age { lt, eq, gt } => age_fault(lt, eq, gt),
        RestrictionView::Meteo { is, gt } => meteo_fault(is, gt),
        RestrictionView::And(children) => if children.len() == 0 {
            Some("`@and` restrictions must be nonempty."@)
        } else {
            first_fault(children_faults(children))
        },
        RestrictionView::Or(children) => if children.len() == 0 {
            Some("`@or` restrictions must be nonempty."@)
        } else {
            first_fault(children_faults(children))
        },
    }
}

/// A restriction is well formed: its dates are dates in order, its age
/// bounds make a range, its weather is named and its threshold is a number,
/// and no combinator in it is without children.
pub open spec fn valid_restriction(v: RestrictionView) -> bool
    decreases v, 1nat,
{
    match v {
        RestrictionView::Date { after, before } => {
            &&& !is_blank(after)
            &&& !is_blank(before)
            &&& day_number(after) is Some
            &&& day_number(before) is Some
            &&& day_number(after)->0 <= day_number(before)->0
        },
        RestrictionView::Age { lt, eq, gt } => valid_age(lt, eq, gt),
        RestrictionView::Meteo { is, gt } => !is_blank(is) && is_numeral(gt),
        RestrictionView::And(children) => children.len() > 0 && valid_restrictions(children),
        RestrictionView::Or(children) => children.len() > 0 && valid_restrictions(children),
    }
}

/// The restriction is a combinator: `@and` or `@or`.
pub open spec fn is_combinator(v: RestrictionView) -> bool {
    v is And || v is Or
}

/// The list does not begin with a combinator.
pub open spec fn starts_with_leaf(list: Seq<RestrictionView>) -> bool {
    list.len() > 0 ==> !is_combinator(list[0])
}

/// The list has the shape that a checked promocode asks for: at most two
/// restrictions, the first of them a date, an age or a weather restriction,
/// and the second a combinator.
pub open spec fn well_shaped(list: Seq<RestrictionView>) -> bool {
    &&& list.len() <= 2
    &&& starts_with_leaf(list)
    &&& list.len() == 2 ==> is_combinator(list[1])
}

/// Every restriction of a list is well formed.
pub open spec fn valid_restrictions(list: Seq<RestrictionView>) -> bool
    decreases list, 0nat,
{
    forall|i: int| 0 <= i < list.len() ==> valid_restriction(#[trigger] list[i])
}

/// A customer of the given age satisfies the restriction on the day
/// `today`, under the observed weather. Without an observation no weather
/// restriction is satisfied.
pub open spec fn restriction_holds(
    v: RestrictionView,
    age: u8,
    weather: Option<WeatherView>,
    today: int,
) -> bool
    decreases v, 1nat,
{
    match v {
        RestrictionView::Date { after, before } => window_contains(
            day_number(after),
            day_number(before),
            today,
        ),
        RestrictionView::Age { lt, eq, gt } => age_matches(lt, eq, gt, age),
        RestrictionView::Meteo { is, gt } => meteo_matches(is, gt, weather),
        RestrictionView::And(children) => all_hold(children, age, weather, today),
        RestrictionView::Or(children) => any_holds(children, age, weather, today),
    }
}

/// Every restriction of the list holds.
pub open spec fn all_hold(
    list: Seq<RestrictionView>,
    age: u8,
    weather: Option<WeatherView>,
    today: int,
) -> bool
    decreases list, 0nat,
{
    forall|i: int| 0 <= i < list.len() ==> restriction_holds(#[trigger] list[i], age, weather, today)
}

/// Some restriction of the list holds.
pub open spec fn any_holds(
    list: Seq<RestrictionView>,
    age: u8,
    weather: Option<WeatherView>,
    today: int,
) -> bool
    decreases list, 0nat,
{
    exists|i: int| 0 <= i < list.len() && restriction_holds(#[trigger] list[i], age, weather, today)
}

/// A date restriction stands somewhere in the tree.
pub open spec fn mentions_date(tree: RestrictionView) -> bool
    decreases tree, 1nat,
{
    match tree {
        RestrictionView::Date { .. } => true,
        RestrictionView::And(children) => any_mentions_date(children),
        RestrictionView::Or(children) => any_mentions_date(children),
        _ => false,
    }
}

/// A date restriction stands somewhere in a tree of the list.
pub open spec fn any_mentions_date(list: Seq<RestrictionView>) -> bool
    decreases list, 0nat,
{
    exists|i: int| 0 <= i < list.len() && mentions_date(#[trigger] list[i])
}

/// A weather restriction stands somewhere in the tree.
pub open spec fn mentions_meteo(tree: RestrictionView) -> bool
    decreases tree, 1nat,
{
    match tree {
        RestrictionView::Meteo { .. } => true,
        RestrictionView::And(children) => any_mentions_meteo(children),
        RestrictionView::Or(children) => any_mentions_meteo(children),
        _ => false,
    }
}

/// A weather restriction stands somewhere in a tree of the list.
pub open spec fn any_mentions_meteo(list: Seq<RestrictionView>) -> bool
    decreases list, 0nat,
{
    exists|i: int| 0 <= i < list.len() && mentions_meteo(#[trigger] list[i])
}

/// An age restriction is at fault exactly when it is not well formed.
pub proof fn law_age_fault_iff_invalid(lt: Option<u8>, eq: Option<u8>, gt: Option<u8>)
    ensures
        age_fault(lt, eq, gt) is None <==> valid_age(lt, eq, gt),
{
}

/// A list of findings has no first fault exactly when it has no fault.
pub proof fn lemma_first_fault_none(faults: Seq<Option<Seq<char>>>)
    ensures
        first_fault(faults) is None <==> forall|i: int|
            0 <= i < faults.len() ==> (#[trigger] faults[i]) is None,
    decreases faults.len(),
{
    if faults.len() > 0 {
        let rest = faults.drop_first();
        lemma_first_fault_none(rest);
        if faults[0] is None {
            if first_fault(rest) is None {
                assert forall|i: int| 0 <= i < faults.len() implies (#[trigger] faults[i]) is None by {
                    if i > 0 {
                        assert(rest[i - 1] is None);
                    }
                }
            } else {
                let j = choose|j: int| 0 <= j < rest.len() && !((#[trigger] rest[j]) is None);
                assert(faults[j + 1] == rest[j]);
            }
        }
    }
}

/// The first fault of a list is the fault at `i` when nothing before `i`
/// is at fault and `i` is.
pub proof fn lemma_first_fault_at(faults: Seq<Option<Seq<char>>>, i: int)
    requires
        0 <= i < faults.len(),
        faults[i] is Some,
        forall|j: int| 0 <= j < i ==> (#[trigger] faults[j]) is None,
    ensures
        first_fault(faults) == faults[i],
    decreases i,
{
    if i > 0 {
        let rest = faults.drop_first();
        assert(faults[0] is None);
        assert forall|j: int| 0 <= j < i - 1 implies (#[trigger] rest[j]) is None by {
            assert(rest[j] == faults[j + 1]);
        }
        lemma_first_fault_at(rest, i - 1);
    }
}

/// A restriction is at fault exactly when it is not well formed.
pub proof fn lemma_fault_iff_invalid(v: RestrictionView)
    ensures
        restriction_fault(v) is None <==> valid_restriction(v),
    decreases v,
{
    match v {
        RestrictionView::Date { after, before } => {},
        RestrictionView::Age { lt, eq, gt } => {},
        RestrictionView::Meteo { is, gt } => {
            if gt.len() == 0 {
                lemma_empty_is_no_numeral(gt);
            }
        },
        RestrictionView::And(children) => {
            lemma_children_fault_iff_invalid(children);
        },
        RestrictionView::Or(children) => {
            lemma_children_fault_iff_invalid(children);
        },
    }
}

/// No child is at fault exactly when every child is well formed.
pub proof fn lemma_children_fault_iff_invalid(children: Seq<RestrictionView>)
    ensures
        first_fault(children_faults(children)) is None <==> valid_restrictions(children),
    decreases children,
{
    let faults = children_faults(children);
    lemma_first_fault_none(faults);
    assert forall|i: int| 0 <= i < children.len() implies ((#[trigger] faults[i]) is None
        <==> valid_restriction(children[i])) by {
        lemma_fault_iff_invalid(children[i]);
    }
    if valid_restrictions(children) {
        assert forall|i: int| 0 <= i < faults.len() implies (#[trigger] faults[i]) is None by {
            assert(valid_restriction(children[i]));
        }
    }
    if first_fault(faults) is None {
        assert forall|i: int| 0 <= i < children.len() implies valid_restriction(
            #[trigger] children[i],
        ) by {
            assert(faults[i] is None);
        }
    }
}

} // verus!
