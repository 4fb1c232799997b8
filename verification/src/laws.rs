//! Laws of the rules: what holds of every restriction, every promocode and
//! every store.

use crate::db::{is_taken, storable, valid_store};
use crate::promocode::rules::{
    all_hold,
    any_holds,
    any_mentions_date,
    any_mentions_meteo,
    lemma_fault_iff_invalid,
    mentions_date,
    mentions_meteo,
    restriction_fault,
    restriction_holds,
    valid_restriction,
    valid_restrictions,
    well_shaped,
    RestrictionView,
    WeatherView,
};
use crate::promocode::shadow::{PromocodeShadow, PromocodeView, RestrictionShadow};
use crate::promocode::restriction::Restriction;
use crate::promocode::{lemma_promocode_fault_iff_invalid, promocode_fault, Promocode};
use vstd::prelude::*;

verus! {

/// `node` is `tree` itself or stands somewhere below it.
pub open spec fn occurs_in(node: RestrictionView, tree: RestrictionView) -> bool
    decreases tree, 1nat,
{
    node == tree || match tree {
        RestrictionView::And(children) => occurs_among(node, children),
        RestrictionView::Or(children) => occurs_among(node, children),
        _ => false,
    }
}

/// `node` stands in one of the trees of the list.
pub open spec fn occurs_among(node: RestrictionView, list: Seq<RestrictionView>) -> bool
    decreases list, 0nat,
{
    exists|i: int| 0 <= i < list.len() && occurs_in(node, #[trigger] list[i])
}

/// In a well-formed tree every node is well formed: no combinator without
/// children, no age restriction without a range, no window whose end comes
/// before its beginning stands anywhere in it.
pub proof fn law_every_node_is_valid(tree: RestrictionView, node: RestrictionView)
    requires
        valid_restriction(tree),
        occurs_in(node, tree),
    ensures
        valid_restriction(node),
    decreases tree, 1nat,
{
    if node != tree {
        match tree {
            RestrictionView::And(children) => law_every_node_among_is_valid(children, node),
            RestrictionView::Or(children) => law_every_node_among_is_valid(children, node),
            _ => {},
        }
    }
}

/// In a list of well-formed trees every node is well formed.
pub proof fn law_every_node_among_is_valid(list: Seq<RestrictionView>, node: RestrictionView)
    requires
        valid_restrictions(list),
        occurs_among(node, list),
    ensures
        valid_restriction(node),
    decreases list, 0nat,
{
    let i = choose|i: int| 0 <= i < list.len() && occurs_in(node, #[trigger] list[i]);
    law_every_node_is_valid(list[i], node);
}

/// Validation finds no fault in a restriction exactly when the restriction
/// is well formed; so a shadow with well-formed content is accepted, and
/// what is accepted has that content.
pub proof fn law_restriction_shadow_round_trip(restriction: Restriction, shadow: RestrictionShadow)
    requires
        restriction.wf(),
        shadow@ == restriction@,
    ensures
        restriction_fault(shadow@) is None,
{
    lemma_fault_iff_invalid(shadow@);
}

/// A shadow with the content of a well-formed promocode is accepted where
/// the promocode's list of restrictions is well shaped.
pub proof fn law_promocode_shadow_round_trip(promocode: Promocode, shadow: PromocodeShadow)
    requires
        promocode.wf(),
        well_shaped(promocode@.restrictions),
        shadow@ == promocode@,
    ensures
        promocode_fault(shadow@) is None,
{
    lemma_promocode_fault_iff_invalid(shadow@);
}

/// Without an observation no weather restriction holds.
pub proof fn law_meteo_fails_closed(is: Seq<char>, gt: Seq<char>, age: u8, today: int)
    ensures
        !restriction_holds(RestrictionView::Meteo { is, gt }, age, None, today),
{
}

/// The day matters to date restrictions only: a tree without one holds on
/// every day or on none.
pub proof fn law_day_matters_to_dates_only(
    tree: RestrictionView,
    age: u8,
    weather: Option<WeatherView>,
    day: int,
    other_day: int,
)
    requires
        !mentions_date(tree),
    ensures
        restriction_holds(tree, age, weather, day) == restriction_holds(
            tree,
            age,
            weather,
            other_day,
        ),
    decreases tree, 1nat,
{
    match tree {
        RestrictionView::And(children) => {
            law_day_matters_to_dates_only_among(children, age, weather, day, other_day);
        },
        RestrictionView::Or(children) => {
            law_day_matters_to_dates_only_among(children, age, weather, day, other_day);
        },
        _ => {},
    }
}

/// A list of trees without date restrictions holds alike on any two days,
/// read as a conjunction or as a disjunction.
pub proof fn law_day_matters_to_dates_only_among(
    list: Seq<RestrictionView>,
    age: u8,
    weather: Option<WeatherView>,
    day: int,
    other_day: int,
)
    requires
        !any_mentions_date(list),
    ensures
        all_hold(list, age, weather, day) == all_hold(list, age, weather, other_day),
        any_holds(list, age, weather, day) == any_holds(list, age, weather, other_day),
    decreases list, 0nat,
{
    assert forall|i: int| 0 <= i < list.len() implies restriction_holds(
        #[trigger] list[i],
        age,
        weather,
        day,
    ) == restriction_holds(list[i], age, weather, other_day) by {
        assert(!mentions_date(list[i]));
        law_day_matters_to_dates_only(list[i], age, weather, day, other_day);
    }
    if any_holds(list, age, weather, day) {
        let i = choose|i: int|
            0 <= i < list.len() && restriction_holds(#[trigger] list[i], age, weather, day);
        assert(restriction_holds(list[i], age, weather, other_day));
    }
    if any_holds(list, age, weather, other_day) {
        let i = choose|i: int|
            0 <= i < list.len() && restriction_holds(#[trigger] list[i], age, weather, other_day);
        assert(restriction_holds(list[i], age, weather, day));
    }
}

/// A list of trees without date restrictions holds on every day as it
/// holds on one, read as a conjunction or as a disjunction.
pub proof fn law_dateless_list_holds_alike(
    list: Seq<RestrictionView>,
    age: u8,
    weather: Option<WeatherView>,
    day: int,
)
    ensures
        !any_mentions_date(list) ==> forall|other: int|
            all_hold(list, age, weather, day) == #[trigger] all_hold(list, age, weather, other),
        !any_mentions_date(list) ==> forall|other: int|
            any_holds(list, age, weather, day) == #[trigger] any_holds(list, age, weather, other),
{
    if !any_mentions_date(list) {
        assert forall|other: int|
            all_hold(list, age, weather, day) == #[trigger] all_hold(
                list,
                age,
                weather,
                other,
            ) by {
            law_day_matters_to_dates_only_among(list, age, weather, day, other);
        }
        assert forall|other: int|
            any_holds(list, age, weather, day) == #[trigger] any_holds(
                list,
                age,
                weather,
                other,
            ) by {
            law_day_matters_to_dates_only_among(list, age, weather, day, other);
        }
    }
}

/// The weather matters to weather restrictions only: a tree without one
/// holds under every weather or under none.
pub proof fn law_weather_matters_to_meteo_only(
    tree: RestrictionView,
    age: u8,
    weather: Option<WeatherView>,
    other_weather: Option<WeatherView>,
    day: int,
)
    requires
        !mentions_meteo(tree),
    ensures
        restriction_holds(tree, age, weather, day) == restriction_holds(
            tree,
            age,
            other_weather,
            day,
        ),
    decreases tree, 1nat,
{
    match tree {
        RestrictionView::And(children) => {
            law_weather_matters_to_meteo_only_among(children, age, weather, other_weather, day);
        },
        RestrictionView::Or(children) => {
            law_weather_matters_to_meteo_only_among(children, age, weather, other_weather, day);
        },
        _ => {},
    }
}

/// A list of trees without weather restrictions holds alike under any two
/// weathers, read as a conjunction or as a disjunction.
pub proof fn law_weather_matters_to_meteo_only_among(
    list: Seq<RestrictionView>,
    age: u8,
    weather: Option<WeatherView>,
    other_weather: Option<WeatherView>,
    day: int,
)
    requires
        !any_mentions_meteo(list),
    ensures
        all_hold(list, age, weather, day) == all_hold(list, age, other_weather, day),
        any_holds(list, age, weather, day) == any_holds(list, age, other_weather, day),
    decreases list, 0nat,
{
    assert forall|i: int| 0 <= i < list.len() implies restriction_holds(
        #[trigger] list[i],
        age,
        weather,
        day,
    ) == restriction_holds(list[i], age, other_weather, day) by {
        assert(!mentions_meteo(list[i]));
        law_weather_matters_to_meteo_only(list[i], age, weather, other_weather, day);
    }
    if any_holds(list, age, weather, day) {
        let i = choose|i: int|
            0 <= i < list.len() && restriction_holds(#[trigger] list[i], age, weather, day);
        assert(restriction_holds(list[i], age, other_weather, day));
    }
    if any_holds(list, age, other_weather, day) {
        let i = choose|i: int|
            0 <= i < list.len() && restriction_holds(#[trigger] list[i], age, other_weather, day);
        assert(restriction_holds(list[i], age, weather, day));
    }
}

/// A promocode that the store accepts is the only one of its identifier
/// in the store afterwards.
pub proof fn law_pushed_is_found(store: Seq<PromocodeView>, promocode: PromocodeView, i: int)
    requires
        !is_taken(store, promocode),
        0 <= i < store.push(promocode).len(),
        store.push(promocode)[i].id == promocode.id || store.push(promocode)[i].name
            == promocode.name,
    ensures
        i == store.len(),
        store.push(promocode)[i] == promocode,
{
    if i < store.len() {
        assert(store[i] == store.push(promocode)[i]);
    }
}

/// A store that upholds its rules upholds them after a promocode that may
/// stand in it, and whose identifier and name are free, was pushed.
pub proof fn law_push_keeps_store_valid(store: Seq<PromocodeView>, promocode: PromocodeView)
    requires
        valid_store(store),
        storable(promocode),
        !is_taken(store, promocode),
    ensures
        valid_store(store.push(promocode)),
{
    let after = store.push(promocode);
    assert forall|i: int, j: int| 0 <= i < j < after.len() implies (#[trigger] after[i]).id != (
    #[trigger] after[j]).id && after[i].name != after[j].name by {
        assert(store[i] == after[i]);
        if j < store.len() {
            assert(store[j] == after[j]);
        }
    }
}

/// After the promocodes of an identifier were removed, none of that
/// identifier is in the store, and every other promocode still is.
pub proof fn law_deleted_is_gone(
    store: Seq<PromocodeView>,
    id: Seq<char>,
    after: Seq<PromocodeView>,
)
    requires
        after == store.filter(|promocode: PromocodeView| promocode.id != id),
    ensures
        forall|i: int| 0 <= i < after.len() ==> (#[trigger] after[i]).id != id,
        forall|i: int|
            0 <= i < store.len() && store[i].id != id ==> after.contains(#[trigger] store[i]),
{
    let kept = |promocode: PromocodeView| promocode.id != id;
    assert forall|i: int| 0 <= i < after.len() implies (#[trigger] after[i]).id != id by {
        store.lemma_filter_pred(kept, i);
    }
    assert forall|i: int| 0 <= i < store.len() && store[i].id != id implies after.contains(
        #[trigger] store[i],
    ) by {
        store.lemma_filter_contains(kept, i);
    }
}

} // verus!
