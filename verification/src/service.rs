//! What the service answers to a request, once the promocode was looked up
//! and the weather was observed.

use crate::laws::law_day_matters_to_dates_only_among;
use crate::promocode::restrictions::any_holds_at;
use crate::promocode::date::today;
use crate::promocode::rules::{any_holds, any_mentions_date, WeatherView};
use crate::promocode::shadow::PromocodeView;
use crate::promocode::{response_for, Promocode};
use crate::promocode_request::request::PromocodeRequest;
use crate::promocode_request::shadow::PromocodeRequestView;
use crate::promocode_response::response::{PromocodeResponse, ResponseView};
use crate::weather::{weather_view, WeatherObservation};
use vstd::prelude::*;

verus! {

/// The content of a promocode that may not have been found.
pub open spec fn found_view(found: Option<Promocode>) -> Option<PromocodeView> {
    match found {
        Some(promocode) => Some(promocode@),
        None => None,
    }
}

/// Whether the request is granted on the day `today`: the promocode was
/// found, and the customer satisfies one of its restrictions.
pub open spec fn is_granted(
    found: Option<PromocodeView>,
    request: PromocodeRequestView,
    weather: Option<WeatherView>,
    today: int,
) -> bool {
    match found {
        Some(promocode) => any_holds(
            promocode.restrictions,
            request.arguments.age,
            weather,
            today,
        ),
        None => false,
    }
}

/// The discount that the answer names: that of the promocode, or nothing
/// where none was found.
pub open spec fn granted_percent(found: Option<PromocodeView>) -> u8 {
    match found {
        Some(promocode) => promocode.percent,
        None => 0,
    }
}

/// The answer to a request on the day `today`.
pub open spec fn answer_for(
    found: Option<PromocodeView>,
    request: PromocodeRequestView,
    weather: Option<WeatherView>,
    today: int,
) -> Result<ResponseView, Seq<char>> {
    response_for(
        request.promocode_name,
        granted_percent(found),
        is_granted(found, request, weather, today),
    )
}

/// `res` is what the rules answer to the request on the day `today`.
pub open spec fn is_answer(
    res: Result<PromocodeResponse, String>,
    found: Option<PromocodeView>,
    request: PromocodeRequestView,
    weather: Option<WeatherView>,
    today: int,
) -> bool {
    match res {
        Ok(response) => response.wf() && Ok::<ResponseView, Seq<char>>(response@) == answer_for(
            found,
            request,
            weather,
            today,
        ),
        Err(err) => Err::<ResponseView, Seq<char>>(err@) == answer_for(
            found,
            request,
            weather,
            today,
        ),
    }
}

/// No date restriction guards the promocode, if one was found.
pub open spec fn is_dateless(found: Option<PromocodeView>) -> bool {
    match found {
        Some(promocode) => !any_mentions_date(promocode.restrictions),
        None => true,
    }
}

/// Answers a request on the day `day`. `found` is the promocode that the
/// request names, as the store gave it; `weather_and_temp` is the weather
/// at the customer's place, if it could be observed.
pub fn respond_at(
    found: &Option<Promocode>,
    request: &PromocodeRequest,
    weather_and_temp: &Option<WeatherObservation>,
    day: i32,
) -> (res: Result<PromocodeResponse, String>)
    ensures
        is_answer(res, found_view(*found), request@, weather_view(*weather_and_temp), day as int),
{
    let (percent, predicate) = match found {
        Some(promocode) => (
            promocode.avantage().percent(),
            any_holds_at(promocode.restrictions(), request.arguments(), weather_and_temp, day),
        ),
        None => (0, false),
    };
    Promocode::generate_response(request.promocode_name(), percent, predicate)
}

/// Answers a request today. The day is read from the clock, once: the
/// answer is that of the rules on some day, and on every day where no date
/// restriction guards the promocode.
pub fn respond(
    found: &Option<Promocode>,
    request: &PromocodeRequest,
    weather_and_temp: &Option<WeatherObservation>,
) -> (res: Result<PromocodeResponse, String>)
    ensures
        exists|day: int| #[trigger]
            is_answer(res, found_view(*found), request@, weather_view(*weather_and_temp), day),
        is_dateless(found_view(*found)) ==> forall|day: int| #[trigger]
            is_answer(res, found_view(*found), request@, weather_view(*weather_and_temp), day),
{
    let day = today();
    let res = respond_at(found, request, weather_and_temp, day);
    assert(is_answer(
        res,
        found_view(*found),
        request@,
        weather_view(*weather_and_temp),
        day as int,
    ));
    proof {
        if is_dateless(found_view(*found)) {
            assert forall|other: int| #[trigger]
                is_answer(
                    res,
                    found_view(*found),
                    request@,
                    weather_view(*weather_and_temp),
                    other,
                ) by {
                if let Some(promocode) = found_view(*found) {
                    law_day_matters_to_dates_only_among(
                        promocode.restrictions,
                        request@.arguments.age,
                        weather_view(*weather_and_temp),
                        day as int,
                        other,
                    );
                }
            }
        }
    }
    res
}

} // verus!
