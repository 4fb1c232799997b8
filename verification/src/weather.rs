//! The weather as it was observed for a request.

use crate::promocode::rules::WeatherView;
use vstd::prelude::*;

verus! {

/// An observation: the name of the weather (`clear`, `rain`, ...) and the
/// temperature in whole thousandths of a degree Celsius.
///
/// The temperature is the observed one rounded down to a thousandth. A
/// threshold is compared with that rounded temperature: one that is written
/// to the thousandth is reached exactly when the observed temperature is not
/// below it, and a finer one exactly when the rounded temperature is not
/// below it.
#[derive(Debug, PartialEq)]
pub struct WeatherObservation {
    pub condition: String,
    pub millidegrees: i64,
}

impl View for WeatherObservation {
    type V = WeatherView;

    open spec fn view(&self) -> WeatherView {
        WeatherView { condition: self.condition@, millidegrees: self.millidegrees as int }
    }
}

impl Clone for WeatherObservation {
    fn clone(&self) -> (res: Self)
        ensures
            res@ == self@,
    {
        WeatherObservation { condition: self.condition.clone(), millidegrees: self.millidegrees }
    }
}

impl WeatherObservation {
    /// An observation of the given weather and temperature.
    pub fn new(condition: String, millidegrees: i64) -> (res: Self)
        ensures
            res@ == (WeatherView { condition: condition@, millidegrees: millidegrees as int }),
    {
        WeatherObservation { condition, millidegrees }
    }
}

/// The content of an observation that may be missing.
pub open spec fn weather_view(weather: Option<WeatherObservation>) -> Option<WeatherView> {
    match weather {
        Some(observed) => Some(observed@),
        None => None,
    }
}

} // verus!
