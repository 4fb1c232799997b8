use promocode::promocode::avantage::Avantage;
use promocode::promocode::shadow::AvantageShadow;
use promocode::promocode_request::arguments::Arguments;
use promocode::promocode_request::meteo::Meteo;
use promocode::promocode_request::shadow::{ArgumentsShadow, MeteoShadow, PromocodeRequestShadow};
use promocode::promocode_request::PromocodeRequest;
use promocode::promocode_response::accepted::PromocodeAccepted;
use promocode::promocode_response::denied::PromocodeDenied;
use promocode::promocode_response::reason::Reasons;
use promocode::promocode_response::shadow::{PromocodeAcceptedShadow, PromocodeDeniedShadow, ReasonsShadow};
use promocode::promocode_response::status::Status;
use promocode::promocode_response::PromocodeResponse;
use promocode::validate_type::string::NonBlankString;
use promocode::weather::WeatherObservation;

fn request_shadow(name: &str, age: u8, town: &str) -> PromocodeRequestShadow {
    PromocodeRequestShadow {
        promocode_name: name.to_string(),
        arguments: ArgumentsShadow { age, meteo: MeteoShadow { town: town.to_string() } },
    }
}

#[test]
fn meteo_needs_a_town() {
    let lyon = Meteo::new("Lyon".to_string()).unwrap();
    assert_eq!(lyon.town(), "Lyon");
    assert_eq!(lyon.validate(), Ok(lyon.clone()));
    assert_eq!(lyon.to_shadow(), MeteoShadow { town: "Lyon".to_string() });
    assert_eq!(Meteo::try_from(lyon.to_shadow()), Ok(lyon.clone()));
    assert_eq!(Meteo::new_unchecked("Lyon".to_string()), lyon);
    assert_eq!(Meteo::new("".to_string()).unwrap_err(), "`town` must be nonempty.");
    assert_eq!(Meteo::new(" \n".to_string()).unwrap_err(), "`town` must be nonempty.");
    assert_eq!(Meteo::try_from(MeteoShadow { town: "".to_string() }).unwrap_err(), "`town` must be nonempty.");
    assert_eq!(Meteo::new_unchecked(" ".to_string()).validate().unwrap_err(), "`town` must be nonempty.");
    assert_eq!(MeteoShadow { town: "Lyon".to_string() }.clone(), MeteoShadow { town: "Lyon".to_string() });
}

#[test]
fn arguments_hand_an_error_on() {
    let arguments = Arguments::new(25, Meteo::new("Lyon".to_string())).unwrap();
    assert_eq!(arguments.age, 25);
    assert_eq!(arguments.meteo.town(), "Lyon");
    assert_eq!(arguments.validate(), Ok(arguments.clone()));
    assert_eq!(Arguments::try_from(arguments.to_shadow()), Ok(arguments.clone()));
    assert_eq!(Arguments::new_unchecked(25, Meteo::new_unchecked("Lyon".to_string())), arguments);
    assert_eq!(Arguments::new(25, Meteo::new("".to_string())).unwrap_err(), "`town` must be nonempty.");
    assert_eq!(Arguments::new(25, Err("no town".to_string())).unwrap_err(), "no town");
    assert_eq!(Arguments::new(25, Ok(Meteo::new_unchecked("".to_string()))).unwrap_err(), "`town` must be nonempty.");
    assert_eq!(
        Arguments::new_unchecked(25, Meteo::new_unchecked("".to_string())).validate().unwrap_err(),
        "`town` must be nonempty."
    );
    assert_eq!(
        Arguments::try_from(ArgumentsShadow { age: 1, meteo: MeteoShadow { town: " ".to_string() } }).unwrap_err(),
        "`town` must be nonempty."
    );
}

#[test]
fn a_request_is_checked_name_first() {
    let request = PromocodeRequest::new("WeatherCode".to_string(), Arguments::new(25, Meteo::new("Lyon".to_string()))).unwrap();
    assert_eq!(request.promocode_name(), "WeatherCode");
    assert_eq!(request.arguments.age, 25);
    assert_eq!(request.arguments().meteo.town(), "Lyon");
    assert_eq!(request.validate(), Ok(request.clone()));
    assert_eq!(request.to_shadow(), request_shadow("WeatherCode", 25, "Lyon"));
    assert_eq!(PromocodeRequest::try_from(request_shadow("WeatherCode", 25, "Lyon")), Ok(request.clone()));
    assert_eq!(
        PromocodeRequest::new_unchecked("WeatherCode".to_string(), Arguments::new(25, Meteo::new("Lyon".to_string())).unwrap()),
        request
    );

    assert_eq!(
        PromocodeRequest::new("".to_string(), Arguments::new(25, Meteo::new("".to_string()))).unwrap_err(),
        "`promocode_name` must be nonempty."
    );
    assert_eq!(
        PromocodeRequest::new("WeatherCode".to_string(), Arguments::new(25, Meteo::new("".to_string()))).unwrap_err(),
        "`town` must be nonempty."
    );
    assert_eq!(
        PromocodeRequest::new("WeatherCode".to_string(), Err("no arguments".to_string())).unwrap_err(),
        "no arguments"
    );
    assert_eq!(
        PromocodeRequest::try_from(request_shadow(" ", 25, "")).unwrap_err(),
        "`promocode_name` must be nonempty."
    );
    assert_eq!(PromocodeRequest::try_from(request_shadow("x", 25, "")).unwrap_err(), "`town` must be nonempty.");
    let hidden = PromocodeRequest::new_unchecked(
        " ".to_string(),
        Arguments::new_unchecked(25, Meteo::new_unchecked("".to_string())),
    );
    assert_eq!(hidden.validate().unwrap_err(), "`promocode_name` must be nonempty.");
    let hidden_town = PromocodeRequest::new_unchecked(
        "x".to_string(),
        Arguments::new_unchecked(25, Meteo::new_unchecked("".to_string())),
    );
    assert_eq!(hidden_town.validate().unwrap_err(), "`town` must be nonempty.");
    assert_eq!(request_shadow("a", 1, "b").clone(), request_shadow("a", 1, "b"));
}

#[test]
fn status_words() {
    assert_eq!(Status::Accepted.name(), "accepted");
    assert_eq!(Status::Denied.name(), "denied");
    assert_eq!(Status::from_name(&"accepted".to_string()), Some(Status::Accepted));
    assert_eq!(Status::from_name(&"denied".to_string()), Some(Status::Denied));
    assert_eq!(Status::from_name(&"Accepted".to_string()), None);
    assert_eq!(Status::from_name(&"".to_string()), None);
}

#[test]
fn responses_are_built_from_checked_parts() {
    let accepted = PromocodeResponse::accepted("WeatherCode".to_string(), Avantage::new(20).unwrap()).unwrap();
    assert_eq!(
        accepted,
        PromocodeResponse::Accepted {
            promocode_name: NonBlankString::new("WeatherCode".to_string()).unwrap(),
            status: Status::Accepted,
            avantage: Avantage::new(20).unwrap(),
        }
    );
    assert_eq!(accepted.promocode_name(), "WeatherCode");
    assert_eq!(accepted.clone(), accepted);
    assert_eq!(PromocodeResponse::accepted_unchecked("WeatherCode".to_string(), Avantage::new(20).unwrap()), accepted);
    assert_eq!(
        PromocodeResponse::accepted(" ".to_string(), Avantage::new_unchecked(101)).unwrap_err(),
        "`promocode_name` must be nonempty."
    );
    assert_eq!(
        PromocodeResponse::accepted("WeatherCode".to_string(), Avantage::new_unchecked(101)).unwrap_err(),
        "`percent` must be between 0 and 100."
    );

    let denied = PromocodeResponse::denied("WeatherCode".to_string(), Reasons {}).unwrap();
    assert_eq!(
        denied,
        PromocodeResponse::Denied {
            promocode_name: NonBlankString::new("WeatherCode".to_string()).unwrap(),
            status: Status::Denied,
            reasons: Reasons {},
        }
    );
    assert_eq!(denied.promocode_name(), "WeatherCode");
    assert_eq!(PromocodeResponse::denied_unchecked("WeatherCode".to_string(), Reasons {}), denied);
    assert_eq!(
        PromocodeResponse::denied("\t".to_string(), Reasons {}).unwrap_err(),
        "`promocode_name` must be nonempty."
    );
}

#[test]
fn a_response_is_read_from_its_parts() {
    let name = || "WeatherCode".to_string();
    let discount = || Avantage::new(20).unwrap();
    assert_eq!(
        PromocodeResponse::from_parts(name(), Status::Accepted, Some(discount()), None),
        PromocodeResponse::accepted(name(), discount())
    );
    assert_eq!(
        PromocodeResponse::from_parts(name(), Status::Denied, None, Some(Reasons {})),
        PromocodeResponse::denied(name(), Reasons {})
    );
    for (status, avantage, reasons) in [
        (Status::Accepted, None, None),
        (Status::Accepted, None, Some(Reasons {})),
        (Status::Accepted, Some(discount()), Some(Reasons {})),
        (Status::Denied, None, None),
        (Status::Denied, Some(discount()), None),
        (Status::Denied, Some(discount()), Some(Reasons {})),
    ] {
        assert_eq!(
            PromocodeResponse::from_parts(name(), status, avantage.clone(), reasons).unwrap_err(),
            "Invalid promocode response"
        );
        assert_eq!(
            PromocodeResponse::from_parts("".to_string(), status, avantage, reasons).unwrap_err(),
            "`promocode_name` must be nonempty."
        );
    }
    assert_eq!(
        PromocodeResponse::from_parts(name(), Status::Accepted, Some(Avantage::new_unchecked(200)), None).unwrap_err(),
        "`percent` must be between 0 and 100."
    );
}

#[test]
fn a_response_as_a_record() {
    let accepted = PromocodeResponse::accepted("WeatherCode".to_string(), Avantage::new(20).unwrap()).unwrap();
    let record = accepted.to_record().unwrap();
    assert_eq!(
        record,
        PromocodeAccepted {
            promocode_name: "WeatherCode".to_string(),
            status: "accepted".to_string(),
            avantage: Avantage::new(20).unwrap(),
        }
    );
    assert_eq!(record.validate(), Ok(record.clone()));
    assert_eq!(
        record.to_shadow(),
        PromocodeAcceptedShadow {
            promocode_name: "WeatherCode".to_string(),
            status: "accepted".to_string(),
            avantage: AvantageShadow { percent: 20 },
        }
    );
    assert_eq!(PromocodeAccepted::try_from(record.to_shadow()), Ok(record.clone()));
    assert_eq!(record.to_shadow().clone(), record.to_shadow());

    let denied = PromocodeResponse::denied("WeatherCode".to_string(), Reasons {}).unwrap();
    let record = denied.to_record().unwrap_err();
    assert_eq!(
        record,
        PromocodeDenied { promocode_name: "WeatherCode".to_string(), status: "denied".to_string(), reasons: Reasons {} }
    );
    assert_eq!(record.validate(), Ok(record.clone()));
    assert_eq!(
        record.to_shadow(),
        PromocodeDeniedShadow {
            promocode_name: "WeatherCode".to_string(),
            status: "denied".to_string(),
            reasons: ReasonsShadow {},
        }
    );
    assert_eq!(PromocodeDenied::try_from(record.to_shadow()), Ok(record.clone()));
    assert_eq!(record.to_shadow().clone(), record.to_shadow());
}

#[test]
fn records_are_checked_name_first() {
    let accepted = PromocodeAccepted {
        promocode_name: " ".to_string(),
        status: "accepted".to_string(),
        avantage: Avantage::new_unchecked(101),
    };
    assert_eq!(accepted.validate().unwrap_err(), "`promocode_name` must be nonempty.");
    assert_eq!(PromocodeAccepted::try_from(accepted.to_shadow()).unwrap_err(), "`promocode_name` must be nonempty.");
    let accepted = PromocodeAccepted { promocode_name: "x".to_string(), ..accepted };
    assert_eq!(accepted.validate().unwrap_err(), "`percent` must be between 0 and 100.");
    assert_eq!(
        PromocodeAccepted::try_from(accepted.to_shadow()).unwrap_err(),
        "`percent` must be between 0 and 100."
    );

    let denied = PromocodeDenied { promocode_name: "".to_string(), status: "denied".to_string(), reasons: Reasons {} };
    assert_eq!(denied.validate().unwrap_err(), "`promocode_name` must be nonempty.");
    assert_eq!(PromocodeDenied::try_from(denied.to_shadow()).unwrap_err(), "`promocode_name` must be nonempty.");

    assert_eq!(Reasons {}.validate(), Ok(Reasons {}));
    assert_eq!(Reasons::try_from(ReasonsShadow {}), Ok(Reasons {}));
    assert_eq!(Reasons {}.to_shadow(), ReasonsShadow {});
}

#[test]
fn an_observation_keeps_what_it_was_given() {
    let observation = WeatherObservation::new("clear".to_string(), 18_370);
    assert_eq!(observation.condition, "clear");
    assert_eq!(observation.millidegrees, 18_370);
    assert_eq!(observation.clone(), observation);
}
