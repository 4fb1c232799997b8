use promocode::promocode_response::reason::Reasons;
use promocode::promocode_response::response::PromocodeResponse;

#[test]
fn promocode_denied_validation() {
    let promocode_denied_valid = PromocodeResponse::denied("promocode_name".to_string(), Reasons {});

    assert!(promocode_denied_valid.is_ok());

    let promocode_denied_with_empty_promocode_name = PromocodeResponse::denied("".to_string(), Reasons {});

    assert!(promocode_denied_with_empty_promocode_name.is_err());
}
