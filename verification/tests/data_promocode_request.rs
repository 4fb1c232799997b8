use promocode::promocode_request::arguments::Arguments;
use promocode::promocode_request::meteo::Meteo;
use promocode::promocode_request::shadow::{ArgumentsShadow, MeteoShadow, PromocodeRequestShadow};
use promocode::promocode_request::PromocodeRequest;
use serde::ser::{Serialize, SerializeStruct, Serializer};
use serde_json::Value;

/// A part of a request as it is written on the wire.
struct Wire<'a, T>(&'a T);

impl Serialize for Wire<'_, MeteoShadow> {
    fn serialize<S: Serializer>(&self, serializer: S) -> Result<S::Ok, S::Error> {
        let mut fields = serializer.serialize_struct("Meteo", 1)?;
        fields.serialize_field("town", &self.0.town)?;
        fields.end()
    }
}

impl Serialize for Wire<'_, ArgumentsShadow> {
    fn serialize<S: Serializer>(&self, serializer: S) -> Result<S::Ok, S::Error> {
        let mut fields = serializer.serialize_struct("Arguments", 2)?;
        fields.serialize_field("age", &self.0.age)?;
        fields.serialize_field("meteo", &Wire(&self.0.meteo))?;
        fields.end()
    }
}

impl Serialize for Wire<'_, PromocodeRequestShadow> {
    fn serialize<S: Serializer>(&self, serializer: S) -> Result<S::Ok, S::Error> {
        let mut fields = serializer.serialize_struct("PromocodeRequest", 2)?;
        fields.serialize_field("promocode_name", &self.0.promocode_name)?;
        fields.serialize_field("arguments", &Wire(&self.0.arguments))?;
        fields.end()
    }
}

fn to_string(request: &PromocodeRequest) -> Result<String, String> {
    serde_json::to_string(&Wire(&request.to_shadow())).map_err(|err| err.to_string())
}

fn from_str(json: &str) -> Result<PromocodeRequest, String> {
    let value: Value = serde_json::from_str(json).map_err(|err| err.to_string())?;
    let promocode_name = match value.get("promocode_name") {
        Some(Value::String(name)) => name.clone(),
        _ => return Err("missing field `promocode_name`".to_string()),
    };
    let arguments = match value.get("arguments") {
        Some(arguments) => arguments,
        None => return Err("missing field `arguments`".to_string()),
    };
    let age = match arguments.get("age").and_then(Value::as_u64) {
        Some(age) if age <= 255 => age as u8,
        _ => return Err("missing field `age`".to_string()),
    };
    let town = match arguments.get("meteo").and_then(|meteo| meteo.get("town")) {
        Some(Value::String(town)) => town.clone(),
        _ => return Err("missing field `town`".to_string()),
    };
    PromocodeRequest::try_from(PromocodeRequestShadow {
        promocode_name,
        arguments: ArgumentsShadow { age, meteo: MeteoShadow { town } },
    })
}

#[test]
fn promocode_request_validation() {
    let promocode_request_valid = PromocodeRequest::new(
        "promocode_name".to_string(),
        Arguments::new(42, Meteo::new("town".to_string())),
    );

    assert!(promocode_request_valid.is_ok());

    let promocode_request_with_empty_promocode_name = PromocodeRequest::new(
        "".to_string(),
        Arguments::new(42, Meteo::new("town".to_string())),
    );

    assert!(promocode_request_with_empty_promocode_name.is_err());
}

#[test]
fn promocode_request_serde() {
    let promocode_request_valid = PromocodeRequest::new(
        "WeatherCode".to_string(),
        Arguments::new(25, Meteo::new("Lyon".to_string())),
    );

    assert!(promocode_request_valid.is_ok());
    let promocode_request = promocode_request_valid.unwrap();
    let serialized_result = to_string(&promocode_request);

    assert!(serialized_result.is_ok());
    let serialized = serialized_result.unwrap();

    let promocode_str = r#"{"promocode_name":"WeatherCode","arguments":{"age":25,"meteo":{"town":"Lyon"}}}"#;

    let deserialized_result = from_str(&promocode_str);

    assert!(deserialized_result.is_ok());
    let deserialized = deserialized_result.unwrap();

    assert_eq!(promocode_request, deserialized);
    assert_eq!(serialized, promocode_str);
}

#[test]
fn a_request_that_is_read_is_validated() {
    assert_eq!(
        from_str(r#"{"promocode_name":"","arguments":{"age":25,"meteo":{"town":"Lyon"}}}"#).unwrap_err(),
        "`promocode_name` must be nonempty."
    );
    assert_eq!(
        from_str(r#"{"promocode_name":"WeatherCode","arguments":{"age":25,"meteo":{"town":" "}}}"#).unwrap_err(),
        "`town` must be nonempty."
    );
}
