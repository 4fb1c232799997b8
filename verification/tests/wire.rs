use promocode::promocode::avantage::Avantage;
use promocode::promocode::restriction::Restriction;
use promocode::promocode::shadow::{AvantageShadow, PromocodeShadow, RestrictionShadow, TempShadow};
use promocode::promocode::temp::Temp;
use promocode::promocode::wire::RestrictionKind;
use promocode::promocode::Promocode;
use serde::ser::{Serialize, SerializeMap, SerializeSeq, SerializeStruct, Serializer};
use serde_json::{Number, Value};

/// A shadow as it is written on the wire.
struct Wire<'a, T>(&'a T);

impl Serialize for Wire<'_, AvantageShadow> {
    fn serialize<S: Serializer>(&self, serializer: S) -> Result<S::Ok, S::Error> {
        let mut fields = serializer.serialize_struct("Avantage", 1)?;
        fields.serialize_field("percent", &self.0.percent)?;
        fields.end()
    }
}

impl Serialize for Wire<'_, TempShadow> {
    fn serialize<S: Serializer>(&self, serializer: S) -> Result<S::Ok, S::Error> {
        let mut fields = serializer.serialize_struct("Temp", 1)?;
        // A threshold travels as a number where the number is written as
        // the threshold is, and as a string otherwise.
        match self.0.gt.parse::<Number>() {
            Ok(number) if number.to_string() == self.0.gt => fields.serialize_field("gt", &number)?,
            _ => fields.serialize_field("gt", &self.0.gt)?,
        }
        fields.end()
    }
}

impl Serialize for Wire<'_, Vec<RestrictionShadow>> {
    fn serialize<S: Serializer>(&self, serializer: S) -> Result<S::Ok, S::Error> {
        let mut list = serializer.serialize_seq(Some(self.0.len()))?;
        for restriction in self.0 {
            list.serialize_element(&Wire(restriction))?;
        }
        list.end()
    }
}

/// What stands under the tag of a restriction.
struct Body<'a>(&'a RestrictionShadow);

impl Serialize for Body<'_> {
    fn serialize<S: Serializer>(&self, serializer: S) -> Result<S::Ok, S::Error> {
        match self.0 {
            RestrictionShadow::Date { after, before } => {
                let mut fields = serializer.serialize_struct("Date", 2)?;
                fields.serialize_field("after", after)?;
                fields.serialize_field("before", before)?;
                fields.end()
            },
            RestrictionShadow::Age { lt, eq, gt } => {
                let given = [lt, eq, gt].iter().filter(|bound| bound.is_some()).count();
                let mut fields = serializer.serialize_struct("Age", given)?;
                if let Some(bound) = lt {
                    fields.serialize_field("lt", bound)?;
                }
                if let Some(bound) = eq {
                    fields.serialize_field("eq", bound)?;
                }
                if let Some(bound) = gt {
                    fields.serialize_field("gt", bound)?;
                }
                fields.end()
            },
            RestrictionShadow::Meteo { is, temp } => {
                let mut fields = serializer.serialize_struct("Meteo", 2)?;
                fields.serialize_field("is", is)?;
                fields.serialize_field("temp", &Wire(temp))?;
                fields.end()
            },
            RestrictionShadow::And(children) => Wire(children).serialize(serializer),
            RestrictionShadow::Or(children) => Wire(children).serialize(serializer),
        }
    }
}

impl Serialize for Wire<'_, RestrictionShadow> {
    fn serialize<S: Serializer>(&self, serializer: S) -> Result<S::Ok, S::Error> {
        let mut tagged = serializer.serialize_map(Some(1))?;
        tagged.serialize_entry(&self.0.kind().tag(), &Body(self.0))?;
        tagged.end()
    }
}

impl Serialize for Wire<'_, PromocodeShadow> {
    fn serialize<S: Serializer>(&self, serializer: S) -> Result<S::Ok, S::Error> {
        let with_restrictions = !self.0.restrictions.is_empty();
        let mut fields = serializer.serialize_struct("Promocode", if with_restrictions { 4 } else { 3 })?;
        fields.serialize_field("_id", &self.0._id)?;
        fields.serialize_field("name", &self.0.name)?;
        fields.serialize_field("avantage", &Wire(&self.0.avantage))?;
        if with_restrictions {
            fields.serialize_field("restrictions", &Wire(&self.0.restrictions))?;
        }
        fields.end()
    }
}

fn text(value: &Value, field: &str) -> Result<String, String> {
    match value.get(field) {
        Some(Value::String(text)) => Ok(text.clone()),
        _ => Err(format!("missing field `{}`", field)),
    }
}

fn bound(value: &Value, field: &str) -> Result<Option<u8>, String> {
    match value.get(field) {
        None | Some(Value::Null) => Ok(None),
        Some(number) => match number.as_u64() {
            Some(small) if small <= 255 => Ok(Some(small as u8)),
            _ => Err(format!("invalid field `{}`", field)),
        },
    }
}

fn threshold(value: &Value) -> Result<TempShadow, String> {
    match value.get("gt") {
        Some(Value::String(text)) => Ok(TempShadow { gt: text.clone() }),
        Some(Value::Number(number)) => Ok(TempShadow { gt: number.to_string() }),
        _ => Err("missing field `gt`".to_string()),
    }
}

fn restrictions(value: &Value) -> Result<Vec<RestrictionShadow>, String> {
    match value {
        Value::Array(items) => items.iter().map(restriction).collect(),
        _ => Err("expected a sequence".to_string()),
    }
}

fn restriction(value: &Value) -> Result<RestrictionShadow, String> {
    let object = match value {
        Value::Object(object) => object,
        _ => return Err("expected a map".to_string()),
    };
    let keys: Vec<String> = object.keys().cloned().collect();
    let kind = RestrictionKind::select(&keys)?;
    let body = &object[&kind.tag()];
    match kind {
        RestrictionKind::Date => Ok(RestrictionShadow::Date {
            after: text(body, "after")?,
            before: text(body, "before")?,
        }),
        RestrictionKind::Age => Ok(RestrictionShadow::Age {
            lt: bound(body, "lt")?,
            eq: bound(body, "eq")?,
            gt: bound(body, "gt")?,
        }),
        RestrictionKind::Meteo => Ok(RestrictionShadow::Meteo {
            is: text(body, "is")?,
            temp: match body.get("temp") {
                Some(temp) => threshold(temp)?,
                None => return Err("missing field `temp`".to_string()),
            },
        }),
        RestrictionKind::And => Ok(RestrictionShadow::And(restrictions(body)?)),
        RestrictionKind::Or => Ok(RestrictionShadow::Or(restrictions(body)?)),
    }
}

fn promocode_shadow(json: &str) -> Result<PromocodeShadow, String> {
    let value: Value = serde_json::from_str(json).map_err(|err| err.to_string())?;
    Ok(PromocodeShadow {
        _id: text(&value, "_id")?,
        name: text(&value, "name")?,
        avantage: match value.get("avantage").and_then(|avantage| avantage.get("percent")).and_then(Value::as_u64) {
            Some(percent) if percent <= 255 => AvantageShadow { percent: percent as u8 },
            _ => return Err("missing field `avantage`".to_string()),
        },
        restrictions: match value.get("restrictions") {
            Some(list) => restrictions(list)?,
            None => vec![],
        },
    })
}

fn read(json: &str) -> Result<Promocode, String> {
    Promocode::try_from(promocode_shadow(json)?)
}

fn write(promocode: &Promocode) -> String {
    serde_json::to_string(&Wire(&promocode.to_shadow())).unwrap()
}

const WEATHER_CODE: &str = "{\"_id\":\"...\",\"name\":\"WeatherCode\",\"avantage\":{\"percent\":20},\"restrictions\":[{\"@date\":{\"after\":\"2019-01-01\",\"before\":\"2020-06-30\"}},{\"@or\":[{\"@age\":{\"eq\":40}},{\"@and\":[{\"@age\":{\"lt\":30,\"gt\":15}},{\"@meteo\":{\"is\":\"clear\",\"temp\":{\"gt\":15}}}]}]}]}";

fn weather_code() -> Promocode {
    Promocode::new(
        "...".to_string(),
        "WeatherCode".to_string(),
        Avantage::new(20),
        vec![
            Restriction::date("2019-01-01".to_string(), "2020-06-30".to_string()),
            Restriction::or(vec![
                Restriction::age(None, Some(40), None),
                Restriction::and(vec![
                    Restriction::age(Some(30), None, Some(15)),
                    Restriction::meteo("clear".to_string(), Temp { gt: "15".to_string() }),
                ]),
            ]),
        ],
    )
    .unwrap()
}

#[test]
fn a_promocode_is_written_and_read_back_byte_for_byte() {
    let promocode = weather_code();
    let serialized = write(&promocode);
    assert_eq!(serialized, WEATHER_CODE);

    let deserialized = read(WEATHER_CODE).unwrap();
    assert_eq!(promocode, deserialized);
    assert_eq!(write(&deserialized), WEATHER_CODE);
}

#[test]
fn promocode_ser_de() {
    let promocode_valid = Promocode::new(
        "...".to_string(),
        "WeatherCode".to_string(),
        Avantage::new(20),
        vec![
            Restriction::date("2019-01-01".to_string(), "2020-06-30".to_string()),
            Restriction::or(vec![
                Restriction::age(None, Some(40), None),
                Restriction::and(vec![
                    Restriction::age(Some(30), None, Some(15)),
                    Restriction::meteo("clear".to_string(), Temp { gt: "15".to_string() }),
                ]),
            ]),
        ],
    );

    assert!(promocode_valid.is_ok());
    let promocode = promocode_valid.unwrap();
    let serialized_result = serde_json::to_string(&Wire(&promocode.to_shadow()));

    assert!(serialized_result.is_ok());
    let serialized = serialized_result.unwrap();

    let promocode_str = "{\"_id\":\"...\",\"name\":\"WeatherCode\",\"avantage\":{\"percent\":20},\"restrictions\":[{\"@date\":{\"after\":\"2019-01-01\",\"before\":\"2020-06-30\"}},{\"@or\":[{\"@age\":{\"eq\":40}},{\"@and\":[{\"@age\":{\"lt\":30,\"gt\":15}},{\"@meteo\":{\"is\":\"clear\",\"temp\":{\"gt\":15}}}]}]}]}";

    let deserialized_result = read(&promocode_str);

    assert!(deserialized_result.is_ok());
    let deserialized = deserialized_result.unwrap();

    assert_eq!(promocode, deserialized);
    assert_eq!(serialized, promocode_str);
}

#[test]
fn a_threshold_travels_as_a_number_or_as_a_string() {
    let temp = "\"temp\":{\"gt\":15}";
    assert!(WEATHER_CODE.contains(temp));
    let as_string = WEATHER_CODE.replace(temp, "\"temp\":{\"gt\":\"15\"}");
    assert_eq!(read(&as_string), Ok(weather_code()));

    for (given, kept) in [
        ("15.5", "15.5"),
        ("-3", "-3"),
        ("\"15.50\"", "\"15.50\""),
        ("\"+15\"", "\"+15\""),
        ("\"007\"", "\"007\""),
        ("\"15.5\"", "15.5"),
        ("1e300", "1e+300"),
        ("\"1E3\"", "\"1E3\""),
        ("\".5\"", "\".5\""),
        ("\"-inf\"", "\"-inf\""),
    ] {
        let json = WEATHER_CODE.replace(temp, &format!("\"temp\":{{\"gt\":{}}}", given));
        let promocode = read(&json).unwrap();
        assert_eq!(write(&promocode), WEATHER_CODE.replace(temp, &format!("\"temp\":{{\"gt\":{}}}", kept)));
        assert_eq!(read(&write(&promocode)), Ok(promocode));
    }
}

#[test]
fn restrictions_are_left_out_when_there_are_none() {
    let promocode = Promocode::new("id".to_string(), "name".to_string(), Avantage::new(0), vec![]).unwrap();
    let json = "{\"_id\":\"id\",\"name\":\"name\",\"avantage\":{\"percent\":0}}";
    assert_eq!(write(&promocode), json);
    assert_eq!(read(json), Ok(promocode));
}

#[test]
fn what_is_read_is_validated() {
    let cases = [
        ("\"_id\":\"...\"", "\"_id\":\" \"", "`_id` must be nonempty."),
        ("\"name\":\"WeatherCode\"", "\"name\":\"\"", "`name` must be nonempty."),
        ("\"percent\":20", "\"percent\":101", "`percent` must be between 0 and 100."),
        ("\"after\":\"2019-01-01\"", "\"after\":\"2021-01-01\"", "`before` cannot be lower than `after`."),
        ("\"after\":\"2019-01-01\"", "\"after\":\"2019-1-1T\"", "Cannot parse `after`."),
        ("{\"@age\":{\"eq\":40}}", "{\"@age\":{}}", "One of `lt`, `eq` or `gt` must be present."),
        ("\"lt\":30,\"gt\":15", "\"lt\":15,\"gt\":30", "`gt` cannot be lower than `lt`."),
        ("\"lt\":30,\"gt\":15", "\"lt\":30,\"eq\":20", "Unsupported @age restriction."),
        ("\"is\":\"clear\"", "\"is\":\"\"", "`is` must be nonempty."),
        ("{\"gt\":15}", "{\"gt\":\"\"}", "`gt` must be nonempty."),
        ("{\"gt\":15}", "{\"gt\":\"warm\"}", "`gt` must be numeric."),
        ("{\"gt\":15}", "{\"gt\":\"1e\"}", "`gt` must be numeric."),
        ("{\"@age\":{\"eq\":40}},", "", "`@and` restrictions must be nonempty."),
        ("\"@or\"", "\"@xor\"", "Unknown restriction type"),
        (
            "[{\"@date\":{\"after\":\"2019-01-01\",\"before\":\"2020-06-30\"}},",
            "[",
            "The first restriction must a @date, @age or @meteo.",
        ),
        ("{\"@or\":[{\"@age\":{\"eq\":40}},", "{\"@age\":{\"eq\":40}},{\"@or\":[", "`restrictions` must contain 0, 1 or 2 entries."),
    ];
    for (from, to, message) in cases {
        assert!(WEATHER_CODE.contains(from), "{}", from);
        let mut json = WEATHER_CODE.replacen(from, to, 1);
        if message == "`@and` restrictions must be nonempty." {
            json = json.replace(
                "{\"@and\":[{\"@age\":{\"lt\":30,\"gt\":15}},{\"@meteo\":{\"is\":\"clear\",\"temp\":{\"gt\":15}}}]}",
                "{\"@and\":[]}",
            );
        }
        assert_eq!(read(&json).unwrap_err(), message, "{}", json);
    }
}
