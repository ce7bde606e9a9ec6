use serde_json::Value;
use weather_cache::document::{Doc, Member, Number};
use weather_cache::endpoint::respond_at;
use weather_cache::provider::{parse_current, parse_full, FetchError, FetchKind};
use weather_cache::reading::{Forecast, MISSING_PHYSICAL};
use weather_cache::scheduler::interpret;
use weather_cache::store::SnapshotStore;

fn to_doc(value: &Value) -> Doc {
    match value {
        Value::Null => Doc::Null,
        Value::Bool(flag) => Doc::Bool(*flag),
        Value::Number(number) => Doc::Number(Number {
            unsigned: number.as_u64(),
            single: number.as_f64().map(|double| (double as f32).to_bits()),
        }),
        Value::String(text) => Doc::Text(text.clone()),
        Value::Array(items) => Doc::Array(items.iter().map(to_doc).collect()),
        Value::Object(members) => Doc::Object(
            members
                .iter()
                .map(|(name, value)| Member { name: name.clone(), value: to_doc(value) })
                .collect(),
        ),
    }
}

fn document(body: &str) -> Doc {
    to_doc(&serde_json::from_str::<Value>(body).unwrap())
}

const CURRENT_BODY: &str = r#"{
    "coord": {"lon": -111.6585, "lat": 40.2338},
    "weather": [{"id": 801, "main": "Clouds", "description": "few clouds", "icon": "02d"}],
    "base": "stations",
    "main": {"temp": 18.37, "feels_like": 17.2, "pressure": 1016, "humidity": 34},
    "visibility": 10000,
    "dt": 1650000000,
    "name": "Provo",
    "cod": 200
}"#;

const FULL_BODY: &str = r#"{
    "lat": 40.2338,
    "lon": -111.6585,
    "timezone": "America/Denver",
    "current": {"dt": 1650000000, "temp": 18.37, "humidity": 34,
                "weather": [{"id": 801, "main": "Clouds"}]},
    "hourly": [
        {"dt": 1649998800, "temp": 18.1, "humidity": 35, "weather": [{"id": 800}]},
        {"dt": 1650002400, "temp": 19, "humidity": 33, "weather": [{"id": 500}, {"id": 701}]},
        {"dt": 1650006000, "humidity": 31, "weather": []},
        {"dt": 1650009600.5, "temp": "n/a", "weather": [{"id": -3}]},
        {"dt": 1650013200, "temp": -2.5, "humidity": 90.5, "weather": [{"id": 601}]},
        {"dt": 1650016800, "temp": 1e2, "humidity": 0, "weather": [{"id": 65537}]}
    ],
    "daily": [
        {"dt": 1650045600, "temp": {"day": 20.25, "min": 7.5, "max": 22.75, "night": 9.1},
         "humidity": 30, "weather": [{"id": 800}]},
        {"dt": 1650132000, "temp": {"day": 12, "max": 14}, "weather": [{"id": 616}]},
        {"temp": 5, "humidity": null}
    ]
}"#;

#[test]
fn a_current_conditions_body_gives_its_reading() {
    assert_eq!(
        parse_current(&document(CURRENT_BODY)),
        Ok(Forecast {
            timestamp: 1_650_000_000,
            temperature: 18.37f32.to_bits(),
            humidity: 34.0f32.to_bits(),
            condition_code: 801,
        })
    );
}

#[test]
fn a_combined_body_gives_its_snapshot() {
    let got = parse_full(&document(FULL_BODY)).unwrap();
    assert_eq!(
        got.current,
        Forecast {
            timestamp: 1_650_000_000,
            temperature: 18.37f32.to_bits(),
            humidity: 34.0f32.to_bits(),
            condition_code: 801,
        }
    );
    assert_eq!(got.hourly.len(), 6);
    assert_eq!(
        got.hourly[0],
        Forecast {
            timestamp: 1_649_998_800,
            temperature: 18.1f32.to_bits(),
            humidity: 35.0f32.to_bits(),
            condition_code: 800,
        }
    );
    assert_eq!(
        got.hourly[1],
        Forecast {
            timestamp: 1_650_002_400,
            temperature: 19.0f32.to_bits(),
            humidity: 33.0f32.to_bits(),
            condition_code: 500,
        }
    );
    assert_eq!(
        got.hourly[2],
        Forecast {
            timestamp: 1_650_006_000,
            temperature: MISSING_PHYSICAL,
            humidity: 31.0f32.to_bits(),
            condition_code: 0,
        }
    );
    assert_eq!(
        got.hourly[3],
        Forecast {
            timestamp: 0,
            temperature: MISSING_PHYSICAL,
            humidity: MISSING_PHYSICAL,
            condition_code: 0,
        }
    );
    assert_eq!(
        got.hourly[4],
        Forecast {
            timestamp: 1_650_013_200,
            temperature: (-2.5f32).to_bits(),
            humidity: 90.5f32.to_bits(),
            condition_code: 601,
        }
    );
    assert_eq!(
        got.hourly[5],
        Forecast {
            timestamp: 1_650_016_800,
            temperature: 100.0f32.to_bits(),
            humidity: 0.0f32.to_bits(),
            condition_code: 1,
        }
    );
    assert_eq!(got.daily.len(), 3);
    assert_eq!(got.daily[0].timestamp, 1_650_045_600);
    assert_eq!(f32::from_bits(got.daily[0].temperature), 20.25);
    assert_eq!(f32::from_bits(got.daily[0].temp_min), 7.5);
    assert_eq!(f32::from_bits(got.daily[0].temp_max), 22.75);
    assert_eq!(f32::from_bits(got.daily[0].humidity), 30.0);
    assert_eq!(got.daily[0].condition_code, 800);
    assert_eq!(got.daily[1].timestamp, 1_650_132_000);
    assert_eq!(f32::from_bits(got.daily[1].temperature), 12.0);
    assert_eq!(f32::from_bits(got.daily[1].temp_min), -999.0);
    assert_eq!(f32::from_bits(got.daily[1].temp_max), 14.0);
    assert_eq!(f32::from_bits(got.daily[1].humidity), -999.0);
    assert_eq!(got.daily[1].condition_code, 616);
    assert_eq!(got.daily[2].timestamp, 0);
    assert_eq!(f32::from_bits(got.daily[2].temperature), -999.0);
    assert_eq!(f32::from_bits(got.daily[2].humidity), -999.0);
    assert_eq!(got.daily[2].condition_code, 0);
}

#[test]
fn an_error_body_of_the_provider_is_refused() {
    let body = r#"{"cod": 401, "message": "Invalid API key."}"#;
    assert_eq!(parse_current(&document(body)), Err(FetchError::MissingTimestamp));
    assert_eq!(parse_full(&document(body)), Err(FetchError::MissingHourly));
}

#[test]
fn a_body_that_is_no_object_is_refused() {
    for body in ["null", "true", "17", "\"dt\"", "[]", "[{\"dt\": 5}]"] {
        assert_eq!(parse_current(&document(body)), Err(FetchError::MissingTimestamp));
        assert_eq!(parse_full(&document(body)), Err(FetchError::MissingHourly));
    }
}

#[test]
fn a_timestamp_must_be_an_unsigned_integer() {
    assert_eq!(parse_current(&document(r#"{"dt": -5}"#)), Err(FetchError::MissingTimestamp));
    assert_eq!(parse_current(&document(r#"{"dt": 5.0}"#)), Err(FetchError::MissingTimestamp));
    assert_eq!(parse_current(&document(r#"{"dt": "5"}"#)), Err(FetchError::MissingTimestamp));
    assert_eq!(parse_current(&document(r#"{"dt": 5}"#)).map(|f| f.timestamp), Ok(5));
    assert_eq!(
        parse_current(&document(r#"{"dt": 18446744073709551615}"#)).map(|f| f.timestamp),
        Ok(u64::MAX)
    );
}

#[test]
fn the_last_of_two_members_of_one_name_in_a_body_counts() {
    assert_eq!(
        parse_current(&document(r#"{"dt": 1, "dt": 2}"#)).map(|f| f.timestamp),
        Ok(2)
    );
}

#[test]
fn from_bodies_to_the_bytes_that_are_served() {
    let mut store = SnapshotStore::new();
    assert_eq!(store.settle(interpret(FetchKind::Full, Ok(document(FULL_BODY)))), None);
    assert_eq!(store.settle(interpret(FetchKind::Current, Ok(document(CURRENT_BODY)))), None);

    let body = respond_at(&store, 1_650_000_000);
    assert_eq!(body.len(), 10 + 4 * 10 + 3 * 18);

    let mut expected = Vec::new();
    expected.extend_from_slice(&18.37f32.to_le_bytes());
    expected.extend_from_slice(&34.0f32.to_le_bytes());
    expected.extend_from_slice(&801u16.to_le_bytes());
    expected.extend_from_slice(&19.0f32.to_le_bytes());
    expected.extend_from_slice(&33.0f32.to_le_bytes());
    expected.extend_from_slice(&500u16.to_le_bytes());
    expected.extend_from_slice(&(-999.0f32).to_le_bytes());
    expected.extend_from_slice(&31.0f32.to_le_bytes());
    expected.extend_from_slice(&0u16.to_le_bytes());
    expected.extend_from_slice(&(-2.5f32).to_le_bytes());
    expected.extend_from_slice(&90.5f32.to_le_bytes());
    expected.extend_from_slice(&601u16.to_le_bytes());
    expected.extend_from_slice(&100.0f32.to_le_bytes());
    expected.extend_from_slice(&0.0f32.to_le_bytes());
    expected.extend_from_slice(&1u16.to_le_bytes());
    assert_eq!(&body[..50], &expected[..]);

    let days = &body[50..];
    assert_eq!(&days[0..4], &20.25f32.to_le_bytes());
    assert_eq!(&days[4..8], &30.0f32.to_le_bytes());
    assert_eq!(&days[8..12], &7.5f32.to_le_bytes());
    assert_eq!(&days[12..16], &22.75f32.to_le_bytes());
    assert_eq!(&days[16..18], &800u16.to_le_bytes());
    assert_eq!(&days[34..36], &616u16.to_le_bytes());
    assert_eq!(&days[36..40], &(-999.0f32).to_le_bytes());
}
