use barfeed::garage::{door_from_fetch, door_of_text, DoorState};
use barfeed::json::DecodeError;
use barfeed::weather::{conditions_from_fetch, conditions_of_text, WeatherError, WindDirection};

fn weather_payload(air_temp: &str, press: &str) -> String {
    let head = "{\"sort_order\": 0, \"name\": \"Beerburrum\", \"history_product\": \"IDQ60801\", \"local_date_time\": \"11/01:30pm\", \"local_date_time_full\": \"20180811133000\", \"aifstime_utc\": \"20180811033000\", \"lat\": -26.9, \"lon\": 152.9, \"apparent_t\": 22.4, \"delta_t\": 5.3, \"gust_kmh\": 13, \"gust_kt\": 7";
    let tail = "\"press_tend\": \"-\", \"rain_trace\": \"0.0\", \"rel_hum\": 41, \"wind_dir\": \"SSE\", \"wind_spd_kmh\": 11, \"wind_spd_kt\": 6}";
    let row = format!(
        "{}, \"air_temp\": {}, \"dewpt\": 8.1, \"press\": {}, \"press_qnh\": {}, \"press_msl\": {}, {}",
        head, air_temp, press, press, press, tail
    );
    format!("{{\"observations\": {{\"data\": [{}]}}}}", row)
}

#[test]
fn door_decodes_closed_with_null_counters() {
    let payload = "{\"state\": \"Closed\", \"secs_since_notified\": null, \"open_for\": null}";
    let door = door_of_text(payload).unwrap();
    assert_eq!(door.state, DoorState::Closed);
    assert!(door.secs_since_notified.is_none());
    assert!(door.open_for.is_none());
}

#[test]
fn door_decodes_open_with_counters() {
    let payload = "{\"state\": \"Open\", \"secs_since_notified\": 12, \"open_for\": 345}";
    let door = door_of_text(payload).unwrap();
    assert_eq!(door.state, DoorState::Open);
    assert_eq!(door.secs_since_notified, Some(12));
    assert_eq!(door.open_for, Some(345));
}

#[test]
fn door_decodes_unknown() {
    let payload = "{\"state\": \"Unknown\", \"secs_since_notified\": null, \"open_for\": null}";
    let door = door_of_text(payload).unwrap();
    assert_eq!(door.state, DoorState::Unknown);
}

#[test]
fn door_decodes_with_loose_whitespace() {
    let payload = "\n  {\n  \"state\" :\t\"Open\",\n  \"secs_since_notified\": 1,\n  \"open_for\": 2\n  }\n";
    let door = door_of_text(payload).unwrap();
    assert_eq!(door.state, DoorState::Open);
    assert_eq!(door.secs_since_notified, Some(1));
    assert_eq!(door.open_for, Some(2));
}

#[test]
fn door_rejects_unrecognized_state() {
    let payload = "{\"state\": \"Ajar\", \"secs_since_notified\": null, \"open_for\": null}";
    let err = door_of_text(payload).unwrap_err();
    assert_eq!(err, WeatherError::JsonError(DecodeError::UnknownVariant));
}

#[test]
fn door_rejects_missing_state() {
    let payload = "{\"secs_since_notified\": null, \"open_for\": null}";
    let err = door_of_text(payload).unwrap_err();
    assert_eq!(err, WeatherError::JsonError(DecodeError::MissingField));
}

#[test]
fn door_rejects_non_json() {
    let err = door_of_text("not json at all").unwrap_err();
    assert_eq!(err, WeatherError::JsonError(DecodeError::Syntax));
}

#[test]
fn door_unreachable_host_is_transport_error() {
    let err = door_from_fetch(None).unwrap_err();
    assert_eq!(err, WeatherError::HttpError);
    assert_ne!(err, WeatherError::JsonError(DecodeError::Syntax));
}

#[test]
fn weather_unreachable_host_is_transport_error() {
    let err = conditions_from_fetch(None).unwrap_err();
    assert_eq!(err, WeatherError::HttpError);
}

#[test]
fn weather_empty_data_fails_with_first_row_missing() {
    let payload = "{\"observations\": {\"data\": []}}";
    let err = conditions_of_text(payload).unwrap_err();
    assert_eq!(err, WeatherError::JsonError(DecodeError::FirstRowMissing));
}

#[test]
fn weather_missing_observations_is_missing_field() {
    let err = conditions_of_text("{\"data\": []}").unwrap_err();
    assert_eq!(err, WeatherError::JsonError(DecodeError::MissingField));
}

#[test]
fn weather_round_trip_with_null_pressure() {
    let payload = weather_payload("24.3", "null");
    let obs = conditions_of_text(&payload).unwrap();
    assert!(obs.press.is_none());
    assert!(obs.press_qnh.is_none());
    assert!(obs.press_msl.is_none());
    assert_eq!(obs.name, "Beerburrum");
    assert_eq!(obs.air_temp, 24);
    assert_eq!(obs.apparent_t, 22);
    assert_eq!(obs.lat, -27);
    assert_eq!(obs.rel_hum, 41);
    assert_eq!(obs.rain_trace, "0.0");
    assert_eq!(obs.wind_dir, WindDirection::SSE);
    assert_eq!(obs.wind_spd_kmh, 11);
}

#[test]
fn weather_reads_present_pressure_rounded() {
    let payload = weather_payload("24.3", "1018.6");
    let obs = conditions_of_text(&payload).unwrap();
    assert_eq!(obs.press, Some(1019));
    assert_eq!(obs.press_qnh, Some(1019));
    assert_eq!(obs.press_msl, Some(1019));
}

#[test]
fn weather_rounds_halves_away_from_zero() {
    let obs = conditions_of_text(&weather_payload("24.5", "null")).unwrap();
    assert_eq!(obs.air_temp, 25);
    let obs = conditions_of_text(&weather_payload("-0.5", "null")).unwrap();
    assert_eq!(obs.air_temp, -1);
    let obs = conditions_of_text(&weather_payload("-0.4", "null")).unwrap();
    assert_eq!(obs.air_temp, 0);
}

#[test]
fn weather_rejects_fractional_count() {
    let payload = weather_payload("24.3", "null").replace("\"rel_hum\": 41", "\"rel_hum\": 41.5");
    let err = conditions_of_text(&payload).unwrap_err();
    assert_eq!(err, WeatherError::JsonError(DecodeError::WrongType));
}

#[test]
fn weather_rejects_unknown_wind_direction() {
    let payload = weather_payload("24.3", "null").replace("\"SSE\"", "\"SSEE\"");
    let err = conditions_of_text(&payload).unwrap_err();
    assert_eq!(err, WeatherError::JsonError(DecodeError::UnknownVariant));
}

#[test]
fn client_constructors_exist() {
    let _g = barfeed::garage::Client::new();
    let _w = barfeed::weather::Client::new();
}
