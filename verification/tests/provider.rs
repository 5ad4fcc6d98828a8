use climate_bot::sources::climate_forecast::{
    current_temperature_request, CurrentTempResult, CACHE_TTL_SECONDS,
};
use climate_bot::sources::common::{
    interpret_response, request_url, url_outcome, ApiError, ClimateApiError, SingleTemperature,
};
use climate_bot::sources::nominatim::{place_request, NominatimError};

fn pair(key: &str, value: &str) -> (String, String) {
    (String::from(key), String::from(value))
}

#[test]
fn url_keeps_existing_parameters_and_adds_the_new_ones_in_order() {
    let url = request_url(
        "https://example.net?dont=clobberme",
        &vec![pair("lang", "rust"), pair("browser", "servo")],
    )
    .unwrap();
    assert_eq!(url, "https://example.net/?dont=clobberme&lang=rust&browser=servo");
}

#[test]
fn url_without_parameters_is_the_normalised_base() {
    let url = request_url("https://api.open-meteo.com/v1/forecast", &Vec::new()).unwrap();
    assert_eq!(url, "https://api.open-meteo.com/v1/forecast?");
}

#[test]
fn url_encodes_what_a_query_cannot_hold() {
    let url = request_url(
        "https://nominatim.openstreetmap.org/search?format=jsonv2",
        &place_request("Sankt Pölten & Umgebung"),
    )
    .unwrap();
    assert_eq!(
        url,
        "https://nominatim.openstreetmap.org/search?format=jsonv2&city=Sankt+P%C3%B6lten+%26+Umgebung"
    );
}

#[test]
fn forecast_url_carries_the_four_parameters() {
    let url = request_url(
        "https://api.open-meteo.com/v1/forecast",
        &current_temperature_request("48.21", "16.37"),
    )
    .unwrap();
    assert_eq!(
        url,
        "https://api.open-meteo.com/v1/forecast?latitude=48.21&longitude=16.37&current=temperature_2m&timeformat=unixtime"
    );
}

#[test]
fn text_that_is_no_absolute_url_is_a_url_error() {
    match request_url("v1/forecast", &vec![pair("a", "b")]) {
        Err(ApiError::Url { reason }) => assert_eq!(reason, "relative URL without a base"),
        other => panic!("unexpected outcome {:?}", other),
    }
    assert!(matches!(request_url("", &Vec::new()), Err(ApiError::Url { .. })));
    assert!(matches!(request_url("https://", &Vec::new()), Err(ApiError::Url { .. })));
}

#[test]
fn url_outcome_maps_the_complaint() {
    assert_eq!(url_outcome(Ok(String::from("https://a.b/"))).unwrap(), "https://a.b/");
    match url_outcome(Err(String::from("empty host"))) {
        Err(ApiError::Url { reason }) => assert_eq!(reason, "empty host"),
        other => panic!("unexpected outcome {:?}", other),
    }
}

#[test]
fn success_payload_is_converted_into_the_output() {
    let answer = CurrentTempResult { current: SingleTemperature { epoch: 1_700_000_000, temperature_2m: 7.5f32 } };
    let result: Result<SingleTemperature<f32>, ApiError> = interpret_response::<
        SingleTemperature<f32>,
        CurrentTempResult<f32>,
        ClimateApiError,
    >(Ok(answer), Err(String::from("missing field `reason`")));
    let temperature = result.unwrap();
    assert_eq!(temperature.epoch, 1_700_000_000);
    assert_eq!(temperature.temperature_2m, 7.5f32);
}

#[test]
fn success_wins_over_a_payload_that_also_reads_as_failure() {
    let result = interpret_response::<String, String, ClimateApiError>(
        Ok(String::from("fine")),
        Ok(ClimateApiError { reason: String::from("ignored") }),
    );
    assert_eq!(result.unwrap(), "fine");
}

#[test]
fn failure_payload_keeps_the_reason_verbatim() {
    let reason = "Latitude must be in range of -90 to 90°. Given: 123.0.";
    let result = interpret_response::<String, String, ClimateApiError>(
        Err(String::from("missing field `current` at line 1 column 80")),
        Ok(ClimateApiError { reason: String::from(reason) }),
    );
    match result {
        Err(ApiError::BadRequest { reason: kept }) => assert_eq!(kept, reason),
        other => panic!("unexpected outcome {:?}", other),
    }
}

#[test]
fn geocoder_failure_payload_keeps_the_message() {
    let result = interpret_response::<String, String, NominatimError>(
        Err(String::from("invalid type: map, expected a sequence")),
        Ok(NominatimError { code: 400, message: String::from("Invalid viewbox") }),
    );
    match result {
        Err(ApiError::BadRequest { reason }) => assert_eq!(reason, "Invalid viewbox"),
        other => panic!("unexpected outcome {:?}", other),
    }
}

#[test]
fn payload_matching_neither_schema_is_a_parsing_error_with_the_first_complaint() {
    let result = interpret_response::<String, String, ClimateApiError>(
        Err(String::from("expected value at line 1 column 1")),
        Err(String::from("something else")),
    );
    match result {
        Err(ApiError::Parsing { reason }) => assert_eq!(reason, "expected value at line 1 column 1"),
        other => panic!("unexpected outcome {:?}", other),
    }
}

#[test]
fn rejection_by_a_weather_provider_becomes_a_bad_request() {
    match ApiError::from(ClimateApiError { reason: String::from("Bad coordinates") }) {
        ApiError::BadRequest { reason } => assert_eq!(reason, "Bad coordinates"),
        other => panic!("unexpected error {:?}", other),
    }
}

#[test]
fn forecast_parameters_are_in_the_documented_order() {
    assert_eq!(
        current_temperature_request("-33.87", "151.21"),
        vec![
            pair("latitude", "-33.87"),
            pair("longitude", "151.21"),
            pair("current", "temperature_2m"),
            pair("timeformat", "unixtime"),
        ]
    );
    assert_eq!(CACHE_TTL_SECONDS, 120);
}
