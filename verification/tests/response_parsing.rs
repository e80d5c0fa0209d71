use flight_search::error::FlightSearchError;
use flight_search::session::{parse_autocomplete_response, parse_search_response};

fn offer(airline: &str, price: &str, extra: &str) -> String {
    format!(
        "{{\"legs\":[{{\"carriers\":{{\"marketing\":[{{\"name\":\"{}\"}}]}},\"segments\":[{{\"flightNumber\":\"101\"}}],\"departure\":\"2025-05-25T10:00:00Z\",\"arrival\":\"2025-05-25T13:45:00Z\",\"durationInMinutes\":225,\"stopCount\":0}}],\"pricingOptions\":[{{\"price\":{{\"amount\":{}{}}}}}]}}",
        airline, price, extra
    )
}

fn body_with_items(items: &[String]) -> String {
    format!(
        "{{\"itineraries\":{{\"buckets\":[{{\"items\":[{}]}}]}}}}",
        items.join(",")
    )
}

#[test]
fn test_nonpositive_price_offers_are_excluded() {
    // P-style exclusion: zero and negative resolved prices never appear.
    let items = vec![
        offer("Kept Air", "120.5", ",\"currencyCode\":\"USD\""),
        offer("Zero Air", "0", ""),
        offer("Refund Air", "-3.20", ""),
    ];
    let body = body_with_items(&items);
    let report = parse_search_response(200, &body, "USD").unwrap();
    assert!(report.contains("Kept Air"));
    assert!(!report.contains("Zero Air"));
    assert!(!report.contains("Refund Air"));
    assert!(report.contains("   - **Price**: 120.50 USD\n"));
}

#[test]
fn test_output_is_capped_at_five_blocks() {
    let items: Vec<String> = (0..8).map(|i| offer(&format!("Airline{}", i), "99.99", "")).collect();
    let body = body_with_items(&items);
    let report = parse_search_response(200, &body, "USD").unwrap();
    assert_eq!(report.matches("**Airline**").count(), 5);
    assert!(report.contains("Airline0"));
    assert!(report.contains("Airline4"));
    assert!(!report.contains("Airline5"));
}

#[test]
fn test_stops_render_nonstop_and_counted() {
    let one = "{\"legs\":[{\"carriers\":{\"marketing\":[{\"name\":\"A\"}]},\"segments\":[{\"flightNumber\":\"1\"}],\"durationInMinutes\":60,\"stopCount\":0}],\"price\":{\"raw\":10}}".to_string();
    let two = "{\"legs\":[{\"carriers\":{\"marketing\":[{\"name\":\"B\"}]},\"segments\":[{\"flightNumber\":\"2\"}],\"durationInMinutes\":60,\"stopCount\":2}],\"price\":{\"raw\":10}}".to_string();
    let body = body_with_items(&[one, two]);
    let report = parse_search_response(200, &body, "USD").unwrap();
    assert!(report.contains("   - **Stops**: Non-stop\n"));
    assert!(report.contains("   - **Stops**: 2 stop(s)\n"));
}

#[test]
fn test_empty_container_yields_no_flights_sentence() {
    let body = "{\"itineraries\":{\"buckets\":[]}}";
    let report = parse_search_response(200, body, "USD").unwrap();
    assert_eq!(report, "No flights found for the given criteria.");
}

#[test]
fn test_container_with_priceless_items_yields_no_flights_sentence() {
    let items = vec![offer("Zero Air", "0", "")];
    let body = body_with_items(&items);
    let report = parse_search_response(200, &body, "USD").unwrap();
    assert_eq!(report, "No flights found for the given criteria.");
}

#[test]
fn test_missing_container_is_invalid_response() {
    let body = "{\"data\":{\"context\":{}}}";
    let result = parse_search_response(200, body, "USD");
    match result {
        Err(FlightSearchError::InvalidResponse(_)) => {},
        other => panic!("expected InvalidResponse, got {:?}", other.map(|_| ())),
    }
}

#[test]
fn test_wrapped_container_is_found() {
    let items = vec![offer("Nested Air", "55", "")];
    let body = format!(
        "{{\"data\":{{\"itineraries\":{{\"buckets\":[{{\"items\":[{}]}}]}}}}}}",
        items.join(",")
    );
    let report = parse_search_response(200, &body, "USD").unwrap();
    assert!(report.contains("Nested Air"));
}

#[test]
fn test_duration_computed_from_timestamps() {
    // No direct minute count: the duration comes from the instants.
    let item = "{\"legs\":[{\"carriers\":{\"marketing\":[{\"name\":\"T\"}]},\"segments\":[{\"flightNumber\":\"9\"}],\"departure\":\"2025-05-25T10:00:00Z\",\"arrival\":\"2025-05-25T13:45:00Z\",\"stopCount\":0}],\"price\":{\"raw\":20}}".to_string();
    let body = body_with_items(&[item]);
    let report = parse_search_response(200, &body, "USD").unwrap();
    assert!(report.contains("   - **Duration**: 3 hours 45 minutes\n"));
}

#[test]
fn test_unreadable_timestamps_yield_zero_duration() {
    let item = "{\"legs\":[{\"carriers\":{\"marketing\":[{\"name\":\"T\"}]},\"segments\":[{\"flightNumber\":\"9\"}],\"departure\":\"soon\",\"arrival\":\"later\",\"stopCount\":0}],\"price\":{\"raw\":20}}".to_string();
    let body = body_with_items(&[item]);
    let report = parse_search_response(200, &body, "USD").unwrap();
    assert!(report.contains("   - **Duration**: 0 hours 0 minutes\n"));
}

#[test]
fn test_missing_fields_get_documented_defaults() {
    let item = "{\"price\":{\"raw\":20}}".to_string();
    let body = body_with_items(&[item]);
    let report = parse_search_response(200, &body, "USD").unwrap();
    assert!(report.contains("1. **Airline**: Unknown Airline\n"));
    assert!(report.contains("   - **Flight Number**: \n"));
    assert!(report.contains("   - **Duration**: Unknown duration\n"));
    assert!(report.contains("   - **Stops**: Non-stop\n"));
}

#[test]
fn test_currency_falls_back_to_requested() {
    let item = offer("Fallback Air", "77", "");
    let body = body_with_items(&[item]);
    let report = parse_search_response(200, &body, "INR").unwrap();
    assert!(report.contains("   - **Price**: 77.00 INR\n"));
}

#[test]
fn test_per_offer_currency_wins() {
    let item = offer("Coded Air", "77.5", ",\"currencyCode\":\"GBP\"");
    let body = body_with_items(&[item]);
    let report = parse_search_response(200, &body, "USD").unwrap();
    assert!(report.contains("   - **Price**: 77.50 GBP\n"));
}

#[test]
fn test_flat_price_currency_is_second_choice() {
    let item = "{\"legs\":[{\"carriers\":{\"marketing\":[{\"name\":\"F\"}]},\"segments\":[{\"flightNumber\":\"3\"}],\"durationInMinutes\":90,\"stopCount\":1}],\"price\":{\"raw\":42.25,\"currency\":\"JPY\"}}".to_string();
    let body = body_with_items(&[item]);
    let report = parse_search_response(200, &body, "USD").unwrap();
    assert!(report.contains("   - **Price**: 42.25 JPY\n"));
}

#[test]
fn test_exact_full_report_for_one_offer() {
    let item = offer("IndiGo", "245.99", ",\"currencyCode\":\"USD\"");
    let body = body_with_items(&[item]);
    let report = parse_search_response(200, &body, "USD").unwrap();
    let expected = "Here are some flight options:\n\n\
        1. **Airline**: IndiGo\n   \
        - **Flight Number**: 101\n   \
        - **Departure**: 2025-05-25T10:00:00Z\n   \
        - **Arrival**: 2025-05-25T13:45:00Z\n   \
        - **Duration**: 3 hours 45 minutes\n   \
        - **Stops**: Non-stop\n   \
        - **Price**: 245.99 USD\n";
    assert_eq!(report, expected);
}

#[test]
fn test_non_success_status_is_api_error() {
    let result = parse_search_response(503, "overloaded", "USD");
    match result {
        Err(FlightSearchError::ApiError(d)) => {
            assert_eq!(d, "Status: 503, Response: overloaded");
        },
        other => panic!("expected ApiError, got {:?}", other.map(|_| ())),
    }
}

#[test]
fn test_malformed_body_is_http_request_failed() {
    let result = parse_search_response(200, "{\"itineraries\":", "USD");
    assert!(matches!(result, Err(FlightSearchError::HttpRequestFailed(_))));
}

#[test]
fn test_provider_error_object_is_api_error() {
    let result = parse_search_response(200, "{\"error\":\"quota exceeded\"}", "USD");
    match result {
        Err(FlightSearchError::ApiError(d)) => assert_eq!(d, "quota exceeded"),
        other => panic!("expected ApiError, got {:?}", other.map(|_| ())),
    }
    let result = parse_search_response(200, "{\"error\":{\"message\":\"bad market\"}}", "USD");
    match result {
        Err(FlightSearchError::ApiError(d)) => assert_eq!(d, "bad market"),
        other => panic!("expected ApiError, got {:?}", other.map(|_| ())),
    }
}

#[test]
fn test_autocomplete_first_complete_pair_wins() {
    let body = "{\"inputSuggest\":[{\"navigation\":{}},{\"navigation\":{\"relevantFlightParams\":{\"skyId\":\"BOM\",\"entityId\":\"95673320\"}}},{\"navigation\":{\"relevantFlightParams\":{\"skyId\":\"DEL\",\"entityId\":\"11111111\"}}}]}";
    let loc = parse_autocomplete_response(200, body).unwrap();
    assert_eq!(loc.sky_id, "BOM");
    assert_eq!(loc.entity_id, "95673320");
}

#[test]
fn test_autocomplete_without_pair_is_invalid_response() {
    let body = "{\"inputSuggest\":[{\"navigation\":{\"relevantFlightParams\":{\"skyId\":\"BOM\"}}}]}";
    let result = parse_autocomplete_response(200, body);
    match result {
        Err(FlightSearchError::InvalidResponse(d)) => {
            assert_eq!(d, "No valid airport found in auto-complete response");
        },
        other => panic!("expected InvalidResponse, got {:?}", other.map(|_| ())),
    }
}

#[test]
fn test_autocomplete_non_success_status() {
    let result = parse_autocomplete_response(403, "denied");
    match result {
        Err(FlightSearchError::ApiError(d)) => {
            assert_eq!(d, "Auto-complete failed: 403: denied");
        },
        other => panic!("expected ApiError, got {:?}", other.map(|_| ())),
    }
}

#[test]
fn test_price_rounds_half_away_from_zero() {
    let item = offer("Round Air", "10.005", "");
    let body = body_with_items(&[item]);
    let report = parse_search_response(200, &body, "USD").unwrap();
    assert!(report.contains("   - **Price**: 10.01 USD\n"));
}

#[test]
fn test_stops_inferred_from_segments() {
    let item = "{\"legs\":[{\"carriers\":{\"marketing\":[{\"name\":\"S\"}]},\"segments\":[{\"flightNumber\":\"1\"},{\"flightNumber\":\"2\"},{\"flightNumber\":\"3\"}],\"durationInMinutes\":300}],\"price\":{\"raw\":80}}".to_string();
    let body = body_with_items(&[item]);
    let report = parse_search_response(200, &body, "USD").unwrap();
    assert!(report.contains("   - **Stops**: 2 stop(s)\n"));
}
