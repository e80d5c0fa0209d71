use flight_search::error::FlightSearchError;
use flight_search::metrics::{Metrics, inc_flight_status_error, inc_flight_status_success, error_kind_label};

#[test]
fn test_error_display() {
    let http_error = FlightSearchError::HttpRequestFailed("connection failed".to_string());
    assert_eq!(http_error.message(), "HTTP request failed: connection failed");

    let invalid_response = FlightSearchError::InvalidResponse("malformed JSON".to_string());
    assert_eq!(invalid_response.message(), "Invalid response: malformed JSON");

    let api_error = FlightSearchError::ApiError("rate limit exceeded".to_string());
    assert_eq!(api_error.message(), "API error: rate limit exceeded");

    let missing_key = FlightSearchError::MissingApiKey;
    assert_eq!(missing_key.message(), "Missing API key");
}

#[test]
fn test_metrics_increment() {
    let mut m = Metrics::new();
    inc_flight_status_success(&mut m);
    inc_flight_status_error(
        &mut m,
        404,
        &FlightSearchError::HttpRequestFailed("test".to_string()),
    );
    assert_eq!(m.success, 1);
    assert_eq!(m.errors.len(), 1);
    assert_eq!(m.errors[0].0, 404);
    assert_eq!(m.errors[0].1, "HttpRequestFailed");
}

#[test]
fn test_error_kind_labels() {
    assert_eq!(
        error_kind_label(&FlightSearchError::HttpRequestFailed(String::new())),
        "HttpRequestFailed"
    );
    assert_eq!(
        error_kind_label(&FlightSearchError::InvalidResponse(String::new())),
        "InvalidResponse"
    );
    assert_eq!(error_kind_label(&FlightSearchError::ApiError(String::new())), "ApiError");
    assert_eq!(error_kind_label(&FlightSearchError::MissingApiKey), "MissingApiKey");
}

#[test]
fn test_metrics_tags_accumulate() {
    let mut m = Metrics::new();
    inc_flight_status_error(&mut m, 500, &FlightSearchError::ApiError("down".to_string()));
    inc_flight_status_error(&mut m, 0, &FlightSearchError::MissingApiKey);
    assert_eq!(m.success, 0);
    assert_eq!(m.errors.len(), 2);
    assert_eq!(m.errors[0], (500, "ApiError".to_string()));
    assert_eq!(m.errors[1], (0, "MissingApiKey".to_string()));
}
