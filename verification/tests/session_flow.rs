use flight_search::date::Date;
use flight_search::error::FlightSearchError;
use flight_search::flight_search_tool::FlightSearchArgs;
use flight_search::metrics::Metrics;
use flight_search::session::{HttpCall, SearchStep, begin};

fn args() -> FlightSearchArgs {
    FlightSearchArgs {
        source: "Mumbai".to_string(),
        destination: "Delhi".to_string(),
        departure_date: Some("2025-06-01".to_string()),
        return_date: Some("2025-06-08".to_string()),
        ..Default::default()
    }
}

fn autocomplete_body(sky: &str, entity: &str) -> String {
    format!(
        "{{\"inputSuggest\":[{{\"navigation\":{{\"relevantFlightParams\":{{\"skyId\":\"{}\",\"entityId\":\"{}\"}}}}}}]}}",
        sky, entity
    )
}

#[test]
fn test_full_session_reaches_report() {
    let mut m = Metrics::new();
    let today = Date { year: 2025, month: 1, day: 1 };
    let (mut session, step) = begin(&args(), true, today, &mut m);
    match step {
        SearchStep::Call(HttpCall::AutoComplete { params }) => {
            assert_eq!(params, vec![("query".to_string(), "Mumbai".to_string())]);
        },
        _ => panic!("expected the source auto-complete call"),
    }
    let step = session.on_http_response(200, &autocomplete_body("BOM", "111"), &mut m);
    match step {
        SearchStep::Call(HttpCall::AutoComplete { params }) => {
            assert_eq!(params, vec![("query".to_string(), "Delhi".to_string())]);
        },
        _ => panic!("expected the destination auto-complete call"),
    }
    let step = session.on_http_response(200, &autocomplete_body("DEL", "222"), &mut m);
    match step {
        SearchStep::Call(HttpCall::RoundTripList { params }) => {
            assert_eq!(
                params,
                vec![
                    ("inDate".to_string(), "2025-06-01".to_string()),
                    ("outDate".to_string(), "2025-06-08".to_string()),
                    ("origin".to_string(), "BOM".to_string()),
                    ("originId".to_string(), "111".to_string()),
                    ("destination".to_string(), "DEL".to_string()),
                    ("destinationId".to_string(), "222".to_string()),
                    ("cabinClass".to_string(), "economy".to_string()),
                    ("adults".to_string(), "1".to_string()),
                    ("children".to_string(), "0".to_string()),
                    ("infants".to_string(), "0".to_string()),
                    ("market".to_string(), "US".to_string()),
                    ("currency".to_string(), "USD".to_string()),
                ]
            );
        },
        _ => panic!("expected the flight list call"),
    }
    let body = "{\"itineraries\":{\"buckets\":[{\"items\":[{\"legs\":[{\"carriers\":{\"marketing\":[{\"name\":\"Air India\"}]},\"segments\":[{\"flightNumber\":\"AI864\"}],\"durationInMinutes\":135,\"stopCount\":0}],\"pricingOptions\":[{\"price\":{\"amount\":88.4,\"currencyCode\":\"USD\"}}]}]}]}}";
    let step = session.on_http_response(200, body, &mut m);
    match step {
        SearchStep::Finished(report) => {
            assert!(report.contains("Air India"));
            assert!(report.contains("   - **Duration**: 2 hours 15 minutes\n"));
            assert!(report.contains("   - **Price**: 88.40 USD\n"));
        },
        _ => panic!("expected the finished report"),
    }
    assert_eq!(m.success, 1);
    assert_eq!(m.errors.len(), 0);
}

#[test]
fn test_search_failure_is_counted_with_status() {
    let mut m = Metrics::new();
    let today = Date { year: 2025, month: 1, day: 1 };
    let (mut session, _) = begin(&args(), true, today, &mut m);
    let _ = session.on_http_response(200, &autocomplete_body("BOM", "111"), &mut m);
    let _ = session.on_http_response(200, &autocomplete_body("DEL", "222"), &mut m);
    let step = session.on_http_response(429, "slow down", &mut m);
    match step {
        SearchStep::Failed(FlightSearchError::ApiError(d)) => {
            assert_eq!(d, "Status: 429, Response: slow down");
        },
        _ => panic!("expected an API error"),
    }
    assert_eq!(m.success, 0);
    assert_eq!(m.errors, vec![(429, "ApiError".to_string())]);
}

#[test]
fn test_resolution_failure_ends_the_session() {
    let mut m = Metrics::new();
    let today = Date { year: 2025, month: 1, day: 1 };
    let (mut session, _) = begin(&args(), true, today, &mut m);
    let step = session.on_http_response(200, "{\"inputSuggest\":[]}", &mut m);
    match step {
        SearchStep::Failed(FlightSearchError::InvalidResponse(d)) => {
            assert_eq!(d, "No valid airport found in auto-complete response");
        },
        _ => panic!("expected an invalid-response failure"),
    }
    assert_eq!(m.errors, vec![(200, "InvalidResponse".to_string())]);
}

#[test]
fn test_transport_failure_ends_the_session() {
    let mut m = Metrics::new();
    let today = Date { year: 2025, month: 1, day: 1 };
    let (mut session, _) = begin(&args(), true, today, &mut m);
    let step = session.on_http_failure("connection reset", &mut m);
    match step {
        SearchStep::Failed(FlightSearchError::HttpRequestFailed(d)) => {
            assert_eq!(d, "connection reset");
        },
        _ => panic!("expected a transport failure"),
    }
    assert_eq!(m.errors, vec![(0, "HttpRequestFailed".to_string())]);
}
