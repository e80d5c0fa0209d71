use flight_search::date::Date;
use flight_search::error::FlightSearchError;
use flight_search::flight_search_tool::{FlightSearchArgs, FlightSearchTool};
use flight_search::metrics::Metrics;
use flight_search::session::{SearchStep, begin, begin_today};

fn some_day() -> Date {
    Date { year: 2025, month: 1, day: 15 }
}

#[test]
fn test_flight_search_args_validation() {
    // Empty source
    let args = FlightSearchArgs {
        source: "".to_string(),
        destination: "DEL".to_string(),
        ..Default::default()
    };
    let mut m = Metrics::new();
    let (_, step) = begin(&args, true, some_day(), &mut m);
    assert!(matches!(step, SearchStep::Failed(_)));

    // Empty destination
    let args = FlightSearchArgs {
        source: "BOM".to_string(),
        destination: "".to_string(),
        ..Default::default()
    };
    let mut m = Metrics::new();
    let (_, step) = begin(&args, true, some_day(), &mut m);
    assert!(matches!(step, SearchStep::Failed(_)));
}

#[test]
fn test_flight_search_tool_definition() {
    assert_eq!(FlightSearchTool::name(), "search_flights");
    assert!(FlightSearchTool::description().contains("Search for flights"));
    assert!(FlightSearchTool::parameters_json_text().contains("source"));
    assert!(FlightSearchTool::parameters_json_text().contains("destination"));
}

#[test]
fn test_missing_api_key_error() {
    let args = FlightSearchArgs {
        source: "BOM".to_string(),
        destination: "DEL".to_string(),
        ..Default::default()
    };
    let mut m = Metrics::new();
    let (_, step) = begin_today(&args, false, &mut m);
    assert!(matches!(step, SearchStep::Failed(FlightSearchError::MissingApiKey)));
}

#[test]
fn test_missing_key_issues_no_call_and_is_counted() {
    let args = FlightSearchArgs {
        source: "BOM".to_string(),
        destination: "DEL".to_string(),
        ..Default::default()
    };
    let mut m = Metrics::new();
    let (session, step) = begin(&args, false, some_day(), &mut m);
    // The failure precedes any network request: no call is asked for.
    assert!(!matches!(step, SearchStep::Call(_)));
    assert!(matches!(step, SearchStep::Failed(FlightSearchError::MissingApiKey)));
    assert!(matches!(session.stage, flight_search::session::Stage::Done));
    assert_eq!(m.errors.len(), 1);
    assert_eq!(m.errors[0], (0, "MissingApiKey".to_string()));
    assert_eq!(m.success, 0);
}

#[test]
fn test_empty_source_fails_before_any_call() {
    let args = FlightSearchArgs {
        source: "".to_string(),
        destination: "DEL".to_string(),
        ..Default::default()
    };
    let mut m = Metrics::new();
    let (_, step) = begin(&args, true, some_day(), &mut m);
    assert!(!matches!(step, SearchStep::Call(_)));
    assert!(matches!(step, SearchStep::Failed(FlightSearchError::InvalidResponse(_))));
}

#[test]
fn test_defaults_fill_the_plan() {
    let args = FlightSearchArgs {
        source: "BOM".to_string(),
        destination: "DEL".to_string(),
        ..Default::default()
    };
    let mut m = Metrics::new();
    let (session, step) = begin(&args, true, some_day(), &mut m);
    match step {
        SearchStep::Call(flight_search::session::HttpCall::AutoComplete { params }) => {
            assert_eq!(params, vec![("query".to_string(), "BOM".to_string())]);
        },
        _ => panic!("expected an auto-complete call"),
    }
    // today 2025-01-15 + 30 days = 2025-02-14; + 7 days = 2025-02-21
    assert_eq!(session.plan.in_date, "2025-02-14");
    assert_eq!(session.plan.out_date, "2025-02-21");
    assert_eq!(session.plan.cabin, "economy");
    assert_eq!(session.plan.adults, 1);
    assert_eq!(session.plan.currency, "USD");
    assert_eq!(session.plan.market, "US");
    assert_eq!(m.success, 0);
    assert_eq!(m.errors.len(), 0);
}

#[test]
fn test_explicit_dates_pass_through() {
    let args = FlightSearchArgs {
        source: "BOM".to_string(),
        destination: "DEL".to_string(),
        departure_date: Some("2025-06-01".to_string()),
        return_date: Some("2025-06-10".to_string()),
        service: Some("business".to_string()),
        adults: Some(2),
        currency: Some("EUR".to_string()),
    };
    let mut m = Metrics::new();
    let (session, _) = begin(&args, true, some_day(), &mut m);
    assert_eq!(session.plan.in_date, "2025-06-01");
    assert_eq!(session.plan.out_date, "2025-06-10");
    assert_eq!(session.plan.cabin, "business");
    assert_eq!(session.plan.adults, 2);
    assert_eq!(session.plan.currency, "EUR");
}

#[test]
fn test_unparsable_departure_without_return_fails() {
    let args = FlightSearchArgs {
        source: "BOM".to_string(),
        destination: "DEL".to_string(),
        departure_date: Some("June 1st".to_string()),
        ..Default::default()
    };
    let mut m = Metrics::new();
    let (_, step) = begin(&args, true, some_day(), &mut m);
    match step {
        SearchStep::Failed(FlightSearchError::InvalidResponse(d)) => {
            assert_eq!(d, "Unable to parse departure_date");
        },
        _ => panic!("expected a failure"),
    }
}

#[test]
fn test_begin_today_runs_against_the_clock() {
    let args = FlightSearchArgs {
        source: "BOM".to_string(),
        destination: "DEL".to_string(),
        ..Default::default()
    };
    let mut m = Metrics::new();
    let (session, step) = begin_today(&args, true, &mut m);
    assert!(matches!(step, SearchStep::Call(_)));
    // The defaulted dates are well-formed calendar dates.
    assert!(flight_search::date::parse_ymd(&session.plan.in_date).is_some());
    assert!(flight_search::date::parse_ymd(&session.plan.out_date).is_some());
}
