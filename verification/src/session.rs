//! One search call as a state machine: validate and default the
//! arguments, resolve both endpoints, build the provider query, read
//! the response, and produce the report or a typed error. The caller
//! performs each requested HTTP call and hands back the status and
//! body; both resolutions must succeed before the main query is built,
//! and the sink is touched exactly once, at the terminal step.

use vstd::prelude::*;
use vstd::string::StringExecFns;
use crate::date::{
    Date, spec_parse_ymd, parse_ymd, spec_format_ymd, format_ymd, spec_add_days, add_days,
};
use crate::error::{FlightSearchError, ErrorModel};
use crate::extract::{spec_selected, collect_options, lemma_selection_sound};
use crate::flight_search_tool::{FlightSearchArgs, ArgsModel};
use crate::json::{Json, json_of, parse_json, spec_get, ospec_get, ospec_str, spec_as_str, ov, jget, jstr};
use crate::location::{SkyscannerLocation, LocModel, spec_resolve, find_location};
use crate::metrics::{
    Metrics, spec_error_logged, inc_flight_status_error,
    inc_flight_status_success,
};
use crate::report::{spec_report, render_report};
use crate::text::{dec_str, push_u64, u64_to_string};

verus! {

/// The provider query values, after validation and defaulting: a pure
/// function of the arguments and today's date.
#[derive(Debug)]
pub struct QueryPlan {
    pub in_date: String,
    pub out_date: String,
    pub cabin: String,
    pub adults: u8,
    pub currency: String,
    pub market: String,
    pub destination: String,
}

/// The mathematical value of a query plan.
pub ghost struct PlanModel {
    pub in_date: Seq<char>,
    pub out_date: Seq<char>,
    pub cabin: Seq<char>,
    pub adults: u8,
    pub currency: Seq<char>,
    pub market: Seq<char>,
    pub destination: Seq<char>,
}

impl View for QueryPlan {
    type V = PlanModel;

    open spec fn view(&self) -> PlanModel {
        PlanModel {
            in_date: self.in_date@,
            out_date: self.out_date@,
            cabin: self.cabin@,
            adults: self.adults,
            currency: self.currency@,
            market: self.market@,
            destination: self.destination@,
        }
    }
}

/// The departure date: as given, else thirty days from today.
pub open spec fn spec_departure_date(a: ArgsModel, today: Date) -> Seq<char> {
    match a.departure_date {
        Some(s) => s,
        None => spec_format_ymd(spec_add_days(today, 30)),
    }
}

/// The return date: as given, else seven days after the departure date.
pub open spec fn spec_return_date(a: ArgsModel, today: Date) -> Seq<char> {
    match a.return_date {
        Some(s) => s,
        None => match spec_parse_ymd(spec_departure_date(a, today)) {
            Some(d) => spec_format_ymd(spec_add_days(d, 7)),
            None => Seq::empty(),
        },
    }
}

pub open spec fn spec_cabin(a: ArgsModel) -> Seq<char> {
    match a.service {
        Some(s) => s,
        None => "economy"@,
    }
}

pub open spec fn spec_adults(a: ArgsModel) -> u8 {
    match a.adults {
        Some(n) => n,
        None => 1,
    }
}

pub open spec fn spec_currency(a: ArgsModel) -> Seq<char> {
    match a.currency {
        Some(s) => s,
        None => "USD"@,
    }
}

/// The whole plan for an argument set that passes validation.
pub open spec fn spec_plan(a: ArgsModel, today: Date) -> PlanModel {
    PlanModel {
        in_date: spec_departure_date(a, today),
        out_date: spec_return_date(a, today),
        cabin: spec_cabin(a),
        adults: spec_adults(a),
        currency: spec_currency(a),
        market: "US"@,
        destination: a.destination,
    }
}

/// Why a call fails before any network activity, if it does: a missing
/// key first, then an empty endpoint, then a departure date that cannot
/// anchor the defaulted return date.
pub open spec fn spec_begin_error(a: ArgsModel, has_key: bool, today: Date) -> Option<ErrorModel> {
    if !has_key {
        Some(ErrorModel::MissingApiKey)
    } else if a.source.len() == 0 {
        Some(ErrorModel::InvalidResponse("Source location is empty"@))
    } else if a.destination.len() == 0 {
        Some(ErrorModel::InvalidResponse("Destination location is empty"@))
    } else if a.return_date is None && spec_parse_ymd(spec_departure_date(a, today)) is None {
        Some(ErrorModel::InvalidResponse("Unable to parse departure_date"@))
    } else {
        None
    }
}

/// Law: an argument set with an empty source or destination fails the
/// call before any network activity, whatever the day and whether a key
/// is present.
pub proof fn lemma_empty_endpoint_fails(a: ArgsModel, has_key: bool, today: Date)
    requires
        a.source.len() == 0 || a.destination.len() == 0,
    ensures
        spec_begin_error(a, has_key, today) is Some,
{
}

/// Law: without the API key the call fails as exactly `MissingApiKey`,
/// before any network activity, whatever the arguments and the day.
pub proof fn lemma_missing_key_fails(a: ArgsModel, today: Date)
    ensures
        spec_begin_error(a, false, today) == Some(ErrorModel::MissingApiKey),
{
}

/// One outbound provider call the caller is asked to perform.
#[derive(Debug)]
pub enum HttpCall {
    /// The auto-complete lookup that resolves one endpoint.
    AutoComplete { params: Vec<(String, String)> },
    /// The round-trip flight list query.
    RoundTripList { params: Vec<(String, String)> },
}

/// What the session asks for next: another call, the finished report,
/// or a typed error.
#[derive(Debug)]
pub enum SearchStep {
    Call(HttpCall),
    Finished(String),
    Failed(FlightSearchError),
}

/// Where the session stands.
#[derive(Debug)]
pub enum Stage {
    /// Waiting for the auto-complete response for the source.
    AwaitSource,
    /// Waiting for the auto-complete response for the destination.
    AwaitDest { source: SkyscannerLocation },
    /// Waiting for the flight list response.
    AwaitSearch,
    /// Finished, successfully or not.
    Done,
}

pub struct SearchSession {
    pub stage: Stage,
    pub plan: QueryPlan,
}

impl SearchSession {
    /// Whether the session still expects a response.
    pub open spec fn in_flight(self) -> bool {
        !(self.stage is Done)
    }
}

/// The views of a query parameter list.
pub open spec fn params_model(v: Seq<(String, String)>) -> Seq<(Seq<char>, Seq<char>)> {
    Seq::new(v.len(), |i: int| (v[i].0@, v[i].1@))
}

/// The flight list query: the plan's values and both resolved
/// identifier pairs, in a fixed order.
pub open spec fn spec_search_params(p: PlanModel, src: LocModel, dst: LocModel) -> Seq<
    (Seq<char>, Seq<char>),
> {
    seq![
        ("inDate"@, p.in_date),
        ("outDate"@, p.out_date),
        ("origin"@, src.sky_id),
        ("originId"@, src.entity_id),
        ("destination"@, dst.sky_id),
        ("destinationId"@, dst.entity_id),
        ("cabinClass"@, p.cabin),
        ("adults"@, dec_str(p.adults as int)),
        ("children"@, "0"@),
        ("infants"@, "0"@),
        ("market"@, p.market),
        ("currency"@, p.currency),
    ]
}

/// What resolving one endpoint against an auto-complete response
/// yields, as a function of the status and body alone.
pub open spec fn spec_autocomplete_outcome(status: int, body: Seq<char>) -> Result<
    LocModel,
    ErrorModel,
> {
    if !(200 <= status < 300) {
        Err(ErrorModel::ApiError("Auto-complete failed: "@ + dec_str(status) + ": "@ + body))
    } else {
        match json_of(body) {
            Err(msg) => Err(ErrorModel::HttpRequestFailed(msg)),
            Ok(root) => match spec_resolve(root) {
                Some(loc) => Ok(loc),
                None => Err(
                    ErrorModel::InvalidResponse("No valid airport found in auto-complete response"@),
                ),
            },
        }
    }
}

/// A provider-reported error object under the known key, re-read as a
/// message: the value itself when it is a string, else its `message`
/// field, else a fixed wording.
pub open spec fn spec_provider_error(root: Json) -> Option<Seq<char>> {
    match spec_get(root, "error"@) {
        Some(e) => match spec_as_str(e) {
            Some(s) => Some(s),
            None => match ospec_str(spec_get(e, "message"@)) {
                Some(s) => Some(s),
                None => Some("Provider reported an error"@),
            },
        },
        None => None,
    }
}

/// The itinerary container: directly at the top level, else nested one
/// level under the wrapper key.
pub open spec fn spec_itins(root: Json) -> Option<Json> {
    match spec_get(root, "itineraries"@) {
        Some(j) => Some(j),
        None => ospec_get(spec_get(root, "data"@), "itineraries"@),
    }
}

/// What one flight list response yields, as a function of the status,
/// body and requested currency alone: the rendered report, or a typed
/// error. A body whose container is present but empty yields the
/// no-flights sentence, not an error; a body missing the container
/// entirely is an invalid response.
pub open spec fn spec_search_outcome(status: int, body: Seq<char>, fallback: Seq<char>) -> Result<
    Seq<char>,
    ErrorModel,
> {
    if !(200 <= status < 300) {
        Err(ErrorModel::ApiError("Status: "@ + dec_str(status) + ", Response: "@ + body))
    } else {
        match json_of(body) {
            Err(msg) => Err(ErrorModel::HttpRequestFailed(msg)),
            Ok(root) => match spec_provider_error(root) {
                Some(msg) => Err(ErrorModel::ApiError(msg)),
                None => match spec_itins(root) {
                    None => Err(
                        ErrorModel::InvalidResponse("Response is missing the itineraries container"@),
                    ),
                    Some(itins) => Ok(spec_report(spec_selected(itins, fallback))),
                },
            },
        }
    }
}

/// Law: a successful response whose itinerary container is present but
/// yields no surviving offer produces exactly the no-flights sentence,
/// and no error.
pub proof fn lemma_empty_container_is_no_flights(
    status: int,
    body: Seq<char>,
    fallback: Seq<char>,
)
    requires
        200 <= status < 300,
        json_of(body) is Ok,
        spec_provider_error(json_of(body)->Ok_0) is None,
        spec_itins(json_of(body)->Ok_0) is Some,
        spec_selected(spec_itins(json_of(body)->Ok_0)->Some_0, fallback).len() == 0,
    ensures
        spec_search_outcome(status, body, fallback) == Ok::<Seq<char>, ErrorModel>(
            "No flights found for the given criteria."@,
        ),
{
}

/// Law: a successful response that parses but is missing the itinerary
/// container entirely is an invalid response, not the no-flights
/// sentence.
pub proof fn lemma_missing_container_is_invalid(status: int, body: Seq<char>, fallback: Seq<char>)
    requires
        200 <= status < 300,
        json_of(body) is Ok,
        spec_provider_error(json_of(body)->Ok_0) is None,
        spec_itins(json_of(body)->Ok_0) is None,
    ensures
        spec_search_outcome(status, body, fallback) == Err::<Seq<char>, ErrorModel>(
            ErrorModel::InvalidResponse("Response is missing the itineraries container"@),
        ),
{
}

pub open spec fn loc_result_model(r: Result<SkyscannerLocation, FlightSearchError>) -> Result<
    LocModel,
    ErrorModel,
> {
    match r {
        Ok(l) => Ok(l@),
        Err(e) => Err(e@),
    }
}

pub open spec fn text_result_model(r: Result<String, FlightSearchError>) -> Result<
    Seq<char>,
    ErrorModel,
> {
    match r {
        Ok(s) => Ok(s@),
        Err(e) => Err(e@),
    }
}

/// Reads one auto-complete response.
pub fn parse_autocomplete_response(status: u16, body: &str) -> (r: Result<
    SkyscannerLocation,
    FlightSearchError,
>)
    ensures
        loc_result_model(r) == spec_autocomplete_outcome(status as int, body@),
{
    if !(200 <= status && status < 300) {
        let mut msg = String::from_str("Auto-complete failed: ");
        push_u64(&mut msg, status as u64);
        msg.append(": ");
        msg.append(body);
        assert(msg@ =~= "Auto-complete failed: "@ + dec_str(status as int) + ": "@ + body@);
        return Err(FlightSearchError::ApiError(msg));
    }
    match parse_json(body) {
        Err(e) => Err(FlightSearchError::HttpRequestFailed(e)),
        Ok(root) => match find_location(&root) {
            Some(l) => Ok(l),
            None => Err(
                FlightSearchError::InvalidResponse(
                    String::from_str("No valid airport found in auto-complete response"),
                ),
            ),
        },
    }
}

/// Reads a provider-reported error object, when the body carries one.
fn provider_error(root: &Json) -> (r: Option<String>)
    ensures
        match r {
            Some(s) => spec_provider_error(*root) == Some(s@),
            None => spec_provider_error(*root) is None,
        },
{
    match root.get("error") {
        Some(e) => match e.as_str() {
            Some(s) => Some(s.to_owned()),
            None => match jstr(e.get("message")) {
                Some(s) => Some(s.to_owned()),
                None => Some(String::from_str("Provider reported an error")),
            },
        },
        None => None,
    }
}

/// Finds the itinerary container, trying the direct location first.
fn itineraries_node<'a>(root: &'a Json) -> (r: Option<&'a Json>)
    ensures
        ov(r) == spec_itins(*root),
{
    match root.get("itineraries") {
        Some(j) => Some(j),
        None => jget(root.get("data"), "itineraries"),
    }
}

/// Reads one flight list response into the report or a typed error.
pub fn parse_search_response(status: u16, body: &str, fallback_currency: &str) -> (r: Result<
    String,
    FlightSearchError,
>)
    ensures
        text_result_model(r) == spec_search_outcome(status as int, body@, fallback_currency@),
{
    if !(200 <= status && status < 300) {
        let mut msg = String::from_str("Status: ");
        push_u64(&mut msg, status as u64);
        msg.append(", Response: ");
        msg.append(body);
        assert(msg@ =~= "Status: "@ + dec_str(status as int) + ", Response: "@ + body@);
        return Err(FlightSearchError::ApiError(msg));
    }
    match parse_json(body) {
        Err(e) => Err(FlightSearchError::HttpRequestFailed(e)),
        Ok(root) => match provider_error(&root) {
            Some(msg) => Err(FlightSearchError::ApiError(msg)),
            None => match itineraries_node(&root) {
                None => Err(
                    FlightSearchError::InvalidResponse(
                        String::from_str("Response is missing the itineraries container"),
                    ),
                ),
                Some(itins) => {
                    let opts = collect_options(itins, fallback_currency);
                    proof {
                        lemma_selection_sound(*itins, fallback_currency@);
                        assert forall|i: int| 0 <= i < opts@.len() implies opts@[i].price_hundredths
                            >= 0 by {
                            assert(crate::extract::models(opts@)[i] == opts@[i]@);
                        }
                    }
                    Ok(render_report(&opts))
                },
            },
        },
    }
}

/// Everything `begin` promises, over the chosen `today`.
pub open spec fn spec_begin_post(
    a: ArgsModel,
    has_key: bool,
    today: Date,
    s: SearchSession,
    step: SearchStep,
    before: Metrics,
    after: Metrics,
) -> bool {
    match spec_begin_error(a, has_key, today) {
        Some(k) => {
            &&& step matches SearchStep::Failed(e) && e@ == k
            &&& s.stage is Done
            &&& spec_error_logged(before, after, 0, k)
        },
        None => {
            &&& step matches SearchStep::Call(c) && (c matches HttpCall::AutoComplete { params }
                && params_model(params@) == seq![("query"@, a.source)])
            &&& s.stage is AwaitSource
            &&& s.plan@ == spec_plan(a, today)
            &&& after == before
        },
    }
}

/// Starts one search call against today's date: validates, defaults,
/// and either fails before any network activity or asks for the source
/// endpoint's resolution.
#[verifier::rlimit(60)]
pub fn begin(args: &FlightSearchArgs, has_api_key: bool, today: Date, m: &mut Metrics) -> (r: (
    SearchSession,
    SearchStep,
))
    requires
        today.valid(),
    ensures
        spec_begin_post(args@, has_api_key, today, r.0, r.1, *old(m), *final(m)),
{
    if !has_api_key {
        let e = FlightSearchError::MissingApiKey;
        inc_flight_status_error(m, 0, &e);
        return (
            SearchSession { stage: Stage::Done, plan: empty_plan() },
            SearchStep::Failed(e),
        );
    }
    if args.source.as_str().is_empty() {
        let e = FlightSearchError::InvalidResponse(String::from_str("Source location is empty"));
        inc_flight_status_error(m, 0, &e);
        return (
            SearchSession { stage: Stage::Done, plan: empty_plan() },
            SearchStep::Failed(e),
        );
    }
    if args.destination.as_str().is_empty() {
        let e = FlightSearchError::InvalidResponse(
            String::from_str("Destination location is empty"),
        );
        inc_flight_status_error(m, 0, &e);
        return (
            SearchSession { stage: Stage::Done, plan: empty_plan() },
            SearchStep::Failed(e),
        );
    }
    let in_date: String = match &args.departure_date {
        Some(s) => s.clone(),
        None => format_ymd(add_days(today, 30)),
    };
    let out_date: String = match &args.return_date {
        Some(s) => s.clone(),
        None => match parse_ymd(in_date.as_str()) {
            Some(d) => format_ymd(add_days(d, 7)),
            None => {
                let e = FlightSearchError::InvalidResponse(
                    String::from_str("Unable to parse departure_date"),
                );
                inc_flight_status_error(m, 0, &e);
                return (
                    SearchSession { stage: Stage::Done, plan: empty_plan() },
                    SearchStep::Failed(e),
                );
            },
        },
    };
    let cabin: String = match &args.service {
        Some(s) => s.clone(),
        None => String::from_str("economy"),
    };
    let adults: u8 = match args.adults {
        Some(n) => n,
        None => 1,
    };
    let currency: String = match &args.currency {
        Some(s) => s.clone(),
        None => String::from_str("USD"),
    };
    let plan = QueryPlan {
        in_date,
        out_date,
        cabin,
        adults,
        currency,
        market: String::from_str("US"),
        destination: args.destination.clone(),
    };
    let mut params: Vec<(String, String)> = Vec::new();
    params.push((String::from_str("query"), args.source.clone()));
    assert(params_model(params@) =~= seq![("query"@, args@.source)]);
    (
        SearchSession { stage: Stage::AwaitSource, plan },
        SearchStep::Call(HttpCall::AutoComplete { params }),
    )
}

/// An empty plan for a session that is already done.
fn empty_plan() -> QueryPlan {
    QueryPlan {
        in_date: String::new(),
        out_date: String::new(),
        cabin: String::new(),
        adults: 1,
        currency: String::new(),
        market: String::new(),
        destination: String::new(),
    }
}

/// Starts one search call against the clock. What holds of the result
/// holds for whatever day the clock reported.
pub fn begin_today(args: &FlightSearchArgs, has_api_key: bool, m: &mut Metrics) -> (r: (
    SearchSession,
    SearchStep,
))
    ensures
        exists|today: Date|
            today.valid() && spec_begin_post(
                args@,
                has_api_key,
                today,
                r.0,
                r.1,
                *old(m),
                *final(m),
            ),
        !has_api_key ==> (r.1 matches SearchStep::Failed(e) && e@ == ErrorModel::MissingApiKey),
        args@.source.len() == 0 || args@.destination.len() == 0 ==> r.1 is Failed,
{
    let today = crate::date::today_utc();
    let r = begin(args, has_api_key, today, m);
    proof {
        assert(today.valid() && spec_begin_post(
            args@,
            has_api_key,
            today,
            r.0,
            r.1,
            *old(m),
            *m,
        ));
    }
    r
}

/// The query parameter list of the flight list call.
#[verifier::rlimit(60)]
fn build_search_params(plan: &QueryPlan, src: &SkyscannerLocation, dst: &SkyscannerLocation) -> (v:
    Vec<(String, String)>)
    ensures
        params_model(v@) == spec_search_params(plan@, src@, dst@),
{
    let mut v: Vec<(String, String)> = Vec::new();
    v.push((String::from_str("inDate"), plan.in_date.clone()));
    v.push((String::from_str("outDate"), plan.out_date.clone()));
    v.push((String::from_str("origin"), src.sky_id.clone()));
    v.push((String::from_str("originId"), src.entity_id.clone()));
    v.push((String::from_str("destination"), dst.sky_id.clone()));
    v.push((String::from_str("destinationId"), dst.entity_id.clone()));
    v.push((String::from_str("cabinClass"), plan.cabin.clone()));
    v.push((String::from_str("adults"), u64_to_string(plan.adults as u64)));
    v.push((String::from_str("children"), String::from_str("0")));
    v.push((String::from_str("infants"), String::from_str("0")));
    v.push((String::from_str("market"), plan.market.clone()));
    v.push((String::from_str("currency"), plan.currency.clone()));
    assert(params_model(v@) =~= spec_search_params(plan@, src@, dst@));
    v
}

impl SearchSession {
    /// Feeds the session one HTTP response. The terminal transitions
    /// touch the sink exactly once: the success counter on a finished
    /// report, the error counter, tagged with this response's status,
    /// on a failure.
    #[verifier::rlimit(100)]
    pub fn on_http_response(&mut self, status: u16, body: &str, m: &mut Metrics) -> (r: SearchStep)
        requires
            old(self).in_flight(),
        ensures
            old(self).stage is AwaitSource ==> (match spec_autocomplete_outcome(
                status as int,
                body@,
            ) {
                Ok(loc) => {
                    &&& (final(self).stage matches Stage::AwaitDest { source } && source@ == loc)
                    &&& final(self).plan == old(self).plan
                    &&& (r matches SearchStep::Call(c) && (c matches HttpCall::AutoComplete {
                        params,
                    } && params_model(params@) == seq![("query"@, old(self).plan.destination@)]))
                    &&& *final(m) == *old(m)
                },
                Err(k) => {
                    &&& r matches SearchStep::Failed(e) && e@ == k
                    &&& final(self).stage is Done
                    &&& spec_error_logged(*old(m), *final(m), status as int, k)
                },
            }),
            old(self).stage matches Stage::AwaitDest { source } ==> (match
                spec_autocomplete_outcome(status as int, body@) {
                Ok(loc) => {
                    &&& final(self).stage is AwaitSearch
                    &&& final(self).plan == old(self).plan
                    &&& (r matches SearchStep::Call(c) && (c matches HttpCall::RoundTripList {
                        params,
                    } && params_model(params@) == spec_search_params(
                        old(self).plan@,
                        source@,
                        loc,
                    )))
                    &&& *final(m) == *old(m)
                },
                Err(k) => {
                    &&& r matches SearchStep::Failed(e) && e@ == k
                    &&& final(self).stage is Done
                    &&& spec_error_logged(*old(m), *final(m), status as int, k)
                },
            }),
            old(self).stage is AwaitSearch ==> (match spec_search_outcome(
                status as int,
                body@,
                old(self).plan.currency@,
            ) {
                Ok(text) => {
                    &&& r matches SearchStep::Finished(s) && s@ == text
                    &&& final(self).stage is Done
                    &&& final(m).errors == old(m).errors
                    &&& final(m).success == (if old(m).success == u64::MAX {
                        u64::MAX as int
                    } else {
                        old(m).success + 1
                    })
                },
                Err(k) => {
                    &&& r matches SearchStep::Failed(e) && e@ == k
                    &&& final(self).stage is Done
                    &&& spec_error_logged(*old(m), *final(m), status as int, k)
                },
            }),
    {
        let mut stage = Stage::Done;
        core::mem::swap(&mut stage, &mut self.stage);
        match stage {
            Stage::AwaitSource => match parse_autocomplete_response(status, body) {
                Ok(loc) => {
                    let mut params: Vec<(String, String)> = Vec::new();
                    params.push((String::from_str("query"), self.plan.destination.clone()));
                    assert(params_model(params@) =~= seq![("query"@, old(self).plan.destination@)]);
                    self.stage = Stage::AwaitDest { source: loc };
                    SearchStep::Call(HttpCall::AutoComplete { params })
                },
                Err(e) => {
                    inc_flight_status_error(m, status as u64, &e);
                    SearchStep::Failed(e)
                },
            },
            Stage::AwaitDest { source } => match parse_autocomplete_response(status, body) {
                Ok(loc) => {
                    let params = build_search_params(&self.plan, &source, &loc);
                    self.stage = Stage::AwaitSearch;
                    SearchStep::Call(HttpCall::RoundTripList { params })
                },
                Err(e) => {
                    inc_flight_status_error(m, status as u64, &e);
                    SearchStep::Failed(e)
                },
            },
            Stage::AwaitSearch => match parse_search_response(status, body, self.plan.currency.as_str()) {
                Ok(text) => {
                    inc_flight_status_success(m);
                    SearchStep::Finished(text)
                },
                Err(e) => {
                    inc_flight_status_error(m, status as u64, &e);
                    SearchStep::Failed(e)
                },
            },
            Stage::Done => {
                let e = FlightSearchError::InvalidResponse(
                    String::from_str("The search already finished"),
                );
                SearchStep::Failed(e)
            },
        }
    }

    /// Feeds the session a transport failure: the call ends at once
    /// with the transport error, counted under status zero.
    pub fn on_http_failure(&mut self, detail: &str, m: &mut Metrics) -> (r: SearchStep)
        requires
            old(self).in_flight(),
        ensures
            r matches SearchStep::Failed(e) && e@ == ErrorModel::HttpRequestFailed(detail@),
            final(self).stage is Done,
            spec_error_logged(*old(m), *final(m), 0, ErrorModel::HttpRequestFailed(detail@)),
    {
        self.stage = Stage::Done;
        let e = FlightSearchError::HttpRequestFailed(detail.to_owned());
        inc_flight_status_error(m, 0, &e);
        SearchStep::Failed(e)
    }
}

} // verus!
