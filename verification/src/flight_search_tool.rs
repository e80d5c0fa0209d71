//! The search tool's data: the caller's arguments, the normalized flight
//! option record, and the tool manifest the orchestration layer exposes.

use vstd::prelude::*;
use vstd::string::StringExecFns;

verus! {

/// The caller's search arguments. `source` and `destination` are free
/// text or codes and must be non-empty; everything else is optional and
/// defaulted by the pipeline.
#[derive(Debug, Default)]
pub struct FlightSearchArgs {
    pub source: String,
    pub destination: String,
    pub departure_date: Option<String>,
    pub return_date: Option<String>,
    pub service: Option<String>,
    pub adults: Option<u8>,
    pub currency: Option<String>,
}

/// The mathematical value of a search-argument set.
pub ghost struct ArgsModel {
    pub source: Seq<char>,
    pub destination: Seq<char>,
    pub departure_date: Option<Seq<char>>,
    pub return_date: Option<Seq<char>>,
    pub service: Option<Seq<char>>,
    pub adults: Option<u8>,
    pub currency: Option<Seq<char>>,
}

pub open spec fn view_opt_string(o: Option<String>) -> Option<Seq<char>> {
    match o {
        Some(s) => Some(s@),
        None => None,
    }
}

impl View for FlightSearchArgs {
    type V = ArgsModel;

    open spec fn view(&self) -> ArgsModel {
        ArgsModel {
            source: self.source@,
            destination: self.destination@,
            departure_date: view_opt_string(self.departure_date),
            return_date: view_opt_string(self.return_date),
            service: view_opt_string(self.service),
            adults: self.adults,
            currency: view_opt_string(self.currency),
        }
    }
}

/// One normalized flight option, constructed once per surviving raw
/// offer and immutable afterwards. The price is a two-decimal
/// fixed-point amount in hundredths of the currency unit, and is
/// strictly positive for every option that reaches the output.
#[derive(Debug)]
pub struct FlightOption {
    pub airline: String,
    pub flight_number: String,
    pub departure: String,
    pub arrival: String,
    pub duration: String,
    pub stops: u64,
    pub price_hundredths: i64,
    pub currency: String,
}

/// The mathematical value of a flight option.
pub ghost struct OptionModel {
    pub airline: Seq<char>,
    pub flight_number: Seq<char>,
    pub departure: Seq<char>,
    pub arrival: Seq<char>,
    pub duration: Seq<char>,
    pub stops: int,
    pub price_hundredths: int,
    pub currency: Seq<char>,
}

impl View for FlightOption {
    type V = OptionModel;

    open spec fn view(&self) -> OptionModel {
        OptionModel {
            airline: self.airline@,
            flight_number: self.flight_number@,
            departure: self.departure@,
            arrival: self.arrival@,
            duration: self.duration@,
            stops: self.stops as int,
            price_hundredths: self.price_hundredths as int,
            currency: self.currency@,
        }
    }
}

/// The callable search tool, as the orchestration layer sees it: a
/// name, a description, and a JSON-schema-shaped parameter manifest.
#[derive(Debug)]
pub struct FlightSearchTool;

impl FlightSearchTool {
    /// The declared tool name.
    pub fn name() -> (r: String)
        ensures
            r@ == "search_flights"@,
    {
        String::from_str("search_flights")
    }

    /// The declared tool description.
    pub fn description() -> (r: String)
        ensures
            r@ == "Search for flights between two airports"@,
    {
        String::from_str("Search for flights between two airports")
    }

    /// The parameter manifest, as JSON text: `source` and `destination`
    /// required, everything else optional.
    pub fn parameters_json_text() -> (r: String)
        ensures
            r@ == spec_parameters_json_text(),
    {
        String::from_str(
            "{\"type\":\"object\",\"properties\":{\"source\":{\"type\":\"string\",\"description\":\"Source airport code or city name (e.g., 'BOM' or 'Mumbai')\"},\"destination\":{\"type\":\"string\",\"description\":\"Destination airport code or city name (e.g., 'DEL' or 'Delhi')\"},\"departure_date\":{\"type\":\"string\",\"description\":\"Departure flight date in 'YYYY-MM-DD' format\"},\"return_date\":{\"type\":\"string\",\"description\":\"Return flight date in 'YYYY-MM-DD' format\"},\"service\":{\"type\":\"string\",\"description\":\"Class of service\",\"enum\":[\"economy\",\"premium_economy\",\"business\"]},\"adults\":{\"type\":\"integer\",\"description\":\"Number of adults (over 12 years old)\"},\"currency\":{\"type\":\"string\",\"description\":\"Currency code (e.g., 'USD')\"}},\"required\":[\"source\",\"destination\"]}",
        )
    }
}

/// The manifest text, as a mathematical value.
pub open spec fn spec_parameters_json_text() -> Seq<char> {
    "{\"type\":\"object\",\"properties\":{\"source\":{\"type\":\"string\",\"description\":\"Source airport code or city name (e.g., 'BOM' or 'Mumbai')\"},\"destination\":{\"type\":\"string\",\"description\":\"Destination airport code or city name (e.g., 'DEL' or 'Delhi')\"},\"departure_date\":{\"type\":\"string\",\"description\":\"Departure flight date in 'YYYY-MM-DD' format\"},\"return_date\":{\"type\":\"string\",\"description\":\"Return flight date in 'YYYY-MM-DD' format\"},\"service\":{\"type\":\"string\",\"description\":\"Class of service\",\"enum\":[\"economy\",\"premium_economy\",\"business\"]},\"adults\":{\"type\":\"integer\",\"description\":\"Number of adults (over 12 years old)\"},\"currency\":{\"type\":\"string\",\"description\":\"Currency code (e.g., 'USD')\"}},\"required\":[\"source\",\"destination\"]}"@
}

} // verus!
