//! Flight search library: resolves free-text locations to provider
//! identifiers, builds provider queries with defaults, defensively parses
//! the provider's loosely-typed response into normalized flight options,
//! filters and caps them, and renders a compact text report.

pub mod date;
pub mod error;
pub mod extract;
pub mod flight_search_tool;
pub mod json;
pub mod location;
pub mod metrics;
pub mod report;
pub mod session;
pub mod text;
pub mod timestamp;
