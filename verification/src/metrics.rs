//! The observability sink: monotonic counters the pipeline increments
//! exactly once per call outcome. The sink is passed into the pipeline
//! explicitly; the process-wide export of its readings is the caller's
//! business.

use vstd::prelude::*;
use crate::error::{FlightSearchError, ErrorModel};

verus! {

/// The readings of the sink: a success count, and one `(status, kind)`
/// tag per failed call.
pub struct Metrics {
    pub success: u64,
    pub errors: Vec<(u64, String)>,
}

impl Metrics {
    pub fn new() -> (m: Metrics)
        ensures
            m.success == 0,
            m.errors@.len() == 0,
    {
        Metrics { success: 0, errors: Vec::new() }
    }
}

/// The kind tag an error is counted under.
pub open spec fn spec_kind_label(e: ErrorModel) -> Seq<char> {
    match e {
        ErrorModel::HttpRequestFailed(_) => "HttpRequestFailed"@,
        ErrorModel::InvalidResponse(_) => "InvalidResponse"@,
        ErrorModel::ApiError(_) => "ApiError"@,
        ErrorModel::MissingApiKey => "MissingApiKey"@,
    }
}

/// The kind tag of an error.
pub fn error_kind_label(e: &FlightSearchError) -> (r: &'static str)
    ensures
        r@ == spec_kind_label(e@),
{
    match e {
        FlightSearchError::HttpRequestFailed(_) => "HttpRequestFailed",
        FlightSearchError::InvalidResponse(_) => "InvalidResponse",
        FlightSearchError::ApiError(_) => "ApiError",
        FlightSearchError::MissingApiKey => "MissingApiKey",
    }
}

/// One more successful search. The count is monotonic and saturates at
/// its ceiling rather than wrapping.
pub fn inc_flight_status_success(m: &mut Metrics)
    ensures
        final(m).success == (if old(m).success == u64::MAX {
            u64::MAX as int
        } else {
            old(m).success + 1
        }),
        final(m).errors == old(m).errors,
{
    if m.success < u64::MAX {
        m.success = m.success + 1;
    }
}

/// One more failed search, tagged with the HTTP status (zero when the
/// failure precedes any response) and the error kind.
pub fn inc_flight_status_error(m: &mut Metrics, status: u64, error: &FlightSearchError)
    ensures
        final(m).success == old(m).success,
        final(m).errors@.len() == old(m).errors@.len() + 1,
        forall|i: int| 0 <= i < old(m).errors@.len() ==> final(m).errors@[i] == old(m).errors@[i],
        final(m).errors@.last().0 == status,
        final(m).errors@.last().1@ == spec_kind_label(error@),
{
    let kind = error_kind_label(error);
    let mut tag = String::new();
    tag.append(kind);
    m.errors.push((status, tag));
}

/// What logging one error does to the sink: the success count stands,
/// and exactly one tag is appended.
pub open spec fn spec_error_logged(
    before: Metrics,
    after: Metrics,
    status: int,
    kind: ErrorModel,
) -> bool {
    &&& after.success == before.success
    &&& after.errors@.len() == before.errors@.len() + 1
    &&& (forall|i: int| 0 <= i < before.errors@.len() ==> after.errors@[i] == before.errors@[i])
    &&& after.errors@.last().0 == status
    &&& after.errors@.last().1@ == spec_kind_label(kind)
}

} // verus!
