//! Resolving free text to a provider location: reading the
//! auto-complete response for the first candidate that carries a
//! complete identifier pair.

use vstd::prelude::*;
use vstd::string::StrSliceExecFns;
use vstd::string::StringExecFns;
use crate::json::{Json, spec_get, spec_elems, ospec_get, ospec_str, ov, jget, jstr};

verus! {

/// A resolved identifier pair for one endpoint. Ephemeral: built per
/// search call and discarded once the query is built.
#[derive(Debug)]
pub struct SkyscannerLocation {
    pub sky_id: String,
    pub entity_id: String,
}

/// The mathematical value of a resolved location.
pub ghost struct LocModel {
    pub sky_id: Seq<char>,
    pub entity_id: Seq<char>,
}

impl View for SkyscannerLocation {
    type V = LocModel;

    open spec fn view(&self) -> LocModel {
        LocModel { sky_id: self.sky_id@, entity_id: self.entity_id@ }
    }
}

/// The identifier pair of one suggestion, when it is complete.
pub open spec fn spec_suggestion_pair(item: Json) -> Option<LocModel> {
    let params = ospec_get(ospec_get(Some(item), "navigation"@), "relevantFlightParams"@);
    match (ospec_str(ospec_get(params, "skyId"@)), ospec_str(ospec_get(params, "entityId"@))) {
        (Some(s), Some(e)) => Some(LocModel { sky_id: s, entity_id: e }),
        _ => None,
    }
}

/// The first complete pair of a suggestion list.
pub open spec fn spec_first_pair(items: Seq<Json>) -> Option<LocModel>
    decreases items.len(),
{
    if items.len() == 0 {
        None
    } else {
        match spec_suggestion_pair(items[0]) {
            Some(m) => Some(m),
            None => spec_first_pair(items.drop_first()),
        }
    }
}

/// What resolving against a parsed auto-complete body yields: the first
/// suggestion with a complete pair, or nothing.
pub open spec fn spec_resolve(root: Json) -> Option<LocModel> {
    match spec_get(root, "inputSuggest"@) {
        Some(j) => match spec_elems(j) {
            Some(a) => spec_first_pair(a),
            None => None,
        },
        None => None,
    }
}

/// Reads one suggestion's identifier pair.
fn suggestion_pair(item: &Json) -> (r: Option<SkyscannerLocation>)
    ensures
        match r {
            Some(l) => spec_suggestion_pair(*item) == Some(l@),
            None => spec_suggestion_pair(*item) is None,
        },
{
    let params = jget(jget(Some(item), "navigation"), "relevantFlightParams");
    match (jstr(jget(params, "skyId")), jstr(jget(params, "entityId"))) {
        (Some(s), Some(e)) => Some(
            SkyscannerLocation { sky_id: s.to_owned(), entity_id: e.to_owned() },
        ),
        _ => None,
    }
}

/// Walks the parsed auto-complete body for the first complete pair.
#[verifier::loop_isolation(false)]
pub fn find_location(root: &Json) -> (r: Option<SkyscannerLocation>)
    ensures
        match r {
            Some(l) => spec_resolve(*root) == Some(l@),
            None => spec_resolve(*root) is None,
        },
{
    match root.get("inputSuggest") {
        Some(j) => match j.elems() {
            Some(items) => {
                let n = items.len();
                let mut i: usize = 0;
                assert(items@.skip(0) =~= items@);
                while i < n
                    invariant
                        n == items@.len(),
                        i <= n,
                        spec_first_pair(items@) == spec_first_pair(items@.skip(i as int)),
                    decreases n - i,
                {
                    proof {
                        assert(items@.skip(i as int)[0] == items@[i as int]);
                        assert(items@.skip(i as int).drop_first() =~= items@.skip(i as int + 1));
                    }
                    match suggestion_pair(&items[i]) {
                        Some(l) => {
                            return Some(l);
                        },
                        None => {},
                    }
                    i += 1;
                }
                assert(items@.skip(n as int) =~= Seq::<Json>::empty());
                None
            },
            None => None,
        },
        None => None,
    }
}

} // verus!
