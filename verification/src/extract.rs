//! The core of the pipeline: walking a loosely-typed provider response
//! to recover normalized flight options. Every concept is read through a
//! fallback chain in a fixed priority order; a missing node yields a
//! documented default; an offer whose resolved price is not strictly
//! positive is dropped; the result is capped at five offers in upstream
//! order.

use vstd::prelude::*;
use vstd::string::StrSliceExecFns;
use vstd::string::StringExecFns;
use crate::json::{
    Json, spec_get, spec_elems, ospec_get, ospec_first, ospec_str, ospec_u64, ospec_hundredths,
    ov, jget, jfirst, jstr, ju64, jhundredths,
};
use crate::timestamp::{spec_duration_minutes, spec_duration_text, duration_minutes, duration_text};
use crate::flight_search_tool::{FlightOption, OptionModel};

verus! {

/// The first leg of a raw offer: where airline, times, duration and
/// stop count live.
pub open spec fn s_leg0(item: Json) -> Option<Json> {
    ospec_first(ospec_get(Some(item), "legs"@))
}

/// The airline name: the first marketing carrier of the first leg, or
/// the documented placeholder.
pub open spec fn s_airline(item: Json) -> Seq<char> {
    match ospec_str(
        ospec_get(
            ospec_first(ospec_get(ospec_get(s_leg0(item), "carriers"@), "marketing"@)),
            "name"@,
        ),
    ) {
        Some(s) => s,
        None => "Unknown Airline"@,
    }
}

/// The flight number: from the first segment of the first leg, or empty.
pub open spec fn s_flight_number(item: Json) -> Seq<char> {
    match ospec_str(
        ospec_get(ospec_first(ospec_get(s_leg0(item), "segments"@)), "flightNumber"@),
    ) {
        Some(s) => s,
        None => ""@,
    }
}

pub open spec fn s_departure(item: Json) -> Option<Seq<char>> {
    ospec_str(ospec_get(s_leg0(item), "departure"@))
}

pub open spec fn s_arrival(item: Json) -> Option<Seq<char>> {
    ospec_str(ospec_get(s_leg0(item), "arrival"@))
}

pub open spec fn or_empty(o: Option<Seq<char>>) -> Seq<char> {
    match o {
        Some(s) => s,
        None => ""@,
    }
}

/// The duration wording: a direct minute count when the provider gives
/// one; otherwise the difference of the departure and arrival instants,
/// zero when they are present but unreadable; otherwise the documented
/// placeholder.
pub open spec fn s_duration(item: Json) -> Seq<char> {
    match ospec_u64(ospec_get(s_leg0(item), "durationInMinutes"@)) {
        Some(m) => spec_duration_text(m as int),
        None => match (s_departure(item), s_arrival(item)) {
            (Some(dep), Some(arr)) => match spec_duration_minutes(dep, arr) {
                Some(m) => spec_duration_text(m),
                None => spec_duration_text(0),
            },
            _ => "Unknown duration"@,
        },
    }
}

/// The stop count: a direct field, else one less than the number of
/// exposed segments, else zero.
pub open spec fn s_stops(item: Json) -> int {
    match ospec_u64(ospec_get(s_leg0(item), "stopCount"@)) {
        Some(v) => v as int,
        None => match ospec_get(s_leg0(item), "segments"@) {
            Some(j) => match spec_elems(j) {
                Some(a) => if a.len() >= 1 {
                    a.len() - 1
                } else {
                    0
                },
                None => 0,
            },
            None => 0,
        },
    }
}

/// The resolved price in hundredths: the first pricing option's amount,
/// else the flat raw price, else zero (which excludes the offer).
pub open spec fn s_price(item: Json) -> int {
    match ospec_hundredths(
        ospec_get(
            ospec_get(ospec_first(ospec_get(Some(item), "pricingOptions"@)), "price"@),
            "amount"@,
        ),
    ) {
        Some(v) => v,
        None => match ospec_hundredths(
            ospec_get(ospec_get(Some(item), "price"@), "raw"@),
        ) {
            Some(v) => v,
            None => 0,
        },
    }
}

/// The currency code: per-offer, else the flat price's, else the
/// caller-requested fallback.
pub open spec fn s_currency(item: Json, fallback: Seq<char>) -> Seq<char> {
    match ospec_str(
        ospec_get(
            ospec_get(ospec_first(ospec_get(Some(item), "pricingOptions"@)), "price"@),
            "currencyCode"@,
        ),
    ) {
        Some(c) => c,
        None => match ospec_str(ospec_get(ospec_get(Some(item), "price"@), "currency"@)) {
            Some(c) => c,
            None => fallback,
        },
    }
}

/// What one raw offer yields: a normalized option, or nothing when the
/// resolved price is not strictly positive.
pub open spec fn spec_offer(item: Json, fallback: Seq<char>) -> Option<OptionModel> {
    if s_price(item) > 0 {
        Some(
            OptionModel {
                airline: s_airline(item),
                flight_number: s_flight_number(item),
                departure: or_empty(s_departure(item)),
                arrival: or_empty(s_arrival(item)),
                duration: s_duration(item),
                stops: s_stops(item),
                price_hundredths: s_price(item),
                currency: s_currency(item, fallback),
            },
        )
    } else {
        None
    }
}

/// Normalizes one raw offer, excluding it when its price is not
/// strictly positive.
#[verifier::rlimit(100)]
pub fn extract_option(item: &Json, fallback_currency: &str) -> (r: Option<FlightOption>)
    ensures
        match r {
            Some(o) => spec_offer(*item, fallback_currency@) == Some(o@),
            None => spec_offer(*item, fallback_currency@) is None,
        },
{
    let leg0 = jfirst(jget(Some(item), "legs"));
    let airline: String = match jstr(jget(jfirst(jget(jget(leg0, "carriers"), "marketing")), "name")) {
        Some(s) => s.to_owned(),
        None => String::from_str("Unknown Airline"),
    };
    let flight_number: String = match jstr(jget(jfirst(jget(leg0, "segments")), "flightNumber")) {
        Some(s) => s.to_owned(),
        None => String::from_str(""),
    };
    let dep_o = jstr(jget(leg0, "departure"));
    let arr_o = jstr(jget(leg0, "arrival"));
    let duration: String = match ju64(jget(leg0, "durationInMinutes")) {
        Some(m) => duration_text(m),
        None => match (dep_o, arr_o) {
            (Some(d), Some(a)) => match duration_minutes(d, a) {
                Some(m) => duration_text(m),
                None => duration_text(0),
            },
            _ => String::from_str("Unknown duration"),
        },
    };
    let departure: String = match dep_o {
        Some(s) => s.to_owned(),
        None => String::from_str(""),
    };
    let arrival: String = match arr_o {
        Some(s) => s.to_owned(),
        None => String::from_str(""),
    };
    let stops: u64 = match ju64(jget(leg0, "stopCount")) {
        Some(v) => v,
        None => match jget(leg0, "segments") {
            Some(j) => match j.elems() {
                Some(a) => if a.len() >= 1 {
                    (a.len() - 1) as u64
                } else {
                    0
                },
                None => 0,
            },
            None => 0,
        },
    };
    let price: i64 = match jhundredths(
        jget(jget(jfirst(jget(Some(item), "pricingOptions")), "price"), "amount"),
    ) {
        Some(v) => v,
        None => match jhundredths(jget(jget(Some(item), "price"), "raw")) {
            Some(v) => v,
            None => 0,
        },
    };
    let currency: String = match jstr(
        jget(jget(jfirst(jget(Some(item), "pricingOptions")), "price"), "currencyCode"),
    ) {
        Some(c) => c.to_owned(),
        None => match jstr(jget(jget(Some(item), "price"), "currency")) {
            Some(c) => c.to_owned(),
            None => fallback_currency.to_owned(),
        },
    };
    proof {
        assert(price as int == s_price(*item));
        assert(currency@ == s_currency(*item, fallback_currency@));
        assert(duration@ == s_duration(*item));
        assert(stops as int == s_stops(*item));
    }
    if price > 0 {
        Some(
            FlightOption {
                airline,
                flight_number,
                departure,
                arrival,
                duration,
                stops,
                price_hundredths: price,
                currency,
            },
        )
    } else {
        None
    }
}

/// Law: an offer that exposes no currency code of its own, by either
/// representation, is rendered in the caller-requested currency.
pub proof fn lemma_currency_fallback(item: Json, fallback: Seq<char>)
    requires
        ospec_str(
            ospec_get(
                ospec_get(ospec_first(ospec_get(Some(item), "pricingOptions"@)), "price"@),
                "currencyCode"@,
            ),
        ) is None,
        ospec_str(ospec_get(ospec_get(Some(item), "price"@), "currency"@)) is None,
    ensures
        s_currency(item, fallback) == fallback,
        spec_offer(item, fallback) matches Some(m) ==> m.currency == fallback,
{
}

/// The items of one bucket, or nothing.
pub open spec fn items_of_bucket(b: Json) -> Seq<Json> {
    match spec_get(b, "items"@) {
        Some(j) => match spec_elems(j) {
            Some(a) => a,
            None => Seq::empty(),
        },
        None => Seq::empty(),
    }
}

/// The bucket list of the itinerary container, or nothing.
pub open spec fn spec_bucket_list(itins: Json) -> Seq<Json> {
    match spec_get(itins, "buckets"@) {
        Some(j) => match spec_elems(j) {
            Some(a) => a,
            None => Seq::empty(),
        },
        None => Seq::empty(),
    }
}

/// The surviving offers of an item list, in upstream order.
pub open spec fn offers_of_items(items: Seq<Json>, cur: Seq<char>) -> Seq<OptionModel>
    decreases items.len(),
{
    if items.len() == 0 {
        Seq::empty()
    } else {
        (match spec_offer(items[0], cur) {
            Some(m) => seq![m],
            None => Seq::<OptionModel>::empty(),
        }) + offers_of_items(items.drop_first(), cur)
    }
}

/// The surviving offers of a bucket list, in upstream order.
pub open spec fn offers_of_buckets(buckets: Seq<Json>, cur: Seq<char>) -> Seq<OptionModel>
    decreases buckets.len(),
{
    if buckets.len() == 0 {
        Seq::empty()
    } else {
        offers_of_items(items_of_bucket(buckets[0]), cur) + offers_of_buckets(
            buckets.drop_first(),
            cur,
        )
    }
}

/// Every surviving offer of the itinerary container, in upstream order.
pub open spec fn spec_all_offers(itins: Json, cur: Seq<char>) -> Seq<OptionModel> {
    offers_of_buckets(spec_bucket_list(itins), cur)
}

/// The selection: the first five surviving offers, in upstream order.
/// No re-sorting is performed.
pub open spec fn spec_selected(itins: Json, cur: Seq<char>) -> Seq<OptionModel> {
    if spec_all_offers(itins, cur).len() <= 5 {
        spec_all_offers(itins, cur)
    } else {
        spec_all_offers(itins, cur).take(5)
    }
}

/// The models of a sequence of options.
pub open spec fn models(s: Seq<FlightOption>) -> Seq<OptionModel> {
    Seq::new(s.len(), |i: int| s[i]@)
}

proof fn lemma_offers_of_items_push(items: Seq<Json>, x: Json, cur: Seq<char>)
    ensures
        offers_of_items(items.push(x), cur) == offers_of_items(items, cur) + (match spec_offer(
            x,
            cur,
        ) {
            Some(m) => seq![m],
            None => Seq::<OptionModel>::empty(),
        }),
    decreases items.len(),
{
    let chunk = (match spec_offer(x, cur) {
        Some(m) => seq![m],
        None => Seq::<OptionModel>::empty(),
    });
    if items.len() == 0 {
        assert(items.push(x)[0] == x);
        assert(items.push(x).drop_first() =~= Seq::<Json>::empty());
        assert(offers_of_items(Seq::<Json>::empty(), cur) == Seq::<OptionModel>::empty());
        assert(items =~= Seq::<Json>::empty());
        assert(offers_of_items(items.push(x), cur) == chunk + Seq::<OptionModel>::empty());
        assert(offers_of_items(items.push(x), cur) =~= offers_of_items(items, cur) + chunk);
    } else {
        assert(items.push(x).drop_first() =~= items.drop_first().push(x));
        lemma_offers_of_items_push(items.drop_first(), x, cur);
        assert(items.push(x)[0] == items[0]);
        let c0 = (match spec_offer(items[0], cur) {
            Some(m) => seq![m],
            None => Seq::<OptionModel>::empty(),
        });
        let rest = offers_of_items(items.drop_first(), cur);
        assert(offers_of_items(items.push(x), cur) == c0 + (rest + chunk));
        assert(offers_of_items(items, cur) == c0 + rest);
        assert(c0 + (rest + chunk) =~= (c0 + rest) + chunk);
    }
}

proof fn lemma_offers_of_buckets_push(buckets: Seq<Json>, x: Json, cur: Seq<char>)
    ensures
        offers_of_buckets(buckets.push(x), cur) == offers_of_buckets(buckets, cur)
            + offers_of_items(items_of_bucket(x), cur),
    decreases buckets.len(),
{
    if buckets.len() == 0 {
        assert(buckets.push(x)[0] == x);
        assert(buckets.push(x).drop_first() =~= Seq::<Json>::empty());
        assert(offers_of_buckets(Seq::<Json>::empty(), cur) == Seq::<OptionModel>::empty());
        assert(buckets =~= Seq::<Json>::empty());
        assert(offers_of_buckets(buckets.push(x), cur) == offers_of_items(items_of_bucket(x), cur)
            + Seq::<OptionModel>::empty());
        assert(offers_of_buckets(buckets.push(x), cur) =~= offers_of_buckets(buckets, cur)
            + offers_of_items(items_of_bucket(x), cur));
    } else {
        assert(buckets.push(x).drop_first() =~= buckets.drop_first().push(x));
        lemma_offers_of_buckets_push(buckets.drop_first(), x, cur);
        assert(buckets.push(x)[0] == buckets[0]);
        let c0 = offers_of_items(items_of_bucket(buckets[0]), cur);
        let rest = offers_of_buckets(buckets.drop_first(), cur);
        let chunk = offers_of_items(items_of_bucket(x), cur);
        assert(offers_of_buckets(buckets.push(x), cur) == c0 + (rest + chunk));
        assert(offers_of_buckets(buckets, cur) == c0 + rest);
        assert(c0 + (rest + chunk) =~= (c0 + rest) + chunk);
    }
}

/// Walks the itinerary container and returns the selection: at most
/// five normalized options, each with a strictly positive price, in
/// upstream order.
#[verifier::loop_isolation(false)]
#[verifier::rlimit(100)]
pub fn collect_options(itins: &Json, fallback_currency: &str) -> (v: Vec<FlightOption>)
    ensures
        models(v@) == spec_selected(*itins, fallback_currency@),
        v@.len() <= 5,
{
    let ghost cur = fallback_currency@;
    let mut out: Vec<FlightOption> = Vec::new();
    assert(models(out@) =~= Seq::<OptionModel>::empty());
    match itins.get("buckets") {
        Some(j) => match j.elems() {
            Some(bs) => {
                let n = bs.len();
                let mut bi: usize = 0;
                assert(bs@.take(0) =~= Seq::<Json>::empty());
                while bi < n
                    invariant
                        n == bs@.len(),
                        bi <= n,
                        models(out@) == offers_of_buckets(bs@.take(bi as int), cur),
                    decreases n - bi,
                {
                    let b = &bs[bi];
                    match b.get("items") {
                        Some(itj) => match itj.elems() {
                            Some(its) => {
                                let m = its.len();
                                let mut ii: usize = 0;
                                assert(its@.take(0) =~= Seq::<Json>::empty());
                                assert(offers_of_items(its@.take(0), cur) =~= Seq::<
                                    OptionModel,
                                >::empty());
                                assert(models(out@) =~= offers_of_buckets(bs@.take(bi as int), cur)
                                    + offers_of_items(its@.take(0), cur));
                                while ii < m
                                    invariant
                                        m == its@.len(),
                                        ii <= m,
                                        models(out@) == offers_of_buckets(
                                            bs@.take(bi as int),
                                            cur,
                                        ) + offers_of_items(its@.take(ii as int), cur),
                                    decreases m - ii,
                                {
                                    let item = &its[ii];
                                    proof {
                                        lemma_offers_of_items_push(
                                            its@.take(ii as int),
                                            its@[ii as int],
                                            cur,
                                        );
                                        assert(its@.take(ii as int + 1) =~= its@.take(
                                            ii as int,
                                        ).push(its@[ii as int]));
                                    }
                                    match extract_option(item, fallback_currency) {
                                        Some(o) => {
                                            proof {
                                                assert(models(out@.push(o)) =~= models(out@)
                                                    + seq![o@]);
                                            }
                                            out.push(o);
                                            assert(models(out@) =~= offers_of_buckets(
                                                bs@.take(bi as int),
                                                cur,
                                            ) + offers_of_items(its@.take(ii as int + 1), cur));
                                        },
                                        None => {
                                            assert(models(out@) =~= offers_of_buckets(
                                                bs@.take(bi as int),
                                                cur,
                                            ) + offers_of_items(its@.take(ii as int + 1), cur));
                                        },
                                    }
                                    ii += 1;
                                }
                                proof {
                                    assert(its@.take(m as int) =~= its@);
                                    assert(items_of_bucket(bs@[bi as int]) == its@);
                                    lemma_offers_of_buckets_push(
                                        bs@.take(bi as int),
                                        bs@[bi as int],
                                        cur,
                                    );
                                    assert(bs@.take(bi as int + 1) =~= bs@.take(bi as int).push(
                                        bs@[bi as int],
                                    ));
                                }
                            },
                            None => {
                                proof {
                                    assert(items_of_bucket(bs@[bi as int]) =~= Seq::<Json>::empty());
                                    assert(offers_of_items(items_of_bucket(bs@[bi as int]), cur)
                                        =~= Seq::<OptionModel>::empty());
                                    lemma_offers_of_buckets_push(
                                        bs@.take(bi as int),
                                        bs@[bi as int],
                                        cur,
                                    );
                                    assert(bs@.take(bi as int + 1) =~= bs@.take(bi as int).push(
                                        bs@[bi as int],
                                    ));
                                    assert(models(out@) =~= offers_of_buckets(
                                        bs@.take(bi as int + 1),
                                        cur,
                                    ));
                                }
                            },
                        },
                        None => {
                            proof {
                                assert(items_of_bucket(bs@[bi as int]) =~= Seq::<Json>::empty());
                                assert(offers_of_items(items_of_bucket(bs@[bi as int]), cur) =~=
                                    Seq::<OptionModel>::empty());
                                lemma_offers_of_buckets_push(
                                    bs@.take(bi as int),
                                    bs@[bi as int],
                                    cur,
                                );
                                assert(bs@.take(bi as int + 1) =~= bs@.take(bi as int).push(
                                    bs@[bi as int],
                                ));
                                assert(models(out@) =~= offers_of_buckets(
                                    bs@.take(bi as int + 1),
                                    cur,
                                ));
                            }
                        },
                    }
                    bi += 1;
                }
                assert(bs@.take(n as int) =~= bs@);
            },
            None => {
                assert(spec_bucket_list(*itins) =~= Seq::<Json>::empty());
            },
        },
        None => {
            assert(spec_bucket_list(*itins) =~= Seq::<Json>::empty());
        },
    }
    assert(models(out@) == spec_all_offers(*itins, cur));
    if out.len() > 5 {
        let ghost before = out@;
        out.truncate(5);
        proof {
            assert(out@ =~= before.subrange(0, 5));
            assert(models(out@) =~= models(before).take(5));
        }
    }
    out
}

/// Law: every offer that survives extraction carries a strictly
/// positive resolved price.
pub proof fn lemma_offers_of_items_positive(items: Seq<Json>, cur: Seq<char>)
    ensures
        forall|i: int|
            0 <= i < offers_of_items(items, cur).len() ==> offers_of_items(
                items,
                cur,
            )[i].price_hundredths > 0,
    decreases items.len(),
{
    if items.len() > 0 {
        lemma_offers_of_items_positive(items.drop_first(), cur);
        let c0 = (match spec_offer(items[0], cur) {
            Some(m) => seq![m],
            None => Seq::<OptionModel>::empty(),
        });
        let rest = offers_of_items(items.drop_first(), cur);
        assert(offers_of_items(items, cur) == c0 + rest);
        assert forall|i: int| 0 <= i < offers_of_items(items, cur).len() implies offers_of_items(
            items,
            cur,
        )[i].price_hundredths > 0 by {
            if i < c0.len() {
                assert(c0[i].price_hundredths > 0);
            } else {
                assert(offers_of_items(items, cur)[i] == rest[i - c0.len()]);
            }
        }
    }
}

pub proof fn lemma_offers_of_buckets_positive(buckets: Seq<Json>, cur: Seq<char>)
    ensures
        forall|i: int|
            0 <= i < offers_of_buckets(buckets, cur).len() ==> offers_of_buckets(
                buckets,
                cur,
            )[i].price_hundredths > 0,
    decreases buckets.len(),
{
    if buckets.len() > 0 {
        lemma_offers_of_items_positive(items_of_bucket(buckets[0]), cur);
        lemma_offers_of_buckets_positive(buckets.drop_first(), cur);
        let c0 = offers_of_items(items_of_bucket(buckets[0]), cur);
        let rest = offers_of_buckets(buckets.drop_first(), cur);
        assert(offers_of_buckets(buckets, cur) == c0 + rest);
        assert forall|i: int| 0 <= i < offers_of_buckets(buckets, cur).len() implies
            offers_of_buckets(buckets, cur)[i].price_hundredths > 0 by {
            if i < c0.len() {
                assert(c0[i].price_hundredths > 0);
            } else {
                assert(offers_of_buckets(buckets, cur)[i] == rest[i - c0.len()]);
            }
        }
    }
}

/// Law: whatever the response holds, the selection is at most five
/// offers, a prefix of the surviving offers in upstream order, and each
/// has a strictly positive price.
pub proof fn lemma_selection_sound(itins: Json, cur: Seq<char>)
    ensures
        spec_selected(itins, cur).len() <= 5,
        forall|i: int|
            0 <= i < spec_selected(itins, cur).len() ==> spec_selected(itins, cur)[i]
                == spec_all_offers(itins, cur)[i],
        forall|i: int|
            0 <= i < spec_selected(itins, cur).len() ==> spec_selected(
                itins,
                cur,
            )[i].price_hundredths > 0,
{
    lemma_offers_of_buckets_positive(spec_bucket_list(itins), cur);
}

} // verus!
