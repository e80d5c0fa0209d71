//! Rendering the selection as the compact text report handed back to
//! the caller: a fixed sentence for an empty selection, otherwise a
//! numbered block per option with a fixed field order.

use vstd::prelude::*;
use vstd::string::StrSliceExecFns;
use vstd::string::StringExecFns;
use crate::text::{dec_str, pad2, push_u64, push_pad2};
use crate::flight_search_tool::{FlightOption, OptionModel};
use crate::extract::models;

verus! {

/// A two-decimal price rendering: whole units, a dot, two digits.
pub open spec fn spec_price_text(h: int) -> Seq<char> {
    dec_str(h / 100) + "."@ + pad2(h % 100)
}

/// Renders a non-negative amount in hundredths to two decimal places.
pub fn price_text(h: i64) -> (r: String)
    requires
        h >= 0,
    ensures
        r@ == spec_price_text(h as int),
{
    let mut s = crate::text::u64_to_string((h as u64) / 100);
    s.append(".");
    push_pad2(&mut s, (h as u64) % 100);
    proof {
        reveal_strlit(".");
        assert(s@ =~= spec_price_text(h as int));
    }
    s
}

/// `Non-stop` for zero, `n stop(s)` otherwise.
pub open spec fn spec_stops_text(n: int) -> Seq<char> {
    if n == 0 {
        "Non-stop"@
    } else {
        dec_str(n) + " stop(s)"@
    }
}

pub fn stops_text(n: u64) -> (r: String)
    ensures
        r@ == spec_stops_text(n as int),
{
    if n == 0 {
        String::from_str("Non-stop")
    } else {
        let mut s = crate::text::u64_to_string(n);
        s.append(" stop(s)");
        assert(s@ =~= spec_stops_text(n as int));
        s
    }
}

/// One numbered report block.
pub open spec fn spec_block(idx: int, o: OptionModel) -> Seq<char> {
    dec_str(idx) + ". **Airline**: "@ + o.airline + "\n   - **Flight Number**: "@
        + o.flight_number + "\n   - **Departure**: "@ + o.departure + "\n   - **Arrival**: "@
        + o.arrival + "\n   - **Duration**: "@ + o.duration + "\n   - **Stops**: "@
        + spec_stops_text(o.stops) + "\n   - **Price**: "@ + spec_price_text(o.price_hundredths)
        + " "@ + o.currency + "\n"@
}

/// The blocks of a selection, numbered from `idx`.
pub open spec fn spec_blocks(opts: Seq<OptionModel>, idx: int) -> Seq<char>
    decreases opts.len(),
{
    if opts.len() == 0 {
        Seq::empty()
    } else {
        spec_block(idx, opts[0]) + spec_blocks(opts.drop_first(), idx + 1)
    }
}

/// The full report: the fixed sentence for an empty selection, else a
/// header and one block per option, numbered from one.
pub open spec fn spec_report(opts: Seq<OptionModel>) -> Seq<char> {
    if opts.len() == 0 {
        "No flights found for the given criteria."@
    } else {
        "Here are some flight options:\n\n"@ + spec_blocks(opts, 1)
    }
}

proof fn lemma_blocks_push(opts: Seq<OptionModel>, x: OptionModel, idx: int)
    ensures
        spec_blocks(opts.push(x), idx) == spec_blocks(opts, idx) + spec_block(
            idx + opts.len(),
            x,
        ),
    decreases opts.len(),
{
    if opts.len() == 0 {
        assert(opts.push(x)[0] == x);
        assert(opts.push(x).drop_first() =~= Seq::<OptionModel>::empty());
        assert(spec_blocks(Seq::<OptionModel>::empty(), idx + 1) == Seq::<char>::empty());
        assert(spec_blocks(opts, idx) == Seq::<char>::empty());
        assert(spec_blocks(opts.push(x), idx) =~= spec_blocks(opts, idx) + spec_block(
            idx + opts.len(),
            x,
        ));
    } else {
        assert(opts.push(x).drop_first() =~= opts.drop_first().push(x));
        lemma_blocks_push(opts.drop_first(), x, idx + 1);
        assert(opts.push(x)[0] == opts[0]);
        let c0 = spec_block(idx, opts[0]);
        let rest = spec_blocks(opts.drop_first(), idx + 1);
        let chunk = spec_block(idx + opts.len(), x);
        assert(spec_blocks(opts.push(x), idx) == c0 + (rest + chunk));
        assert(spec_blocks(opts, idx) == c0 + rest);
        assert(c0 + (rest + chunk) =~= (c0 + rest) + chunk);
    }
}

/// Appends one block to the report being built.
#[verifier::rlimit(60)]
fn push_block(out: &mut String, idx: u64, o: &FlightOption)
    requires
        o.price_hundredths >= 0,
    ensures
        final(out)@ == old(out)@ + spec_block(idx as int, o@),
{
    push_u64(out, idx);
    out.append(". **Airline**: ");
    out.append(o.airline.as_str());
    out.append("\n   - **Flight Number**: ");
    out.append(o.flight_number.as_str());
    out.append("\n   - **Departure**: ");
    out.append(o.departure.as_str());
    out.append("\n   - **Arrival**: ");
    out.append(o.arrival.as_str());
    out.append("\n   - **Duration**: ");
    out.append(o.duration.as_str());
    out.append("\n   - **Stops**: ");
    let st = stops_text(o.stops);
    out.append(st.as_str());
    out.append("\n   - **Price**: ");
    let pt = price_text(o.price_hundredths);
    out.append(pt.as_str());
    out.append(" ");
    out.append(o.currency.as_str());
    out.append("\n");
    assert(out@ =~= old(out)@ + spec_block(idx as int, o@));
}

/// Renders the selection. Every option handed in carries a non-negative
/// price; the pipeline only ever passes strictly positive ones.
#[verifier::loop_isolation(false)]
pub fn render_report(options: &Vec<FlightOption>) -> (r: String)
    requires
        forall|i: int| 0 <= i < options@.len() ==> options@[i].price_hundredths >= 0,
        options@.len() <= 5,
    ensures
        r@ == spec_report(models(options@)),
{
    if options.len() == 0 {
        assert(models(options@) =~= Seq::<OptionModel>::empty());
        return String::from_str("No flights found for the given criteria.");
    }
    let mut out = String::from_str("Here are some flight options:\n\n");
    let ghost header = "Here are some flight options:\n\n"@;
    let n = options.len();
    let mut i: usize = 0;
    assert(models(options@).take(0) =~= Seq::<OptionModel>::empty());
    assert(spec_blocks(Seq::<OptionModel>::empty(), 1) == Seq::<char>::empty());
    assert(out@ =~= header + spec_blocks(models(options@).take(0), 1));
    while i < n
        invariant
            n == options@.len(),
            i <= n,
            out@ == header + spec_blocks(models(options@).take(i as int), 1),
        decreases n - i,
    {
        proof {
            lemma_blocks_push(models(options@).take(i as int), models(options@)[i as int], 1);
            assert(models(options@).take(i as int + 1) =~= models(options@).take(i as int).push(
                models(options@)[i as int],
            ));
        }
        push_block(&mut out, (i + 1) as u64, &options[i]);
        assert(out@ =~= header + spec_blocks(models(options@).take(i as int + 1), 1));
        i += 1;
    }
    assert(models(options@).take(n as int) =~= models(options@));
    out
}

} // verus!
