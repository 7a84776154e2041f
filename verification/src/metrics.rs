//! The metric store: named integer gauges held in an explicit registry,
//! updated in place from decoded observations and serialized on demand into
//! the line-oriented text exposition format that metrics scrapers read.

use vstd::prelude::*;
use vstd::string::StringExecFns;

use crate::observation::AqiData;
use crate::observation::AqiError;
use crate::text::contains_seq;
use crate::text::dec_i64;
use crate::text::lemma_contains_seq_concat_left;
use crate::text::lemma_contains_seq_concat_right;
use crate::text::lemma_contains_seq_self;
use crate::text::spec_dec_signed;
use crate::text::str_eq;

verus! {

/// A single named integer gauge: a mutable value exported for scraping.
pub struct Gauge {
    pub name: String,
    pub help: String,
    pub value: i64,
}

/// `g` is a gauge with the given name, help text and value.
pub open spec fn is_gauge(g: Gauge, name: Seq<char>, help: Seq<char>, value: int) -> bool {
    g.name@ == name && g.help@ == help && g.value == value
}

impl Gauge {
    /// A fresh gauge starts at zero.
    pub fn new(name: &str, help: &str) -> (g: Gauge)
        ensures
            is_gauge(g, name@, help@, 0),
    {
        Gauge { name: name.to_owned(), help: help.to_owned(), value: 0 }
    }
}

pub open spec fn o3_gauge_name() -> Seq<char> {
    "airnow_o3_aqi_values"@
}

pub open spec fn pm10_gauge_name() -> Seq<char> {
    "airnow_pm10_aqi_values"@
}

pub open spec fn pm25_gauge_name() -> Seq<char> {
    "airnow_pm25_aqi_values"@
}

pub open spec fn o3_gauge_help() -> Seq<char> {
    "Airnow O3 AQI"@
}

pub open spec fn pm10_gauge_help() -> Seq<char> {
    "Airnow PM10 AQI values"@
}

pub open spec fn pm25_gauge_help() -> Seq<char> {
    "Airnow PM25 AQI values"@
}

/// Some gauge in `gs` carries this name.
pub open spec fn spec_has_gauge(gs: Seq<Gauge>, name: Seq<char>) -> bool {
    exists|i: int| 0 <= i < gs.len() && gs[i].name@ == name
}

/// The value of the gauge in `gs` carrying this name (any of them, where the
/// name is not unique).
pub open spec fn spec_gauge_value(gs: Seq<Gauge>, name: Seq<char>) -> int {
    gs[choose|i: int| 0 <= i < gs.len() && gs[i].name@ == name].value as int
}

/// `gs` with every gauge named `name` overwritten to hold `v`, and every
/// other gauge untouched.
pub open spec fn spec_set_gauge(gs: Seq<Gauge>, name: Seq<char>, v: i64) -> Seq<Gauge> {
    Seq::new(
        gs.len(),
        |i: int|
            if gs[i].name@ == name {
                Gauge { name: gs[i].name, help: gs[i].help, value: v }
            } else {
                gs[i]
            },
    )
}

/// The registry of gauges that one process exports.
pub struct Registry {
    pub gauges: Vec<Gauge>,
}

impl Registry {
    /// Well-formed: no two registered gauges share a name.
    pub open spec fn wf(&self) -> bool {
        forall|i: int, j: int|
            0 <= i < j < self.gauges@.len() ==> self.gauges@[i].name@ != self.gauges@[j].name@
    }

    pub fn new() -> (r: Registry)
        ensures
            r.wf(),
            r.gauges@.len() == 0,
    {
        Registry { gauges: Vec::new() }
    }

    /// Adds a gauge, refusing a second gauge of an already registered name.
    pub fn register(&mut self, g: Gauge) -> (r: Result<(), AqiError>)
        requires
            old(self).wf(),
        ensures
            final(self).wf(),
            r is Ok <==> !spec_has_gauge(old(self).gauges@, g.name@),
            r is Ok ==> final(self).gauges@ == old(self).gauges@.push(g),
            r is Err ==> *final(self) == *old(self),
            r matches Err(e) ==> e.spec_message()
                == "duplicate metrics collector registration attempted"@,
    {
        let mut i: usize = 0;
        while i < self.gauges.len()
            invariant
                i <= self.gauges@.len(),
                *self == *old(self),
                old(self).wf(),
                forall|j: int| 0 <= j < i ==> self.gauges@[j].name@ != g.name@,
            decreases self.gauges@.len() - i,
        {
            if str_eq(self.gauges[i].name.as_str(), g.name.as_str()) {
                return Err(AqiError::new("duplicate metrics collector registration attempted"));
            }
            i = i + 1;
        }
        self.gauges.push(g);
        Ok(())
    }

    /// Overwrites the value of every gauge of this name; a name that no
    /// gauge carries changes nothing.
    pub fn set_gauge(&mut self, name: &str, v: i64)
        ensures
            final(self).gauges@ == spec_set_gauge(old(self).gauges@, name@, v),
            old(self).wf() ==> final(self).wf(),
    {
        let ghost old_gs = self.gauges@;
        let mut out: Vec<Gauge> = Vec::new();
        while self.gauges.len() > 0
            invariant
                out@.len() + self.gauges@.len() == old_gs.len(),
                self.gauges@ =~= old_gs.skip(out@.len() as int),
                out@ =~= spec_set_gauge(old_gs, name@, v).take(out@.len() as int),
            decreases self.gauges@.len(),
        {
            let ghost k: int = out@.len() as int;
            let g = self.gauges.remove(0);
            proof {
                assert(g == old_gs[k]);
            }
            if str_eq(g.name.as_str(), name) {
                out.push(Gauge { name: g.name, help: g.help, value: v });
            } else {
                out.push(g);
            }
            proof {
                assert(out@ =~= spec_set_gauge(old_gs, name@, v).take(k + 1));
            }
        }
        self.gauges = out;
        proof {
            assert(self.gauges@ =~= spec_set_gauge(old_gs, name@, v));
            assert forall|i: int, j: int|
                0 <= i < j < self.gauges@.len() implies self.gauges@[i].name@ == old_gs[i].name@
                && self.gauges@[j].name@ == old_gs[j].name@ by {}
        }
    }

    /// Serializes every registered gauge, in registration order, into the
    /// text exposition format.
    pub fn encode_metrics(&self) -> (r: String)
        ensures
            r@ == spec_exposition(self.gauges@),
    {
        let mut out = String::new();
        let mut i: usize = 0;
        while i < self.gauges.len()
            invariant
                i <= self.gauges@.len(),
                out@ == spec_exposition(self.gauges@.take(i as int)),
            decreases self.gauges@.len() - i,
        {
            out.append(encode_gauge(&self.gauges[i]).as_str());
            proof {
                let gs = self.gauges@;
                assert(gs.take(i + 1).drop_last() =~= gs.take(i as int));
                assert(gs.take(i + 1).last() == gs[i as int]);
            }
            i = i + 1;
        }
        proof {
            assert(self.gauges@.take(self.gauges@.len() as int) =~= self.gauges@);
        }
        out
    }
}

/// One gauge's section of the exposition text: a help comment, a type
/// comment, and the sample line.
pub open spec fn spec_gauge_exposition(g: Gauge) -> Seq<char> {
    "# HELP "@ + g.name@ + " "@ + g.help@ + "\n# TYPE "@ + g.name@ + " gauge\n"@
        + spec_gauge_sample(g)
}

/// One gauge's sample line: its name, a space, its value, a newline.
pub open spec fn spec_gauge_sample(g: Gauge) -> Seq<char> {
    g.name@ + " "@ + spec_dec_signed(g.value as int) + "\n"@
}

/// The whole exposition text: one section per gauge, in order.
pub open spec fn spec_exposition(gs: Seq<Gauge>) -> Seq<char>
    decreases gs.len(),
{
    if gs.len() == 0 {
        Seq::empty()
    } else {
        spec_exposition(gs.drop_last()) + spec_gauge_exposition(gs.last())
    }
}

fn encode_gauge(g: &Gauge) -> (r: String)
    ensures
        r@ == spec_gauge_exposition(*g),
{
    let mut out = String::from_str("# HELP ");
    out.append(g.name.as_str());
    out.append(" ");
    out.append(g.help.as_str());
    out.append("\n# TYPE ");
    out.append(g.name.as_str());
    out.append(" gauge\n");
    out.append(g.name.as_str());
    out.append(" ");
    out.append(dec_i64(g.value).as_str());
    out.append("\n");
    proof {
        assert(out@ =~= spec_gauge_exposition(*g));
    }
    out
}

/// Overwrites the ozone gauge with the given index value; never fails.
pub fn log_o3_metric(registry: &mut Registry, aqi: u32) -> (r: Result<(), AqiError>)
    ensures
        r is Ok,
        final(registry).gauges@ == spec_set_gauge(old(registry).gauges@, o3_gauge_name(), aqi as i64),
        old(registry).wf() ==> final(registry).wf(),
{
    registry.set_gauge("airnow_o3_aqi_values", aqi as i64);
    Ok(())
}

/// Overwrites the PM10 gauge with the given index value; never fails.
pub fn log_pm10_metric(registry: &mut Registry, aqi: u32) -> (r: Result<(), AqiError>)
    ensures
        r is Ok,
        final(registry).gauges@ == spec_set_gauge(old(registry).gauges@, pm10_gauge_name(), aqi as i64),
        old(registry).wf() ==> final(registry).wf(),
{
    registry.set_gauge("airnow_pm10_aqi_values", aqi as i64);
    Ok(())
}

/// Overwrites the PM2.5 gauge with the given index value; never fails.
/// The gauge is registered, but no decoding path routes an observation here.
pub fn log_pm25_metric(registry: &mut Registry, aqi: u32) -> (r: Result<(), AqiError>)
    ensures
        r is Ok,
        final(registry).gauges@ == spec_set_gauge(old(registry).gauges@, pm25_gauge_name(), aqi as i64),
        old(registry).wf() ==> final(registry).wf(),
{
    registry.set_gauge("airnow_pm25_aqi_values", aqi as i64);
    Ok(())
}

/// Registers the three air-quality gauges (ozone, PM10, PM2.5), each
/// starting at zero. Registration stops at the first name that is already
/// taken, leaving the gauges registered before it in place.
pub fn register_metrics(registry: &mut Registry) -> (r: Result<(), AqiError>)
    requires
        old(registry).wf(),
    ensures
        final(registry).wf(),
        r is Ok <==> (!spec_has_gauge(old(registry).gauges@, o3_gauge_name())
            && !spec_has_gauge(old(registry).gauges@, pm10_gauge_name()) && !spec_has_gauge(
            old(registry).gauges@,
            pm25_gauge_name(),
        )),
        final(registry).gauges@.len() >= old(registry).gauges@.len(),
        final(registry).gauges@.take(old(registry).gauges@.len() as int) == old(registry).gauges@,
        r matches Err(e) ==> e.spec_message()
            == "duplicate metrics collector registration attempted"@,
        r is Ok ==> final(registry).gauges@.len() == old(registry).gauges@.len() + 3
            && is_gauge(
            final(registry).gauges@[old(registry).gauges@.len() as int],
            o3_gauge_name(),
            o3_gauge_help(),
            0,
        )
            && is_gauge(
            final(registry).gauges@[old(registry).gauges@.len() as int + 1],
            pm10_gauge_name(),
            pm10_gauge_help(),
            0,
        )
            && is_gauge(
            final(registry).gauges@[old(registry).gauges@.len() as int + 2],
            pm25_gauge_name(),
            pm25_gauge_help(),
            0,
        ),
{
    let ghost gs0 = registry.gauges@;
    proof {
        reveal_strlit("airnow_o3_aqi_values");
        reveal_strlit("airnow_pm10_aqi_values");
        reveal_strlit("airnow_pm25_aqi_values");
        assert(o3_gauge_name().len() != pm10_gauge_name().len());
        assert(o3_gauge_name().len() != pm25_gauge_name().len());
        assert(pm10_gauge_name()[9] != pm25_gauge_name()[9]);
        assert(o3_gauge_name() != pm10_gauge_name());
        assert(o3_gauge_name() != pm25_gauge_name());
        assert(pm10_gauge_name() != pm25_gauge_name());
    }
    let o3 = Gauge::new("airnow_o3_aqi_values", "Airnow O3 AQI");
    if let Err(e) = registry.register(o3) {
        proof {
            assert(registry.gauges@.take(gs0.len() as int) =~= gs0);
        }
        return Err(e);
    }
    proof {
        lemma_has_gauge_push(gs0, registry.gauges@.last(), pm10_gauge_name());
        lemma_has_gauge_push(gs0, registry.gauges@.last(), pm25_gauge_name());
        assert(registry.gauges@.take(gs0.len() as int) =~= gs0);
    }
    let ghost gs1 = registry.gauges@;
    let pm10 = Gauge::new("airnow_pm10_aqi_values", "Airnow PM10 AQI values");
    if let Err(e) = registry.register(pm10) {
        return Err(e);
    }
    proof {
        lemma_has_gauge_push(gs1, registry.gauges@.last(), pm25_gauge_name());
        assert(registry.gauges@.take(gs0.len() as int) =~= gs0);
    }
    let pm25 = Gauge::new("airnow_pm25_aqi_values", "Airnow PM25 AQI values");
    if let Err(e) = registry.register(pm25) {
        return Err(e);
    }
    proof {
        assert(registry.gauges@.take(gs0.len() as int) =~= gs0);
    }
    Ok(())
}

/// Pushing a gauge adds exactly its own name to the registered names.
proof fn lemma_has_gauge_push(gs: Seq<Gauge>, g: Gauge, name: Seq<char>)
    ensures
        spec_has_gauge(gs.push(g), name) <==> (spec_has_gauge(gs, name) || g.name@ == name),
{
    if spec_has_gauge(gs, name) {
        let i: int = choose|i: int| 0 <= i < gs.len() && gs[i].name@ == name;
        assert(gs.push(g)[i].name@ == name);
    }
    if g.name@ == name {
        assert(gs.push(g)[gs.len() as int].name@ == name);
    }
    if spec_has_gauge(gs.push(g), name) && g.name@ != name {
        let i: int = choose|i: int| 0 <= i < gs.push(g).len() && gs.push(g)[i].name@ == name;
        assert(0 <= i < gs.len() && gs[i].name@ == name);
    }
}

/// The routing of one decoded observation into the metric store: an ozone
/// reading overwrites the ozone gauge, a PM10 reading the PM10 gauge, and a
/// reading of any other pollutant is silently dropped.
pub open spec fn spec_apply(gs: Seq<Gauge>, item: AqiData) -> Seq<Gauge> {
    if item.parameter_name@ == "O3"@ {
        spec_set_gauge(gs, o3_gauge_name(), item.aqi as i64)
    } else if item.parameter_name@ == "PM10"@ {
        spec_set_gauge(gs, pm10_gauge_name(), item.aqi as i64)
    } else {
        gs
    }
}

/// Routes one observation into the registry, exactly as `spec_apply`
/// describes. An unrecognized pollutant name leaves every gauge unchanged.
pub fn apply_observation(registry: &mut Registry, item: &AqiData)
    ensures
        final(registry).gauges@ == spec_apply(old(registry).gauges@, *item),
        item.parameter_name@ != "O3"@ && item.parameter_name@ != "PM10"@ ==> *final(registry)
            == *old(registry),
        old(registry).wf() ==> final(registry).wf(),
{
    if str_eq(item.parameter_name.as_str(), "O3") {
        let _ = log_o3_metric(registry, item.aqi);
    } else if str_eq(item.parameter_name.as_str(), "PM10") {
        let _ = log_pm10_metric(registry, item.aqi);
    }
}

/// The exposition text contains each registered gauge's sample line.
pub proof fn lemma_exposition_contains_sample(gs: Seq<Gauge>, i: int)
    requires
        0 <= i < gs.len(),
    ensures
        contains_seq(spec_exposition(gs), spec_gauge_sample(gs[i])),
    decreases gs.len(),
{
    if i == gs.len() - 1 {
        let g = gs.last();
        let prefix = "# HELP "@ + g.name@ + " "@ + g.help@ + "\n# TYPE "@ + g.name@ + " gauge\n"@;
        lemma_contains_seq_self(spec_gauge_sample(g));
        lemma_contains_seq_concat_right(prefix, spec_gauge_sample(g), spec_gauge_sample(g));
        lemma_contains_seq_concat_right(
            spec_exposition(gs.drop_last()),
            spec_gauge_exposition(g),
            spec_gauge_sample(g),
        );
    } else {
        lemma_exposition_contains_sample(gs.drop_last(), i);
        assert(gs.drop_last()[i] == gs[i]);
        lemma_contains_seq_concat_left(
            spec_exposition(gs.drop_last()),
            spec_gauge_exposition(gs.last()),
            spec_gauge_sample(gs[i]),
        );
    }
}

/// Law: overwriting the gauge named `name` with `v` makes that gauge's
/// exported value exactly `v`, whatever it held before, and the next
/// scrape's exposition text contains the sample line for `name` with `v`.
pub proof fn lemma_update_visible_on_scrape(gs: Seq<Gauge>, name: Seq<char>, v: i64, i: int)
    requires
        0 <= i < gs.len(),
        gs[i].name@ == name,
    ensures
        spec_set_gauge(gs, name, v)[i].value == v,
        spec_has_gauge(spec_set_gauge(gs, name, v), name),
        spec_gauge_value(spec_set_gauge(gs, name, v), name) == v,
        contains_seq(
            spec_exposition(spec_set_gauge(gs, name, v)),
            name + " "@ + spec_dec_signed(v as int) + "\n"@,
        ),
{
    let gs2 = spec_set_gauge(gs, name, v);
    assert(gs2[i].name@ == name);
    assert(spec_has_gauge(gs2, name));
    let j: int = choose|j: int| 0 <= j < gs2.len() && gs2[j].name@ == name;
    assert(gs2[j].value == v);
    lemma_exposition_contains_sample(gs2, i);
    assert(spec_gauge_sample(gs2[i]) == name + " "@ + spec_dec_signed(v as int) + "\n"@);
}

} // verus!
