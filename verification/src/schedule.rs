//! Startup configuration and the pure half of the fetch cycle: the query
//! URL, the one-shot / continuous mode decision, the bind-address defaults,
//! and the routing of one decoded batch into the report and the gauges.

use vstd::prelude::*;
use vstd::string::StringExecFns;

use crate::metrics::Gauge;
use crate::metrics::Registry;
use crate::metrics::apply_observation;
use crate::metrics::spec_apply;
use crate::observation::AqiData;
use crate::report::render_report;
use crate::report::spec_report;

verus! {

/// The startup configuration, read once and held for the process lifetime:
/// the API key, the postal code, and the tri-state gauge-publication flag
/// (absent; present with no value; present with an explicit value).
pub struct Config {
    pub air_now_api_key: String,
    pub zip_code: String,
    pub prom_enabled: Option<Option<bool>>,
}

/// The two operating modes: one fetch and exit, or serve gauges forever
/// while a timer re-fetches.
#[derive(Clone, Copy, Debug, PartialEq, Eq, Structural)]
pub enum RunMode {
    OneShot,
    Continuous,
}

/// The gauge-publication flag is on exactly when it is present with no
/// value or with the explicit value true.
pub open spec fn spec_prom_enabled(flag: Option<Option<bool>>) -> bool {
    match flag {
        Some(None) => true,
        Some(Some(b)) => b,
        None => false,
    }
}

/// Picks the operating mode: continuous exactly when gauge publication is
/// on; with the flag absent or explicitly false, one fetch runs and the
/// process exits, and no server is started.
pub fn run_mode(flag: &Option<Option<bool>>) -> (m: RunMode)
    ensures
        m == RunMode::Continuous <==> spec_prom_enabled(*flag),
{
    match flag {
        Some(None) => RunMode::Continuous,
        Some(Some(true)) => RunMode::Continuous,
        _ => RunMode::OneShot,
    }
}

/// The query URL for the air-quality API: a JSON response for the
/// configured postal code within the fixed search radius, authenticated by
/// the configured key.
pub open spec fn spec_request_url(api_key: Seq<char>, zip_code: Seq<char>) -> Seq<char> {
    "http://www.airnowapi.org/aq/observation/zipCode/current/?format=application/json&zipCode="@
        + zip_code + "&distance=20&API_KEY="@ + api_key
}

pub fn build_request_url(config: &Config) -> (r: String)
    ensures
        r@ == spec_request_url(config.air_now_api_key@, config.zip_code@),
{
    let mut out = String::from_str(
        "http://www.airnowapi.org/aq/observation/zipCode/current/?format=application/json&zipCode=",
    );
    out.append(config.zip_code.as_str());
    out.append("&distance=20&API_KEY=");
    out.append(config.air_now_api_key.as_str());
    proof {
        assert(out@ =~= spec_request_url(config.air_now_api_key@, config.zip_code@));
    }
    out
}

/// The exporter's default bind address: all interfaces.
pub fn default_bind_ip() -> (r: (u8, u8, u8, u8))
    ensures
        r == (0u8, 0u8, 0u8, 0u8),
{
    (0, 0, 0, 0)
}

/// The address and port the exporter binds: the given ones, with all
/// interfaces and the conventional default port filled in where absent.
pub fn bind_address(ip: Option<(u8, u8, u8, u8)>, port: Option<u16>) -> (r: (
    (u8, u8, u8, u8),
    u16,
))
    ensures
        r.0 == match ip {
            Some(v) => v,
            None => (0u8, 0u8, 0u8, 0u8),
        },
        r.1 == match port {
            Some(p) => p,
            None => 3030u16,
        },
{
    let a = match ip {
        Some(v) => v,
        None => default_bind_ip(),
    };
    let p = match port {
        Some(p) => p,
        None => 3030,
    };
    (a, p)
}

/// A whole decoded batch routed into the gauges, first record first, so a
/// later reading of the same pollutant overwrites an earlier one.
pub open spec fn spec_apply_batch(gs: Seq<Gauge>, items: Seq<AqiData>) -> Seq<Gauge>
    decreases items.len(),
{
    if items.len() == 0 {
        gs
    } else {
        spec_apply(spec_apply_batch(gs, items.drop_last()), items.last())
    }
}

/// The pure half of one fetch cycle: renders the table for the decoded
/// batch and, where gauge publication is on, routes every observation into
/// the registry. With publication off the registry is untouched.
pub fn process_batch(registry: &mut Registry, items: &Vec<AqiData>, with_prom: bool) -> (r: String)
    ensures
        r@ == spec_report(items@),
        with_prom ==> final(registry).gauges@ == spec_apply_batch(
            old(registry).gauges@,
            items@,
        ),
        !with_prom ==> *final(registry) == *old(registry),
        old(registry).wf() ==> final(registry).wf(),
{
    let out = render_report(items);
    if with_prom {
        let ghost gs0 = registry.gauges@;
        let ghost wf0 = old(registry).wf();
        let mut i: usize = 0;
        while i < items.len()
            invariant
                i <= items@.len(),
                registry.gauges@ == spec_apply_batch(gs0, items@.take(i as int)),
                wf0 == old(registry).wf(),
                gs0 == old(registry).gauges@,
                wf0 ==> registry.wf(),
            decreases items@.len() - i,
        {
            apply_observation(registry, &items[i]);
            proof {
                let s = items@;
                assert(s.take(i + 1).drop_last() =~= s.take(i as int));
                assert(s.take(i + 1).last() == s[i as int]);
            }
            i = i + 1;
        }
        proof {
            assert(items@.take(items@.len() as int) =~= items@);
        }
    }
    out
}

} // verus!
