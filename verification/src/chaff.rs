//! Cover-traffic planning. The generator periodically opens an overlay
//! stream to one of a small fixed list of popular destinations, sends a
//! minimal request, and closes. Its cadence: during the night hours
//! (02:00-06:59 UTC) it only rests; otherwise it visits a uniformly
//! random target and, after a successful visit, rests a uniformly random
//! 30 to 600 seconds, after a failed one a fixed 10 seconds. The
//! schedule depends only on the clock and fresh randomness, never on
//! real traffic, and the generator never carries a registry token.

use crate::clock::utc_hour;
use crate::entropy::random_u64;
use vstd::prelude::*;
use vstd::string::StringSliceAdditionalSpecFns;

verus! {

/// How many fixed destinations the generator rotates over.
pub const CHAFF_TARGET_COUNT: usize = 4;

/// Every chaff destination is a TLS port.
pub const CHAFF_TARGET_PORT: u16 = 443;

/// How many request personas (user-agent lines) exist.
pub const CHAFF_PERSONA_COUNT: usize = 2;

/// Rest this long when the night window silences the generator.
pub const NIGHT_REST_SECS: u64 = 1800;

/// Rest this long after a failed visit.
pub const FAILURE_REST_SECS: u64 = 10;

/// Bounds of the uniform rest after a successful visit.
pub const MIN_VISIT_REST_SECS: u64 = 30;

pub const MAX_VISIT_REST_SECS: u64 = 600;

/// The night window in which the generator only rests.
pub open spec fn night_hour(h: u8) -> bool {
    2 <= h <= 6
}

/// What the generator does next.
#[derive(Clone, Copy, Debug, PartialEq, Eq, Structural)]
pub enum ChaffStep {
    /// Sleep this many seconds without touching the overlay.
    Rest { secs: u64 },
    /// Open an overlay stream to the target with this index.
    Visit { target: usize, persona: usize },
}

/// The plan for given clock and randomness: rest through the night,
/// otherwise visit a uniformly chosen target under a uniformly chosen
/// persona.
pub open spec fn spec_plan(hour: u8, pick: u64) -> ChaffStep {
    if night_hour(hour) {
        ChaffStep::Rest { secs: NIGHT_REST_SECS }
    } else {
        ChaffStep::Visit {
            target: (pick % (CHAFF_TARGET_COUNT as u64)) as usize,
            persona: ((pick / (CHAFF_TARGET_COUNT as u64)) % (CHAFF_PERSONA_COUNT as u64)) as usize,
        }
    }
}

/// Decide the next chaff action from a given hour and random draw.
pub fn plan_from(hour: u8, pick: u64) -> (s: ChaffStep)
    ensures
        s == spec_plan(hour, pick),
{
    if hour >= 2 && hour <= 6 {
        ChaffStep::Rest { secs: NIGHT_REST_SECS }
    } else {
        ChaffStep::Visit {
            target: (pick % (CHAFF_TARGET_COUNT as u64)) as usize,
            persona: ((pick / (CHAFF_TARGET_COUNT as u64)) % (CHAFF_PERSONA_COUNT as u64)) as usize,
        }
    }
}

/// Decide the next chaff action from the clock and fresh randomness.
/// Whatever the clock or the generator returned, the plan is a night
/// rest or a visit to one of the fixed targets.
pub fn next_chaff_step() -> (s: ChaffStep)
    ensures
        s matches ChaffStep::Rest { secs } ==> secs == NIGHT_REST_SECS,
        s matches ChaffStep::Visit { target, persona } ==> target < CHAFF_TARGET_COUNT
            && persona < CHAFF_PERSONA_COUNT,
{
    let hour = utc_hour();
    let pick = random_u64();
    plan_from(hour, pick)
}

/// How long to rest after a visit: uniform 30 to 600 seconds on
/// success, a fixed short pause on failure. The rest never depends on
/// real traffic.
pub fn visit_rest_secs(visit_ok: bool, pick: u64) -> (d: u64)
    ensures
        visit_ok ==> d == MIN_VISIT_REST_SECS + pick % ((MAX_VISIT_REST_SECS
            - MIN_VISIT_REST_SECS + 1) as u64),
        visit_ok ==> MIN_VISIT_REST_SECS <= d <= MAX_VISIT_REST_SECS,
        !visit_ok ==> d == FAILURE_REST_SECS,
{
    if visit_ok {
        MIN_VISIT_REST_SECS + pick % (MAX_VISIT_REST_SECS - MIN_VISIT_REST_SECS + 1)
    } else {
        FAILURE_REST_SECS
    }
}

/// The fixed destination list.
pub open spec fn target_host_text(i: int) -> Seq<char> {
    if i == 0 {
        "www.bbc.com"@
    } else if i == 1 {
        "vimeo.com"@
    } else if i == 2 {
        "news.ycombinator.com"@
    } else {
        "github.com"@
    }
}

/// The chaff destination at a given index.
pub fn target_host(i: usize) -> (h: String)
    requires
        i < CHAFF_TARGET_COUNT,
    ensures
        h@ == target_host_text(i as int),
{
    if i == 0 {
        "www.bbc.com".to_owned()
    } else if i == 1 {
        "vimeo.com".to_owned()
    } else if i == 2 {
        "news.ycombinator.com".to_owned()
    } else {
        "github.com".to_owned()
    }
}

/// The persona (user-agent line) at a given index.
pub fn persona_line(j: usize) -> (u: String)
    requires
        j < CHAFF_PERSONA_COUNT,
    ensures
        u@ == persona_line_text(j as int),
{
    if j == 0 {
        "Mozilla/5.0 (Windows NT 10.0; Win64; x64) AppleWebKit/537.36 (KHTML, like Gecko) Chrome/120.0.0.0 Safari/537.36".to_owned()
    } else {
        "Mozilla/5.0 (Macintosh; Intel Mac OS X 10.15; rv:121.0) Gecko/20100101 Firefox/121.0".to_owned()
    }
}

pub open spec fn persona_line_text(j: int) -> Seq<char> {
    if j == 0 {
        "Mozilla/5.0 (Windows NT 10.0; Win64; x64) AppleWebKit/537.36 (KHTML, like Gecko) Chrome/120.0.0.0 Safari/537.36"@
    } else {
        "Mozilla/5.0 (Macintosh; Intel Mac OS X 10.15; rv:121.0) Gecko/20100101 Firefox/121.0"@
    }
}

/// The minimal fixed payload of a visit: a HEAD request that asks the
/// peer to close, byte for byte the concatenation of its parts.
pub fn head_request(host: &str, persona: &str) -> (r: Vec<u8>)
    ensures
        r@ == "HEAD / HTTP/1.1\r\nHost: ".spec_bytes() + host.spec_bytes()
            + "\r\nUser-Agent: ".spec_bytes() + persona.spec_bytes()
            + "\r\nConnection: close\r\n\r\n".spec_bytes(),
{
    let mut out: Vec<u8> = Vec::new();
    out.extend_from_slice("HEAD / HTTP/1.1\r\nHost: ".as_bytes());
    out.extend_from_slice(host.as_bytes());
    out.extend_from_slice("\r\nUser-Agent: ".as_bytes());
    out.extend_from_slice(persona.as_bytes());
    out.extend_from_slice("\r\nConnection: close\r\n\r\n".as_bytes());
    proof {
        assert(out@ =~= "HEAD / HTTP/1.1\r\nHost: ".spec_bytes() + host.spec_bytes()
            + "\r\nUser-Agent: ".spec_bytes() + persona.spec_bytes()
            + "\r\nConnection: close\r\n\r\n".spec_bytes());
    }
    out
}

} // verus!
