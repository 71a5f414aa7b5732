//! The envelope around one drained metric vector.
//!
//! An envelope joins the metrics with the client's identity, a millisecond
//! timestamp in the service's `/Date(<ms>)/` shape, the stable stream id,
//! and the invariant version the service expects.

use crate::digits::{lemma_dec_digits, spec_dec, spec_is_dec_digit, u64_to_dec};
use crate::metrics::Metric;
use crate::resource::ResourceData;
use vstd::prelude::*;
use vstd::string::StringExecFns;

verus! {

/// One live-metrics message as sent to the service.
pub struct Envelope {
    pub metrics: Vec<Metric>,
    pub invariant_version: u64,
    pub timestamp: String,
    pub version: Option<String>,
    pub stream_id: String,
    pub machine_name: String,
    pub instance: String,
    pub role_name: Option<String>,
}

/// The service's timestamp shape: `/Date(` + decimal milliseconds + `)/`.
pub open spec fn spec_timestamp(ms: nat) -> Seq<char> {
    "/Date("@ + spec_dec(ms) + ")/"@
}

/// Render `now_ms` in the timestamp shape.
pub fn format_timestamp(now_ms: u64) -> (r: String)
    ensures
        r@ == spec_timestamp(now_ms as nat),
{
    let mut s = String::from_str("/Date(");
    let digits = u64_to_dec(now_ms);
    s.append(digits.as_str());
    s.append(")/");
    s
}

/// Every timestamp opens with `/Date(`, closes with `)/`, and holds only
/// decimal digits in between, at least one of them.
pub proof fn lemma_timestamp_format(ms: nat)
    ensures
        ({
            let t = spec_timestamp(ms);
            &&& t.len() >= 9
            &&& t.subrange(0, 6) =~= "/Date("@
            &&& t.subrange(t.len() - 2, t.len() as int) =~= ")/"@
            &&& forall|i: int| 6 <= i < t.len() - 2 ==> spec_is_dec_digit(t[i])
        }),
{
    reveal_strlit("/Date(");
    reveal_strlit(")/");
    lemma_dec_digits(ms);
    let t = spec_timestamp(ms);
    assert forall|i: int| 6 <= i < t.len() - 2 implies spec_is_dec_digit(t[i]) by {
        assert(t[i] == spec_dec(ms)[i - 6]);
    }
}

/// Wrap a metric vector with the client's identity.
///
/// The metrics, the identity fields and the stream id are carried over
/// unchanged; the timestamp renders `now_ms`; the invariant version is one.
pub fn build_envelope(metrics: Vec<Metric>, resource: &ResourceData, stream_id: &str, now_ms: u64) -> (e: Envelope)
    ensures
        e.metrics == metrics,
        e.invariant_version == 1,
        e.timestamp@ == spec_timestamp(now_ms as nat),
        e.version == resource.version,
        e.stream_id@ == stream_id@,
        e.machine_name == resource.machine_name,
        e.instance == resource.instance,
        e.role_name == resource.role_name,
{
    let identity = resource.duplicate();
    Envelope {
        metrics,
        invariant_version: 1,
        timestamp: format_timestamp(now_ms),
        version: identity.version,
        stream_id: String::from_str(stream_id),
        machine_name: identity.machine_name,
        instance: identity.instance,
        role_name: identity.role_name,
    }
}

} // verus!
