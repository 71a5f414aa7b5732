//! The ping/post control loop's state and transition rules.
//!
//! While nobody watches, the client pings every five seconds; once the
//! service answers that it should post, it posts every second.  Failures
//! are tolerated for a while (twenty seconds while posting, sixty while
//! pinging) before the loop falls back to a sixty-second pace, and a
//! successful answer can redirect both endpoints or suggest a polling
//! interval.  The sending itself happens elsewhere; this module decides.

use crate::digits::{parse_u64_dec, spec_all_dec_digits, spec_dec_value};
use crate::digits::{lemma_hex_digits, spec_hex, spec_is_hex_digit, u128_to_hex};
use crate::uri::{parse_uri, replace_host, spec_uri_parse, UriParts};
use vstd::prelude::*;
use vstd::string::StrSliceExecFns;

verus! {

/// The pace while posting metrics.
pub const POST_INTERVAL_MS: u64 = 1000;

/// The pace while pinging, absent a server hint.
pub const PING_INTERVAL_MS: u64 = 5000;

/// The pace after too long a run of failures.
pub const FALLBACK_INTERVAL_MS: u64 = 60000;

/// How long posting may keep failing before the loop falls back to pings.
pub const MAX_POST_WAIT_MS: u64 = 20000;

/// How long pinging may keep failing before the loop slows down.
pub const MAX_PING_WAIT_MS: u64 = 60000;

/// What a successful send tells the control loop.
pub struct SendResult {
    pub should_post: bool,
    pub polling_interval_hint_ms: Option<u64>,
    pub redirected_host: Option<UriParts>,
}

/// The word `true` in any mix of case, and nothing else.
pub open spec fn spec_is_true_ci(s: Seq<char>) -> bool {
    &&& s.len() == 4
    &&& (s[0] == 't' || s[0] == 'T')
    &&& (s[1] == 'r' || s[1] == 'R')
    &&& (s[2] == 'u' || s[2] == 'U')
    &&& (s[3] == 'e' || s[3] == 'E')
}

fn is_true_ci(s: &str) -> (r: bool)
    ensures
        r == spec_is_true_ci(s@),
{
    if s.unicode_len() != 4 {
        return false;
    }
    let c0 = s.get_char(0);
    let c1 = s.get_char(1);
    let c2 = s.get_char(2);
    let c3 = s.get_char(3);
    (c0 == 't' || c0 == 'T') && (c1 == 'r' || c1 == 'R') && (c2 == 'u' || c2 == 'U') && (c3 == 'e'
        || c3 == 'E')
}

/// What the polling-interval header yields: its decimal value, or nothing
/// for an absent or unparsable header.
pub open spec fn spec_hint_of(hint: Option<&str>) -> Option<u64> {
    match hint {
        None => None,
        Some(h) => if h@.len() > 0 && spec_all_dec_digits(h@) && spec_dec_value(h@) <= u64::MAX {
            Some(spec_dec_value(h@) as u64)
        } else {
            None
        },
    }
}

/// Read the live-metrics service's reply to one POST.
///
/// Any status outside the 2xx range is a failure, whatever the headers say.
/// On success, the subscribed header equal to `true` (case-insensitively)
/// switches posting on; a polling-interval header that parses as decimal
/// milliseconds is passed along and any other is ignored; a redirect header
/// that parses as a URI with scheme and authority is passed along and any
/// other is ignored.
pub fn interpret_response(
    status: u16,
    subscribed: Option<&str>,
    hint: Option<&str>,
    redirect: Option<&str>,
) -> (r: Option<SendResult>)
    ensures
        r is Some <==> 200 <= status < 300,
        r matches Some(res) ==> {
            &&& res.should_post == (subscribed matches Some(s) && spec_is_true_ci(s@))
            &&& res.polling_interval_hint_ms == spec_hint_of(hint)
            &&& (match redirect {
                Some(t) => (match spec_uri_parse(t@) {
                    Some(u) => res.redirected_host matches Some(p) && p@ == u,
                    None => res.redirected_host is None,
                }),
                None => res.redirected_host is None,
            })
        },
{
    if !(200 <= status && status < 300) {
        return None;
    }
    let should_post = match subscribed {
        Some(s) => is_true_ci(s),
        None => false,
    };
    let polling_interval_hint_ms = match hint {
        Some(h) => parse_u64_dec(h),
        None => None,
    };
    let redirected_host = match redirect {
        Some(t) => parse_uri(t),
        None => None,
    };
    Some(SendResult { should_post, polling_interval_hint_ms, redirected_host })
}

/// Milliseconds since the last success; the largest value when the clock
/// went backwards, so that skew counts as a long outage, never a fresh one.
pub open spec fn spec_since(now_ms: u64, last_ms: u64) -> u64 {
    if now_ms >= last_ms {
        (now_ms - last_ms) as u64
    } else {
        u64::MAX
    }
}

/// The idle pace: the server's sticky hint, or the ping interval.
pub open spec fn spec_idle_delay(hint: Option<u64>) -> u64 {
    match hint {
        Some(h) => h,
        None => PING_INTERVAL_MS,
    }
}

/// A redirect landing on one endpoint: the new scheme and authority over
/// the endpoint's own path.
pub open spec fn spec_redirected(u: UriParts, h: UriParts) -> UriParts {
    UriParts { scheme: h.scheme, authority: h.authority, path_and_query: u.path_and_query }
}

/// The state after one send outcome: a success moves the success clock,
/// lands any redirect on both endpoints and makes a fresh hint stick; a
/// failure changes nothing.
pub open spec fn spec_conclude_state(s: SenderState, outcome: Option<SendResult>, now_ms: u64) -> SenderState {
    match outcome {
        Some(res) => {
            let redirected = match res.redirected_host {
                Some(h) => SenderState {
                    post_endpoint: spec_redirected(s.post_endpoint, h),
                    ping_endpoint: spec_redirected(s.ping_endpoint, h),
                    ..s
                },
                None => s,
            };
            SenderState {
                last_success_time_ms: now_ms,
                polling_interval_hint_ms: if res.polling_interval_hint_ms is Some {
                    res.polling_interval_hint_ms
                } else {
                    s.polling_interval_hint_ms
                },
                ..redirected
            }
        },
        None => s,
    }
}

/// One wake-up of the control loop, abstractly: the outcome it saw and the
/// clock it read.
pub ghost struct LoopStep {
    pub outcome: Option<SendResult>,
    pub now_ms: u64,
}

/// The loop state after a whole run of wake-ups, in order.
pub open spec fn spec_run(s: SenderState, steps: Seq<LoopStep>) -> SenderState
    decreases steps.len(),
{
    if steps.len() == 0 {
        s
    } else {
        spec_conclude_state(spec_run(s, steps.drop_last()), steps.last().outcome, steps.last().now_ms)
    }
}

/// Stream id stability: however many wake-ups the loop lives through, its
/// stream id stays the one it was born with, so every envelope built from
/// the state carries the same id.
pub proof fn lemma_stream_id_stability(s: SenderState, steps: Seq<LoopStep>)
    ensures
        spec_run(s, steps).stream_id == s.stream_id,
    decreases steps.len(),
{
    if steps.len() > 0 {
        lemma_stream_id_stability(s, steps.drop_last());
    }
}

/// The control loop's own state between wake-ups.
pub struct SenderState {
    pub post_endpoint: UriParts,
    pub ping_endpoint: UriParts,
    pub last_success_time_ms: u64,
    pub polling_interval_hint_ms: Option<u64>,
    pub stream_id: String,
}

impl SenderState {
    /// A fresh loop state: the given endpoints, a success clock starting
    /// now, no hint yet, and the stream id rendered once, as thirty-two
    /// lowercase hex digits of the given random bits, for the whole life of
    /// the processor.
    pub fn new(post_endpoint: UriParts, ping_endpoint: UriParts, now_ms: u64, stream_id_bits: u128) -> (r: SenderState)
        ensures
            r.post_endpoint == post_endpoint,
            r.ping_endpoint == ping_endpoint,
            r.last_success_time_ms == now_ms,
            r.polling_interval_hint_ms is None,
            r.stream_id@ == spec_hex(stream_id_bits as nat, 32),
            r.stream_id@.len() == 32,
            forall|i: int| 0 <= i < r.stream_id@.len() ==> spec_is_hex_digit(r.stream_id@[i]),
    {
        proof {
            lemma_hex_digits(stream_id_bits as nat, 32);
        }
        SenderState {
            post_endpoint,
            ping_endpoint,
            last_success_time_ms: now_ms,
            polling_interval_hint_ms: None,
            stream_id: u128_to_hex(stream_id_bits, 32),
        }
    }

    /// The endpoint the next send goes to: the post endpoint while
    /// collecting, the ping endpoint otherwise.
    pub fn endpoint_for(&self, is_collecting: bool) -> (r: UriParts)
        ensures
            r == (if is_collecting {
                self.post_endpoint
            } else {
                self.ping_endpoint
            }),
    {
        if is_collecting {
            self.post_endpoint.duplicate()
        } else {
            self.ping_endpoint.duplicate()
        }
    }

    /// Fold one send outcome into the state and pick what comes next:
    /// whether to collect and post, and the delay before the next wake-up.
    ///
    /// `outcome` is `None` for a transport error, an unparsable response or
    /// a non-2xx status alike.  On success the success clock moves to
    /// `now_ms`, a redirect lands on both endpoints (each keeping its own
    /// path), a hint sticks until the server sends another, and the server
    /// decides collection.  On failure nothing in the state changes:
    /// posting stays on within the post-wait limit and otherwise gives way
    /// to slow pings, and pinging slows down once the last success is old
    /// enough.  The stream id never changes.
    pub fn conclude(&mut self, curr_is_collecting: bool, outcome: Option<SendResult>, now_ms: u64) -> (r: (bool, u64))
        ensures
            *final(self) == spec_conclude_state(*old(self), outcome, now_ms),
            final(self).stream_id == old(self).stream_id,
            outcome matches Some(res) ==> {
                &&& final(self).last_success_time_ms == now_ms
                &&& (match res.redirected_host {
                    Some(h) => {
                        &&& final(self).post_endpoint@.scheme == h@.scheme
                        &&& final(self).post_endpoint@.authority == h@.authority
                        &&& final(self).post_endpoint@.path_and_query == old(self).post_endpoint@.path_and_query
                        &&& final(self).ping_endpoint@.scheme == h@.scheme
                        &&& final(self).ping_endpoint@.authority == h@.authority
                        &&& final(self).ping_endpoint@.path_and_query == old(self).ping_endpoint@.path_and_query
                    },
                    None => {
                        &&& final(self).post_endpoint == old(self).post_endpoint
                        &&& final(self).ping_endpoint == old(self).ping_endpoint
                    },
                })
                &&& final(self).polling_interval_hint_ms == (if res.polling_interval_hint_ms is Some {
                    res.polling_interval_hint_ms
                } else {
                    old(self).polling_interval_hint_ms
                })
                &&& r.0 == res.should_post
                &&& r.1 == (if res.should_post {
                    POST_INTERVAL_MS
                } else {
                    spec_idle_delay(final(self).polling_interval_hint_ms)
                })
            },
            outcome is None ==> {
                &&& final(self).post_endpoint == old(self).post_endpoint
                &&& final(self).ping_endpoint == old(self).ping_endpoint
                &&& final(self).last_success_time_ms == old(self).last_success_time_ms
                &&& final(self).polling_interval_hint_ms == old(self).polling_interval_hint_ms
                &&& ({
                    let since = spec_since(now_ms, old(self).last_success_time_ms);
                    if curr_is_collecting {
                        if since >= MAX_POST_WAIT_MS {
                            r == (false, FALLBACK_INTERVAL_MS)
                        } else {
                            r == (true, POST_INTERVAL_MS)
                        }
                    } else {
                        if since >= MAX_PING_WAIT_MS {
                            r == (false, FALLBACK_INTERVAL_MS)
                        } else {
                            r == (false, spec_idle_delay(old(self).polling_interval_hint_ms))
                        }
                    }
                })
            },
    {
        let mut next_is_collecting: bool;
        let last_send_succeeded: bool;
        match outcome {
            Some(res) => {
                self.last_success_time_ms = now_ms;
                if let Some(host) = &res.redirected_host {
                    self.post_endpoint = replace_host(&self.post_endpoint, host);
                    self.ping_endpoint = replace_host(&self.ping_endpoint, host);
                }
                if res.polling_interval_hint_ms.is_some() {
                    self.polling_interval_hint_ms = res.polling_interval_hint_ms;
                }
                last_send_succeeded = true;
                next_is_collecting = res.should_post;
            },
            None => {
                last_send_succeeded = false;
                next_is_collecting = curr_is_collecting;
            },
        }
        let mut next_timeout: u64 = if next_is_collecting {
            POST_INTERVAL_MS
        } else {
            match self.polling_interval_hint_ms {
                Some(h) => h,
                None => PING_INTERVAL_MS,
            }
        };
        if !last_send_succeeded {
            let time_since_last_success: u64 = if now_ms >= self.last_success_time_ms {
                now_ms - self.last_success_time_ms
            } else {
                u64::MAX
            };
            if next_is_collecting && time_since_last_success >= MAX_POST_WAIT_MS {
                next_is_collecting = false;
                next_timeout = FALLBACK_INTERVAL_MS;
            } else if !next_is_collecting && time_since_last_success >= MAX_PING_WAIT_MS {
                next_timeout = FALLBACK_INTERVAL_MS;
            }
        }
        (next_is_collecting, next_timeout)
    }
}

} // verus!
