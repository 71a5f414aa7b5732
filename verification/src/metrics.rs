//! The live-metrics aggregator.
//!
//! Completed spans are classified as requests (server, consumer) or
//! dependencies (client, producer, internal) and folded into running
//! counters; a periodic drain turns the counters into a metric vector and
//! zeroes them.  Metric values are exact rationals (`num / den`): rates
//! divide a count by the elapsed whole seconds, mean durations divide a
//! millisecond total by a count.  Host CPU and memory samples cannot be
//! computed here and are handed in by the caller.

use vstd::prelude::*;
use vstd::string::StringExecFns;

verus! {

/// A metric value, read as the rational `num / den`.
#[derive(Clone)]
pub struct MetricValue {
    pub num: u64,
    pub den: u64,
}

/// One named sample of the metric vector.
#[derive(Clone)]
pub struct Metric {
    pub name: String,
    pub value: MetricValue,
    pub weight: u64,
}

/// What a metric says, with the name as a character sequence.
pub ghost struct MetricView {
    pub name: Seq<char>,
    pub num: nat,
    pub den: nat,
    pub weight: nat,
}

impl View for Metric {
    type V = MetricView;

    open spec fn view(&self) -> MetricView {
        MetricView {
            name: self.name@,
            num: self.value.num as nat,
            den: self.value.den as nat,
            weight: self.weight as nat,
        }
    }
}

pub open spec fn spec_metric_views(s: Seq<Metric>) -> Seq<MetricView> {
    s.map_values(|m: Metric| m@)
}

/// The kind a completed span was started with.
pub enum SpanKind {
    Server,
    Consumer,
    Client,
    Producer,
    Internal,
}

/// What the aggregator reads off a completed span.
///
/// The success predicates are decided by the enclosing tracer-to-telemetry
/// mapping and arrive here as plain values; dependency success is
/// tri-valued, and only a known failure counts as failed.
pub struct SpanSummary {
    pub kind: SpanKind,
    pub is_request_success: bool,
    pub dependency_success: Option<bool>,
    pub duration_ms: u64,
    pub event_names: Vec<String>,
}

/// How many of the span's events report an exception.
pub open spec fn spec_exception_events(names: Seq<String>) -> nat
    decreases names.len(),
{
    if names.len() == 0 {
        0
    } else {
        spec_exception_events(names.drop_last()) + if names.last()@ == "exception"@ {
            1nat
        } else {
            0nat
        }
    }
}

/// What counts: a span model with the exception events already counted.
pub ghost struct SpanModel {
    pub kind: SpanKind,
    pub is_request_success: bool,
    pub dependency_success: Option<bool>,
    pub duration_ms: nat,
    pub exception_events: nat,
}

impl View for SpanSummary {
    type V = SpanModel;

    open spec fn view(&self) -> SpanModel {
        SpanModel {
            kind: self.kind,
            is_request_success: self.is_request_success,
            dependency_success: self.dependency_success,
            duration_ms: self.duration_ms as nat,
            exception_events: spec_exception_events(self.event_names@),
        }
    }
}

/// The aggregator's counters between two drains.
pub struct MetricsCollector {
    pub request_count: u64,
    pub request_failed_count: u64,
    pub request_duration_ms: u64,
    pub dependency_count: u64,
    pub dependency_failed_count: u64,
    pub dependency_duration_ms: u64,
    pub exception_count: u64,
    pub last_collection_time_ms: u64,
}

/// The counters as unbounded numbers.
pub ghost struct CollectorModel {
    pub request_count: nat,
    pub request_failed_count: nat,
    pub request_duration_ms: nat,
    pub dependency_count: nat,
    pub dependency_failed_count: nat,
    pub dependency_duration_ms: nat,
    pub exception_count: nat,
    pub last_collection_time_ms: nat,
}

impl View for MetricsCollector {
    type V = CollectorModel;

    open spec fn view(&self) -> CollectorModel {
        CollectorModel {
            request_count: self.request_count as nat,
            request_failed_count: self.request_failed_count as nat,
            request_duration_ms: self.request_duration_ms as nat,
            dependency_count: self.dependency_count as nat,
            dependency_failed_count: self.dependency_failed_count as nat,
            dependency_duration_ms: self.dependency_duration_ms as nat,
            exception_count: self.exception_count as nat,
            last_collection_time_ms: self.last_collection_time_ms as nat,
        }
    }
}

/// The aggregator's invariant: failures never outnumber their kind.
pub open spec fn spec_wf(m: CollectorModel) -> bool {
    &&& m.request_failed_count <= m.request_count
    &&& m.dependency_failed_count <= m.dependency_count
}

/// All counters zero, the collection window opened at `now_ms`.
pub open spec fn spec_reset_model(now_ms: nat) -> CollectorModel {
    CollectorModel {
        request_count: 0,
        request_failed_count: 0,
        request_duration_ms: 0,
        dependency_count: 0,
        dependency_failed_count: 0,
        dependency_duration_ms: 0,
        exception_count: 0,
        last_collection_time_ms: now_ms,
    }
}

pub open spec fn spec_is_request_kind(k: SpanKind) -> bool {
    k is Server || k is Consumer
}

/// One span folded into the counters: requests bump the request side (failed
/// unless known successful), every other kind bumps the dependency side
/// (failed only when known unsuccessful), and each exception event counts.
pub open spec fn spec_count_span(m: CollectorModel, s: SpanModel) -> CollectorModel {
    let m1 = if spec_is_request_kind(s.kind) {
        CollectorModel {
            request_count: m.request_count + 1,
            request_failed_count: m.request_failed_count + if !s.is_request_success {
                1nat
            } else {
                0nat
            },
            request_duration_ms: m.request_duration_ms + s.duration_ms,
            ..m
        }
    } else {
        CollectorModel {
            dependency_count: m.dependency_count + 1,
            dependency_failed_count: m.dependency_failed_count + if s.dependency_success
                == Some(false) {
                1nat
            } else {
                0nat
            },
            dependency_duration_ms: m.dependency_duration_ms + s.duration_ms,
            ..m
        }
    };
    CollectorModel { exception_count: m1.exception_count + s.exception_events, ..m1 }
}

/// A whole sequence of spans folded into the counters, in order.
pub open spec fn spec_count_spans(m: CollectorModel, spans: Seq<SpanModel>) -> CollectorModel
    decreases spans.len(),
{
    if spans.len() == 0 {
        m
    } else {
        spec_count_span(spec_count_spans(m, spans.drop_last()), spans.last())
    }
}

/// The elapsed whole seconds of the collection window; zero when the clock
/// went backwards.
pub open spec fn spec_elapsed_secs(last_ms: nat, now_ms: nat) -> nat {
    if now_ms >= last_ms {
        ((now_ms - last_ms) / 1000) as nat
    } else {
        0
    }
}

pub open spec fn spec_metric(name: Seq<char>, num: nat, den: nat) -> MetricView {
    MetricView { name, num, den, weight: 1 }
}

/// The drained metric vector: host CPU and memory first; then, unless the
/// window rounds to zero seconds, request, dependency and exception rates,
/// with a mean duration after each rate pair whose count is nonzero.
pub open spec fn spec_collect(m: CollectorModel, now_ms: nat, cpu: MetricValue, memory_bytes: nat) -> Seq<MetricView> {
    let elapsed = spec_elapsed_secs(m.last_collection_time_ms, now_ms);
    let base = seq![
        spec_metric("\\Processor(_Total)\\% Processor Time"@, cpu.num as nat, cpu.den as nat),
        spec_metric("\\Memory\\Committed Bytes"@, memory_bytes, 1),
    ];
    if elapsed == 0 {
        base
    } else {
        base + seq![
            spec_metric("\\ApplicationInsights\\Requests/Sec"@, m.request_count, elapsed),
            spec_metric("\\ApplicationInsights\\Requests Failed/Sec"@, m.request_failed_count, elapsed),
        ] + (if m.request_count > 0 {
            seq![spec_metric("\\ApplicationInsights\\Request Duration"@, m.request_duration_ms, m.request_count)]
        } else {
            Seq::empty()
        }) + seq![
            spec_metric("\\ApplicationInsights\\Dependency Calls/Sec"@, m.dependency_count, elapsed),
            spec_metric("\\ApplicationInsights\\Dependency Calls Failed/Sec"@, m.dependency_failed_count, elapsed),
        ] + (if m.dependency_count > 0 {
            seq![spec_metric("\\ApplicationInsights\\Dependency Call Duration"@, m.dependency_duration_ms, m.dependency_count)]
        } else {
            Seq::empty()
        }) + seq![spec_metric("\\ApplicationInsights\\Exceptions/Sec"@, m.exception_count, elapsed)]
    }
}

impl MetricsCollector {
    /// A fresh aggregator: zero counters, window opened at `now_ms`.
    pub fn new(now_ms: u64) -> (r: MetricsCollector)
        ensures
            r@ == spec_reset_model(now_ms as nat),
            spec_wf(r@),
    {
        MetricsCollector {
            request_count: 0,
            request_failed_count: 0,
            request_duration_ms: 0,
            dependency_count: 0,
            dependency_failed_count: 0,
            dependency_duration_ms: 0,
            exception_count: 0,
            last_collection_time_ms: now_ms,
        }
    }

    /// Zero the counters and open a new collection window at `now_ms`.
    pub fn reset(&mut self, now_ms: u64)
        ensures
            final(self)@ == spec_reset_model(now_ms as nat),
            spec_wf(final(self)@),
    {
        self.request_count = 0;
        self.request_failed_count = 0;
        self.request_duration_ms = 0;
        self.dependency_count = 0;
        self.dependency_failed_count = 0;
        self.dependency_duration_ms = 0;
        self.exception_count = 0;
        self.last_collection_time_ms = now_ms;
    }

    /// Fold one completed span into the counters.
    ///
    /// The bounds keep every counter inside a `u64`; a caller that cannot
    /// grant them must drop the span instead.
    pub fn count_span(&mut self, span: &SpanSummary)
        requires
            spec_wf(old(self)@),
            old(self).request_count < u64::MAX,
            old(self).dependency_count < u64::MAX,
            old(self).request_duration_ms + span.duration_ms <= u64::MAX,
            old(self).dependency_duration_ms + span.duration_ms <= u64::MAX,
            old(self).exception_count + span.event_names@.len() <= u64::MAX,
        ensures
            final(self)@ == spec_count_span(old(self)@, span@),
            spec_wf(final(self)@),
    {
        match span.kind {
            SpanKind::Server | SpanKind::Consumer => {
                self.request_count = self.request_count + 1;
                if !span.is_request_success {
                    self.request_failed_count = self.request_failed_count + 1;
                }
                self.request_duration_ms = self.request_duration_ms + span.duration_ms;
            },
            SpanKind::Client | SpanKind::Producer | SpanKind::Internal => {
                self.dependency_count = self.dependency_count + 1;
                if let Some(false) = span.dependency_success {
                    self.dependency_failed_count = self.dependency_failed_count + 1;
                }
                self.dependency_duration_ms = self.dependency_duration_ms + span.duration_ms;
            },
        }

        let needle = String::from_str("exception");
        let ghost mid = self@;
        let mut j: usize = 0;
        while j < span.event_names.len()
            invariant
                0 <= j <= span.event_names@.len(),
                needle@ == "exception"@,
                mid.exception_count + span.event_names@.len() <= u64::MAX,
                spec_exception_events(span.event_names@.subrange(0, j as int)) <= j,
                self.exception_count == mid.exception_count + spec_exception_events(
                    span.event_names@.subrange(0, j as int),
                ),
                self@ == (CollectorModel { exception_count: self@.exception_count, ..mid }),
            decreases span.event_names@.len() - j,
        {
            proof {
                let t = span.event_names@.subrange(0, j + 1);
                assert(t.drop_last() =~= span.event_names@.subrange(0, j as int));
            }
            if span.event_names[j] == needle {
                self.exception_count = self.exception_count + 1;
            }
            j = j + 1;
        }
        proof {
            assert(span.event_names@.subrange(0, span.event_names@.len() as int) =~= span.event_names@);
        }
    }

    /// Drain the counters into the metric vector and reset.
    ///
    /// `cpu` and `memory_bytes` are the host samples the caller took just
    /// before the drain; they head the vector in that order.
    pub fn collect_and_reset(&mut self, now_ms: u64, cpu: MetricValue, memory_bytes: u64) -> (r: Vec<Metric>)
        ensures
            spec_metric_views(r@) == spec_collect(old(self)@, now_ms as nat, cpu, memory_bytes as nat),
            final(self)@ == spec_reset_model(now_ms as nat),
            spec_wf(final(self)@),
    {
        let ghost m = self@;
        let mut r: Vec<Metric> = Vec::new();
        r.push(Metric {
            name: String::from_str("\\Processor(_Total)\\% Processor Time"),
            value: cpu,
            weight: 1,
        });
        r.push(Metric {
            name: String::from_str("\\Memory\\Committed Bytes"),
            value: MetricValue { num: memory_bytes, den: 1 },
            weight: 1,
        });
        let elapsed: u64 = if now_ms >= self.last_collection_time_ms {
            (now_ms - self.last_collection_time_ms) / 1000
        } else {
            0
        };
        if elapsed > 0 {
            r.push(Metric {
                name: String::from_str("\\ApplicationInsights\\Requests/Sec"),
                value: MetricValue { num: self.request_count, den: elapsed },
                weight: 1,
            });
            r.push(Metric {
                name: String::from_str("\\ApplicationInsights\\Requests Failed/Sec"),
                value: MetricValue { num: self.request_failed_count, den: elapsed },
                weight: 1,
            });
            if self.request_count > 0 {
                r.push(Metric {
                    name: String::from_str("\\ApplicationInsights\\Request Duration"),
                    value: MetricValue { num: self.request_duration_ms, den: self.request_count },
                    weight: 1,
                });
            }
            r.push(Metric {
                name: String::from_str("\\ApplicationInsights\\Dependency Calls/Sec"),
                value: MetricValue { num: self.dependency_count, den: elapsed },
                weight: 1,
            });
            r.push(Metric {
                name: String::from_str("\\ApplicationInsights\\Dependency Calls Failed/Sec"),
                value: MetricValue { num: self.dependency_failed_count, den: elapsed },
                weight: 1,
            });
            if self.dependency_count > 0 {
                r.push(Metric {
                    name: String::from_str("\\ApplicationInsights\\Dependency Call Duration"),
                    value: MetricValue {
                        num: self.dependency_duration_ms,
                        den: self.dependency_count,
                    },
                    weight: 1,
                });
            }
            r.push(Metric {
                name: String::from_str("\\ApplicationInsights\\Exceptions/Sec"),
                value: MetricValue { num: self.exception_count, den: elapsed },
                weight: 1,
            });
        }
        self.reset(now_ms);
        proof {
            assert(spec_metric_views(r@) =~= spec_collect(m, now_ms as nat, cpu, memory_bytes as nat));
        }
        r
    }
}

/// After a drain, an immediate second drain over a window of at least one
/// second reports zero request, dependency and exception rates and no mean
/// durations.
pub proof fn lemma_reset_idempotence(reset_ms: nat, now_ms: nat, cpu: MetricValue, memory_bytes: nat)
    requires
        now_ms >= reset_ms + 1000,
    ensures
        ({
            let out = spec_collect(spec_reset_model(reset_ms), now_ms, cpu, memory_bytes);
            &&& out.len() == 7
            &&& out[2].num == 0
            &&& out[3].num == 0
            &&& out[4].num == 0
            &&& out[5].num == 0
            &&& out[6].num == 0
        }),
{
    assert(spec_elapsed_secs(reset_ms, now_ms) >= 1);
}

/// Failure monotonicity: counting any sequence of spans keeps failures at or
/// below their kind's count, and never decreases a counter.
pub proof fn lemma_failure_monotonicity(m: CollectorModel, spans: Seq<SpanModel>)
    requires
        spec_wf(m),
    ensures
        spec_wf(spec_count_spans(m, spans)),
        spec_count_spans(m, spans).request_count >= m.request_count,
        spec_count_spans(m, spans).request_failed_count >= m.request_failed_count,
        spec_count_spans(m, spans).dependency_count >= m.dependency_count,
        spec_count_spans(m, spans).dependency_failed_count >= m.dependency_failed_count,
        spec_count_spans(m, spans).exception_count >= m.exception_count,
    decreases spans.len(),
{
    if spans.len() > 0 {
        lemma_failure_monotonicity(m, spans.drop_last());
    }
}

} // verus!
