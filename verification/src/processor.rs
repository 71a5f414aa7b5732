//! The shared state behind the span-processor facade.
//!
//! The facade owns this state behind one mutex, next to an atomic
//! `is_collecting` flag that is read on every span end without the lock.
//! Everything the facade and the control loop do while holding the lock is
//! here: counting a finished span, swapping the resource identity, and the
//! per-tick copy-and-drain.

use crate::metrics::{
    spec_collect, spec_count_span, spec_reset_model, spec_wf, Metric, MetricValue,
    MetricsCollector, SpanSummary, spec_metric_views,
};
use crate::resource::ResourceData;
use vstd::prelude::*;

verus! {

/// What the mutex guards: the identity to stamp on envelopes and the
/// running counters.
pub struct ProcessorState {
    pub resource_data: ResourceData,
    pub metrics_collector: MetricsCollector,
}

impl ProcessorState {
    /// A fresh shared state with zeroed counters.
    pub fn new(resource_data: ResourceData, now_ms: u64) -> (r: ProcessorState)
        ensures
            r.resource_data == resource_data,
            r.metrics_collector@ == spec_reset_model(now_ms as nat),
            spec_wf(r.metrics_collector@),
    {
        ProcessorState { resource_data, metrics_collector: MetricsCollector::new(now_ms) }
    }

    /// A finished span arrives: it is counted only while collection is on;
    /// with the flag off nothing changes, however many spans end.
    pub fn on_span_end(&mut self, is_collecting: bool, span: &SpanSummary)
        requires
            is_collecting ==> {
                &&& spec_wf(old(self).metrics_collector@)
                &&& old(self).metrics_collector.request_count < u64::MAX
                &&& old(self).metrics_collector.dependency_count < u64::MAX
                &&& old(self).metrics_collector.request_duration_ms + span.duration_ms <= u64::MAX
                &&& old(self).metrics_collector.dependency_duration_ms + span.duration_ms <= u64::MAX
                &&& old(self).metrics_collector.exception_count + span.event_names@.len() <= u64::MAX
            },
        ensures
            final(self).resource_data == old(self).resource_data,
            !is_collecting ==> final(self).metrics_collector == old(self).metrics_collector,
            is_collecting ==> final(self).metrics_collector@ == spec_count_span(
                old(self).metrics_collector@,
                span@,
            ),
    {
        if is_collecting {
            self.metrics_collector.count_span(span);
        }
    }

    /// Replace the resource identity; the counters stay.
    pub fn set_resource(&mut self, resource_data: ResourceData)
        ensures
            final(self).resource_data == resource_data,
            final(self).metrics_collector == old(self).metrics_collector,
    {
        self.resource_data = resource_data;
    }

    /// Zero the counters when collection switches on, so the first drain
    /// covers only the collecting window.
    pub fn reset_collector(&mut self, now_ms: u64)
        ensures
            final(self).resource_data == old(self).resource_data,
            final(self).metrics_collector@ == spec_reset_model(now_ms as nat),
    {
        self.metrics_collector.reset(now_ms);
    }

    /// One wake-up's work under the lock: copy the identity, and drain the
    /// counters only while collecting — otherwise the metric vector stays
    /// empty and the counters untouched.
    pub fn tick_collect(&mut self, is_collecting: bool, now_ms: u64, cpu: MetricValue, memory_bytes: u64) -> (r: (ResourceData, Vec<Metric>))
        ensures
            r.0 == old(self).resource_data,
            final(self).resource_data == old(self).resource_data,
            is_collecting ==> {
                &&& spec_metric_views(r.1@) == spec_collect(
                    old(self).metrics_collector@,
                    now_ms as nat,
                    cpu,
                    memory_bytes as nat,
                )
                &&& final(self).metrics_collector@ == spec_reset_model(now_ms as nat)
            },
            !is_collecting ==> {
                &&& r.1@.len() == 0
                &&& final(self).metrics_collector == old(self).metrics_collector
            },
    {
        let resource_data = self.resource_data.duplicate();
        let metrics = if is_collecting {
            self.metrics_collector.collect_and_reset(now_ms, cpu, memory_bytes)
        } else {
            Vec::new()
        };
        (resource_data, metrics)
    }
}

} // verus!
