//! Live-metrics span processing: a metrics aggregator fed by span-completion
//! events, an envelope builder, interpretation of the live-metrics service's
//! responses, the ping/post control-loop state machine, and the retry
//! classification shared with the batch telemetry uploader.

pub mod digits;
pub mod envelope;
pub mod metrics;
pub mod processor;
pub mod resource;
pub mod sender;
pub mod upload;
pub mod uri;
