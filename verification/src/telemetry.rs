//! Telemetry: an event shape and a sink capability; the default sink
//! drops everything.

use vstd::prelude::*;

verus! {

/// One telemetry event.
#[derive(Debug)]
pub struct TelemetryEvent {
    pub installation_id: String,
    pub run_id: Option<String>,
    pub kind: String,
    pub data: String,
}

/// A place telemetry events go. Nothing is promised about delivery.
pub trait TelemetrySink {
    fn send(&self, ev: &TelemetryEvent);
}

/// A sink that discards every event.
#[derive(Debug)]
pub struct NoopSink;

impl TelemetrySink for NoopSink {
    fn send(&self, _ev: &TelemetryEvent) {
    }
}

} // verus!
