//! The process-wide provider registry, modelled as explicit state.
//!
//! The telemetry SDK keeps one global slot per signal ("the current
//! tracer provider", "the current meter provider") and one for the
//! text-map propagator. This module models those slots explicitly: each
//! initialization entry point writes its slot here besides performing
//! the real global registration, and shutdown clears it, so the
//! lifecycle rules are stated and checked rather than hidden.

use vstd::prelude::*;

verus! {

/// The text-map propagator variant that is active process-wide.
#[derive(Clone, Copy, PartialEq, Eq, Structural, Debug)]
pub enum PropagatorKind {
    TraceContext,
    Jaeger,
    Zipkin,
}

/// Which propagator compatibility modes the host enabled.
#[derive(Clone, Copy, PartialEq, Eq, Structural, Debug)]
pub struct PropagatorCompat {
    pub jaeger: bool,
    pub zipkin: bool,
}

/// The propagator that ends up active: Zipkin compatibility beats
/// Jaeger compatibility, which beats the W3C trace-context default.
/// Exactly one propagator is active at a time.
pub open spec fn selected_propagator(c: PropagatorCompat) -> PropagatorKind {
    if c.zipkin {
        PropagatorKind::Zipkin
    } else if c.jaeger {
        PropagatorKind::Jaeger
    } else {
        PropagatorKind::TraceContext
    }
}

/// Pick the propagator for the enabled compatibility modes, making the
/// registration order's "last one wins" explicit.
pub fn select_propagator(c: PropagatorCompat) -> (r: PropagatorKind)
    ensures
        r == selected_propagator(c),
{
    if c.zipkin {
        PropagatorKind::Zipkin
    } else if c.jaeger {
        PropagatorKind::Jaeger
    } else {
        PropagatorKind::TraceContext
    }
}

/// The registry model: one slot per process-wide global. A provider
/// slot holds the stamp of the initialization round that last wrote it.
pub struct GlobalTelemetryState {
    pub tracer_provider: Option<u64>,
    pub meter_provider: Option<u64>,
    pub propagator: Option<PropagatorKind>,
}

impl GlobalTelemetryState {
    /// The registry after writing the tracer-provider slot.
    pub open spec fn with_tracer_provider(self, stamp: u64) -> Self {
        GlobalTelemetryState { tracer_provider: Some(stamp), ..self }
    }

    /// The registry after writing the meter-provider slot.
    pub open spec fn with_meter_provider(self, stamp: u64) -> Self {
        GlobalTelemetryState { meter_provider: Some(stamp), ..self }
    }

    /// The registry after writing the propagator slot.
    pub open spec fn with_propagator(self, kind: PropagatorKind) -> Self {
        GlobalTelemetryState { propagator: Some(kind), ..self }
    }

    /// The registry after shutdown cleared the tracer-provider slot.
    pub open spec fn without_tracer_provider(self) -> Self {
        GlobalTelemetryState { tracer_provider: None, ..self }
    }

    /// The registry before initialization: every slot empty.
    pub fn new() -> (r: Self)
        ensures
            r.tracer_provider is None,
            r.meter_provider is None,
            r.propagator is None,
    {
        GlobalTelemetryState { tracer_provider: None, meter_provider: None, propagator: None }
    }

    /// Record that an initialization round installed the global tracer
    /// provider.
    pub fn record_tracer_provider(&mut self, stamp: u64)
        ensures
            *final(self) == old(self).with_tracer_provider(stamp),
    {
        self.tracer_provider = Some(stamp);
    }

    /// Record that an initialization round installed the global meter
    /// provider.
    pub fn record_meter_provider(&mut self, stamp: u64)
        ensures
            *final(self) == old(self).with_meter_provider(stamp),
    {
        self.meter_provider = Some(stamp);
    }

    /// Record that a propagator was registered process-wide.
    pub fn record_propagator(&mut self, kind: PropagatorKind)
        ensures
            *final(self) == old(self).with_propagator(kind),
    {
        self.propagator = Some(kind);
    }

    /// Record that shutdown tore the global tracer provider down.
    pub fn clear_tracer_provider(&mut self)
        ensures
            *final(self) == old(self).without_tracer_provider(),
    {
        self.tracer_provider = None;
    }
}

/// Law: the registry slots are last-writer-wins. Running initialization
/// a second time in the same process overwrites each slot with the
/// second round's stamp — no error, the earlier write is simply gone.
pub proof fn lemma_last_writer_wins(s: GlobalTelemetryState, first: u64, second: u64)
    ensures
        s.with_tracer_provider(first).with_tracer_provider(second) == s.with_tracer_provider(
            second,
        ),
        s.with_meter_provider(first).with_meter_provider(second) == s.with_meter_provider(second),
{
}

/// Law: re-registering the propagator keeps only the last registration.
pub proof fn lemma_propagator_last_wins(
    s: GlobalTelemetryState,
    first: PropagatorKind,
    second: PropagatorKind,
)
    ensures
        s.with_propagator(first).with_propagator(second) == s.with_propagator(second),
{
}

} // verus!
