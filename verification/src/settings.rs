//! Exporter-endpoint configuration: the standard OTLP override
//! precedence, signal-specific over generic over the library default.

use vstd::prelude::*;

verus! {

/// The three telemetry signals. Each owns an exporter pipeline and an
/// independent override namespace.
#[derive(Clone, Copy, PartialEq, Eq, Structural, Debug)]
pub enum Signal {
    Traces,
    Metrics,
    Logs,
}

/// The view of an optional override value.
pub open spec fn override_view(o: Option<String>) -> Option<Seq<char>> {
    match o {
        Some(s) => Some(s@),
        None => None,
    }
}

/// Exporter-endpoint overrides as the host read them from the standard
/// OTLP environment variables: one generic slot and one per signal.
pub struct EndpointOverrides {
    pub endpoint: Option<String>,
    pub traces_endpoint: Option<String>,
    pub metrics_endpoint: Option<String>,
    pub logs_endpoint: Option<String>,
}

/// The OTLP gRPC exporter's default target, used when no override is
/// set.
pub open spec fn default_endpoint_spec() -> Seq<char> {
    "http://localhost:4317"@
}

/// Precedence of one exporter setting: the signal-specific override wins
/// over the generic one, which wins over the fallback.
pub open spec fn resolved_setting(
    specific: Option<Seq<char>>,
    generic: Option<Seq<char>>,
    fallback: Seq<char>,
) -> Seq<char> {
    match specific {
        Some(s) => s,
        None => match generic {
            Some(g) => g,
            None => fallback,
        },
    }
}

/// The override slot that belongs to a signal.
pub open spec fn signal_override(o: EndpointOverrides, signal: Signal) -> Option<Seq<char>> {
    match signal {
        Signal::Traces => override_view(o.traces_endpoint),
        Signal::Metrics => override_view(o.metrics_endpoint),
        Signal::Logs => override_view(o.logs_endpoint),
    }
}

/// Resolve one setting by the documented precedence.
pub fn resolve_setting(specific: &Option<String>, generic: &Option<String>, fallback: &str) -> (r:
    String)
    ensures
        r@ == resolved_setting(override_view(*specific), override_view(*generic), fallback@),
{
    match specific {
        Some(s) => s.clone(),
        None => match generic {
            Some(g) => g.clone(),
            None => fallback.to_owned(),
        },
    }
}

impl EndpointOverrides {
    /// No overrides: every pipeline targets the library default.
    pub fn none() -> (r: EndpointOverrides)
        ensures
            r.endpoint is None,
            r.traces_endpoint is None,
            r.metrics_endpoint is None,
            r.logs_endpoint is None,
    {
        EndpointOverrides {
            endpoint: None,
            traces_endpoint: None,
            metrics_endpoint: None,
            logs_endpoint: None,
        }
    }

    /// The endpoint one signal's exporter targets: that signal's
    /// override, else the generic override, else the library default.
    pub fn endpoint_for(&self, signal: Signal) -> (r: String)
        ensures
            r@ == resolved_setting(
                signal_override(*self, signal),
                override_view(self.endpoint),
                default_endpoint_spec(),
            ),
    {
        match signal {
            Signal::Traces => resolve_setting(
                &self.traces_endpoint,
                &self.endpoint,
                "http://localhost:4317",
            ),
            Signal::Metrics => resolve_setting(
                &self.metrics_endpoint,
                &self.endpoint,
                "http://localhost:4317",
            ),
            Signal::Logs => resolve_setting(
                &self.logs_endpoint,
                &self.endpoint,
                "http://localhost:4317",
            ),
        }
    }
}

} // verus!
