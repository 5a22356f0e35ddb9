//! Installs OpenTelemetry trace, metric and log export into a host
//! application's startup and shutdown lifecycle.
//!
//! The library assembles the resource-attribute set that identifies the
//! process, constructs one OTLP exporter pipeline per signal, records the
//! process-wide provider registrations in an explicit registry model, and
//! coordinates graceful shutdown of the providers.

pub mod attrs;
pub mod environment;
pub mod otel;
pub mod plugin;
pub mod registry;
pub mod settings;
pub mod shutdown;

pub use attrs::Attr;
pub use attrs::AttributeSet;
pub use environment::Environment;
pub use plugin::DetectorSelection;
pub use plugin::InitError;
pub use plugin::OpenTelemetryPlugin;
pub use registry::GlobalTelemetryState;
pub use registry::PropagatorCompat;
pub use registry::PropagatorKind;
pub use settings::EndpointOverrides;
pub use settings::Signal;
pub use shutdown::ShutdownFailure;
pub use shutdown::ShutdownStep;
