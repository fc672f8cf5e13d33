//! Telemetry pipeline assembly: per-kind export providers behind one handle
//! with aggregated shutdown, and a composite instrumentation layer that fans
//! callbacks out to every enabled kind while combining their decisions.

pub mod builder;
pub mod datadog;
pub mod layer;
pub mod propagation;

pub use builder::Otlp;

