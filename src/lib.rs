//! Client-side metrics aggregation: producers accumulate counts, gauges and
//! timing sums in shared cells keyed by metric identity, and a flush pass
//! turns the accumulated values into samples for a statsd-style agent.
pub mod duration;
pub mod tags;
pub mod instrument;
#[allow(non_snake_case)]
pub mod MetricType;
pub mod metric;
pub mod registry;
pub mod client;

pub use duration::Duration;
pub use metric::{Metric, MetricKey, MetricName};
pub use registry::{MetricRegistrationError, MetricsRegistry, RegistryConfig};
pub use MetricType::MakeInstrument;
