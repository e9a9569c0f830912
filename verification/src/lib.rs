//! Sampling and aggregation engine for hardware and OS performance counters.
//!
//! Once per tick the caller reads the machine (clocks, virtual-memory counters, disk
//! counters, energy and performance-state channels, pressure levels) and hands the
//! readings to [`metrics::MetricsCollector::collect`], which returns one snapshot of
//! utilisation, throughput and power. The engine keeps what it needs of the tick
//! before: cumulative counters become activity per interval, and activity becomes a
//! rate over the time that really passed.
//!
//! Nothing in here reads the machine or the clock, and nothing uses floating point.
//! Shares are in parts per million, power in microwatts, time in nanoseconds and
//! milliseconds; see [`types`].
//!
//! - [`delta`]: differences of cumulative counters and rates per second.
//! - [`channels`]: the aggregator of channel readings.
//! - [`sources`]: the readings that each source hands over and the state kept for it.
//! - [`metrics`]: the engine.
//! - [`types`]: the snapshot.
//! - [`text`]: substring search and decimal numbers, on characters.

pub mod channels;
pub mod delta;
pub mod metrics;
pub mod sources;
pub mod text;
pub mod types;
