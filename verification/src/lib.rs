//! Host resource monitoring: turning raw operating-system readings into
//! per-interval snapshots, and snapshots into threshold alerts.
//!
//! The library computes and never touches the machine. Its caller reads the
//! operating system and the clock, hands the readings to a
//! [`metrics::MetricsCollector`], and carries out what comes back: it writes
//! the snapshot to the log and shows the alerts of
//! [`alert::check_thresholds`] as notifications.
//!
//! Every quantity that carries a fraction (percentages, throughput) is held
//! as an exact count of thousandths, a [`fixed_point::Milli`], so that all
//! arithmetic is integer arithmetic with a stated rounding rule.

pub mod fixed_point;
pub mod text;
pub mod time;
pub mod metrics;
pub mod config;
pub mod alert;
pub mod notify;
pub mod stats;
