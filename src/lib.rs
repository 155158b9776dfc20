//! Disk-usage poller: configuration, the per-tick statistics record, and the
//! decisions of the measure / forward / sleep cycle.
pub mod config;
pub mod stats;
pub mod cycle;
