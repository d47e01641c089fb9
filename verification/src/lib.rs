//! Classifies log streams of a log group by the recency of their last logged
//! event and prepares the resulting counts for submission as custom metrics.
//!
//! The library holds the pure logic of the tool: the record type for a
//! fetched stream, the activity classifier with its three nested recency
//! windows, and the construction of the metric data points. Fetching the
//! streams from the logging service and submitting the data points are
//! network calls that live outside the library.

pub mod classify;
pub mod config;
pub mod metrics;
pub mod stream;
