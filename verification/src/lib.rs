//! Availability monitoring core: per-server statistics, the edge-triggered
//! alert rule, the shared state table and the text of alerts and reports.

pub mod alert;
pub mod clock;
pub mod query;
pub mod state;
pub mod stats;
pub mod table;
pub mod text;
