//! From the rows a query returned to the values a chart is built from.
//!
//! The host runs the queries. Counts come as whole numbers and leave as
//! thousandths.

pub mod counts;
pub mod heatmap_site_employee;
pub mod lead_time;
pub mod radar_metrics;
pub mod sla_breach_rate;
