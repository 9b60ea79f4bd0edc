//! The report catalogue: for each report its title, its subtitle, and the
//! chart it shows for the data loaded for it.

pub mod employee_type_pie;
pub mod heatmap_site_employee;
pub mod it_lead_time;
pub mod radar_lead_time;
pub mod sla_breach_circle;
pub mod state_counts_bar;
