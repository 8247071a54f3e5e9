//! Fare computation for a small, fixed rail network: base fares, express
//! surcharges, seasonal adjustments and group / round-trip discounts.
pub mod amount;
pub mod application;
pub mod base;
pub mod departure_date;
pub mod discount;
pub mod error;
pub mod fare;
pub mod ride_section;
pub mod total_fare;
