//! Logistics and shipping.
pub mod envios;
