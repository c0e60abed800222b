//! Modules, paths and privacy: a restaurant with a reception, a kitchen
//! and a private maintenance service, and a logistics module. Each action
//! returns the log line that it reports.
pub mod restaurante;
pub mod logistica;

pub use crate::ch07_managing_projects::logistica::envios::despachar_pedido;
