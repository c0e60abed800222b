//! The restaurant: reception, kitchen, and a maintenance service that only
//! the restaurant itself can call.
pub mod recepcion;
pub mod cocina;
mod mantenimiento;
