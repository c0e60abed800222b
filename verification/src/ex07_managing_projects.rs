//! Modules and privacy: a warehouse product with private stock, and the
//! sales module that processes orders against it.
pub mod almacen;
pub mod ventas;
