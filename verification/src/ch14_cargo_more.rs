//! A small mathematics library with nested modules and a flattened public
//! interface.
pub mod matematicas;

pub use crate::ch14_cargo_more::matematicas::algebra::factorial;
pub use crate::ch14_cargo_more::matematicas::series::fibonacci;
