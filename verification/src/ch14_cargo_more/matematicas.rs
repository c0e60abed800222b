//! Algebra and series.
pub mod algebra;
pub mod series;
