//! Maintenance, private to the restaurant.
use vstd::prelude::*;

verus! {

/// The log line of a station cleaning.
pub open spec fn linea_limpieza() -> Seq<char> {
    "[Mantenimiento]: Estación desinfectada según normativa."@
}

/// Cleans a station, returning the log line.
pub(super) fn limpiar_estacion() -> (r: &'static str)
    ensures
        r@ == linea_limpieza(),
{
    "[Mantenimiento]: Estación desinfectada según normativa."
}

} // verus!
