//! Reception: assigning tables.
use vstd::prelude::*;

verus! {

/// Where a table stands.
#[derive(Debug, Clone, Copy, PartialEq, Eq, Structural)]
pub enum TipoMesa {
    Interior,
    Terraza,
}

/// The log line for assigning a table of the given kind.
pub open spec fn linea_mesa(tipo: TipoMesa) -> Seq<char> {
    "[Recepción]: Asignando mesa en área: "@ + match tipo {
        TipoMesa::Interior => "Interior"@,
        TipoMesa::Terraza => "Terraza"@,
    }
}

/// Assigns a table of the given kind, returning the log line.
pub fn asignar_mesa(tipo: &TipoMesa) -> (r: String)
    ensures
        r@ == linea_mesa(*tipo),
{
    let mut r = String::from_str("[Recepción]: Asignando mesa en área: ");
    match tipo {
        TipoMesa::Interior => r.append("Interior"),
        TipoMesa::Terraza => r.append("Terraza"),
    }
    r
}

} // verus!
