//! Sales: processing customer orders against the warehouse.
use vstd::prelude::*;
use super::almacen::{Producto, mensaje_sin_existencias};

verus! {

/// Processes an order of `cantidad` units, taking them from the stock of
/// `producto`; fails, leaving the stock unchanged, when it does not suffice.
pub fn procesar_pedido(producto: &mut Producto, cantidad: u32) -> (r: Result<(), &'static str>)
    ensures
        final(producto).vista_nombre() == old(producto).vista_nombre(),
        old(producto).existencias() >= cantidad ==> r is Ok && final(producto).existencias()
            == old(producto).existencias() - cantidad,
        old(producto).existencias() < cantidad ==> (r matches Err(m) && m@
            == mensaje_sin_existencias() && final(producto).existencias()
            == old(producto).existencias()),
{
    producto.descontar_existencias(cantidad)
}

} // verus!
