//! Shipping orders to customers.
use vstd::prelude::*;
use crate::texto::{agregar_natural, digitos};

verus! {

/// Ships order `id`, returning the log line.
pub fn despachar_pedido(id: u64) -> (r: String)
    ensures
        r@ == "[Logística]: Despachando pedido #"@ + digitos(id as nat) + " hacia el cliente."@,
{
    let mut r = String::from_str("[Logística]: Despachando pedido #");
    agregar_natural(&mut r, id);
    r.append(" hacia el cliente.");
    r
}

} // verus!
