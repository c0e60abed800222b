//! Physical stock of products.
use vstd::prelude::*;

verus! {

/// A product in the warehouse; its stock is private.
#[derive(Debug, Clone, PartialEq)]
pub struct Producto {
    pub nombre: String,
    cantidad: u32,
}

/// The message returned when the stock does not cover a sale.
pub open spec fn mensaje_sin_existencias() -> Seq<char> {
    "Existencias insuficientes en almacén."@
}

impl Producto {
    /// The units in stock.
    pub closed spec fn existencias(self) -> u32 {
        self.cantidad
    }

    /// The product's name.
    pub closed spec fn vista_nombre(self) -> Seq<char> {
        self.nombre@
    }

    /// The name (the public field `nombre`, read through a method).
    pub fn nombre(&self) -> (r: &str)
        ensures
            r@ == self.vista_nombre(),
    {
        self.nombre.as_str()
    }

    /// A product with its initial stock.
    pub fn nuevo(nombre: &str, cantidad: u32) -> (r: Self)
        ensures
            r.vista_nombre() == nombre@,
            r.existencias() == cantidad,
    {
        Self { nombre: String::from_str(nombre), cantidad }
    }

    /// The units in stock.
    pub fn consultar_existencias(&self) -> (r: u32)
        ensures
            r == self.existencias(),
    {
        self.cantidad
    }

    /// Removes `cantidad_venta` units after a sale; fails, leaving the stock
    /// unchanged, when fewer units are in stock.
    pub fn descontar_existencias(&mut self, cantidad_venta: u32) -> (r: Result<(), &'static str>)
        ensures
            final(self).vista_nombre() == old(self).vista_nombre(),
            old(self).existencias() >= cantidad_venta ==> r is Ok && final(self).existencias()
                == old(self).existencias() - cantidad_venta,
            old(self).existencias() < cantidad_venta ==> (r matches Err(m) && m@
                == mensaje_sin_existencias() && final(self).existencias() == old(self).existencias()),
    {
        if self.cantidad < cantidad_venta {
            return Err("Existencias insuficientes en almacén.");
        }
        self.cantidad = self.cantidad - cantidad_venta;
        Ok(())
    }
}

} // verus!
