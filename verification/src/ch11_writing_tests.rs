//! Functions written to be tested: rectangles, an addition, a greeting and
//! a guess that must lie between 1 and 100.
use vstd::prelude::*;

verus! {

/// A rectangle given by its width and height.
#[derive(Debug, PartialEq, Eq, Structural)]
pub struct Rectangulo {
    pub ancho: u32,
    pub alto: u32,
}

impl Rectangulo {
    /// Whether `self` holds `otro` entirely: strictly wider and taller.
    pub fn puede_contener(&self, otro: &Rectangulo) -> (r: bool)
        ensures
            r == (self.ancho > otro.ancho && self.alto > otro.alto),
    {
        self.ancho > otro.ancho && self.alto > otro.alto
    }

    /// The area; it must fit in `u32`.
    pub fn area(&self) -> (r: u32)
        requires
            self.ancho * self.alto <= u32::MAX,
        ensures
            r == self.ancho * self.alto,
    {
        self.ancho * self.alto
    }
}

/// `a + 2`; `a` must be at most `i32::MAX - 2`.
pub fn sumar_dos(a: i32) -> (r: i32)
    requires
        a <= i32::MAX - 2,
    ensures
        r == a + 2,
{
    a + 2
}

/// The greeting `¡Hola, {nombre}!`.
pub fn saludo_personalizado(nombre: &str) -> (r: String)
    ensures
        r@ == "¡Hola, "@ + nombre@ + "!"@,
{
    let mut r = String::from_str("¡Hola, ");
    r.append(nombre);
    r.append("!");
    r
}

/// A guess, which must lie between 1 and 100 inclusive, returned unchanged.
pub fn procesar_adivinanza(valor: i32) -> (r: i32)
    requires
        1 <= valor <= 100,
    ensures
        r == valor,
{
    valor
}

} // verus!
