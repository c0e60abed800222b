//! Advanced features: a point with addition and a textual form, a trait
//! with associated types, and functions passed as values.
use vstd::prelude::*;
use crate::texto::{
    agregar_entero, lema_parseo_entero_rango, parseo_entero, parsear_entero, recortado, recortar,
    texto_entero, TipoErrorEntero,
};

verus! {

/// A point with integer coordinates.
#[derive(Debug, Copy, Clone, PartialEq, Eq, Structural)]
pub struct Punto {
    pub x: i32,
    pub y: i32,
}

impl Punto {
    /// The coordinate-wise sum; each coordinate sum must fit in `i32`.
    pub fn sumar(self, otro: Punto) -> (r: Punto)
        requires
            i32::MIN <= self.x + otro.x <= i32::MAX,
            i32::MIN <= self.y + otro.y <= i32::MAX,
        ensures
            r.x == self.x + otro.x,
            r.y == self.y + otro.y,
    {
        Punto { x: self.x + otro.x, y: self.y + otro.y }
    }

    /// The point written as `(x, y)`.
    pub fn a_texto(&self) -> (r: String)
        ensures
            r@ == "("@ + texto_entero(self.x as int) + ", "@ + texto_entero(self.y as int) + ")"@,
    {
        let mut r = String::from_str("(");
        agregar_entero(&mut r, self.x as i64);
        r.append(", ");
        agregar_entero(&mut r, self.y as i64);
        r.append(")");
        r
    }
}

/// An operation from an input type to an output type.
pub trait Analizador {
    type Entrada;

    type Salida;

    /// Processes one input.
    fn procesar(&self, dato: Self::Entrada) -> Self::Salida;
}

/// Parses 32-bit signed integers, reporting why a text is not one.
pub struct ParseadorNumerico;

impl Analizador for ParseadorNumerico {
    type Entrada = String;

    type Salida = Result<i32, TipoErrorEntero>;

    /// Trims the text and parses it as an `i32`.
    fn procesar(&self, dato: String) -> (r: Result<i32, TipoErrorEntero>)
        ensures
            match parseo_entero(recortado(dato@), i32::MIN as int, i32::MAX as int, true) {
                Ok(v) => r == Ok::<i32, TipoErrorEntero>(v as i32),
                Err(e) => r == Err::<i32, TipoErrorEntero>(e),
            },
    {
        let limpio = recortar(dato.as_str());
        proof {
            lema_parseo_entero_rango(limpio@, i32::MIN as int, i32::MAX as int, true);
        }
        match parsear_entero(limpio, -2147483648, 2147483647, true) {
            Ok(v) => Ok(v as i32),
            Err(e) => Err(e),
        }
    }
}

/// Twice `x`, which must fit in `i32`.
pub fn duplicar(x: i32) -> (r: i32)
    requires
        i32::MIN <= 2 * x <= i32::MAX,
    ensures
        r == 2 * x,
{
    x * 2
}

/// Applies the function `f` to `arg`.
pub fn aplicar_transformacion<F: Fn(i32) -> i32>(f: F, arg: i32) -> (r: i32)
    requires
        call_requires(f, (arg,)),
    ensures
        call_ensures(f, (arg,), r),
{
    f(arg)
}

} // verus!
