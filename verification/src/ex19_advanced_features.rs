//! Traits with associated types: an analyser that parses integers.
use vstd::prelude::*;
use crate::texto::{lema_parseo_entero_rango, parseo_entero, parsear_entero, recortado, recortar};

verus! {

/// An operation from an input type to an output type.
pub trait Analizador {
    type Entrada;

    type Salida;

    /// Analyses one input.
    fn analizar(&self, entrada: Self::Entrada) -> Self::Salida;
}

/// Parses 32-bit signed integers from text.
pub struct ParseadorEnteros;

/// The message returned for text that is not an `i32`.
pub open spec fn mensaje_no_entero() -> Seq<char> {
    "No se pudo parsear el valor como i32."@
}

impl Analizador for ParseadorEnteros {
    type Entrada = String;

    type Salida = Result<i32, &'static str>;

    /// Trims the text and parses it as an `i32`.
    fn analizar(&self, entrada: String) -> (r: Result<i32, &'static str>)
        ensures
            match parseo_entero(recortado(entrada@), i32::MIN as int, i32::MAX as int, true) {
                Ok(v) => r == Ok::<i32, &'static str>(v as i32),
                Err(_) => (r matches Err(m) && m@ == mensaje_no_entero()),
            },
    {
        let limpio = recortar(entrada.as_str());
        proof {
            lema_parseo_entero_rango(limpio@, i32::MIN as int, i32::MAX as int, true);
        }
        match parsear_entero(limpio, -2147483648, 2147483647, true) {
            Ok(v) => Ok(v as i32),
            Err(_) => Err("No se pudo parsear el valor como i32."),
        }
    }
}

} // verus!
