//! Error handling: an error type for configuration files and the parsing of
//! a network port read from one.
use vstd::prelude::*;
use crate::texto::{
    lema_parseo_entero_rango, mensaje_error_entero, parseo_entero, parsear_entero, recortado,
    recortar, texto_error_entero,
};

verus! {

/// The failures of reading a port from a file.
#[derive(Debug, PartialEq)]
pub enum ErrorPersonalizado {
    NoEncontrado(String),
    ParseoInvalido(String),
}

/// The text that describes an error.
pub open spec fn texto_error(e: ErrorPersonalizado) -> Seq<char> {
    match e {
        ErrorPersonalizado::NoEncontrado(m) => "Archivo no encontrado: "@ + m@,
        ErrorPersonalizado::ParseoInvalido(m) => "Formato numérico inválido: "@ + m@,
    }
}

impl ErrorPersonalizado {
    /// The human-readable description of the error.
    pub fn mensaje(&self) -> (r: String)
        ensures
            r@ == texto_error(*self),
    {
        match self {
            ErrorPersonalizado::NoEncontrado(m) => {
                let mut r = String::from_str("Archivo no encontrado: ");
                r.append(m.as_str());
                r
            },
            ErrorPersonalizado::ParseoInvalido(m) => {
                let mut r = String::from_str("Formato numérico inválido: ");
                r.append(m.as_str());
                r
            },
        }
    }
}

/// Reads a port number from the contents of a configuration file: the text
/// is trimmed and parsed as a `u16`; a parse failure becomes `ParseoInvalido`
/// with the message of the parse error.
pub fn parsear_puerto(contenido: &str) -> (r: Result<u16, ErrorPersonalizado>)
    ensures
        match parseo_entero(recortado(contenido@), 0, u16::MAX as int, false) {
            Ok(v) => r == Ok::<u16, ErrorPersonalizado>(v as u16),
            Err(e) => (r matches Err(ErrorPersonalizado::ParseoInvalido(m)) && m@
                == mensaje_error_entero(e)),
        },
{
    let limpio = recortar(contenido);
    proof {
        lema_parseo_entero_rango(limpio@, 0, u16::MAX as int, false);
    }
    match parsear_entero(limpio, 0, 65535, false) {
        Ok(v) => Ok(v as u16),
        Err(e) => Err(ErrorPersonalizado::ParseoInvalido(String::from_str(texto_error_entero(e)))),
    }
}

} // verus!
