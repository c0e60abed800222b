//! Error handling: a configuration error type and the validation of a
//! server port.
use vstd::prelude::*;
use crate::texto::{agregar_natural, digitos};

verus! {

/// The failures of loading a server configuration.
#[derive(Debug, PartialEq)]
pub enum ErrorConfiguracion {
    ArchivoInvalido(String),
    PuertoInvalido(u32),
    IoError(String),
}

/// The text that describes a configuration error.
pub open spec fn texto_error_configuracion(e: ErrorConfiguracion) -> Seq<char> {
    match e {
        ErrorConfiguracion::ArchivoInvalido(m) => "Error en archivo: "@ + m@,
        ErrorConfiguracion::PuertoInvalido(p) => "Puerto fuera de rango válido (1024-65535): "@
            + digitos(p as nat),
        ErrorConfiguracion::IoError(m) => "Error de E/S de bajo nivel: "@ + m@,
    }
}

impl ErrorConfiguracion {
    /// The human-readable description of the error.
    pub fn mensaje(&self) -> (r: String)
        ensures
            r@ == texto_error_configuracion(*self),
    {
        match self {
            ErrorConfiguracion::ArchivoInvalido(m) => {
                let mut r = String::from_str("Error en archivo: ");
                r.append(m.as_str());
                r
            },
            ErrorConfiguracion::PuertoInvalido(p) => {
                let mut r = String::from_str("Puerto fuera de rango válido (1024-65535): ");
                agregar_natural(&mut r, *p as u64);
                r
            },
            ErrorConfiguracion::IoError(m) => {
                let mut r = String::from_str("Error de E/S de bajo nivel: ");
                r.append(m.as_str());
                r
            },
        }
    }
}

/// Accepts a port in `1024..=65535` as a `u16`; rejects any other value
/// with `PuertoInvalido`.
pub fn validar_puerto_servidor(puerto: u32) -> (r: Result<u16, ErrorConfiguracion>)
    ensures
        1024 <= puerto <= 65535 ==> r == Ok::<u16, ErrorConfiguracion>(puerto as u16),
        !(1024 <= puerto <= 65535) ==> r == Err::<u16, ErrorConfiguracion>(
            ErrorConfiguracion::PuertoInvalido(puerto),
        ),
{
    if 1024 <= puerto && puerto <= 65535 {
        Ok(puerto as u16)
    } else {
        Err(ErrorConfiguracion::PuertoInvalido(puerto))
    }
}

} // verus!
