//! Enums and matching: network messages and the sum of optional values.
use vstd::prelude::*;
use crate::texto::{agregar_natural, digitos};

verus! {

/// A command received on a network socket.
#[derive(Debug, Clone, PartialEq)]
pub enum MensajeRed {
    Conectar,
    Desconectar,
    Datos(Vec<u8>),
}

/// The description of a message: the number of bytes for data messages.
pub open spec fn descripcion_mensaje(m: MensajeRed) -> Seq<char> {
    match m {
        MensajeRed::Conectar => "Conexión establecida."@,
        MensajeRed::Desconectar => "Conexión cerrada."@,
        MensajeRed::Datos(b) => "Recibidos "@ + digitos(b@.len()) + " bytes de datos."@,
    }
}

impl MensajeRed {
    /// A readable description of the message.
    pub fn procesar(&self) -> (r: String)
        ensures
            r@ == descripcion_mensaje(*self),
    {
        match self {
            MensajeRed::Conectar => String::from_str("Conexión establecida."),
            MensajeRed::Desconectar => String::from_str("Conexión cerrada."),
            MensajeRed::Datos(buffer) => {
                let mut r = String::from_str("Recibidos ");
                agregar_natural(&mut r, buffer.len() as u64);
                r.append(" bytes de datos.");
                r
            },
        }
    }
}

/// The sum of the present values: both, one, or none.
pub open spec fn suma_opcional(a: Option<i32>, b: Option<i32>) -> Option<int> {
    match (a, b) {
        (Some(x), Some(y)) => Some(x + y),
        (Some(x), None) => Some(x as int),
        (None, Some(y)) => Some(y as int),
        (None, None) => None,
    }
}

/// Adds two optional values: `Some(a + b)` when both are present, the
/// present one when only one is, `None` when neither is. A sum of two
/// present values must fit in `i32`.
pub fn sumar_opcionales(a: Option<i32>, b: Option<i32>) -> (r: Option<i32>)
    requires
        a is Some && b is Some ==> i32::MIN <= a->0 + b->0 <= i32::MAX,
    ensures
        match suma_opcional(a, b) {
            Some(v) => r == Some(v as i32),
            None => r is None,
        },
{
    match (a, b) {
        (Some(x), Some(y)) => Some(x + y),
        (Some(x), None) => Some(x),
        (None, Some(y)) => Some(y),
        (None, None) => None,
    }
}

/// The optional sum does not depend on the order of its arguments.
pub proof fn suma_opcional_conmutativa(a: Option<i32>, b: Option<i32>)
    ensures
        suma_opcional(a, b) == suma_opcional(b, a),
{
}

} // verus!
