//! Enums with payloads: network events, coins and optional numbers.
use vstd::prelude::*;
use crate::texto::{agregar_entero, agregar_natural, digitos, texto_entero};

verus! {

/// An event received from the network.
#[derive(Debug, Clone, PartialEq)]
pub enum MensajeRed {
    Desconectar,
    MoverCursor { x: i32, y: i32 },
    EscribirTexto(String),
    CambiarColor(u8, u8, u8),
}

/// The log line for an event.
pub open spec fn linea_evento(m: MensajeRed) -> Seq<char> {
    match m {
        MensajeRed::Desconectar => "[Evento Red]: Desconexión solicitada."@,
        MensajeRed::MoverCursor { x, y } => "[Evento Red]: Cursor movido a ("@ + texto_entero(
            x as int,
        ) + ", "@ + texto_entero(y as int) + ")."@,
        MensajeRed::EscribirTexto(t) => "[Evento Red]: Mensaje de chat recibido: \""@ + t@ + "\""@,
        MensajeRed::CambiarColor(r, g, b) => "[Evento Red]: Color de interfaz actualizado a RGB("@
            + digitos(r as nat) + ", "@ + digitos(g as nat) + ", "@ + digitos(b as nat) + ")."@,
    }
}

impl MensajeRed {
    /// The log line that handling this event prints.
    pub fn procesar(&self) -> (r: String)
        ensures
            r@ == linea_evento(*self),
    {
        match self {
            MensajeRed::Desconectar => String::from_str("[Evento Red]: Desconexión solicitada."),
            MensajeRed::MoverCursor { x, y } => {
                let mut r = String::from_str("[Evento Red]: Cursor movido a (");
                agregar_entero(&mut r, *x as i64);
                r.append(", ");
                agregar_entero(&mut r, *y as i64);
                r.append(").");
                r
            },
            MensajeRed::EscribirTexto(texto) => {
                let mut r = String::from_str("[Evento Red]: Mensaje de chat recibido: \"");
                r.append(texto.as_str());
                r.append("\"");
                r
            },
            MensajeRed::CambiarColor(rr, g, b) => {
                let mut r = String::from_str("[Evento Red]: Color de interfaz actualizado a RGB(");
                agregar_natural(&mut r, *rr as u64);
                r.append(", ");
                agregar_natural(&mut r, *g as u64);
                r.append(", ");
                agregar_natural(&mut r, *b as u64);
                r.append(").");
                r
            },
        }
    }
}

/// A state of the United States, for special-edition quarters.
#[derive(Debug, Clone, Copy, PartialEq, Eq, Structural)]
pub enum EstadoUs {
    Alabama,
    Alaska,
    California,
}

/// A US coin.
#[derive(Debug, Clone, Copy, PartialEq, Eq, Structural)]
pub enum Moneda {
    Centavo,
    Niquel,
    DiezCentavos,
    Cuarto(EstadoUs),
}

/// The value of a coin in cents.
pub fn valor_en_centavos(moneda: Moneda) -> (r: u32)
    ensures
        r == match moneda {
            Moneda::Centavo => 1u32,
            Moneda::Niquel => 5u32,
            Moneda::DiezCentavos => 10u32,
            Moneda::Cuarto(_) => 25u32,
        },
{
    match moneda {
        Moneda::Centavo => 1,
        Moneda::Niquel => 5,
        Moneda::DiezCentavos => 10,
        Moneda::Cuarto(_) => 25,
    }
}

/// Adds one to a present value (which must be below `i32::MAX`); `None`
/// stays `None`.
pub fn sumar_uno(opcion: Option<i32>) -> (r: Option<i32>)
    requires
        opcion matches Some(i) ==> i < i32::MAX,
    ensures
        match opcion {
            Some(i) => r == Some((i + 1) as i32),
            None => r is None,
        },
{
    match opcion {
        None => None,
        Some(i) => Some(i + 1),
    }
}

} // verus!
