//! Patterns: refutable `let`, destructuring of enums with ranges and
//! alternatives, `@` bindings and match guards.
use vstd::prelude::*;
use crate::texto::{agregar_entero, agregar_natural, digitos, texto_entero};

verus! {

/// A point in space.
#[derive(Debug, Clone, Copy, PartialEq, Eq, Structural)]
pub struct Punto3D {
    pub x: i32,
    pub y: i32,
    pub z: i32,
}

/// A message of the application.
#[derive(Debug, Clone, Copy, PartialEq, Eq, Structural)]
pub enum MensajeApp {
    Salir,
    Mover { x: i32, y: i32 },
    CambiarColorRGB(u8, u8, u8),
    MensajeID { id: u32 },
}

/// The id inside an optional value, or 0 when there is none.
pub fn extraer_id_valido(opt_id: Option<u32>) -> (r: u32)
    ensures
        r == match opt_id {
            Some(id) => id,
            None => 0u32,
        },
{
    let id = match opt_id {
        Some(id) => id,
        None => {
            return 0;
        },
    };
    id
}

/// The line reported for a message: the origin, the two pure primary
/// colours and the reserved ids 1 to 10 are told apart.
pub open spec fn linea_mensaje(m: MensajeApp) -> Seq<char> {
    match m {
        MensajeApp::Salir => "  Mensaje: Salir de la aplicación."@,
        MensajeApp::Mover { x, y } => if x == 0 && y == 0 {
            "  Mensaje: Regreso al punto de origen (0, 0)."@
        } else {
            "  Mensaje: Mover a ("@ + texto_entero(x as int) + ", "@ + texto_entero(y as int)
                + ")."@
        },
        MensajeApp::CambiarColorRGB(r, g, b) => if (r == 255 && g == 0 && b == 0) || (r == 0 && g
            == 255 && b == 0) {
            "  Mensaje: Color primario detectado (Rojo Puro o Verde Puro)."@
        } else {
            "  Mensaje: Color personalizado RGB("@ + digitos(r as nat) + ", "@ + digitos(g as nat)
                + ", "@ + digitos(b as nat) + ")."@
        },
        MensajeApp::MensajeID { id } => if 1 <= id && id <= 10 {
            "  Mensaje: ID prioritario en rango reservado (1-10): ID #"@ + digitos(id as nat)
        } else {
            "  Mensaje: ID estándar: #"@ + digitos(id as nat)
        },
    }
}

/// Describes a message by matching on its shape.
pub fn describir_mensaje(msg: MensajeApp) -> (r: String)
    ensures
        r@ == linea_mensaje(msg),
{
    match msg {
        MensajeApp::Salir => String::from_str("  Mensaje: Salir de la aplicación."),
        MensajeApp::Mover { x: 0, y: 0 } => String::from_str(
            "  Mensaje: Regreso al punto de origen (0, 0).",
        ),
        MensajeApp::Mover { x, y } => {
            let mut r = String::from_str("  Mensaje: Mover a (");
            agregar_entero(&mut r, x as i64);
            r.append(", ");
            agregar_entero(&mut r, y as i64);
            r.append(").");
            r
        },
        MensajeApp::CambiarColorRGB(255, 0, 0) | MensajeApp::CambiarColorRGB(0, 255, 0) => {
            String::from_str("  Mensaje: Color primario detectado (Rojo Puro o Verde Puro).")
        },
        MensajeApp::CambiarColorRGB(rr, g, b) => {
            let mut r = String::from_str("  Mensaje: Color personalizado RGB(");
            agregar_natural(&mut r, rr as u64);
            r.append(", ");
            agregar_natural(&mut r, g as u64);
            r.append(", ");
            agregar_natural(&mut r, b as u64);
            r.append(").");
            r
        },
        MensajeApp::MensajeID { id: id @ 1..=10 } => {
            let mut r = String::from_str("  Mensaje: ID prioritario en rango reservado (1-10): ID #");
            agregar_natural(&mut r, id as u64);
            r
        },
        MensajeApp::MensajeID { id } => {
            let mut r = String::from_str("  Mensaje: ID estándar: #");
            agregar_natural(&mut r, id as u64);
            r
        },
    }
}

/// The line reported for an optional number under a match guard: even
/// numbers are singled out only when the flag `es_par` is set.
pub open spec fn linea_numero(numero: Option<i32>, es_par: bool) -> Seq<char> {
    match numero {
        Some(x) => if x % 2 == 0 && es_par {
            "El número "@ + texto_entero(x as int) + " es par y el flag 'es_par' está activo."@
        } else {
            "Número recibido: "@ + texto_entero(x as int)
        },
        None => "Ningún número disponible."@,
    }
}

/// Describes an optional number, using a match guard.
pub fn describir_numero(numero: Option<i32>, es_par: bool) -> (r: String)
    ensures
        r@ == linea_numero(numero, es_par),
{
    match numero {
        Some(x) if x % 2 == 0 && es_par => {
            let mut r = String::from_str("El número ");
            agregar_entero(&mut r, x as i64);
            r.append(" es par y el flag 'es_par' está activo.");
            r
        },
        Some(x) => {
            let mut r = String::from_str("Número recibido: ");
            agregar_entero(&mut r, x as i64);
            r
        },
        None => String::from_str("Ningún número disponible."),
    }
}

/// A move is reported as a return to the origin exactly when both of its
/// coordinates are 0, and a colour as primary exactly when it is pure red
/// (255, 0, 0) or pure green (0, 255, 0).
pub proof fn casos_especiales_de_mensajes(x: i32, y: i32, r: u8, g: u8, b: u8)
    ensures
        linea_mensaje(MensajeApp::Mover { x, y }) == "  Mensaje: Regreso al punto de origen (0, 0)."@
            <==> (x == 0 && y == 0),
        linea_mensaje(MensajeApp::CambiarColorRGB(r, g, b))
            == "  Mensaje: Color primario detectado (Rojo Puro o Verde Puro)."@ <==> ((r == 255 && g
            == 0 && b == 0) || (r == 0 && g == 255 && b == 0)),
{
    reveal_strlit("  Mensaje: Regreso al punto de origen (0, 0).");
    reveal_strlit("  Mensaje: Mover a (");
    reveal_strlit("  Mensaje: Color primario detectado (Rojo Puro o Verde Puro).");
    reveal_strlit("  Mensaje: Color personalizado RGB(");
    if !(x == 0 && y == 0) {
        assert(linea_mensaje(MensajeApp::Mover { x, y })[11] == 'M');
        assert("  Mensaje: Regreso al punto de origen (0, 0)."@[11] == 'R');
    }
    if !((r == 255 && g == 0 && b == 0) || (r == 0 && g == 255 && b == 0)) {
        assert(linea_mensaje(MensajeApp::CambiarColorRGB(r, g, b))[18] == 'e');
        assert("  Mensaje: Color primario detectado (Rojo Puro o Verde Puro)."@[18] == 'r');
    }
}

} // verus!
