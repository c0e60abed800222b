//! Pattern matching: drawing actions and access levels by user id.
use vstd::prelude::*;
use crate::texto::{agregar_entero, agregar_natural, digitos, texto_entero};

verus! {

/// A point on the plane.
#[derive(Debug, Clone, Copy, PartialEq, Eq, Structural)]
pub struct Coordenada {
    pub x: i32,
    pub y: i32,
}

/// A drawing command.
#[derive(Debug, Clone, PartialEq, Eq, Structural)]
pub enum Accion {
    Mover(Coordenada),
    Pintar { r: u8, g: u8, b: u8 },
    Ninguna,
}

/// The description of an action: the origin and pure red are named, other
/// moves and colours are written out.
pub open spec fn descripcion_accion(a: Accion) -> Seq<char> {
    match a {
        Accion::Mover(c) => if c.x == 0 && c.y == 0 {
            "Origen detectado."@
        } else {
            "Moviendo a posición física x="@ + texto_entero(c.x as int) + ", y="@ + texto_entero(
                c.y as int,
            ) + "."@
        },
        Accion::Pintar { r, g, b } => if r == 255 && g == 0 && b == 0 {
            "Pintando de color Rojo Puro."@
        } else {
            "Pintando con color RGB("@ + digitos(r as nat) + ", "@ + digitos(g as nat) + ", "@
                + digitos(b as nat) + ")."@
        },
        Accion::Ninguna => "Ninguna acción a procesar."@,
    }
}

/// Describes a drawing action.
pub fn procesar_accion(accion: Accion) -> (r: String)
    ensures
        r@ == descripcion_accion(accion),
{
    match accion {
        Accion::Mover(Coordenada { x, y }) => {
            if x == 0 && y == 0 {
                String::from_str("Origen detectado.")
            } else {
                let mut r = String::from_str("Moviendo a posición física x=");
                agregar_entero(&mut r, x as i64);
                r.append(", y=");
                agregar_entero(&mut r, y as i64);
                r.append(".");
                r
            }
        },
        Accion::Pintar { r, g, b } => {
            if r == 255 && g == 0 && b == 0 {
                String::from_str("Pintando de color Rojo Puro.")
            } else {
                let mut t = String::from_str("Pintando con color RGB(");
                agregar_natural(&mut t, r as u64);
                t.append(", ");
                agregar_natural(&mut t, g as u64);
                t.append(", ");
                agregar_natural(&mut t, b as u64);
                t.append(").");
                t
            }
        },
        Accion::Ninguna => String::from_str("Ninguna acción a procesar."),
    }
}

/// The access level of a user id: administrators 1 to 10, standard users
/// 11 to 100, anything else out of range.
pub open spec fn nivel_acceso(id: u32) -> Seq<char> {
    if 1 <= id && id <= 10 {
        "Acceso Administrador Especial: ID "@ + digitos(id as nat)
    } else if 11 <= id && id <= 100 {
        "Acceso Usuario Estándar."@
    } else {
        "ID de usuario fuera de rango."@
    }
}

/// Classifies a user id by access level.
pub fn clasificar_acceso(id: u32) -> (r: String)
    ensures
        r@ == nivel_acceso(id),
{
    if 1 <= id && id <= 10 {
        let mut r = String::from_str("Acceso Administrador Especial: ID ");
        agregar_natural(&mut r, id as u64);
        r
    } else if 11 <= id && id <= 100 {
        String::from_str("Acceso Usuario Estándar.")
    } else {
        String::from_str("ID de usuario fuera de rango.")
    }
}

/// A move is reported as the origin exactly when both of its coordinates
/// are 0; every other move is reported with both of its coordinates.
pub proof fn origen_solo_en_cero(c: Coordenada)
    ensures
        descripcion_accion(Accion::Mover(c)) == "Origen detectado."@ <==> (c.x == 0 && c.y == 0),
        !(c.x == 0 && c.y == 0) ==> descripcion_accion(Accion::Mover(c)) == "Moviendo a posición física x="@
            + texto_entero(c.x as int) + ", y="@ + texto_entero(c.y as int) + "."@,
{
    reveal_strlit("Origen detectado.");
    reveal_strlit("Moviendo a posición física x=");
    if !(c.x == 0 && c.y == 0) {
        let d = descripcion_accion(Accion::Mover(c));
        assert(d[0] == 'M');
        assert("Origen detectado."@[0] == 'O');
    }
}

/// A colour is named "Rojo Puro" exactly when it is (255, 0, 0); every
/// other colour is written out with its three components.
pub proof fn rojo_puro_solo_en_255_0_0(r: u8, g: u8, b: u8)
    ensures
        descripcion_accion(Accion::Pintar { r, g, b }) == "Pintando de color Rojo Puro."@ <==> (r
            == 255 && g == 0 && b == 0),
        !(r == 255 && g == 0 && b == 0) ==> descripcion_accion(Accion::Pintar { r, g, b })
            == "Pintando con color RGB("@ + digitos(r as nat) + ", "@ + digitos(g as nat) + ", "@
            + digitos(b as nat) + ")."@,
{
    reveal_strlit("Pintando de color Rojo Puro.");
    reveal_strlit("Pintando con color RGB(");
    if !(r == 255 && g == 0 && b == 0) {
        let d = descripcion_accion(Accion::Pintar { r, g, b });
        assert(d[9] == 'c');
        assert("Pintando de color Rojo Puro."@[9] == 'd');
    }
}

/// The three access levels split the ids: 1 to 10 are administrators,
/// named with their id; 11 to 100 are standard users; every other id
/// (0 and above 100) is out of range.
pub proof fn niveles_de_acceso(id: u32)
    ensures
        nivel_acceso(id) == "Acceso Usuario Estándar."@ <==> 11 <= id <= 100,
        nivel_acceso(id) == "ID de usuario fuera de rango."@ <==> (id == 0 || id > 100),
        1 <= id <= 10 ==> nivel_acceso(id) == "Acceso Administrador Especial: ID "@ + digitos(
            id as nat,
        ),
{
    reveal_strlit("Acceso Usuario Estándar.");
    reveal_strlit("ID de usuario fuera de rango.");
    reveal_strlit("Acceso Administrador Especial: ID ");
    let t = nivel_acceso(id);
    if 1 <= id <= 10 {
        assert(t[7] == 'A');
        assert("Acceso Usuario Estándar."@[7] == 'U');
        assert("ID de usuario fuera de rango."@[0] == 'I');
        assert(t[0] == 'A');
    } else if 11 <= id <= 100 {
        assert("ID de usuario fuera de rango."@[0] != "Acceso Usuario Estándar."@[0]);
    } else {
        assert("ID de usuario fuera de rango."@[0] != "Acceso Usuario Estándar."@[0]);
    }
}

} // verus!
