//! Structs with methods: rectangles and validated user accounts.
use vstd::prelude::*;
use crate::texto::contiene_caracter;

verus! {

/// An axis-aligned rectangle given by its width and height.
#[derive(Debug, Clone, Copy, PartialEq, Eq, Structural)]
pub struct Rectangulo {
    pub ancho: u32,
    pub alto: u32,
}

/// `a` holds `b` entirely, without rotation: strictly wider and taller.
pub open spec fn cabe_dentro(a: Rectangulo, b: Rectangulo) -> bool {
    a.ancho > b.ancho && a.alto > b.alto
}

impl Rectangulo {
    /// A rectangle with the given dimensions.
    pub fn nuevo(ancho: u32, alto: u32) -> (r: Self)
        ensures
            r.ancho == ancho,
            r.alto == alto,
    {
        Self { ancho, alto }
    }

    /// A square of side `lado`.
    pub fn cuadrado(lado: u32) -> (r: Self)
        ensures
            r.ancho == lado,
            r.alto == lado,
    {
        Self { ancho: lado, alto: lado }
    }

    /// The area; it must fit in `u32`.
    pub fn area(&self) -> (r: u32)
        requires
            self.ancho * self.alto <= u32::MAX,
        ensures
            r == self.ancho * self.alto,
    {
        self.ancho * self.alto
    }

    /// Whether `self` can hold `otro` entirely (strictly larger in both sides).
    pub fn puede_contener(&self, otro: &Rectangulo) -> (r: bool)
        ensures
            r == cabe_dentro(*self, *otro),
    {
        self.ancho > otro.ancho && self.alto > otro.alto
    }
}

/// Containment is asymmetric: if `a` holds `b`, then `b` does not hold `a`
/// (in particular no rectangle holds itself).
pub proof fn contencion_asimetrica(a: Rectangulo, b: Rectangulo)
    ensures
        cabe_dentro(a, b) ==> !cabe_dentro(b, a),
{
}

/// Containment is transitive: if `a` holds `b` and `b` holds `c`, `a` holds `c`.
pub proof fn contencion_transitiva(a: Rectangulo, b: Rectangulo, c: Rectangulo)
    ensures
        cabe_dentro(a, b) && cabe_dentro(b, c) ==> cabe_dentro(a, c),
{
}

/// Holding needs room on both sides: `a` holds `b` exactly when it is
/// strictly wider and strictly taller, so a rectangle never holds one of
/// the same height or the same width.
pub proof fn contencion_estricta(a: Rectangulo, b: Rectangulo)
    ensures
        cabe_dentro(a, b) <==> (a.ancho > b.ancho && a.alto > b.alto),
        a.alto == b.alto ==> !cabe_dentro(a, b),
        a.ancho == b.ancho ==> !cabe_dentro(a, b),
{
}

/// Growing the outer rectangle keeps what it held, and shrinking the inner
/// one keeps it held; no rectangle holds itself.
pub proof fn contencion_monotona(a: Rectangulo, b: Rectangulo, a2: Rectangulo, b2: Rectangulo)
    ensures
        cabe_dentro(a, b) && a2.ancho >= a.ancho && a2.alto >= a.alto && b2.ancho <= b.ancho
            && b2.alto <= b.alto ==> cabe_dentro(a2, b2),
        !cabe_dentro(a, a),
{
}

/// A user account: name, e-mail address and whether it is active.
#[derive(Debug, Clone, PartialEq)]
pub struct CuentaUsuario {
    pub nombre: String,
    pub correo: String,
    pub activo: bool,
}

/// The message returned when the e-mail address has no `@`.
pub open spec fn mensaje_correo_invalido() -> Seq<char> {
    "Formato de correo electrónico inválido."@
}

impl CuentaUsuario {
    /// A new active account; fails when `correo` contains no `@`.
    pub fn nuevo(nombre: &str, correo: &str) -> (r: Result<Self, &'static str>)
        ensures
            correo@.contains('@') ==> (r matches Ok(c) && c.nombre@ == nombre@ && c.correo@
                == correo@ && c.activo),
            !correo@.contains('@') ==> (r matches Err(m) && m@ == mensaje_correo_invalido()),
    {
        if !contiene_caracter(correo, '@') {
            return Err("Formato de correo electrónico inválido.");
        }
        Ok(Self {
            nombre: String::from_str(nombre),
            correo: String::from_str(correo),
            activo: true,
        })
    }
}

} // verus!
