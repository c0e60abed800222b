//! Generics, traits and lifetimes: mixing generic points, summaries with a
//! default heading, and the longer of two slices.
use vstd::prelude::*;
use crate::texto::{agregar_natural, digitos, longitud_bytes};

verus! {

/// A point whose coordinates may have different types.
#[derive(Debug)]
pub struct Punto<T, U> {
    pub x: T,
    pub y: U,
}

impl<T, U> Punto<T, U> {
    /// A point with the `x` of `self` and the `y` of `otro`.
    pub fn mezclar<V, W>(self, otro: Punto<V, W>) -> (r: Punto<T, W>)
        ensures
            r.x == self.x,
            r.y == otro.y,
    {
        Punto { x: self.x, y: otro.y }
    }
}

/// Something that can be summarised, with a heading built from the summary.
pub trait Resumible {
    /// The summary of `self`, as text.
    spec fn resumen(&self) -> Seq<char>;

    /// The summary of `self`.
    fn resumir(&self) -> (r: String)
        ensures
            r@ == self.resumen(),
    ;

    /// A notification heading; by default the general one.
    fn encabezado(&self) -> (r: String)
        default_ensures
            r@ == "(Notificación general): "@ + self.resumen(),
    {
        let mut r = String::from_str("(Notificación general): ");
        let resumen = self.resumir();
        r.append(resumen.as_str());
        r
    }
}

/// An article.
pub struct Articulo {
    pub titular: String,
    pub autor: String,
    pub contenido: String,
}

impl Resumible for Articulo {
    /// `'{titular}' por {autor} ({n} palabras)`, where `n` is the length of
    /// the content in bytes.
    open spec fn resumen(&self) -> Seq<char> {
        "'"@ + self.titular@ + "' por "@ + self.autor@ + " ("@ + digitos(
            longitud_bytes(self.contenido@) as usize as nat,
        ) + " palabras)"@
    }

    fn resumir(&self) -> (r: String) {
        let mut r = String::from_str("'");
        r.append(self.titular.as_str());
        r.append("' por ");
        r.append(self.autor.as_str());
        r.append(" (");
        agregar_natural(&mut r, self.contenido.as_str().len() as u64);
        r.append(" palabras)");
        r
    }
}

/// A post on a social network.
pub struct Tweet {
    pub usuario: String,
    pub mensaje: String,
}

impl Resumible for Tweet {
    /// `@{usuario}: {mensaje}`.
    open spec fn resumen(&self) -> Seq<char> {
        "@"@ + self.usuario@ + ": "@ + self.mensaje@
    }

    fn resumir(&self) -> (r: String) {
        let mut r = String::from_str("@");
        r.append(self.usuario.as_str());
        r.append(": ");
        r.append(self.mensaje.as_str());
        r
    }

    /// Tweets have their own live heading.
    fn encabezado(&self) -> (r: String)
        ensures
            r@ == "(Nuevo Tweet en Vivo): "@ + self.resumen(),
    {
        let mut r = String::from_str("(Nuevo Tweet en Vivo): ");
        let resumen = self.resumir();
        r.append(resumen.as_str());
        r
    }
}

/// The longer of `x` and `y` in bytes; `y` when they are equally long.
pub fn mayor_referencia<'a>(x: &'a str, y: &'a str) -> (r: &'a str)
    ensures
        r == (if x.len() > y.len() {
            x
        } else {
            y
        }),
{
    if x.len() > y.len() {
        x
    } else {
        y
    }
}

} // verus!
