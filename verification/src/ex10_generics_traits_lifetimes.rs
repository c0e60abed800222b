//! Traits and lifetimes: summaries of news items and tweets, and the longer
//! (in characters) of two string slices.
use vstd::prelude::*;

verus! {

/// Something that can be summarised in one line of text.
pub trait Resumible {
    /// The summary of `self`.
    fn resumir(&self) -> String;
}

/// A news article.
#[derive(Debug, Clone)]
pub struct Noticia {
    pub titular: String,
    pub autor: String,
    pub contenido: String,
}

impl Resumible for Noticia {
    /// `{titular}: por {autor}`.
    fn resumir(&self) -> (r: String)
        ensures
            r@ == self.titular@ + ": por "@ + self.autor@,
    {
        let mut r = self.titular.clone();
        r.append(": por ");
        r.append(self.autor.as_str());
        r
    }
}

/// A post on a social network.
#[derive(Debug, Clone)]
pub struct Tweet {
    pub usuario: String,
    pub mensaje: String,
}

impl Resumible for Tweet {
    /// `@{usuario}: {mensaje}`.
    fn resumir(&self) -> (r: String)
        ensures
            r@ == "@"@ + self.usuario@ + ": "@ + self.mensaje@,
    {
        let mut r = String::from_str("@");
        r.append(self.usuario.as_str());
        r.append(": ");
        r.append(self.mensaje.as_str());
        r
    }
}

/// The one of `x` and `y` with more characters; `y` when they have as many.
pub fn mayor_con_lifetime<'a>(x: &'a str, y: &'a str) -> (r: &'a str)
    ensures
        r == (if x@.len() > y@.len() {
            x
        } else {
            y
        }),
{
    if x.unicode_len() > y.unicode_len() {
        x
    } else {
        y
    }
}

} // verus!
