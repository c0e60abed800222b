//! The kitchen: dishes with a secret ingredient, and cleaning requests.
use vstd::prelude::*;
use super::mantenimiento::{limpiar_estacion, linea_limpieza};

verus! {

/// A main dish; its secret ingredient is private to the kitchen.
#[derive(Debug)]
pub struct PlatoPrincipal {
    pub nombre: String,
    ingrediente_secreto: String,
}

impl PlatoPrincipal {
    /// The name of the dish.
    pub closed spec fn vista_nombre(self) -> Seq<char> {
        self.nombre@
    }

    /// The secret ingredient.
    pub closed spec fn secreto(self) -> Seq<char> {
        self.ingrediente_secreto@
    }

    /// The name (the public field `nombre`, read through a method).
    pub fn nombre(&self) -> (r: &str)
        ensures
            r@ == self.vista_nombre(),
    {
        self.nombre.as_str()
    }

    /// A dish with its name and secret ingredient.
    pub fn nuevo(nombre: &str, secreto: &str) -> (r: Self)
        ensures
            r.vista_nombre() == nombre@,
            r.secreto() == secreto@,
    {
        Self { nombre: String::from_str(nombre), ingrediente_secreto: String::from_str(secreto) }
    }

    /// Cooks the dish, returning the log line, which names the secret ingredient.
    pub fn cocinar(&self) -> (r: String)
        ensures
            r@ == "[Cocina]: Preparando plato '"@ + self.vista_nombre() + "' con el toque secreto '"@
                + self.secreto() + "'."@,
    {
        let mut r = String::from_str("[Cocina]: Preparando plato '");
        r.append(self.nombre.as_str());
        r.append("' con el toque secreto '");
        r.append(self.ingrediente_secreto.as_str());
        r.append("'.");
        r
    }
}

/// Asks for a station cleaning: the kitchen's log line followed by the one
/// of the maintenance service that it calls.
pub fn solicitar_limpieza() -> (r: Vec<String>)
    ensures
        r@.len() == 2,
        r@[0]@ == "[Cocina]: Solicitando limpieza de estación."@,
        r@[1]@ == linea_limpieza(),
{
    let mut r: Vec<String> = Vec::new();
    r.push(String::from_str("[Cocina]: Solicitando limpieza de estación."));
    r.push(String::from_str(limpiar_estacion()));
    r
}

} // verus!
