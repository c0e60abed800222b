//! The pieces of the guessing game: comparing a guess, reading a number
//! typed by the user, and checking a range.
use vstd::prelude::*;
use crate::texto::{lema_parseo_entero_rango, parseo_entero, parsear_entero, recortado, recortar};

verus! {

/// The hint for `suposicion` against the secret: too small, too big, or won.
pub open spec fn pista(suposicion: u32, secreto: u32) -> Seq<char> {
    if suposicion < secreto {
        "¡Muy pequeño!"@
    } else if suposicion > secreto {
        "¡Muy grande!"@
    } else {
        "¡Ganaste!"@
    }
}

/// Compares the guess with the secret number and returns the hint.
pub fn comparar_suposicion(suposicion: u32, secreto: u32) -> (r: &'static str)
    ensures
        r@ == pista(suposicion, secreto),
{
    if suposicion < secreto {
        "¡Muy pequeño!"
    } else if suposicion > secreto {
        "¡Muy grande!"
    } else {
        "¡Ganaste!"
    }
}

/// The message returned for input that is not a number.
pub open spec fn mensaje_entrada_invalida() -> Seq<char> {
    "Por favor, introduce un número válido."@
}

/// Trims `entrada` and parses it as a `u32`; any parse failure gives the
/// message `Por favor, introduce un número válido.`.
pub fn validar_entrada(entrada: &str) -> (r: Result<u32, &'static str>)
    ensures
        match parseo_entero(recortado(entrada@), 0, u32::MAX as int, false) {
            Ok(v) => r == Ok::<u32, &'static str>(v as u32),
            Err(_) => r matches Err(m) && m@ == mensaje_entrada_invalida(),
        },
{
    let limpio = recortar(entrada);
    proof {
        lema_parseo_entero_rango(limpio@, 0, u32::MAX as int, false);
    }
    match parsear_entero(limpio, 0, 4294967295, false) {
        Ok(v) => Ok(v as u32),
        Err(_) => Err("Por favor, introduce un número válido."),
    }
}

/// Whether `numero` lies in the inclusive range `min..=max`.
pub fn esta_en_rango(numero: u32, min: u32, max: u32) -> (r: bool)
    ensures
        r == (min <= numero && numero <= max),
{
    min <= numero && numero <= max
}

/// The game is won exactly when the guess equals the secret: the winning
/// hint is given for that guess and for no other.
pub proof fn pista_ganadora(suposicion: u32, secreto: u32)
    ensures
        pista(suposicion, secreto) == "¡Ganaste!"@ <==> suposicion == secreto,
{
    reveal_strlit("¡Ganaste!");
    reveal_strlit("¡Muy pequeño!");
    reveal_strlit("¡Muy grande!");
    assert("¡Ganaste!"@[1] != "¡Muy pequeño!"@[1]);
    assert("¡Ganaste!"@[1] != "¡Muy grande!"@[1]);
}

/// The hint says which way the guess is off: too small exactly when the
/// guess is below the secret, too big exactly when it is above.
pub proof fn pista_orienta(suposicion: u32, secreto: u32)
    ensures
        pista(suposicion, secreto) == "¡Muy pequeño!"@ <==> suposicion < secreto,
        pista(suposicion, secreto) == "¡Muy grande!"@ <==> suposicion > secreto,
{
    reveal_strlit("¡Ganaste!");
    reveal_strlit("¡Muy pequeño!");
    reveal_strlit("¡Muy grande!");
    assert("¡Ganaste!"@[1] != "¡Muy pequeño!"@[1]);
    assert("¡Ganaste!"@[1] != "¡Muy grande!"@[1]);
    assert("¡Muy grande!"@[5] != "¡Muy pequeño!"@[5]);
}

} // verus!
