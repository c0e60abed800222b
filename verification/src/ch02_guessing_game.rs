//! The guessing game: drawing the secret number and judging each line the
//! player types.
use vstd::prelude::*;
use rand::Rng;
use crate::ex02_guessing_game::{comparar_suposicion, pista, validar_entrada};
use crate::texto::{lema_parseo_entero_rango, parseo_entero, recortado};

verus! {

/// The random number generator of the current thread.
#[verifier::external_type_specification]
#[verifier::external_body]
pub struct ExThreadRng(rand::rngs::ThreadRng);

/// `rand::thread_rng`: the generator of the current thread, seeded by the
/// operating system; nothing is claimed of it. On first use in a thread it
/// panics when the operating system's generator cannot seed it, which
/// depends on the machine and on no argument, so no `requires` can rule it
/// out.
#[verifier::external_body]
fn generador_del_hilo() -> rand::rngs::ThreadRng {
    rand::thread_rng()
}

/// `Rng::gen_range` on the inclusive range `min..=max`, which panics on an
/// empty range (hence `min <= max`): claims only that the value drawn lies
/// in the range, since which value comes out is chance. It also panics when
/// the thread's generator must reseed itself from the operating system and
/// cannot, which depends on the machine and on no argument.
#[verifier::external_body]
fn numero_en_rango(generador: &mut rand::rngs::ThreadRng, min: u32, max: u32) -> (r: u32)
    requires
        min <= max,
    ensures
        min <= r <= max,
{
    generador.gen_range(min..=max)
}

/// Draws the secret number, between 1 and 100 inclusive.
pub fn numero_secreto() -> (r: u32)
    ensures
        1 <= r <= 100,
{
    let mut generador = generador_del_hilo();
    numero_en_rango(&mut generador, 1, 100)
}

/// The verdict on one line typed by the player.
#[derive(Debug, Clone, Copy, PartialEq, Eq)]
pub enum Intento {
    /// The line is not a number.
    Invalido,
    /// A number, with its hint and whether it wins the game.
    Valido { suposicion: u32, pista: &'static str, gano: bool },
}

/// Judges one line against the secret number: a line that does not parse
/// as a `u32` once trimmed is invalid; otherwise the guess gets its hint,
/// and the game is won exactly when the guess equals the secret.
pub fn evaluar_intento(linea: &str, secreto: u32) -> (r: Intento)
    ensures
        match parseo_entero(recortado(linea@), 0, u32::MAX as int, false) {
            Ok(v) => (r matches Intento::Valido { suposicion, pista: p, gano } && suposicion == v
                && p@ == pista(suposicion, secreto) && gano == (suposicion == secreto)),
            Err(_) => r is Invalido,
        },
{
    proof {
        lema_parseo_entero_rango(recortado(linea@), 0, u32::MAX as int, false);
    }
    match validar_entrada(linea) {
        Ok(suposicion) => Intento::Valido {
            suposicion,
            pista: comparar_suposicion(suposicion, secreto),
            gano: suposicion == secreto,
        },
        Err(_) => Intento::Invalido,
    }
}

} // verus!
