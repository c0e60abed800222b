//! Credit-card number validation with the Luhn (mod 10) algorithm.
use vstd::prelude::*;
use crate::texto::{caracteres, es_digito, es_espacio_blanco, espacio_blanco, valor_digito};

verus! {

/// `s` without its white-space characters.
pub open spec fn sin_espacios(s: Seq<char>) -> Seq<char>
    decreases s.len(),
{
    if s.len() == 0 {
        seq![]
    } else if es_espacio_blanco(s.last()) {
        sin_espacios(s.drop_last())
    } else {
        sin_espacios(s.drop_last()).push(s.last())
    }
}

/// Every character of `d` is an ASCII digit.
pub open spec fn solo_digitos(d: Seq<char>) -> bool {
    forall|i: int| 0 <= i < d.len() ==> es_digito(#[trigger] d[i])
}

/// The contribution of one digit: doubled (minus 9 when above 9) on every
/// second position from the right.
pub open spec fn aporte_luhn(v: int, duplicar: bool) -> int {
    if duplicar {
        if 2 * v > 9 {
            2 * v - 9
        } else {
            2 * v
        }
    } else {
        v
    }
}

/// The Luhn sum of the digits `d`, read from the right; `duplicar` says
/// whether the last digit of `d` is one of the doubled ones.
pub open spec fn suma_luhn(d: Seq<char>, duplicar: bool) -> int
    decreases d.len(),
{
    if d.len() == 0 {
        0
    } else {
        aporte_luhn(valor_digito(d.last()), duplicar) + suma_luhn(d.drop_last(), !duplicar)
    }
}

/// The message for a number with no digits or with a character that is
/// neither a digit nor white space.
pub open spec fn mensaje_caracteres() -> Seq<char> {
    "El número contiene caracteres no permitidos."@
}

/// The message for a number whose Luhn sum is not a multiple of 10.
pub open spec fn mensaje_luhn() -> Seq<char> {
    "Número de tarjeta inválido según algoritmo de Luhn."@
}

/// The outcome of validating a card number: which message, if any.
pub open spec fn resultado_tarjeta(numero: Seq<char>) -> Option<Seq<char>> {
    let d = sin_espacios(numero);
    if d.len() == 0 || !solo_digitos(d) {
        Some(mensaje_caracteres())
    } else if suma_luhn(d, false) % 10 == 0 {
        None
    } else {
        Some(mensaje_luhn())
    }
}

/// Validates a card number: white space is ignored, the rest must be a
/// non-empty run of digits whose Luhn sum is a multiple of 10.
pub fn validar_tarjeta_credito(numero: &str) -> (r: Result<(), &'static str>)
    ensures
        match resultado_tarjeta(numero@) {
            None => r is Ok,
            Some(m) => (r matches Err(e) && e@ == m),
        },
{
    let v = caracteres(numero);
    let mut limpia: Vec<char> = Vec::new();
    let mut i: usize = 0;
    while i < v.len()
        invariant
            v@ == numero@,
            i <= v.len(),
            limpia@ == sin_espacios(numero@.take(i as int)),
        decreases v.len() - i,
    {
        assert(numero@.take(i + 1).drop_last() =~= numero@.take(i as int));
        if !espacio_blanco(v[i]) {
            limpia.push(v[i]);
        }
        i = i + 1;
    }
    assert(numero@.take(v.len() as int) =~= numero@);
    let ghost d = limpia@;
    let n = limpia.len();
    if n == 0 {
        return Err("El número contiene caracteres no permitidos.");
    }
    let mut j: usize = 0;
    while j < n
        invariant
            limpia@ == d,
            d == sin_espacios(numero@),
            n == d.len(),
            j <= n,
            forall|k: int| 0 <= k < j ==> es_digito(#[trigger] d[k]),
        decreases n - j,
    {
        if !('0' <= limpia[j] && limpia[j] <= '9') {
            assert(!es_digito(d[j as int]));
            return Err("El número contiene caracteres no permitidos.");
        }
        j = j + 1;
    }
    let mut suma: u32 = 0;
    let ghost mut parcial: int = 0;
    let mut duplicar = false;
    let mut k: usize = n;
    assert(d.take(n as int) =~= d);
    while k > 0
        invariant
            limpia@ == d,
            d == sin_espacios(numero@),
            n == d.len(),
            k <= n,
            solo_digitos(d),
            suma < 10,
            suma == parcial % 10,
            parcial >= 0,
            parcial + suma_luhn(d.take(k as int), duplicar) == suma_luhn(d, false),
        decreases k,
    {
        let c = limpia[k - 1];
        assert(es_digito(d[k - 1]));
        let valor: u32 = c as u32 - 48;
        let mut digito = valor;
        if duplicar {
            digito = digito * 2;
            if digito > 9 {
                digito = digito - 9;
            }
        }
        assert(d.take(k as int).drop_last() =~= d.take(k - 1));
        assert(d.take(k as int).last() == c);
        assert(digito == aporte_luhn(valor_digito(c), duplicar));
        proof {
            vstd::arithmetic::div_mod::lemma_add_mod_noop(parcial, digito as int, 10);
            vstd::arithmetic::div_mod::lemma_small_mod(digito as nat, 10);
            vstd::arithmetic::div_mod::lemma_small_mod(suma as nat, 10);
            parcial = parcial + digito;
        }
        suma = (suma + digito) % 10;
        duplicar = !duplicar;
        k = k - 1;
    }
    assert(d.take(0) =~= Seq::<char>::empty());
    if suma == 0 {
        Ok(())
    } else {
        Err("Número de tarjeta inválido según algoritmo de Luhn.")
    }
}

/// Only the characters that are not white space decide the outcome: two
/// numbers that agree on them are accepted or refused alike.
pub proof fn tarjeta_ignora_espacios(a: Seq<char>, b: Seq<char>)
    requires
        sin_espacios(a) == sin_espacios(b),
    ensures
        resultado_tarjeta(a) == resultado_tarjeta(b),
{
}

/// What a digit contributes to the Luhn sum: itself when it is not doubled,
/// and the sum of the decimal digits of its double when it is (so a doubled
/// 5 gives 1 + 0 = 1, a doubled 9 gives 1 + 8 = 9); every contribution is a
/// single digit.
pub proof fn aporte_es_suma_de_cifras(v: int)
    requires
        0 <= v <= 9,
    ensures
        aporte_luhn(v, false) == v,
        aporte_luhn(v, true) == (2 * v) / 10 + (2 * v) % 10,
        0 <= aporte_luhn(v, true) <= 9,
{
    assert(0 <= 2 * v <= 18);
    if 2 * v > 9 {
        assert((2 * v) / 10 == 1 && (2 * v) % 10 == 2 * v - 10);
    } else {
        assert((2 * v) / 10 == 0 && (2 * v) % 10 == 2 * v);
    }
}

/// Cleaning a card number keeps exactly its characters that are not white
/// space, in order.
pub proof fn sin_espacios_filtra(s: Seq<char>)
    ensures
        sin_espacios(s) == s.filter(|c: char| !es_espacio_blanco(c)),
    decreases s.len(),
{
    let pred = |c: char| !es_espacio_blanco(c);
    assert(s.filter(pred) == s.filter(|c: char| !es_espacio_blanco(c)));
    if s.len() > 0 {
        sin_espacios_filtra(s.drop_last());
        reveal_with_fuel(Seq::filter, 1);
        assert(s.filter(pred) == (if pred(s.last()) {
            s.drop_last().filter(pred).push(s.last())
        } else {
            s.drop_last().filter(pred)
        }));
    }
}

} // verus!
