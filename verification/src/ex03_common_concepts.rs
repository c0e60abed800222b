//! Temperature scales, integer statistics over a fixed array of readings,
//! and a multiplicative accumulator that stops before a `u8` overflow.
use vstd::prelude::*;
use crate::ex16_fearless_concurrency::suma;
use vstd::arithmetic::power::pow;

verus! {

/// A temperature scale.
#[derive(Debug, Clone, Copy, PartialEq, Eq, Structural)]
pub enum Escala {
    Celsius,
    Fahrenheit,
    Kelvin,
}

/// The scale that a letter names, in either case: `C`, `F` or `K`; no
/// other letter names one.
pub open spec fn escala_de(c: char) -> Option<Escala> {
    if c == 'C' || c == 'c' {
        Some(Escala::Celsius)
    } else if c == 'F' || c == 'f' {
        Some(Escala::Fahrenheit)
    } else if c == 'K' || c == 'k' {
        Some(Escala::Kelvin)
    } else {
        None
    }
}

/// The scale that `c` names, or `None` when it names none (a conversion
/// between scales refuses such a letter).
pub fn escala_temperatura(c: char) -> (r: Option<Escala>)
    ensures
        r == escala_de(c),
{
    match c {
        'C' | 'c' => Some(Escala::Celsius),
        'F' | 'f' => Some(Escala::Fahrenheit),
        'K' | 'k' => Some(Escala::Kelvin),
        _ => None,
    }
}

/// The quantity that every step of the accumulator decreases.
pub open spec fn medida_acumulador(acc: u8, m: u8) -> nat {
    if m == 0 {
        acc as nat
    } else {
        (256 - acc) as nat
    }
}

/// Starting from `acc`, multiply by `m` while the product fits in `u8` and
/// differs from the current value; the last value reached and the number of
/// multiplications performed.
pub open spec fn acumular(acc: u8, m: u8) -> (u8, nat)
    decreases medida_acumulador(acc, m),
{
    let sig = acc as int * m as int;
    if sig > 255 || sig == acc as int {
        (acc, 0)
    } else {
        proof {
            assert(0 <= sig <= 255);
            if m == 0 {
                assert(sig == 0);
            } else {
                assert(m >= 2 ==> acc as int * m as int >= acc as int * 2) by (nonlinear_arith);
                assert(sig > acc);
            }
        }
        let (v, k) = acumular(sig as u8, m);
        (v, k + 1)
    }
}

proof fn lema_acumular_acotado(acc: u8, m: u8)
    ensures
        acumular(acc, m).1 <= medida_acumulador(acc, m),
    decreases medida_acumulador(acc, m),
{
    let sig = acc as int * m as int;
    if !(sig > 255 || sig == acc as int) {
        if m == 0 {
            assert(sig == 0);
        } else {
            assert(m >= 2 ==> acc as int * m as int >= acc as int * 2) by (nonlinear_arith);
        }
        lema_acumular_acotado(sig as u8, m);
    }
}

proof fn lema_pow_paso(acc: int, m: int, n: nat)
    ensures
        acc * pow(m, n + 1) == (acc * m) * pow(m, n),
{
    reveal(pow);
    assert(pow(m, n + 1) == m * pow(m, n));
    let p = pow(m, n);
    assert(acc * (m * p) == (acc * m) * p) by (nonlinear_arith);
}

/// What the accumulator computes: after `k` multiplications (`k` the count
/// it reports) the value is `acc * m^k`; every one of those products fitted
/// in `u8` and changed the value; and it stops because the next product
/// would overflow `u8` or would leave the value unchanged.
pub proof fn acumulador_se_detiene(acc: u8, m: u8)
    ensures
        acumular(acc, m).0 == acc * pow(m as int, acumular(acc, m).1),
        acumular(acc, m).0 * m > 255 || acumular(acc, m).0 * m == acumular(acc, m).0,
        forall|j: nat|
            j < acumular(acc, m).1 ==> #[trigger] (acc * pow(m as int, j + 1)) <= 255 && acc * pow(
                m as int,
                j + 1,
            ) != acc * pow(m as int, j),
    decreases medida_acumulador(acc, m),
{
    reveal(pow);
    let sig = acc as int * m as int;
    assert(pow(m as int, 0) == 1);
    if sig > 255 || sig == acc as int {
    } else {
        if m == 0 {
            assert(sig == 0);
        } else {
            assert(m >= 2 ==> acc as int * m as int >= acc as int * 2) by (nonlinear_arith);
        }
        let s8 = sig as u8;
        acumulador_se_detiene(s8, m);
        let k = acumular(s8, m).1;
        assert(acumular(acc, m) == (acumular(s8, m).0, k + 1));
        lema_pow_paso(acc as int, m as int, k);
        assert forall|j: nat| j < k + 1 implies #[trigger] (acc * pow(m as int, j + 1)) <= 255 && acc
            * pow(m as int, j + 1) != acc * pow(m as int, j) by {
            lema_pow_paso(acc as int, m as int, j);
            assert(pow(m as int, 1) == m * pow(m as int, 0));
            if j > 0 {
                let i = (j - 1) as nat;
                lema_pow_paso(acc as int, m as int, i);
                assert(s8 * pow(m as int, i + 1) <= 255 && s8 * pow(m as int, i + 1) != s8 * pow(
                    m as int,
                    i,
                ));
            }
        }
    }
}

/// Multiplies `base` by `multiplicador` repeatedly, stopping before the
/// product would overflow `u8` or when it stops changing; returns the last
/// safe value and the number of multiplications done.
pub fn acumulador_con_limite(base: u8, multiplicador: u8) -> (r: (u8, usize))
    ensures
        r.0 == acumular(base, multiplicador).0,
        r.1 == acumular(base, multiplicador).1,
{
    let mut acumulador = base;
    let mut iteraciones: usize = 0;
    proof {
        lema_acumular_acotado(base, multiplicador);
    }
    loop
        invariant
            acumular(acumulador, multiplicador).0 == acumular(base, multiplicador).0,
            acumular(acumulador, multiplicador).1 + iteraciones == acumular(base, multiplicador).1,
            acumular(base, multiplicador).1 <= 256,
        ensures
            acumulador == acumular(base, multiplicador).0,
            iteraciones == acumular(base, multiplicador).1,
        decreases medida_acumulador(acumulador, multiplicador),
    {
        let producto = acumulador.checked_mul(multiplicador);
        if producto.is_none() {
            assert(acumular(acumulador, multiplicador) == (acumulador, 0nat));
            break;
        }
        let siguiente = producto.unwrap();
        if siguiente == acumulador {
            assert(acumular(acumulador, multiplicador) == (acumulador, 0nat));
            break;
        }
        proof {
            let sig = acumulador as int * multiplicador as int;
            if multiplicador == 0 {
                assert(sig == 0);
            } else {
                assert(multiplicador >= 2 ==> acumulador as int * multiplicador as int
                    >= acumulador as int * 2) by (nonlinear_arith);
            }
        }
        assert(acumular(acumulador, multiplicador) == (acumular(siguiente, multiplicador).0,
            acumular(siguiente, multiplicador).1 + 1));
        acumulador = siguiente;
        iteraciones = iteraciones + 1;
    }
    (acumulador, iteraciones)
}


/// How many elements of `s` are strictly above `umbral`.
pub open spec fn cuenta_mayores(s: Seq<i32>, umbral: i32) -> nat
    decreases s.len(),
{
    if s.len() == 0 {
        0
    } else {
        cuenta_mayores(s.drop_last(), umbral) + (if s.last() > umbral {
            1nat
        } else {
            0nat
        })
    }
}

/// The integer statistics of eight readings: the minimum, the maximum, the
/// sum (as `i64`), and how many readings are strictly above `umbral`.
pub fn resumen_lecturas(lecturas: [i32; 8], umbral: i32) -> (r: (i32, i32, i64, usize))
    ensures
        lecturas@.contains(r.0),
        forall|k: int| 0 <= k < 8 ==> r.0 <= lecturas@[k],
        lecturas@.contains(r.1),
        forall|k: int| 0 <= k < 8 ==> lecturas@[k] <= r.1,
        r.2 == suma(lecturas@),
        r.3 == cuenta_mayores(lecturas@, umbral),
{
    let mut minimo = lecturas[0];
    let mut maximo = lecturas[0];
    let mut sumatoria: i64 = 0;
    let mut criticas: usize = 0;
    let mut i: usize = 0;
    while i < 8
        invariant
            lecturas@.len() == 8,
            i <= 8,
            lecturas@.contains(minimo),
            lecturas@.contains(maximo),
            forall|k: int| 0 <= k < i ==> minimo <= lecturas@[k],
            forall|k: int| 0 <= k < i ==> lecturas@[k] <= maximo,
            sumatoria == suma(lecturas@.take(i as int)),
            i32::MIN * i <= sumatoria <= i32::MAX * i,
            criticas == cuenta_mayores(lecturas@.take(i as int), umbral),
            criticas <= i,
        decreases 8 - i,
    {
        let lectura = lecturas[i];
        assert(lecturas@.take(i + 1).drop_last() =~= lecturas@.take(i as int));
        assert(lecturas@.take(i + 1).last() == lectura);
        if lectura < minimo {
            minimo = lectura;
        }
        if lectura > maximo {
            maximo = lectura;
        }
        sumatoria = sumatoria + lectura as i64;
        if lectura > umbral {
            criticas = criticas + 1;
        }
        i = i + 1;
    }
    assert(lecturas@.take(8) =~= lecturas@);
    (minimo, maximo, sumatoria, criticas)
}

} // verus!
