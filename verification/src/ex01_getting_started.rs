//! First exercises: a greeting, an addition and a parity test.
use vstd::prelude::*;

verus! {

/// The greeting `¡Hola, {nombre}!`.
pub fn generar_saludo(nombre: &str) -> (r: String)
    ensures
        r@ == "¡Hola, "@ + nombre@ + "!"@,
{
    let mut r = String::from_str("¡Hola, ");
    r.append(nombre);
    r.append("!");
    r
}

/// The sum of two integers; the sum must fit in `i32`.
pub fn sumar_numeros(a: i32, b: i32) -> (r: i32)
    requires
        i32::MIN <= a + b <= i32::MAX,
    ensures
        r == a + b,
{
    a + b
}

/// Whether `numero` is even.
pub fn es_par(numero: i32) -> (r: bool)
    ensures
        r == (numero % 2 == 0),
{
    numero % 2 == 0
}

} // verus!
