//! Ownership and borrowing: reading a length through a reference, changing
//! a `String` through a mutable reference, and slicing the first word.
use vstd::prelude::*;
use crate::ex04_understanding_ownership::{es_primera_palabra, extraer_primera_palabra};
use crate::texto::longitud_bytes;

verus! {

/// The length of `s` in bytes, read through a shared reference.
pub fn calcular_longitud(s: &String) -> (r: usize)
    ensures
        r == longitud_bytes(s@) as usize,
{
    s.as_str().len()
}

/// Appends `, Mundo Rustáceo` to `s` through a mutable reference.
pub fn agregar_sufijo(s: &mut String)
    ensures
        final(s)@ == old(s)@ + ", Mundo Rustáceo"@,
{
    s.append(", Mundo Rustáceo");
}

/// The first word of `s` (up to the first space), as a slice of `s`.
pub fn primera_palabra(s: &str) -> (r: &str)
    ensures
        es_primera_palabra(s@, r@),
{
    extraer_primera_palabra(s)
}

} // verus!
