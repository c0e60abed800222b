//! Ownership exercises: reversing a `String` in place and borrowing the
//! first word of a text.
use vstd::prelude::*;
use crate::texto::{caracteres, texto_de_caracteres};

verus! {

/// `p` is the first word of `s`: the longest prefix of `s` without a space.
pub open spec fn es_primera_palabra(s: Seq<char>, p: Seq<char>) -> bool {
    &&& p.len() <= s.len()
    &&& p == s.take(p.len() as int)
    &&& forall|i: int| 0 <= i < p.len() ==> p[i] != ' '
    &&& p.len() == s.len() || s[p.len() as int] == ' '
}

/// Reverses the characters of `s` in place.
pub fn invertir_cadena_in_place(s: &mut String)
    ensures
        final(s)@ == old(s)@.reverse(),
{
    let mut v = caracteres(s.as_str());
    let ghost orig = v@;
    let n = v.len();
    if n > 0 {
        let mut izq: usize = 0;
        let mut der: usize = n - 1;
        while izq < der
            invariant
                n == v.len(),
                orig.len() == n,
                izq + der == n - 1,
                izq <= der + 1,
                forall|k: int| 0 <= k < izq ==> v@[k] == orig[n - 1 - k],
                forall|k: int| der < k < n ==> v@[k] == orig[n - 1 - k],
                forall|k: int| izq <= k <= der ==> v@[k] == orig[k],
            decreases der + 1 - izq,
        {
            let a = v[izq];
            let b = v[der];
            v.set(izq, b);
            v.set(der, a);
            izq = izq + 1;
            der = der - 1;
        }
    }
    assert(v@ =~= orig.reverse());
    *s = texto_de_caracteres(&v);
}

/// The first word of `s` (up to the first space), as a slice of `s`.
pub fn extraer_primera_palabra(s: &str) -> (r: &str)
    ensures
        es_primera_palabra(s@, r@),
{
    let v = caracteres(s);
    let mut i: usize = 0;
    while i < v.len()
        invariant
            v@ == s@,
            i <= v.len(),
            forall|k: int| 0 <= k < i ==> v@[k] != ' ',
        decreases v.len() - i,
    {
        if v[i] == ' ' {
            let r = s.substring_char(0, i);
            assert(r@ =~= s@.take(i as int));
            return r;
        }
        i = i + 1;
    }
    assert(s@.take(s@.len() as int) =~= s@);
    s
}

/// Reversing a text twice gives the text back.
pub proof fn invertir_dos_veces_restaura(s: Seq<char>)
    ensures
        s.reverse().reverse() == s,
{
    assert(s.reverse().reverse() =~= s);
}

} // verus!
