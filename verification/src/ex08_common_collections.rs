//! Collections: the integer parts of the mean, median and mode of a list
//! (its sum, its sorted order with the central elements, and a mode), and
//! the frequency of cleaned, lower-cased words.
use vstd::prelude::*;
use crate::ex16_fearless_concurrency::suma;
use crate::texto::{
    a_minusculas, agregar_caracter, alfanumerico, dividir_palabras, es_alfanumerico, iguales,
    minusculas, palabras, vistas, caracteres,
};

verus! {

/// The alphanumeric characters of `w`, in order.
pub open spec fn solo_alfanumericos(w: Seq<char>) -> Seq<char>
    decreases w.len(),
{
    if w.len() == 0 {
        seq![]
    } else if alfanumerico(w.last()) {
        solo_alfanumericos(w.drop_last()).push(w.last())
    } else {
        solo_alfanumericos(w.drop_last())
    }
}

/// A word cleaned of punctuation and lower-cased.
pub open spec fn limpiar(w: Seq<char>) -> Seq<char> {
    minusculas(solo_alfanumericos(w))
}

/// Cleaning a word keeps exactly its characters `c` for which
/// `char::is_alphanumeric(c)` holds (letters and numerals alike, digits
/// included), in their order, and nothing else; the cleaned word is then
/// lower-cased.
pub proof fn limpiar_conserva_alfanumericos(w: Seq<char>)
    ensures
        solo_alfanumericos(w) == w.filter(|c: char| alfanumerico(c)),
        limpiar(w) == minusculas(w.filter(|c: char| alfanumerico(c))),
    decreases w.len(),
{
    let pred = |c: char| alfanumerico(c);
    assert(w.filter(pred) == w.filter(|c: char| alfanumerico(c)));
    if w.len() > 0 {
        limpiar_conserva_alfanumericos(w.drop_last());
        reveal_with_fuel(Seq::filter, 1);
        assert(w.filter(pred) == (if pred(w.last()) {
            w.drop_last().filter(pred).push(w.last())
        } else {
            w.drop_last().filter(pred)
        }));
    }
}

/// The cleaned words of `ws` that are not empty, in order.
pub open spec fn normalizadas(ws: Seq<Seq<char>>) -> Seq<Seq<char>>
    decreases ws.len(),
{
    if ws.len() == 0 {
        seq![]
    } else if limpiar(ws.last()).len() > 0 {
        normalizadas(ws.drop_last()).push(limpiar(ws.last()))
    } else {
        normalizadas(ws.drop_last())
    }
}

/// How many times `w` occurs in `ws`.
pub open spec fn ocurrencias(ws: Seq<Seq<char>>, w: Seq<char>) -> nat
    decreases ws.len(),
{
    if ws.len() == 0 {
        0
    } else {
        ocurrencias(ws.drop_last(), w) + (if ws.last() == w {
            1nat
        } else {
            0nat
        })
    }
}

proof fn lema_ocurrencias_acotadas(ws: Seq<Seq<char>>, w: Seq<char>)
    ensures
        ocurrencias(ws, w) <= ws.len(),
    decreases ws.len(),
{
    if ws.len() > 0 {
        lema_ocurrencias_acotadas(ws.drop_last(), w);
    }
}

proof fn lema_normalizadas_acotadas(ws: Seq<Seq<char>>)
    ensures
        normalizadas(ws).len() <= ws.len(),
    decreases ws.len(),
{
    if ws.len() > 0 {
        lema_normalizadas_acotadas(ws.drop_last());
    }
}

/// The frequency of each distinct cleaned word of a text.
pub struct FrecuenciaPalabras {
    claves: Vec<String>,
    conteos: Vec<usize>,
}

impl FrecuenciaPalabras {
    /// Keys and counts pair up, keys are distinct and every count is positive.
    #[verifier::type_invariant]
    spec fn bien_formada(self) -> bool {
        &&& self.claves.len() == self.conteos.len()
        &&& forall|i: int, j: int|
            0 <= i < j < self.claves.len() ==> self.claves@[i]@ != self.claves@[j]@
        &&& forall|i: int| 0 <= i < self.conteos.len() ==> self.conteos@[i] > 0
    }

    /// `w` is one of the counted words.
    pub closed spec fn tiene(self, w: Seq<char>) -> bool {
        exists|i: int| 0 <= i < self.claves.len() && self.claves@[i]@ == w
    }

    /// The number of times `w` was counted (0 for words never seen).
    pub closed spec fn frecuencia(self, w: Seq<char>) -> nat {
        if self.tiene(w) {
            self.conteos@[choose|i: int| 0 <= i < self.claves.len() && self.claves@[i]@ == w] as nat
        } else {
            0
        }
    }

    /// The distinct words that were counted: those with a positive frequency.
    pub open spec fn palabras_distintas(self) -> Set<Seq<char>> {
        Set::new(|w: Seq<char>| self.frecuencia(w) > 0)
    }

    /// The views of the stored keys.
    closed spec fn vistas_claves(self) -> Seq<Seq<char>> {
        self.claves@.map_values(|c: String| c@)
    }

    proof fn lema_distintas(self)
        requires
            self.bien_formada(),
        ensures
            self.palabras_distintas() =~= self.vistas_claves().to_set(),
            self.vistas_claves().no_duplicates(),
            self.vistas_claves().len() == self.claves.len(),
    {
        let vk = self.vistas_claves();
        assert forall|w: Seq<char>| self.palabras_distintas().contains(w) <==> vk.to_set().contains(w) by {
            if self.tiene(w) {
                let i = choose|i: int| 0 <= i < self.claves.len() && self.claves@[i]@ == w;
                assert(vk[i] == w);
            }
            if vk.contains(w) {
                let i = choose|i: int| 0 <= i < vk.len() && vk[i] == w;
                assert(self.claves@[i]@ == w);
            }
        }
        assert forall|i: int, j: int| 0 <= i < vk.len() && 0 <= j < vk.len() && i != j implies vk[i]
            != vk[j] by {
            if i < j {
                assert(self.claves@[i]@ != self.claves@[j]@);
            } else {
                assert(self.claves@[j]@ != self.claves@[i]@);
            }
        }
    }

    /// How many distinct words were counted.
    pub fn len(&self) -> (r: usize)
        ensures
            r == self.palabras_distintas().len(),
    {
        proof {
            use_type_invariant(self);
            self.lema_distintas();
            self.vistas_claves().unique_seq_to_set();
        }
        self.claves.len()
    }

    /// The distinct words that were counted, each once, in the order in
    /// which they first appeared.
    pub fn claves(&self) -> (r: Vec<&str>)
        ensures
            r.len() == self.palabras_distintas().len(),
            forall|i: int, j: int| 0 <= i < j < r.len() ==> r@[i]@ != r@[j]@,
            forall|w: Seq<char>| self.frecuencia(w) > 0 <==> vistas(r@).contains(w),
    {
        proof {
            use_type_invariant(self);
            self.lema_distintas();
            self.vistas_claves().unique_seq_to_set();
        }
        let mut r: Vec<&str> = Vec::new();
        let mut i: usize = 0;
        while i < self.claves.len()
            invariant
                i <= self.claves.len(),
                vistas(r@) == self.vistas_claves().take(i as int),
            decreases self.claves.len() - i,
        {
            let ghost antes = r@;
            let clave = self.claves[i].as_str();
            assert(clave@ == self.vistas_claves()[i as int]);
            r.push(clave);
            assert(vistas(r@) =~= vistas(antes).push(clave@));
            assert(self.vistas_claves().take(i + 1) =~= self.vistas_claves().take(i as int).push(
                self.vistas_claves()[i as int],
            ));
            i = i + 1;
        }
        assert(self.vistas_claves().take(self.claves.len() as int) =~= self.vistas_claves());
        proof {
            let vk = self.vistas_claves();
            assert forall|a: int, b: int| 0 <= a < b < r.len() implies r@[a]@ != r@[b]@ by {
                assert(vistas(r@)[a] == vk[a] && vistas(r@)[b] == vk[b]);
            }
            assert forall|w: Seq<char>| self.frecuencia(w) > 0 <==> vistas(r@).contains(w) by {
                assert(self.palabras_distintas().contains(w) <==> vk.to_set().contains(w));
            }
        }
        r
    }

    /// The count of `palabra`, or `None` for a word that was never seen.
    pub fn get(&self, palabra: &str) -> (r: Option<&usize>)
        ensures
            match r {
                Some(c) => *c == self.frecuencia(palabra@) && *c > 0,
                None => self.frecuencia(palabra@) == 0,
            },
    {
        proof {
            use_type_invariant(self);
        }
        let mut j: usize = 0;
        while j < self.claves.len()
            invariant
                self.claves.len() == self.conteos.len(),
                j <= self.claves.len(),
                forall|k: int| 0 <= k < j ==> self.claves@[k]@ != palabra@,
                forall|a: int, b: int|
                    0 <= a < b < self.claves.len() ==> self.claves@[a]@ != self.claves@[b]@,
                forall|a: int| 0 <= a < self.conteos.len() ==> self.conteos@[a] > 0,
            decreases self.claves.len() - j,
        {
            if iguales(self.claves[j].as_str(), palabra) {
                proof {
                    let i = choose|i: int|
                        0 <= i < self.claves.len() && self.claves@[i]@ == palabra@;
                    assert(self.claves@[j as int]@ == palabra@);
                    assert(i == j) by {
                        if i != j {
                            if i < j {
                                assert(self.claves@[i]@ != self.claves@[j as int]@);
                            } else {
                                assert(self.claves@[j as int]@ != self.claves@[i]@);
                            }
                        }
                    }
                }
                return Some(&self.conteos[j]);
            }
            j = j + 1;
        }
        None
    }
}

fn limpiar_palabra(palabra: &str) -> (r: String)
    ensures
        r@ == limpiar(palabra@),
{
    let v = caracteres(palabra);
    let mut solo = String::new();
    let mut i: usize = 0;
    while i < v.len()
        invariant
            v@ == palabra@,
            i <= v.len(),
            solo@ == solo_alfanumericos(palabra@.take(i as int)),
        decreases v.len() - i,
    {
        assert(palabra@.take(i + 1).drop_last() =~= palabra@.take(i as int));
        assert(palabra@.take(i + 1).last() == v@[i as int]);
        if es_alfanumerico(v[i]) {
            agregar_caracter(&mut solo, v[i]);
        }
        i = i + 1;
    }
    assert(palabra@.take(v.len() as int) =~= palabra@);
    a_minusculas(solo.as_str())
}

/// Splits `texto` at white space, cleans each word of non-alphanumeric
/// characters, lower-cases it, and counts the words that are not empty.
pub fn contar_frecuencia_palabras(texto: &str) -> (r: FrecuenciaPalabras)
    ensures
        forall|w: Seq<char>| r.frecuencia(w) == ocurrencias(normalizadas(palabras(texto@)), w),
{
    let ws = dividir_palabras(texto);
    let ghost todas = vistas(ws@);
    let mut claves: Vec<String> = Vec::new();
    let mut conteos: Vec<usize> = Vec::new();
    let mut k: usize = 0;
    while k < ws.len()
        invariant
            todas == vistas(ws@),
            todas.len() == ws.len(),
            k <= ws.len(),
            claves.len() == conteos.len(),
            forall|i: int, j: int| 0 <= i < j < claves.len() ==> claves@[i]@ != claves@[j]@,
            forall|i: int|
                0 <= i < conteos.len() ==> conteos@[i] == ocurrencias(
                    normalizadas(todas.take(k as int)),
                    claves@[i]@,
                ) && conteos@[i] > 0 && conteos@[i] <= k,
            forall|w: Seq<char>|
                ocurrencias(normalizadas(todas.take(k as int)), w) > 0 ==> exists|i: int|
                    0 <= i < claves.len() && claves@[i]@ == w,
        decreases ws.len() - k,
    {
        let ghost previas = normalizadas(todas.take(k as int));
        assert(todas.take(k + 1).drop_last() =~= todas.take(k as int));
        assert(todas.take(k + 1).last() == ws@[k as int]@);
        let limpia = limpiar_palabra(ws[k]);
        let ghost nuevas = normalizadas(todas.take(k + 1));
        if !limpia.as_str().is_empty() {
            proof {
                assert(limpia@.len() > 0);
                assert(nuevas == previas.push(limpia@));
                assert forall|w: Seq<char>| #[trigger] ocurrencias(nuevas, w) == ocurrencias(previas, w)
                    + (if w == limpia@ { 1nat } else { 0nat }) by {
                    assert(nuevas.drop_last() =~= previas);
                }
                lema_ocurrencias_acotadas(previas, limpia@);
                lema_normalizadas_acotadas(todas.take(k as int));
            }
            let mut j: usize = 0;
            while j < claves.len() && !(claves[j] == limpia)
                invariant
                    claves.len() == conteos.len(),
                    j <= claves.len(),
                    forall|i: int| 0 <= i < j ==> claves@[i]@ != limpia@,
                decreases claves.len() - j,
            {
                j = j + 1;
            }
            let ghost claves_antes = claves@;
            let ghost conteos_antes = conteos@;
            if j < claves.len() {
                let c = conteos[j];
                conteos.set(j, c + 1);
                proof {
                    assert(claves@[j as int]@ == limpia@);
                    assert forall|i: int| 0 <= i < conteos.len() implies conteos@[i]
                        == ocurrencias(nuevas, claves@[i]@) && conteos@[i] > 0 && conteos@[i]
                        <= k + 1 by {
                        assert(ocurrencias(nuevas, claves@[i]@) == ocurrencias(previas, claves@[i]@)
                            + (if claves@[i]@ == limpia@ { 1nat } else { 0nat }));
                        if i != j {
                            if i < j {
                                assert(claves@[i]@ != claves@[j as int]@);
                            } else {
                                assert(claves@[j as int]@ != claves@[i]@);
                            }
                        }
                    }
                    assert forall|w: Seq<char>| ocurrencias(nuevas, w) > 0 implies exists|i: int|
                        0 <= i < claves.len() && claves@[i]@ == w by {
                        assert(ocurrencias(nuevas, w) == ocurrencias(previas, w) + (if w == limpia@ {
                            1nat
                        } else {
                            0nat
                        }));
                    }
                }
            } else {
                proof {
                    if ocurrencias(previas, limpia@) > 0 {
                        let i = choose|i: int| 0 <= i < claves.len() && claves@[i]@ == limpia@;
                        assert(claves@[i]@ != limpia@);
                    }
                }
                claves.push(limpia);
                conteos.push(1);
                proof {
                    assert forall|i: int| 0 <= i < conteos.len() implies conteos@[i]
                        == ocurrencias(nuevas, claves@[i]@) && conteos@[i] > 0 && conteos@[i]
                        <= k + 1 by {
                        assert(ocurrencias(nuevas, claves@[i]@) == ocurrencias(previas, claves@[i]@)
                            + (if claves@[i]@ == limpia@ { 1nat } else { 0nat }));
                        if i < claves_antes.len() {
                            assert(claves@[i] == claves_antes[i]);
                        }
                    }
                    assert forall|a: int, b: int| 0 <= a < b < claves.len() implies claves@[a]@
                        != claves@[b]@ by {
                        if b == claves_antes.len() {
                            assert(claves@[a] == claves_antes[a]);
                        }
                    }
                    assert forall|w: Seq<char>| ocurrencias(nuevas, w) > 0 implies exists|i: int|
                        0 <= i < claves.len() && claves@[i]@ == w by {
                        assert(ocurrencias(nuevas, w) == ocurrencias(previas, w) + (if w == limpia@ {
                            1nat
                        } else {
                            0nat
                        }));
                        if w == limpia@ {
                            assert(claves@[claves_antes.len() as int]@ == w);
                        } else {
                            let i = choose|i: int| 0 <= i < claves_antes.len() && claves_antes[i]@ == w;
                            assert(claves@[i] == claves_antes[i]);
                        }
                    }
                }
            }
        } else {
            proof {
                assert(nuevas == previas);
            }
        }
        k = k + 1;
    }
    assert(todas.take(ws.len() as int) =~= todas);
    let r = FrecuenciaPalabras { claves, conteos };
    r
}


/// How many times `x` occurs in `s`.
pub open spec fn cuenta(s: Seq<i32>, x: i32) -> nat
    decreases s.len(),
{
    if s.len() == 0 {
        0
    } else {
        cuenta(s.drop_last(), x) + (if s.last() == x {
            1nat
        } else {
            0nat
        })
    }
}

/// Every prefix sum of `s` fits in `i64`.
pub open spec fn sumas_parciales_en_i64(s: Seq<i32>) -> bool {
    forall|k: int| 0 <= k <= s.len() ==> i64::MIN <= #[trigger] suma(s.take(k)) <= i64::MAX
}

/// The sum of the numbers, added up in order as `i64`; every partial sum
/// must fit in `i64`.
pub fn suma_enteros(numeros: &[i32]) -> (r: i64)
    requires
        sumas_parciales_en_i64(numeros@),
    ensures
        r == suma(numeros@),
{
    let mut total: i64 = 0;
    let mut i: usize = 0;
    while i < numeros.len()
        invariant
            sumas_parciales_en_i64(numeros@),
            i <= numeros.len(),
            total == suma(numeros@.take(i as int)),
        decreases numeros.len() - i,
    {
        assert(numeros@.take(i + 1).drop_last() =~= numeros@.take(i as int));
        assert(i64::MIN <= suma(numeros@.take(i + 1)) <= i64::MAX);
        total = total + numeros[i] as i64;
        i = i + 1;
    }
    assert(numeros@.take(numeros.len() as int) =~= numeros@);
    total
}

/// A mode of the numbers: one of them that occurs at least as often as any
/// other, namely the first such in order; 0 for an empty list.
pub fn moda(numeros: &[i32]) -> (r: i32)
    ensures
        numeros.len() == 0 ==> r == 0,
        numeros.len() > 0 ==> numeros@.contains(r) && forall|i: int|
            0 <= i < numeros.len() ==> cuenta(numeros@, #[trigger] numeros@[i]) <= cuenta(
                numeros@,
                r,
            ),
        numeros.len() > 0 ==> exists|p: int|
            0 <= p < numeros.len() && numeros@[p] == r && forall|k: int|
                0 <= k < p ==> cuenta(numeros@, #[trigger] numeros@[k]) < cuenta(numeros@, r),
{
    if numeros.len() == 0 {
        return 0;
    }
    let mut mejor = numeros[0];
    let mut mejor_cuenta: usize = 0;
    let ghost mut posicion: int = 0;
    let mut i: usize = 0;
    while i < numeros.len()
        invariant
            0 < numeros.len(),
            i <= numeros.len(),
            0 <= posicion < numeros.len(),
            numeros@[posicion] == mejor,
            i > 0 ==> posicion < i,
            i > 0 ==> mejor_cuenta == cuenta(numeros@, mejor),
            forall|k: int| 0 <= k < i ==> cuenta(numeros@, #[trigger] numeros@[k]) <= mejor_cuenta,
            forall|k: int|
                0 <= k < posicion ==> cuenta(numeros@, #[trigger] numeros@[k]) < mejor_cuenta,
        decreases numeros.len() - i,
    {
        let x = numeros[i];
        let mut c: usize = 0;
        let mut j: usize = 0;
        while j < numeros.len()
            invariant
                j <= numeros.len(),
                c == cuenta(numeros@.take(j as int), x),
                c <= j,
            decreases numeros.len() - j,
        {
            assert(numeros@.take(j + 1).drop_last() =~= numeros@.take(j as int));
            if numeros[j] == x {
                c = c + 1;
            }
            j = j + 1;
        }
        assert(numeros@.take(numeros.len() as int) =~= numeros@);
        if i == 0 || c > mejor_cuenta {
            mejor = x;
            mejor_cuenta = c;
            proof {
                posicion = i as int;
            }
        }
        i = i + 1;
    }
    mejor
}

/// `s` is in ascending order.
pub open spec fn ascendente(s: Seq<i32>) -> bool {
    forall|i: int, j: int| 0 <= i <= j < s.len() ==> s[i] <= s[j]
}

/// The numbers in ascending order: the same numbers, each as often, sorted.
pub fn ordenar(numeros: &[i32]) -> (r: Vec<i32>)
    ensures
        r@.to_multiset() == numeros@.to_multiset(),
        ascendente(r@),
{
    broadcast use vstd::seq_lib::group_to_multiset_ensures;

    let mut r: Vec<i32> = Vec::new();
    let mut i: usize = 0;
    while i < numeros.len()
        invariant
            i <= numeros.len(),
            r@.to_multiset() == numeros@.take(i as int).to_multiset(),
            ascendente(r@),
        decreases numeros.len() - i,
    {
        let x = numeros[i];
        let mut pos: usize = 0;
        while pos < r.len() && r[pos] <= x
            invariant
                pos <= r.len(),
                forall|k: int| 0 <= k < pos ==> r@[k] <= x,
            decreases r.len() - pos,
        {
            pos = pos + 1;
        }
        let ghost antes = r@;
        r.insert(pos, x);
        proof {
            assert(numeros@.take(i + 1) =~= numeros@.take(i as int).push(x));
            vstd::seq_lib::to_multiset_insert(antes, pos as int, x);
            vstd::seq_lib::to_multiset_build(numeros@.take(i as int), x);
            assert forall|a: int, b: int| 0 <= a <= b < r@.len() implies r@[a] <= r@[b] by {
                if b < pos {
                } else if a > pos {
                    assert(r@[a] == antes[a - 1] && r@[b] == antes[b - 1]);
                } else if a == pos && b == pos {
                } else if a == pos {
                    assert(r@[b] == antes[b - 1]);
                    assert(pos < antes.len() && antes[pos as int] > x);
                    assert(antes[pos as int] <= antes[b - 1]);
                } else if b == pos {
                    assert(r@[a] == antes[a]);
                } else {
                    assert(a < pos && pos < b);
                    assert(r@[a] == antes[a] && r@[b] == antes[b - 1]);
                }
            }
        }
        i = i + 1;
    }
    assert(numeros@.take(numeros.len() as int) =~= numeros@);
    r
}

/// The two central numbers of the sorted list: the one at position
/// `(n - 1) / 2` and the one at `n / 2` (the same one when `n` is odd). The
/// median is their mean.
pub fn centrales(numeros: &[i32]) -> (r: (i32, i32))
    requires
        numeros.len() > 0,
    ensures
        exists|v: Seq<i32>|
            #![trigger v.to_multiset()]
            v.to_multiset() == numeros@.to_multiset() && ascendente(v) && r.0 == v[(v.len() - 1)
                / 2] && r.1 == v[v.len() as int / 2],
{
    broadcast use vstd::seq_lib::group_to_multiset_ensures;

    let v = ordenar(numeros);
    proof {
        vstd::seq_lib::to_multiset_len(v@);
        vstd::seq_lib::to_multiset_len(numeros@);
    }
    let n = v.len();
    let r = (v[(n - 1) / 2], v[n / 2]);
    assert(v@.to_multiset() == numeros@.to_multiset() && ascendente(v@) && r.0 == v@[(v@.len() - 1)
        / 2] && r.1 == v@[v@.len() as int / 2]);
    r
}

/// `cuenta` and `ocurrencias` count exactly the positions holding the value.
pub proof fn cuentas_son_filtros(s: Seq<i32>, x: i32, ws: Seq<Seq<char>>, w: Seq<char>)
    ensures
        cuenta(s, x) == s.filter(|y: i32| y == x).len(),
        ocurrencias(ws, w) == ws.filter(|v: Seq<char>| v == w).len(),
    decreases s.len() + ws.len(),
{
    let p1 = |y: i32| y == x;
    let p2 = |v: Seq<char>| v == w;
    assert(s.filter(p1) == s.filter(|y: i32| y == x));
    assert(ws.filter(p2) == ws.filter(|v: Seq<char>| v == w));
    reveal_with_fuel(Seq::filter, 1);
    if s.len() > 0 {
        cuentas_son_filtros(s.drop_last(), x, ws, w);
        assert(s.filter(p1) == (if p1(s.last()) {
            s.drop_last().filter(p1).push(s.last())
        } else {
            s.drop_last().filter(p1)
        }));
    } else if ws.len() > 0 {
        cuentas_son_filtros(s, x, ws.drop_last(), w);
        assert(ws.filter(p2) == (if p2(ws.last()) {
            ws.drop_last().filter(p2).push(ws.last())
        } else {
            ws.drop_last().filter(p2)
        }));
    }
}

} // verus!
