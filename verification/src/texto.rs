//! Text utilities shared by the exercises: Unicode white space, trimming,
//! decimal formatting and parsing of integers, line splitting and substring
//! search, all over the `Seq<char>` view of strings.
use vstd::prelude::*;

verus! {

/// The number of bytes of the UTF-8 encoding of `s` (what `str::len` returns).
pub open spec fn longitud_bytes(s: Seq<char>) -> nat {
    vstd::utf8::encode_utf8(s).len()
}

/// Unicode `White_Space` property: the characters that `char::is_whitespace`
/// and `str::trim` treat as white space.
pub open spec fn es_espacio_blanco(c: char) -> bool {
    ||| ('\u{9}' <= c && c <= '\u{D}')
    ||| c == ' '
    ||| c == '\u{85}'
    ||| c == '\u{A0}'
    ||| c == '\u{1680}'
    ||| ('\u{2000}' <= c && c <= '\u{200A}')
    ||| c == '\u{2028}'
    ||| c == '\u{2029}'
    ||| c == '\u{202F}'
    ||| c == '\u{205F}'
    ||| c == '\u{3000}'
}

/// Executable test of the Unicode `White_Space` property.
pub fn espacio_blanco(c: char) -> (r: bool)
    ensures
        r == es_espacio_blanco(c),
{
    ('\u{9}' <= c && c <= '\u{D}') || c == ' ' || c == '\u{85}' || c == '\u{A0}' || c
        == '\u{1680}' || ('\u{2000}' <= c && c <= '\u{200A}') || c == '\u{2028}' || c
        == '\u{2029}' || c == '\u{202F}' || c == '\u{205F}' || c == '\u{3000}'
}

/// `s` without its leading white space.
pub open spec fn sin_espacio_inicial(s: Seq<char>) -> Seq<char>
    decreases s.len(),
{
    if s.len() > 0 && es_espacio_blanco(s[0]) {
        sin_espacio_inicial(s.drop_first())
    } else {
        s
    }
}

/// `s` without its trailing white space.
pub open spec fn sin_espacio_final(s: Seq<char>) -> Seq<char>
    decreases s.len(),
{
    if s.len() > 0 && es_espacio_blanco(s.last()) {
        sin_espacio_final(s.drop_last())
    } else {
        s
    }
}

/// `s` with leading and trailing white space removed (what `str::trim` returns).
pub open spec fn recortado(s: Seq<char>) -> Seq<char> {
    sin_espacio_final(sin_espacio_inicial(s))
}


/// Skipping the leading white space of `s` lands at `i` when the first `i`
/// characters are white space and the next one is not.
proof fn lema_sin_espacio_inicial(s: Seq<char>, i: int)
    requires
        0 <= i <= s.len(),
        forall|k: int| 0 <= k < i ==> es_espacio_blanco(#[trigger] s[k]),
        i == s.len() || !es_espacio_blanco(s[i]),
    ensures
        sin_espacio_inicial(s) == s.skip(i),
    decreases i,
{
    if i == 0 {
        assert(s.skip(0) =~= s);
    } else {
        let t = s.drop_first();
        assert forall|k: int| 0 <= k < i - 1 implies es_espacio_blanco(#[trigger] t[k]) by {
            assert(t[k] == s[k + 1]);
        }
        lema_sin_espacio_inicial(t, i - 1);
        assert(t.skip(i - 1) =~= s.skip(i));
    }
}

proof fn lema_sin_espacio_final(s: Seq<char>, j: int)
    requires
        0 <= j <= s.len(),
        forall|k: int| j <= k < s.len() ==> es_espacio_blanco(#[trigger] s[k]),
        j == 0 || !es_espacio_blanco(s[j - 1]),
    ensures
        sin_espacio_final(s) == s.take(j),
    decreases s.len() - j,
{
    if j == s.len() {
        assert(s.take(j) =~= s);
    } else {
        let t = s.drop_last();
        assert forall|k: int| j <= k < t.len() implies es_espacio_blanco(#[trigger] t[k]) by {
            assert(t[k] == s[k]);
        }
        lema_sin_espacio_final(t, j);
        assert(t.take(j) =~= s.take(j));
    }
}

/// `s` consists of white space only.
pub open spec fn todo_espacio(s: Seq<char>) -> bool {
    forall|i: int| 0 <= i < s.len() ==> es_espacio_blanco(#[trigger] s[i])
}

proof fn lema_inicial_ignora_prefijo(a: Seq<char>, s: Seq<char>)
    requires
        todo_espacio(a),
    ensures
        sin_espacio_inicial(a + s) == sin_espacio_inicial(s),
    decreases a.len(),
{
    if a.len() > 0 {
        assert((a + s)[0] == a[0]);
        assert((a + s).drop_first() =~= a.drop_first() + s);
        lema_inicial_ignora_prefijo(a.drop_first(), s);
    } else {
        assert(a + s =~= s);
    }
}

proof fn lema_final_ignora_sufijo(s: Seq<char>, b: Seq<char>)
    requires
        todo_espacio(b),
    ensures
        sin_espacio_final(s + b) == sin_espacio_final(s),
    decreases b.len(),
{
    if b.len() > 0 {
        assert((s + b).last() == b.last());
        assert((s + b).drop_last() =~= s + b.drop_last());
        lema_final_ignora_sufijo(s, b.drop_last());
    } else {
        assert(s + b =~= s);
    }
}

proof fn lema_inicial_sufijo(s: Seq<char>, b: Seq<char>)
    requires
        todo_espacio(b),
    ensures
        exists|c: Seq<char>| todo_espacio(c) && sin_espacio_inicial(s + b) == sin_espacio_inicial(s) + c,
    decreases s.len(),
{
    if s.len() > 0 {
        assert((s + b)[0] == s[0]);
        if es_espacio_blanco(s[0]) {
            assert((s + b).drop_first() =~= s.drop_first() + b);
            lema_inicial_sufijo(s.drop_first(), b);
        } else {
            assert(todo_espacio(b) && sin_espacio_inicial(s + b) == sin_espacio_inicial(s) + b);
        }
    } else {
        assert(s + b =~= b);
        lema_inicial_todo_espacio(b);
        let c = Seq::<char>::empty();
        assert(sin_espacio_inicial(s + b) =~= sin_espacio_inicial(s) + c);
        assert(todo_espacio(c));
    }
}

proof fn lema_inicial_todo_espacio(b: Seq<char>)
    requires
        todo_espacio(b),
    ensures
        sin_espacio_inicial(b) == Seq::<char>::empty(),
    decreases b.len(),
{
    if b.len() > 0 {
        lema_inicial_todo_espacio(b.drop_first());
    } else {
        assert(b =~= Seq::<char>::empty());
    }
}

/// Trimming ignores any white space added around a text: `a + s + b` trims
/// to what `s` trims to when `a` and `b` are white space only.
pub proof fn recortar_ignora_bordes(a: Seq<char>, s: Seq<char>, b: Seq<char>)
    requires
        todo_espacio(a),
        todo_espacio(b),
    ensures
        recortado(a + s + b) == recortado(s),
{
    assert(a + s + b =~= a + (s + b));
    lema_inicial_ignora_prefijo(a, s + b);
    lema_inicial_sufijo(s, b);
    let c = choose|c: Seq<char>| todo_espacio(c) && sin_espacio_inicial(s + b) == sin_espacio_inicial(s) + c;
    lema_final_ignora_sufijo(sin_espacio_inicial(s), c);
}

proof fn lema_corte_inicial(s: Seq<char>) -> (i: int)
    ensures
        0 <= i <= s.len(),
        sin_espacio_inicial(s) == s.skip(i),
        forall|k: int| 0 <= k < i ==> es_espacio_blanco(#[trigger] s[k]),
        i < s.len() ==> !es_espacio_blanco(s[i]),
    decreases s.len(),
{
    if s.len() > 0 && es_espacio_blanco(s[0]) {
        let t = s.drop_first();
        let i1 = lema_corte_inicial(t);
        assert(t.skip(i1) =~= s.skip(i1 + 1));
        assert forall|k: int| 0 <= k < i1 + 1 implies es_espacio_blanco(#[trigger] s[k]) by {
            if k > 0 {
                assert(s[k] == t[k - 1]);
            }
        }
        if i1 + 1 < s.len() {
            assert(s[i1 + 1] == t[i1]);
        }
        i1 + 1
    } else {
        assert(s.skip(0) =~= s);
        0
    }
}

proof fn lema_corte_final(s: Seq<char>) -> (j: int)
    ensures
        0 <= j <= s.len(),
        sin_espacio_final(s) == s.take(j),
        forall|k: int| j <= k < s.len() ==> es_espacio_blanco(#[trigger] s[k]),
        j > 0 ==> !es_espacio_blanco(s[j - 1]),
    decreases s.len(),
{
    if s.len() > 0 && es_espacio_blanco(s.last()) {
        let t = s.drop_last();
        let j1 = lema_corte_final(t);
        assert(t.take(j1) =~= s.take(j1));
        assert forall|k: int| j1 <= k < s.len() implies es_espacio_blanco(#[trigger] s[k]) by {
            if k < s.len() - 1 {
                assert(s[k] == t[k]);
            }
        }
        if j1 > 0 {
            assert(s[j1 - 1] == t[j1 - 1]);
        }
        j1
    } else {
        assert(s.take(s.len() as int) =~= s);
        s.len() as int
    }
}

/// Trimming removes white space at the two ends and nothing else: the
/// result is a contiguous piece of `s`, everything before it and after it
/// is white space, and it neither starts nor ends with white space.
pub proof fn recortar_quita_solo_bordes(s: Seq<char>)
    ensures
        exists|i: int, j: int|
            0 <= i <= j <= s.len() && recortado(s) == s.subrange(i, j) && (forall|k: int|
                0 <= k < i ==> es_espacio_blanco(#[trigger] s[k])) && (forall|k: int|
                j <= k < s.len() ==> es_espacio_blanco(#[trigger] s[k])) && (i < j
                ==> !es_espacio_blanco(s[i]) && !es_espacio_blanco(s[j - 1])),
{
    let i = lema_corte_inicial(s);
    let t = s.skip(i);
    let j1 = lema_corte_final(t);
    let j = i + j1;
    assert(t.take(j1) =~= s.subrange(i, j));
    assert forall|k: int| j <= k < s.len() implies es_espacio_blanco(#[trigger] s[k]) by {
        assert(s[k] == t[k - i]);
    }
    if i < j {
        assert(s[i] == t[0]);
        assert(s[j - 1] == t[j1 - 1]);
        if j1 > 0 && i < s.len() {
            assert(t[0] == s[i]);
        }
    }
    assert(0 <= i <= j <= s.len() && recortado(s) == s.subrange(i, j) && (forall|k: int|
        0 <= k < i ==> es_espacio_blanco(#[trigger] s[k])) && (forall|k: int|
        j <= k < s.len() ==> es_espacio_blanco(#[trigger] s[k])) && (i < j
        ==> !es_espacio_blanco(s[i]) && !es_espacio_blanco(s[j - 1])));
}

/// The characters of `s`, in order.
pub fn caracteres(s: &str) -> (v: Vec<char>)
    ensures
        v@ == s@,
{
    let mut v: Vec<char> = Vec::new();
    for c in it: s.chars()
        invariant
            v@ == it.seq().take(it.index() as int),
            it.seq() == s@,
    {
        v.push(c);
    }
    v
}

/// `s` with leading and trailing white space removed, as a slice of `s`.
pub fn recortar(s: &str) -> (r: &str)
    ensures
        r@ == recortado(s@),
{
    let v = caracteres(s);
    let n = v.len();
    let mut i: usize = 0;
    while i < n && espacio_blanco(v[i])
        invariant
            v@ == s@,
            n == v.len(),
            i <= n,
            forall|k: int| 0 <= k < i ==> es_espacio_blanco(#[trigger] s@[k]),
        decreases n - i,
    {
        i = i + 1;
    }
    proof {
        lema_sin_espacio_inicial(s@, i as int);
    }
    let mut j: usize = n;
    while j > i && espacio_blanco(v[j - 1])
        invariant
            v@ == s@,
            n == v.len(),
            i <= j <= n,
            forall|k: int| j <= k < n ==> es_espacio_blanco(#[trigger] s@[k]),
        decreases j,
    {
        j = j - 1;
    }
    proof {
        let t = s@.skip(i as int);
        assert forall|k: int| j - i <= k < t.len() implies es_espacio_blanco(#[trigger] t[k]) by {
            assert(t[k] == s@[k + i]);
        }
        if j > i {
            assert(t[j - i - 1] == s@[j - 1]);
        }
        lema_sin_espacio_final(t, j - i);
        assert(t.take(j - i) =~= s@.subrange(i as int, j as int));
    }
    s.substring_char(i, j)
}


/// Appends one character to `s` (`String::push`).
#[verifier::external_body]
pub(crate) fn agregar_caracter(s: &mut String, c: char)
    ensures
        final(s)@ == old(s)@.push(c),
{
    s.push(c);
}

/// A `String` holding the characters of `v`, in order.
pub fn texto_de_caracteres(v: &Vec<char>) -> (r: String)
    ensures
        r@ == v@,
{
    let mut r = String::new();
    let mut i: usize = 0;
    while i < v.len()
        invariant
            i <= v.len(),
            r@ == v@.take(i as int),
        decreases v.len() - i,
    {
        agregar_caracter(&mut r, v[i]);
        assert(v@.take(i as int).push(v@[i as int]) =~= v@.take(i + 1));
        i = i + 1;
    }
    assert(v@.take(v.len() as int) =~= v@);
    r
}

/// The decimal digit character for `d` (`0 <= d <= 9`).
pub open spec fn digito(d: int) -> char {
    (48 + d) as char
}

/// Decimal representation of a natural number, without leading zeros.
pub open spec fn digitos(n: nat) -> Seq<char>
    decreases n,
{
    if n < 10 {
        seq![digito(n as int)]
    } else {
        digitos(n / 10).push(digito((n % 10) as int))
    }
}

/// Decimal representation of an integer, with a leading `-` when negative
/// (what `format!("{}", n)` writes).
pub open spec fn texto_entero(n: int) -> Seq<char> {
    if n < 0 {
        seq!['-'] + digitos((-n) as nat)
    } else {
        digitos(n as nat)
    }
}

fn caracter_digito(d: u64) -> (c: char)
    requires
        d < 10,
    ensures
        c == digito(d as int),
{
    let b: u8 = 48u8 + (d as u8);
    b as char
}

/// Appends the decimal representation of `n` to `s`.
pub fn agregar_natural(s: &mut String, n: u64)
    ensures
        final(s)@ == old(s)@ + digitos(n as nat),
    decreases n,
{
    if n >= 10 {
        agregar_natural(s, n / 10);
    }
    let c = caracter_digito(n % 10);
    agregar_caracter(s, c);
    proof {
        if n < 10 {
            assert(n % 10 == n);
        }
    }
}

/// Appends the decimal representation of `n` (with `-` when negative) to `s`.
pub fn agregar_entero(s: &mut String, n: i64)
    ensures
        final(s)@ == old(s)@ + texto_entero(n as int),
{
    if n < 0 {
        agregar_caracter(s, '-');
        let magnitud: u64 = if n == i64::MIN {
            9223372036854775808u64
        } else {
            (-n) as u64
        };
        agregar_natural(s, magnitud);
    } else {
        agregar_natural(s, n as u64);
    }
}

/// Index of the first occurrence of `c` in `s`, or the length of `s` when
/// `c` does not occur.
pub open spec fn primer_indice(s: Seq<char>, c: char) -> nat
    decreases s.len(),
{
    if s.len() == 0 {
        0
    } else if s[0] == c {
        0
    } else {
        1 + primer_indice(s.drop_first(), c)
    }
}

/// Index of the first line feed of `s`, or its length when there is none.
pub open spec fn fin_linea(s: Seq<char>) -> nat {
    primer_indice(s, '\n')
}

/// `c` occurs exactly first at `m` in `s` (or, with `m == s.len()`, not at all).
proof fn lema_primer_indice(s: Seq<char>, c: char, m: int)
    requires
        0 <= m <= s.len(),
        forall|i: int| 0 <= i < m ==> #[trigger] s[i] != c,
        m == s.len() || s[m] == c,
    ensures
        primer_indice(s, c) == m,
    decreases m,
{
    if m > 0 {
        let t = s.drop_first();
        assert forall|i: int| 0 <= i < m - 1 implies #[trigger] t[i] != c by {
            assert(t[i] == s[i + 1]);
        }
        lema_primer_indice(t, c, m - 1);
    }
}

/// The first occurrence of `c` in `s` lies within `s`.
pub proof fn lema_primer_indice_acotado(s: Seq<char>, c: char)
    ensures
        primer_indice(s, c) <= s.len(),
    decreases s.len(),
{
    if s.len() > 0 && s[0] != c {
        lema_primer_indice_acotado(s.drop_first(), c);
    }
}

/// A line without the carriage return that precedes its line feed.
pub open spec fn sin_retorno(l: Seq<char>) -> Seq<char> {
    if l.len() > 0 && l.last() == '\r' {
        l.drop_last()
    } else {
        l
    }
}

/// The lines of `s` as `str::lines` yields them: split at `\n` or `\r\n`,
/// terminators removed, and no empty line after a final terminator.
pub open spec fn lineas(s: Seq<char>) -> Seq<Seq<char>>
    decreases s.len(),
{
    if s.len() == 0 {
        seq![]
    } else {
        let k = fin_linea(s) as int;
        if k >= s.len() {
            seq![s]
        } else {
            proof {
                lema_primer_indice_acotado(s, '\n');
            }
            seq![sin_retorno(s.take(k))] + lineas(s.skip(k + 1))
        }
    }
}

/// The views of a vector of string slices.
pub open spec fn vistas<'a>(v: Seq<&'a str>) -> Seq<Seq<char>> {
    v.map_values(|x: &'a str| x@)
}

/// The lines of `s` (`str::lines`), as slices of `s`.
pub fn dividir_lineas<'a>(s: &'a str) -> (r: Vec<&'a str>)
    ensures
        vistas(r@) == lineas(s@),
{
    let v = caracteres(s);
    let n = v.len();
    let mut r: Vec<&'a str> = Vec::new();
    let mut inicio: usize = 0;
    assert(s@.skip(0) =~= s@);
    while inicio < n
        invariant
            v@ == s@,
            n == v.len(),
            inicio <= n,
            vistas(r@) + lineas(s@.skip(inicio as int)) == lineas(s@),
        decreases n - inicio,
    {
        let ghost t = s@.skip(inicio as int);
        let mut k: usize = inicio;
        while k < n && v[k] != '\n'
            invariant
                v@ == s@,
                n == v.len(),
                inicio <= k <= n,
                forall|i: int| inicio <= i < k ==> #[trigger] s@[i] != '\n',
            decreases n - k,
        {
            k = k + 1;
        }
        proof {
            assert forall|i: int| 0 <= i < k - inicio implies #[trigger] t[i] != '\n' by {
                assert(t[i] == s@[i + inicio]);
            }
            if k < n {
                assert(t[k - inicio] == s@[k as int]);
            }
            lema_primer_indice(t, '\n', k - inicio);
        }
        let ghost r_antes = r@;
        if k == n {
            proof {
                reveal_strlit("");
            }
            let linea = s.substring_char(inicio, n);
            r.push(linea);
            proof {
                assert(linea@ =~= t);
                assert(vistas(r@) =~= vistas(r_antes).push(t));
                assert(s@.skip(n as int).len() == 0);
                assert(lineas(s@.skip(n as int)) =~= Seq::<Seq<char>>::empty());
                assert(vistas(r@) + lineas(s@.skip(n as int)) =~= vistas(r_antes) + lineas(t));
            }
            inicio = n;
        } else {
            let fin: usize = if k > inicio && v[k - 1] == '\r' {
                k - 1
            } else {
                k
            };
            let linea = s.substring_char(inicio, fin);
            r.push(linea);
            proof {
                let l = t.take(k - inicio);
                assert(linea@ =~= sin_retorno(l));
                assert(t.skip(k - inicio + 1) =~= s@.skip(k + 1));
                assert(lineas(t) == seq![sin_retorno(l)] + lineas(s@.skip(k + 1)));
                assert(vistas(r@) =~= vistas(r_antes).push(sin_retorno(l)));
                assert(vistas(r@) + lineas(s@.skip(k + 1)) =~= vistas(r_antes) + lineas(t));
            }
            inicio = k + 1;
        }
    }
    proof {
        assert(lineas(s@.skip(n as int)) =~= Seq::<Seq<char>>::empty());
        assert(vistas(r@) + Seq::<Seq<char>>::empty() =~= vistas(r@));
    }
    r
}


/// `patron` occurs in `texto` starting at position `i`.
pub open spec fn aparece_en(texto: Seq<char>, patron: Seq<char>, i: int) -> bool {
    0 <= i && i + patron.len() <= texto.len() && texto.subrange(i, i + patron.len()) == patron
}

/// `patron` occurs somewhere in `texto` (what `str::contains` with a `&str`
/// pattern decides); the empty pattern occurs in every text.
pub open spec fn contiene(texto: Seq<char>, patron: Seq<char>) -> bool {
    exists|i: int| aparece_en(texto, patron, i)
}

/// Decides whether `patron` occurs in `texto`.
pub fn contiene_texto(texto: &str, patron: &str) -> (r: bool)
    ensures
        r == contiene(texto@, patron@),
{
    let t = caracteres(texto);
    let p = caracteres(patron);
    let n = t.len();
    let m = p.len();
    if m > n {
        proof {
            assert forall|i: int| !aparece_en(texto@, patron@, i) by {}
        }
        return false;
    }
    let mut i: usize = 0;
    while i <= n - m
        invariant
            t@ == texto@,
            p@ == patron@,
            n == t.len(),
            m == p.len(),
            m <= n,
            i <= n - m + 1,
            forall|k: int| 0 <= k < i ==> !aparece_en(texto@, patron@, k),
        decreases n - m + 1 - i,
    {
        let mut j: usize = 0;
        while j < m && t[i + j] == p[j]
            invariant
                t@ == texto@,
                p@ == patron@,
                n == t.len(),
                m == p.len(),
                i + m <= n,
                j <= m,
                forall|l: int| 0 <= l < j ==> t@[i + l] == p@[l],
            decreases m - j,
        {
            j = j + 1;
        }
        if j == m {
            proof {
                assert(texto@.subrange(i as int, i + m) =~= patron@);
                assert(aparece_en(texto@, patron@, i as int));
            }
            return true;
        }
        proof {
            if aparece_en(texto@, patron@, i as int) {
                assert(texto@.subrange(i as int, i + m)[j as int] == t@[i + j]);
            }
        }
        i = i + 1;
    }
    proof {
        assert forall|k: int| !aparece_en(texto@, patron@, k) by {
            if 0 <= k && k + m <= n {
                assert(k < i);
            }
        }
    }
    false
}

/// Why a text is not an integer of the requested type (the kinds of
/// `core::num::ParseIntError` that decimal parsing can produce).
#[derive(Debug, Clone, Copy, PartialEq, Eq, Structural)]
pub enum TipoErrorEntero {
    Vacio,
    DigitoInvalido,
    DesbordamientoPositivo,
    DesbordamientoNegativo,
}

/// `c` is an ASCII decimal digit.
pub open spec fn es_digito(c: char) -> bool {
    '0' <= c && c <= '9'
}

/// The value of a decimal digit character.
pub open spec fn valor_digito(c: char) -> int {
    c as int - 48
}

/// Reads the digits `d` left to right after `acc`, failing at the first
/// non-digit or as soon as the value exceeds `max`.
pub open spec fn escanear_positivo(d: Seq<char>, acc: int, max: int) -> Result<int, TipoErrorEntero>
    decreases d.len(),
{
    if d.len() == 0 {
        Ok(acc)
    } else if !es_digito(d[0]) {
        Err(TipoErrorEntero::DigitoInvalido)
    } else if acc * 10 + valor_digito(d[0]) > max {
        Err(TipoErrorEntero::DesbordamientoPositivo)
    } else {
        escanear_positivo(d.drop_first(), acc * 10 + valor_digito(d[0]), max)
    }
}

/// Reads the digits `d` of a negative number, failing at the first
/// non-digit or as soon as the value falls below `min`.
pub open spec fn escanear_negativo(d: Seq<char>, acc: int, min: int) -> Result<int, TipoErrorEntero>
    decreases d.len(),
{
    if d.len() == 0 {
        Ok(acc)
    } else if !es_digito(d[0]) {
        Err(TipoErrorEntero::DigitoInvalido)
    } else if acc * 10 - valor_digito(d[0]) < min {
        Err(TipoErrorEntero::DesbordamientoNegativo)
    } else {
        escanear_negativo(d.drop_first(), acc * 10 - valor_digito(d[0]), min)
    }
}

/// Decimal parsing of `s` into an integer in `min..=max`, as `str::parse`
/// does for Rust's integer types: an optional `+` (or `-` when `con_signo`),
/// then ASCII digits; an empty text, a lone sign, a non-digit and a value out
/// of range are errors, the first one met from the left deciding the kind.
pub open spec fn parseo_entero(s: Seq<char>, min: int, max: int, con_signo: bool) -> Result<
    int,
    TipoErrorEntero,
> {
    if s.len() == 0 {
        Err(TipoErrorEntero::Vacio)
    } else if s.len() == 1 && (s[0] == '+' || s[0] == '-') {
        Err(TipoErrorEntero::DigitoInvalido)
    } else if s[0] == '+' {
        escanear_positivo(s.drop_first(), 0, max)
    } else if s[0] == '-' && con_signo {
        escanear_negativo(s.drop_first(), 0, min)
    } else {
        escanear_positivo(s, 0, max)
    }
}

proof fn lema_escanear_positivo_rango(d: Seq<char>, acc: int, max: int)
    requires
        0 <= acc <= max,
    ensures
        escanear_positivo(d, acc, max) matches Ok(v) ==> 0 <= v <= max,
    decreases d.len(),
{
    if d.len() > 0 && es_digito(d[0]) && acc * 10 + valor_digito(d[0]) <= max {
        lema_escanear_positivo_rango(d.drop_first(), acc * 10 + valor_digito(d[0]), max);
    }
}

proof fn lema_escanear_negativo_rango(d: Seq<char>, acc: int, min: int)
    requires
        min <= acc <= 0,
    ensures
        escanear_negativo(d, acc, min) matches Ok(v) ==> min <= v <= 0,
    decreases d.len(),
{
    if d.len() > 0 && es_digito(d[0]) && acc * 10 - valor_digito(d[0]) >= min {
        lema_escanear_negativo_rango(d.drop_first(), acc * 10 - valor_digito(d[0]), min);
    }
}

/// Every value that `parseo_entero` accepts lies in `min..=max`.
pub proof fn lema_parseo_entero_rango(s: Seq<char>, min: int, max: int, con_signo: bool)
    requires
        min <= 0 <= max,
    ensures
        parseo_entero(s, min, max, con_signo) matches Ok(v) ==> min <= v <= max,
{
    if s.len() > 1 || (s.len() == 1 && s[0] != '+' && s[0] != '-') {
        if s[0] == '+' {
            lema_escanear_positivo_rango(s.drop_first(), 0, max);
        } else if s[0] == '-' && con_signo {
            lema_escanear_negativo_rango(s.drop_first(), 0, min);
        } else {
            lema_escanear_positivo_rango(s, 0, max);
        }
    }
}

proof fn lema_escanear_positivo_final(d: Seq<char>, c: char, acc: int, max: int, v: int)
    requires
        escanear_positivo(d, acc, max) == Ok::<int, TipoErrorEntero>(v),
        es_digito(c),
        v * 10 + valor_digito(c) <= max,
    ensures
        escanear_positivo(d.push(c), acc, max) == Ok::<int, TipoErrorEntero>(
            v * 10 + valor_digito(c),
        ),
    decreases d.len(),
{
    if d.len() > 0 {
        assert(d.push(c).drop_first() =~= d.drop_first().push(c));
        assert(d.push(c)[0] == d[0]);
        assert(es_digito(d[0]) && acc * 10 + valor_digito(d[0]) <= max);
        lema_escanear_positivo_final(d.drop_first(), c, acc * 10 + valor_digito(d[0]), max, v);
    } else {
        assert(v == acc);
        let e = d.push(c);
        assert(e[0] == c);
        assert(e.drop_first() =~= Seq::<char>::empty());
        assert(escanear_positivo(e.drop_first(), acc * 10 + valor_digito(c), max) == Ok::<
            int,
            TipoErrorEntero,
        >(acc * 10 + valor_digito(c)));
    }
}

proof fn lema_escanear_negativo_final(d: Seq<char>, c: char, acc: int, min: int, v: int)
    requires
        escanear_negativo(d, acc, min) == Ok::<int, TipoErrorEntero>(v),
        es_digito(c),
        v * 10 - valor_digito(c) >= min,
    ensures
        escanear_negativo(d.push(c), acc, min) == Ok::<int, TipoErrorEntero>(
            v * 10 - valor_digito(c),
        ),
    decreases d.len(),
{
    if d.len() > 0 {
        assert(d.push(c).drop_first() =~= d.drop_first().push(c));
        assert(d.push(c)[0] == d[0]);
        assert(es_digito(d[0]) && acc * 10 - valor_digito(d[0]) >= min);
        lema_escanear_negativo_final(d.drop_first(), c, acc * 10 - valor_digito(d[0]), min, v);
    } else {
        assert(v == acc);
        let e = d.push(c);
        assert(e[0] == c);
        assert(e.drop_first() =~= Seq::<char>::empty());
        assert(escanear_negativo(e.drop_first(), acc * 10 - valor_digito(c), min) == Ok::<
            int,
            TipoErrorEntero,
        >(acc * 10 - valor_digito(c)));
    }
}

proof fn lema_digitos_leidos(n: nat, min: int, max: int)
    ensures
        digitos(n).len() >= 1,
        es_digito(digitos(n)[0]),
        n <= max ==> escanear_positivo(digitos(n), 0, max) == Ok::<int, TipoErrorEntero>(n as int),
        -n >= min ==> escanear_negativo(digitos(n), 0, min) == Ok::<int, TipoErrorEntero>(
            -(n as int),
        ),
    decreases n,
{
    if n < 10 {
        let d = digitos(n);
        assert(d == seq![digito(n as int)]);
        assert(valor_digito(digito(n as int)) == n);
        assert(es_digito(d[0]));
        assert(d.drop_first() =~= Seq::<char>::empty());
        assert(escanear_positivo(d.drop_first(), n as int, max) == Ok::<int, TipoErrorEntero>(
            n as int,
        ));
        assert(escanear_negativo(d.drop_first(), -(n as int), min) == Ok::<int, TipoErrorEntero>(
            -(n as int),
        ));
    } else {
        lema_digitos_leidos(n / 10, min, max);
        let c = digito((n % 10) as int);
        assert(valor_digito(c) == n % 10);
        assert(digitos(n) == digitos(n / 10).push(c));
        assert(digitos(n)[0] == digitos(n / 10)[0]);
        assert((n / 10) * 10 + n % 10 == n);
        if n <= max {
            lema_escanear_positivo_final(digitos(n / 10), c, 0, max, (n / 10) as int);
        }
        if -n >= min {
            lema_escanear_negativo_final(digitos(n / 10), c, 0, min, -((n / 10) as int));
        }
    }
}

/// Parsing reads back what printing writes: the decimal text of any
/// integer in `min..=max` (with a leading `-` for a negative one, which
/// needs signed parsing) parses to that integer, and so does the text of a
/// non-negative one with a leading `+`.
pub proof fn parseo_lee_lo_escrito(n: int, min: int, max: int, con_signo: bool)
    requires
        min <= 0 <= max,
        min <= n <= max,
        n < 0 ==> con_signo,
    ensures
        parseo_entero(texto_entero(n), min, max, con_signo) == Ok::<int, TipoErrorEntero>(n),
        n >= 0 ==> parseo_entero(seq!['+'] + digitos(n as nat), min, max, con_signo) == Ok::<
            int,
            TipoErrorEntero,
        >(n),
{
    if n >= 0 {
        lema_digitos_leidos(n as nat, min, max);
        let d = digitos(n as nat);
        assert((seq!['+'] + d).drop_first() =~= d);
        assert((seq!['+'] + d)[0] == '+');
    } else {
        lema_digitos_leidos((-n) as nat, min, max);
        let d = digitos((-n) as nat);
        assert((seq!['-'] + d).drop_first() =~= d);
        assert((seq!['-'] + d)[0] == '-');
    }
}

fn escanear(v: &Vec<char>, desde: usize, negativo: bool, min: i64, max: i64) -> (r: Result<
    i64,
    TipoErrorEntero,
>)
    requires
        desde <= v.len(),
        min <= 0 <= max,
    ensures
        !negativo ==> r == (match escanear_positivo(v@.skip(desde as int), 0, max as int) {
            Ok(x) => Ok(x as i64),
            Err(e) => Err(e),
        }),
        negativo ==> r == (match escanear_negativo(v@.skip(desde as int), 0, min as int) {
            Ok(x) => Ok(x as i64),
            Err(e) => Err(e),
        }),
        !negativo ==> (r matches Ok(x) ==> 0 <= x <= max),
        negativo ==> (r matches Ok(x) ==> min <= x <= 0),
{
    let mut acc: i64 = 0;
    let mut i: usize = desde;
    while i < v.len()
        invariant
            desde <= i <= v.len(),
            min <= 0 <= max,
            !negativo ==> 0 <= acc <= max,
            negativo ==> min <= acc <= 0,
            !negativo ==> escanear_positivo(v@.skip(desde as int), 0, max as int)
                == escanear_positivo(v@.skip(i as int), acc as int, max as int),
            negativo ==> escanear_negativo(v@.skip(desde as int), 0, min as int)
                == escanear_negativo(v@.skip(i as int), acc as int, min as int),
        decreases v.len() - i,
    {
        let c = v[i];
        let ghost d = v@.skip(i as int);
        assert(d[0] == c);
        assert(d.drop_first() =~= v@.skip(i + 1));
        if !('0' <= c && c <= '9') {
            return Err(TipoErrorEntero::DigitoInvalido);
        }
        let dig: i64 = (c as u32 - 48) as i64;
        assert(dig == valor_digito(c));
        if negativo {
            let nuevo: i128 = (acc as i128) * 10 - (dig as i128);
            if nuevo < min as i128 {
                return Err(TipoErrorEntero::DesbordamientoNegativo);
            }
            acc = nuevo as i64;
        } else {
            let nuevo: i128 = (acc as i128) * 10 + (dig as i128);
            if nuevo > max as i128 {
                return Err(TipoErrorEntero::DesbordamientoPositivo);
            }
            acc = nuevo as i64;
        }
        i = i + 1;
    }
    proof {
        assert(v@.skip(v.len() as int).len() == 0);
    }
    Ok(acc)
}

/// Parses `s` as a decimal integer in `min..=max` (see `parseo_entero`).
pub fn parsear_entero(s: &str, min: i64, max: i64, con_signo: bool) -> (r: Result<
    i64,
    TipoErrorEntero,
>)
    requires
        min <= 0 <= max,
    ensures
        r == (match parseo_entero(s@, min as int, max as int, con_signo) {
            Ok(x) => Ok(x as i64),
            Err(e) => Err(e),
        }),
        r matches Ok(x) ==> min <= x <= max,
{
    let v = caracteres(s);
    let n = v.len();
    if n == 0 {
        return Err(TipoErrorEntero::Vacio);
    }
    if n == 1 && (v[0] == '+' || v[0] == '-') {
        return Err(TipoErrorEntero::DigitoInvalido);
    }
    assert(s@.drop_first() =~= s@.skip(1));
    assert(s@ =~= s@.skip(0));
    if v[0] == '+' {
        escanear(&v, 1, false, min, max)
    } else if v[0] == '-' && con_signo {
        escanear(&v, 1, true, min, max)
    } else {
        escanear(&v, 0, false, min, max)
    }
}

/// The message that `core::num::ParseIntError` displays for each kind.
pub open spec fn mensaje_error_entero(e: TipoErrorEntero) -> Seq<char> {
    match e {
        TipoErrorEntero::Vacio => "cannot parse integer from empty string"@,
        TipoErrorEntero::DigitoInvalido => "invalid digit found in string"@,
        TipoErrorEntero::DesbordamientoPositivo => "number too large to fit in target type"@,
        TipoErrorEntero::DesbordamientoNegativo => "number too small to fit in target type"@,
    }
}

/// The message of a parse error kind, as `ParseIntError` displays it.
pub fn texto_error_entero(e: TipoErrorEntero) -> (r: &'static str)
    ensures
        r@ == mensaje_error_entero(e),
{
    match e {
        TipoErrorEntero::Vacio => "cannot parse integer from empty string",
        TipoErrorEntero::DigitoInvalido => "invalid digit found in string",
        TipoErrorEntero::DesbordamientoPositivo => "number too large to fit in target type",
        TipoErrorEntero::DesbordamientoNegativo => "number too small to fit in target type",
    }
}


/// What `str::to_lowercase` returns for a text: its full Unicode lowercase
/// mapping (the mapping tables take pages; only the result is named here).
pub uninterp spec fn minusculas(s: Seq<char>) -> Seq<char>;

/// `str::to_lowercase`: claims only that the result is `minusculas` of the
/// argument, a function of the argument's characters alone.
#[verifier::external_body]
pub(crate) fn a_minusculas(s: &str) -> (r: String)
    ensures
        r@ == minusculas(s@),
{
    s.to_lowercase()
}

/// What `char::is_alphanumeric` returns: Unicode `Alphabetic` or `Numeric`
/// (the property tables take pages; only the result is named here).
pub uninterp spec fn alfanumerico(c: char) -> bool;

/// `char::is_alphanumeric`: claims only that the result is `alfanumerico`
/// of the argument.
#[verifier::external_body]
pub(crate) fn es_alfanumerico(c: char) -> (r: bool)
    ensures
        r == alfanumerico(c),
{
    c.is_alphanumeric()
}


/// Decides whether the character `c` occurs in `s`.
pub fn contiene_caracter(s: &str, c: char) -> (r: bool)
    ensures
        r == s@.contains(c),
{
    let v = caracteres(s);
    let mut i: usize = 0;
    while i < v.len()
        invariant
            v@ == s@,
            i <= v.len(),
            forall|k: int| 0 <= k < i ==> v@[k] != c,
        decreases v.len() - i,
    {
        if v[i] == c {
            assert(s@[i as int] == c);
            return true;
        }
        i = i + 1;
    }
    false
}


/// Index of the first white-space character of `s`, or its length.
pub open spec fn fin_palabra(s: Seq<char>) -> nat
    decreases s.len(),
{
    if s.len() == 0 {
        0
    } else if es_espacio_blanco(s[0]) {
        0
    } else {
        1 + fin_palabra(s.drop_first())
    }
}

proof fn lema_fin_palabra(s: Seq<char>, m: int)
    requires
        0 <= m <= s.len(),
        forall|i: int| 0 <= i < m ==> !es_espacio_blanco(#[trigger] s[i]),
        m == s.len() || es_espacio_blanco(s[m]),
    ensures
        fin_palabra(s) == m,
    decreases m,
{
    if m > 0 {
        let t = s.drop_first();
        assert forall|i: int| 0 <= i < m - 1 implies !es_espacio_blanco(#[trigger] t[i]) by {
            assert(t[i] == s[i + 1]);
        }
        lema_fin_palabra(t, m - 1);
    }
}

/// The end of the first word lies within `s`, and past its first character
/// when that one is not white space.
pub proof fn lema_fin_palabra_acotado(s: Seq<char>)
    ensures
        fin_palabra(s) <= s.len(),
        s.len() > 0 && !es_espacio_blanco(s[0]) ==> fin_palabra(s) >= 1,
    decreases s.len(),
{
    if s.len() > 0 && !es_espacio_blanco(s[0]) {
        lema_fin_palabra_acotado(s.drop_first());
    }
}

/// Removing leading white space leaves a suffix that is empty or starts
/// with a non-white-space character.
pub proof fn lema_sin_espacio_inicial_forma(s: Seq<char>)
    ensures
        sin_espacio_inicial(s).len() <= s.len(),
        sin_espacio_inicial(s).len() > 0 ==> !es_espacio_blanco(sin_espacio_inicial(s)[0]),
    decreases s.len(),
{
    if s.len() > 0 && es_espacio_blanco(s[0]) {
        lema_sin_espacio_inicial_forma(s.drop_first());
    }
}

/// The words of `s` as `str::split_whitespace` yields them: the maximal runs
/// of characters that are not white space, in order.
pub open spec fn palabras(s: Seq<char>) -> Seq<Seq<char>>
    decreases s.len(),
{
    let t = sin_espacio_inicial(s);
    if t.len() == 0 {
        seq![]
    } else {
        proof {
            lema_sin_espacio_inicial_forma(s);
            lema_fin_palabra_acotado(t);
        }
        let k = fin_palabra(t) as int;
        seq![t.take(k)] + palabras(t.skip(k))
    }
}

/// The words of `s` (`str::split_whitespace`), as slices of `s`.
pub fn dividir_palabras<'a>(s: &'a str) -> (r: Vec<&'a str>)
    ensures
        vistas(r@) == palabras(s@),
{
    let v = caracteres(s);
    let n = v.len();
    let mut r: Vec<&'a str> = Vec::new();
    let mut i: usize = 0;
    assert(s@.skip(0) =~= s@);
    loop
        invariant
            v@ == s@,
            n == v.len(),
            i <= n,
            vistas(r@) + palabras(s@.skip(i as int)) == palabras(s@),
        ensures
            vistas(r@) == palabras(s@),
        decreases n - i,
    {
        let ghost u = s@.skip(i as int);
        let mut a: usize = i;
        while a < n && espacio_blanco(v[a])
            invariant
                v@ == s@,
                n == v.len(),
                i <= a <= n,
                forall|k: int| i <= k < a ==> es_espacio_blanco(#[trigger] s@[k]),
            decreases n - a,
        {
            a = a + 1;
        }
        proof {
            assert forall|k: int| 0 <= k < a - i implies es_espacio_blanco(#[trigger] u[k]) by {
                assert(u[k] == s@[k + i]);
            }
            if a < n {
                assert(u[a - i] == s@[a as int]);
            }
            lema_sin_espacio_inicial(u, a - i);
            assert(u.skip(a - i) =~= s@.skip(a as int));
        }
        if a == n {
            proof {
                assert(s@.skip(a as int).len() == 0);
                assert(palabras(u) =~= Seq::<Seq<char>>::empty());
                assert(vistas(r@) + Seq::<Seq<char>>::empty() =~= vistas(r@));
            }
            break;
        }
        let ghost t = s@.skip(a as int);
        let mut b: usize = a;
        while b < n && !espacio_blanco(v[b])
            invariant
                v@ == s@,
                n == v.len(),
                a <= b <= n,
                forall|k: int| a <= k < b ==> !es_espacio_blanco(#[trigger] s@[k]),
            decreases n - b,
        {
            b = b + 1;
        }
        proof {
            assert forall|k: int| 0 <= k < b - a implies !es_espacio_blanco(#[trigger] t[k]) by {
                assert(t[k] == s@[k + a]);
            }
            if b < n {
                assert(t[b - a] == s@[b as int]);
            }
            lema_fin_palabra(t, b - a);
            assert(t.skip(b - a) =~= s@.skip(b as int));
        }
        let ghost r_antes = r@;
        let palabra = s.substring_char(a, b);
        r.push(palabra);
        proof {
            assert(palabra@ =~= t.take(b - a));
            assert(palabras(u) == seq![t.take(b - a)] + palabras(s@.skip(b as int)));
            assert(vistas(r@) =~= vistas(r_antes).push(t.take(b - a)));
            assert(vistas(r@) + palabras(s@.skip(b as int)) =~= vistas(r_antes) + palabras(u));
        }
        i = b;
    }
    r
}


/// Decides whether two texts have the same characters.
pub fn iguales(a: &str, b: &str) -> (r: bool)
    ensures
        r == (a@ == b@),
{
    let x = caracteres(a);
    let y = caracteres(b);
    if x.len() != y.len() {
        return false;
    }
    let mut i: usize = 0;
    while i < x.len()
        invariant
            x@ == a@,
            y@ == b@,
            x.len() == y.len(),
            i <= x.len(),
            forall|k: int| 0 <= k < i ==> x@[k] == y@[k],
        decreases x.len() - i,
    {
        if x[i] != y[i] {
            return false;
        }
        i = i + 1;
    }
    assert(a@ =~= b@);
    true
}

} // verus!
