//! Line search in a text, with and without case sensitivity.
use vstd::prelude::*;
use crate::texto::{a_minusculas, contiene, contiene_texto, dividir_lineas, lineas, minusculas, vistas};

verus! {

/// The lines of `ls` that contain `consulta`, in order.
pub open spec fn lineas_que_contienen(ls: Seq<Seq<char>>, consulta: Seq<char>) -> Seq<Seq<char>>
    decreases ls.len(),
{
    if ls.len() == 0 {
        seq![]
    } else if contiene(ls.last(), consulta) {
        lineas_que_contienen(ls.drop_last(), consulta).push(ls.last())
    } else {
        lineas_que_contienen(ls.drop_last(), consulta)
    }
}

/// The lines of `ls` whose lower-case form contains `consulta_minuscula`, in order.
pub open spec fn lineas_que_contienen_sin_caso(ls: Seq<Seq<char>>, consulta_minuscula: Seq<char>) -> Seq<Seq<char>>
    decreases ls.len(),
{
    if ls.len() == 0 {
        seq![]
    } else if contiene(minusculas(ls.last()), consulta_minuscula) {
        lineas_que_contienen_sin_caso(ls.drop_last(), consulta_minuscula).push(ls.last())
    } else {
        lineas_que_contienen_sin_caso(ls.drop_last(), consulta_minuscula)
    }
}

/// The lines of `contenido` that contain `query` (case-sensitive), in order.
pub fn buscar<'a>(query: &str, contenido: &'a str) -> (r: Vec<&'a str>)
    ensures
        vistas(r@) == lineas_que_contienen(lineas(contenido@), query@),
{
    let ls = dividir_lineas(contenido);
    let ghost todas = vistas(ls@);
    let mut resultados: Vec<&'a str> = Vec::new();
    let mut i: usize = 0;
    while i < ls.len()
        invariant
            todas == vistas(ls@),
            todas == lineas(contenido@),
            i <= ls.len(),
            vistas(resultados@) == lineas_que_contienen(todas.take(i as int), query@),
        decreases ls.len() - i,
    {
        let linea = ls[i];
        assert(todas.take(i + 1).drop_last() =~= todas.take(i as int));
        assert(todas.take(i + 1).last() == linea@);
        let ghost antes = resultados@;
        if contiene_texto(linea, query) {
            resultados.push(linea);
            assert(vistas(resultados@) =~= vistas(antes).push(linea@));
        }
        i = i + 1;
    }
    assert(todas.take(ls.len() as int) =~= todas);
    resultados
}

/// The lines of `contenido` whose lower-case form contains the lower-case
/// form of `query`, in order.
pub fn buscar_insensible<'a>(query: &str, contenido: &'a str) -> (r: Vec<&'a str>)
    ensures
        vistas(r@) == lineas_que_contienen_sin_caso(lineas(contenido@), minusculas(query@)),
{
    let query_minuscula = a_minusculas(query);
    let ls = dividir_lineas(contenido);
    let ghost todas = vistas(ls@);
    let mut resultados: Vec<&'a str> = Vec::new();
    let mut i: usize = 0;
    while i < ls.len()
        invariant
            todas == vistas(ls@),
            todas == lineas(contenido@),
            query_minuscula@ == minusculas(query@),
            i <= ls.len(),
            vistas(resultados@) == lineas_que_contienen_sin_caso(
                todas.take(i as int),
                minusculas(query@),
            ),
        decreases ls.len() - i,
    {
        let linea = ls[i];
        assert(todas.take(i + 1).drop_last() =~= todas.take(i as int));
        assert(todas.take(i + 1).last() == linea@);
        let ghost antes = resultados@;
        let linea_minuscula = a_minusculas(linea);
        if contiene_texto(linea_minuscula.as_str(), query_minuscula.as_str()) {
            resultados.push(linea);
            assert(vistas(resultados@) =~= vistas(antes).push(linea@));
        }
        i = i + 1;
    }
    assert(todas.take(ls.len() as int) =~= todas);
    resultados
}

/// The search keeps exactly the lines that contain the query, in their
/// order; the case-insensitive search keeps exactly those whose lower-case
/// form contains the lower-cased query.
pub proof fn busqueda_filtra_lineas(ls: Seq<Seq<char>>, consulta: Seq<char>)
    ensures
        lineas_que_contienen(ls, consulta) == ls.filter(|l: Seq<char>| contiene(l, consulta)),
        lineas_que_contienen_sin_caso(ls, consulta) == ls.filter(
            |l: Seq<char>| contiene(minusculas(l), consulta),
        ),
    decreases ls.len(),
{
    let p1 = |l: Seq<char>| contiene(l, consulta);
    let p2 = |l: Seq<char>| contiene(minusculas(l), consulta);
    assert(ls.filter(p1) == ls.filter(|l: Seq<char>| contiene(l, consulta)));
    assert(ls.filter(p2) == ls.filter(|l: Seq<char>| contiene(minusculas(l), consulta)));
    if ls.len() > 0 {
        busqueda_filtra_lineas(ls.drop_last(), consulta);
        reveal_with_fuel(Seq::filter, 1);
        assert(ls.filter(p1) == (if p1(ls.last()) {
            ls.drop_last().filter(p1).push(ls.last())
        } else {
            ls.drop_last().filter(p1)
        }));
        assert(ls.filter(p2) == (if p2(ls.last()) {
            ls.drop_last().filter(p2).push(ls.last())
        } else {
            ls.drop_last().filter(p2)
        }));
    }
}

} // verus!
