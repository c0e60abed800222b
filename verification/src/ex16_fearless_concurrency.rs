//! The computations that the concurrent exercises hand to their threads:
//! the size of each chunk, the bounds of the chunks, the sum of a chunk,
//! and the square of a number.
use vstd::prelude::*;

verus! {

/// The sum of the elements of `s`.
pub open spec fn suma(s: Seq<i32>) -> int
    decreases s.len(),
{
    if s.len() == 0 {
        0
    } else {
        suma(s.drop_last()) + s.last()
    }
}

/// Every prefix sum of `s` fits in `i32`.
pub open spec fn sumas_parciales_en_rango(s: Seq<i32>) -> bool {
    forall|k: int| 0 <= k <= s.len() ==> i32::MIN <= #[trigger] suma(s.take(k)) <= i32::MAX
}

/// The size of each chunk when `longitud` items are split among `hilos`
/// threads: the ceiling of their quotient.
pub fn tamano_porcion(longitud: usize, hilos: usize) -> (r: usize)
    requires
        hilos > 0,
        longitud + hilos <= usize::MAX,
    ensures
        r == (longitud + hilos - 1) / (hilos as int),
{
    (longitud + hilos - 1) / hilos
}

/// `r` cuts the positions `0..n` into non-empty half-open ranges, in order
/// and without gaps; there are none exactly when `n` is 0.
pub open spec fn particion(r: Seq<(usize, usize)>, n: int) -> bool {
    &&& (r.len() == 0 <==> n == 0)
    &&& r.len() > 0 ==> r[0].0 == 0 && r[r.len() - 1].1 == n
    &&& forall|k: int| 0 <= k < r.len() ==> #[trigger] r[k].0 < r[k].1
    &&& forall|k: int, j: int|
        0 <= k && j == k + 1 && j < r.len() ==> #[trigger] r[j].0 == #[trigger] r[k].1
}

/// The chunks of `longitud` items taken `tamano` at a time, as half-open
/// ranges of positions: consecutive, covering `0..longitud`, each of
/// `tamano` items but the last, which has between one and `tamano`. There
/// are none when there are no items.
pub fn porciones(longitud: usize, tamano: usize) -> (r: Vec<(usize, usize)>)
    requires
        tamano > 0,
    ensures
        particion(r@, longitud as int),
        forall|k: int| 0 <= k < r.len() ==> #[trigger] r@[k].1 <= r@[k].0 + tamano,
        forall|k: int| 0 <= k < r.len() - 1 ==> #[trigger] r@[k].1 == r@[k].0 + tamano,
{
    let mut r: Vec<(usize, usize)> = Vec::new();
    let mut inicio: usize = 0;
    while inicio < longitud
        invariant
            tamano > 0,
            inicio <= longitud,
            r.len() == 0 <==> inicio == 0,
            r.len() > 0 ==> r@[0].0 == 0 && r@[r.len() - 1].1 == inicio,
            r.len() > 0 && inicio < longitud ==> r@[r.len() - 1].1 == r@[r.len() - 1].0 + tamano,
            forall|k: int|
                0 <= k < r.len() ==> #[trigger] r@[k].0 < r@[k].1 && r@[k].1 <= r@[k].0 + tamano,
            forall|k: int| 0 <= k < r.len() - 1 ==> #[trigger] r@[k].1 == r@[k].0 + tamano,
            forall|k: int, j: int|
                0 <= k && j == k + 1 && j < r.len() ==> #[trigger] r@[j].0 == #[trigger] r@[k].1,
        decreases longitud - inicio,
    {
        let fin: usize = if longitud - inicio > tamano {
            inicio + tamano
        } else {
            longitud
        };
        let ghost antes = r@;
        r.push((inicio, fin));
        proof {
            assert forall|k: int| 0 <= k < r.len() - 1 implies #[trigger] r@[k].1 == r@[k].0 + tamano by {
                if k < antes.len() - 1 {
                    assert(r@[k] == antes[k]);
                } else {
                    assert(k == antes.len() - 1);
                    assert(r@[k] == antes[k]);
                }
            }
        }
        inicio = fin;
    }
    r
}

/// The sum of a chunk; each partial sum must fit in `i32`.
pub fn suma_porcion(datos: &[i32]) -> (r: i32)
    requires
        sumas_parciales_en_rango(datos@),
    ensures
        r == suma(datos@),
{
    let mut total: i32 = 0;
    let mut i: usize = 0;
    while i < datos.len()
        invariant
            i <= datos.len(),
            sumas_parciales_en_rango(datos@),
            total == suma(datos@.take(i as int)),
        decreases datos.len() - i,
    {
        assert(datos@.take(i + 1).drop_last() =~= datos@.take(i as int));
        assert(i32::MIN <= suma(datos@.take(i + 1)) <= i32::MAX);
        total = total + datos[i];
        i = i + 1;
    }
    assert(datos@.take(datos.len() as int) =~= datos@);
    total
}

/// The square of `num`, which must fit in `i32`.
pub fn elevar_al_cuadrado(num: i32) -> (r: i32)
    requires
        num * num <= i32::MAX,
    ensures
        r == num * num,
{
    assert(num * num >= 0) by (nonlinear_arith);
    num * num
}

/// The sum of a concatenation is the sum of the sums of its parts, so
/// adding up the sums of consecutive chunks gives the sum of the whole.
pub proof fn suma_concatenacion(a: Seq<i32>, b: Seq<i32>)
    ensures
        suma(a + b) == suma(a) + suma(b),
    decreases b.len(),
{
    if b.len() == 0 {
        assert(a + b =~= a);
    } else {
        suma_concatenacion(a, b.drop_last());
        assert((a + b).drop_last() =~= a + b.drop_last());
    }
}


/// The sum of the sums of the chunks of `s` that the ranges `r` mark.
pub open spec fn suma_de_porciones(s: Seq<i32>, r: Seq<(usize, usize)>) -> int
    decreases r.len(),
{
    if r.len() == 0 {
        0
    } else {
        suma_de_porciones(s, r.drop_last()) + suma(s.subrange(r.last().0 as int, r.last().1 as int))
    }
}

proof fn lema_suma_prefijo(s: Seq<i32>, r: Seq<(usize, usize)>)
    requires
        r.len() > 0,
        r[0].0 == 0,
        r[r.len() - 1].1 <= s.len(),
        forall|k: int| 0 <= k < r.len() ==> #[trigger] r[k].0 < r[k].1,
        forall|k: int, j: int|
            0 <= k && j == k + 1 && j < r.len() ==> #[trigger] r[j].0 == #[trigger] r[k].1,
    ensures
        suma_de_porciones(s, r) == suma(s.take(r[r.len() - 1].1 as int)),
    decreases r.len(),
{
    let n = r.len();
    let ultimo = r[n - 1];
    if n == 1 {
        assert(s.subrange(0, ultimo.1 as int) =~= s.take(ultimo.1 as int));
        assert(suma_de_porciones(s, r.drop_last()) == 0);
        assert(r.last() == r[0]);
    } else {
        let previos = r.drop_last();
        assert(previos[previos.len() - 1] == r[n - 2]);
        assert(r[n - 1].0 == r[n - 2].1);
        assert forall|k: int| 0 <= k < previos.len() implies #[trigger] previos[k].0 < previos[k].1 by {
            assert(previos[k] == r[k]);
        }
        assert forall|k: int, j: int|
            0 <= k && j == k + 1 && j < previos.len() implies #[trigger] previos[j].0
                == #[trigger] previos[k].1 by {
            assert(previos[k] == r[k] && previos[j] == r[j]);
        }
        lema_suma_prefijo(s, previos);
        let b = ultimo.0 as int;
        let e = ultimo.1 as int;
        suma_concatenacion(s.take(b), s.subrange(b, e));
        assert(s.take(b) + s.subrange(b, e) =~= s.take(e));
        assert(r.last() == ultimo);
        assert(suma_de_porciones(s, r) == suma_de_porciones(s, previos) + suma(s.subrange(b, e)));
    }
}

/// Splitting the work does not change the result: for any way of cutting
/// the positions of `s` into consecutive chunks (such as `porciones`
/// gives), adding up the sums of the chunks gives the sum of `s`.
pub proof fn suma_por_porciones(s: Seq<i32>, r: Seq<(usize, usize)>)
    requires
        particion(r, s.len() as int),
    ensures
        suma_de_porciones(s, r) == suma(s),
{
    if r.len() > 0 {
        lema_suma_prefijo(s, r);
        assert(s.take(s.len() as int) =~= s);
    }
}

} // verus!
