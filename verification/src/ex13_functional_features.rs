//! Closures and iterators: filtering and squaring, and filtering with a
//! caller-supplied predicate.
use vstd::prelude::*;

verus! {

/// The squares of the elements of `v` that are at least `umbral`, in order.
pub open spec fn cuadrados_filtrados(v: Seq<i32>, umbral: i32) -> Seq<int>
    decreases v.len(),
{
    if v.len() == 0 {
        seq![]
    } else if v.last() >= umbral {
        cuadrados_filtrados(v.drop_last(), umbral).push(v.last() * v.last())
    } else {
        cuadrados_filtrados(v.drop_last(), umbral)
    }
}

/// Filtering then squaring: the result is exactly the elements `x` of `v`
/// with `x >= umbral` (and no condition other than that one), kept in
/// order, each replaced by `x * x`; so there are as many results as such
/// elements.
pub proof fn filtrar_luego_elevar(v: Seq<i32>, umbral: i32)
    ensures
        cuadrados_filtrados(v, umbral) == v.filter(|x: i32| x >= umbral).map_values(
            |x: i32| x * x,
        ),
        cuadrados_filtrados(v, umbral).len() == v.filter(|x: i32| x >= umbral).len(),
    decreases v.len(),
{
    let pred = |x: i32| x >= umbral;
    let cuadrado = |x: i32| x * x;
    assert(v.filter(pred) == v.filter(|x: i32| x >= umbral));
    if v.len() > 0 {
        filtrar_luego_elevar(v.drop_last(), umbral);
        let f = v.drop_last().filter(pred);
        reveal_with_fuel(Seq::filter, 1);
        assert(v.filter(pred) == (if pred(v.last()) {
            f.push(v.last())
        } else {
            f
        }));
        if v.last() >= umbral {
            assert(f.push(v.last()).map_values(cuadrado) =~= f.map_values(cuadrado).push(
                v.last() * v.last(),
            ));
        }
    }
}

/// Keeps the numbers that are at least `umbral` and squares each of them;
/// every such square must fit in `i32`.
pub fn filtrar_y_elevar_cuadrado(numeros: Vec<i32>, umbral: i32) -> (r: Vec<i32>)
    requires
        forall|i: int|
            0 <= i < numeros.len() && numeros@[i] >= umbral ==> #[trigger] numeros@[i]
                * numeros@[i] <= i32::MAX,
    ensures
        r@.map_values(|x: i32| x as int) == cuadrados_filtrados(numeros@, umbral),
{
    let mut r: Vec<i32> = Vec::new();
    let mut i: usize = 0;
    while i < numeros.len()
        invariant
            i <= numeros.len(),
            forall|k: int|
                0 <= k < numeros.len() && numeros@[k] >= umbral ==> #[trigger] numeros@[k]
                    * numeros@[k] <= i32::MAX,
            r@.map_values(|x: i32| x as int) == cuadrados_filtrados(numeros@.take(i as int), umbral),
        decreases numeros.len() - i,
    {
        let x = numeros[i];
        assert(numeros@.take(i + 1).drop_last() =~= numeros@.take(i as int));
        assert(numeros@.take(i + 1).last() == x);
        let ghost antes = r@;
        if x >= umbral {
            assert(numeros@[i as int] * numeros@[i as int] <= i32::MAX);
            assert(x * x >= 0) by (nonlinear_arith);
            r.push(x * x);
            assert(r@.map_values(|y: i32| y as int) =~= antes.map_values(|y: i32| y as int).push(
                x * x,
            ));
        }
        i = i + 1;
    }
    assert(numeros@.take(numeros.len() as int) =~= numeros@);
    r
}

/// The elements of `v` whose answer in `b` is `true`, in order.
pub open spec fn seleccion(v: Seq<i32>, b: Seq<bool>) -> Seq<i32>
    decreases v.len(),
{
    if v.len() == 0 {
        seq![]
    } else if b[v.len() - 1] {
        seleccion(v.drop_last(), b).push(v.last())
    } else {
        seleccion(v.drop_last(), b)
    }
}

proof fn lema_seleccion_prefijo(v: Seq<i32>, b: Seq<bool>, c: Seq<bool>)
    requires
        b.len() >= v.len(),
        c.len() >= v.len(),
        forall|k: int| 0 <= k < v.len() ==> b[k] == c[k],
    ensures
        seleccion(v, b) == seleccion(v, c),
    decreases v.len(),
{
    if v.len() > 0 {
        lema_seleccion_prefijo(v.drop_last(), b, c);
    }
}

/// Filters vectors with a predicate given by the caller.
pub struct FiltroPersonalizado;

impl FiltroPersonalizado {
    /// The elements of `coleccion` for which `predicado` returns `true`, in order.
    pub fn filtrar<F>(&self, coleccion: Vec<i32>, mut predicado: F) -> (r: Vec<i32>) where
        F: FnMut(i32) -> bool,

        requires
            forall|x: i32| call_requires(predicado, (x,)),
        ensures
            exists|b: Seq<bool>|
                b.len() == coleccion.len() && (forall|i: int|
                    0 <= i < coleccion.len() ==> call_ensures(predicado, (coleccion@[i],), #[trigger] b[i]))
                    && r@ == seleccion(coleccion@, b),
    {
        let ghost mut b: Seq<bool> = Seq::empty();
        let ghost inicial = predicado;
        let mut filtrado: Vec<i32> = Vec::new();
        let mut i: usize = 0;
        while i < coleccion.len()
            invariant
                forall|x: i32| call_requires(predicado, (x,)),
                predicado == inicial,
                i <= coleccion.len(),
                b.len() == i,
                forall|k: int| 0 <= k < i ==> call_ensures(predicado, (coleccion@[k],), #[trigger] b[k]),
                filtrado@ == seleccion(coleccion@.take(i as int), b),
            decreases coleccion.len() - i,
        {
            let item = coleccion[i];
            let respuesta = predicado(item);
            let ghost b_antes = b;
            proof {
                b = b.push(respuesta);
                lema_seleccion_prefijo(coleccion@.take(i as int), b_antes, b);
                assert(coleccion@.take(i + 1).drop_last() =~= coleccion@.take(i as int));
                assert(coleccion@.take(i + 1).last() == item);
            }
            if respuesta {
                filtrado.push(item);
            }
            i = i + 1;
        }
        assert(coleccion@.take(coleccion.len() as int) =~= coleccion@);
        filtrado
    }
}

} // verus!
