//! Iterators: a counter that yields 1, 2, ..., up to its limit, and a
//! filter-then-map pipeline over a slice.
use vstd::prelude::*;

verus! {

/// A counter that yields the numbers from 1 up to `limite`, then nothing.
#[derive(Debug)]
pub struct Contador {
    pub actual: u32,
    pub limite: u32,
}

impl Contador {
    /// A counter that has yielded nothing yet.
    pub fn nuevo(limite: u32) -> (r: Self)
        ensures
            r.actual == 0,
            r.limite == limite,
    {
        Self { actual: 0, limite }
    }

    /// The next number, or `None` once the limit has been reached (and from
    /// then on).
    pub fn next(&mut self) -> (r: Option<u32>)
        ensures
            final(self).limite == old(self).limite,
            old(self).actual < old(self).limite ==> final(self).actual == old(self).actual + 1
                && r == Some(final(self).actual),
            old(self).actual >= old(self).limite ==> final(self).actual == old(self).actual && r
                is None,
    {
        if self.actual < self.limite {
            self.actual = self.actual + 1;
            Some(self.actual)
        } else {
            None
        }
    }
}

/// The squares of the even elements of `v`, in order.
pub open spec fn cuadrados_de_pares_spec(v: Seq<i32>) -> Seq<int>
    decreases v.len(),
{
    if v.len() == 0 {
        seq![]
    } else if v.last() % 2 == 0 {
        cuadrados_de_pares_spec(v.drop_last()).push(v.last() * v.last())
    } else {
        cuadrados_de_pares_spec(v.drop_last())
    }
}

/// Keeps the even numbers and squares each of them, in order; every such
/// square must fit in `i32`.
pub fn cuadrados_de_pares(valores: &[i32]) -> (r: Vec<i32>)
    requires
        forall|i: int|
            0 <= i < valores.len() && valores@[i] % 2 == 0 ==> #[trigger] valores@[i]
                * valores@[i] <= i32::MAX,
    ensures
        r@.map_values(|x: i32| x as int) == cuadrados_de_pares_spec(valores@),
{
    let mut r: Vec<i32> = Vec::new();
    let mut i: usize = 0;
    while i < valores.len()
        invariant
            i <= valores.len(),
            forall|k: int|
                0 <= k < valores.len() && valores@[k] % 2 == 0 ==> #[trigger] valores@[k]
                    * valores@[k] <= i32::MAX,
            r@.map_values(|x: i32| x as int) == cuadrados_de_pares_spec(valores@.take(i as int)),
        decreases valores.len() - i,
    {
        let x = valores[i];
        assert(valores@.take(i + 1).drop_last() =~= valores@.take(i as int));
        assert(valores@.take(i + 1).last() == x);
        let ghost antes = r@;
        if x % 2 == 0 {
            assert(valores@[i as int] * valores@[i as int] <= i32::MAX);
            assert(x * x >= 0) by (nonlinear_arith);
            r.push(x * x);
            assert(r@.map_values(|y: i32| y as int) =~= antes.map_values(|y: i32| y as int).push(
                x * x,
            ));
        }
        i = i + 1;
    }
    assert(valores@.take(valores.len() as int) =~= valores@);
    r
}

/// The pipeline keeps exactly the even elements, in order, and squares
/// each of them.
pub proof fn pares_luego_cuadrados(v: Seq<i32>)
    ensures
        cuadrados_de_pares_spec(v) == v.filter(|x: i32| x % 2 == 0).map_values(|x: i32| x * x),
    decreases v.len(),
{
    let pred = |x: i32| x % 2 == 0;
    let cuadrado = |x: i32| x * x;
    assert(v.filter(pred) == v.filter(|x: i32| x % 2 == 0));
    if v.len() > 0 {
        pares_luego_cuadrados(v.drop_last());
        let f = v.drop_last().filter(pred);
        reveal_with_fuel(Seq::filter, 1);
        assert(v.filter(pred) == (if pred(v.last()) {
            f.push(v.last())
        } else {
            f
        }));
        if pred(v.last()) {
            assert(f.push(v.last()).map_values(cuadrado) =~= f.map_values(cuadrado).push(
                v.last() * v.last(),
            ));
        }
    }
}

} // verus!
