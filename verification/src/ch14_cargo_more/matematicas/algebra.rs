//! Factorials.
use vstd::prelude::*;
use crate::ex14_cargo_more::{fact, fact_creciente};

verus! {

/// `n!`, computed with checked multiplication; the result must fit in `u64`.
pub fn factorial(n: u64) -> (r: u64)
    requires
        fact(n as nat) <= u64::MAX,
    ensures
        r == fact(n as nat),
{
    let mut acc: u64 = 1;
    let mut i: u64 = 0;
    while i < n
        invariant
            i <= n,
            acc == fact(i as nat),
            fact(n as nat) <= u64::MAX,
        decreases n - i,
    {
        let siguiente = i + 1;
        proof {
            fact_creciente(siguiente as nat, n as nat);
            assert(fact(siguiente as nat) == siguiente * fact(i as nat));
        }
        acc = match acc.checked_mul(siguiente) {
            Some(v) => v,
            None => {
                assert(false);
                0
            },
        };
        i = siguiente;
    }
    acc
}

} // verus!
