//! Fibonacci numbers.
use vstd::prelude::*;
use crate::ex14_cargo_more::{fib, fib_creciente};

verus! {

/// The `n`-th Fibonacci number; it must fit in `u64`.
pub fn fibonacci(n: u32) -> (r: u64)
    requires
        fib(n as nat) <= u64::MAX,
    ensures
        r == fib(n as nat),
{
    if n == 0 {
        return 0;
    }
    let mut a: u64 = 0;
    let mut b: u64 = 1;
    let mut k: u32 = 1;
    while k < n
        invariant
            1 <= k <= n,
            a == fib((k - 1) as nat),
            b == fib(k as nat),
            fib(n as nat) <= u64::MAX,
        decreases n - k,
    {
        proof {
            fib_creciente((k + 1) as nat, n as nat);
        }
        let temp = a + b;
        a = b;
        b = temp;
        k = k + 1;
    }
    b
}

} // verus!
