//! Elementary numeric functions: factorial and Fibonacci numbers.
use vstd::prelude::*;

verus! {

/// `n!`.
pub open spec fn fact(n: nat) -> nat
    decreases n,
{
    if n == 0 {
        1
    } else {
        n * fact((n - 1) as nat)
    }
}

/// The `n`-th Fibonacci number, with `fib(0) == 0` and `fib(1) == 1`.
pub open spec fn fib(n: nat) -> nat
    decreases n,
{
    if n == 0 {
        0
    } else if n == 1 {
        1
    } else {
        fib((n - 2) as nat) + fib((n - 1) as nat)
    }
}

/// The factorial grows with its argument.
pub proof fn fact_creciente(i: nat, j: nat)
    requires
        i <= j,
    ensures
        1 <= fact(i) <= fact(j),
    decreases j - i,
{
    if i < j {
        fact_creciente(i, (j - 1) as nat);
        assert(fact(j) == j * fact((j - 1) as nat));
        assert(j * fact((j - 1) as nat) >= fact((j - 1) as nat)) by (nonlinear_arith)
            requires
                j >= 1,
                fact((j - 1) as nat) >= 1,
        ;
    } else {
        fact_positivo(i);
    }
}

proof fn fact_positivo(n: nat)
    ensures
        fact(n) >= 1,
    decreases n,
{
    if n > 0 {
        fact_positivo((n - 1) as nat);
        assert(n * fact((n - 1) as nat) >= 1) by (nonlinear_arith)
            requires
                n >= 1,
                fact((n - 1) as nat) >= 1,
        ;
    }
}

/// Fibonacci numbers do not decrease.
pub proof fn fib_creciente(i: nat, j: nat)
    requires
        i <= j,
    ensures
        fib(i) <= fib(j),
    decreases j - i,
{
    if i < j {
        fib_creciente(i, (j - 1) as nat);
        if j >= 2 {
            assert(fib(j) == fib((j - 2) as nat) + fib((j - 1) as nat));
        }
    }
}

/// `n!` computed iteratively; the result must fit in `u64`.
pub fn factorial(n: u64) -> (r: u64)
    requires
        fact(n as nat) <= u64::MAX,
    ensures
        r == fact(n as nat),
{
    let mut resultado: u64 = 1;
    let mut i: u64 = 0;
    while i < n
        invariant
            i <= n,
            resultado == fact(i as nat),
            fact(n as nat) <= u64::MAX,
        decreases n - i,
    {
        let siguiente = i + 1;
        proof {
            fact_creciente(siguiente as nat, n as nat);
            assert(fact(siguiente as nat) == siguiente * fact(i as nat));
        }
        resultado = resultado * siguiente;
        i = siguiente;
    }
    resultado
}

/// The `n`-th Fibonacci number computed iteratively; it must fit in `u64`.
pub fn fibonacci(n: u32) -> (r: u64)
    requires
        fib(n as nat) <= u64::MAX,
    ensures
        r == fib(n as nat),
{
    if n == 0 {
        return 0;
    } else if n == 1 {
        return 1;
    }
    let mut a: u64 = 0;
    let mut b: u64 = 1;
    let mut k: u32 = 1;
    while k < n
        invariant
            1 <= k <= n,
            a == fib((k - 1) as nat),
            b == fib(k as nat),
            fib(n as nat) <= u64::MAX,
        decreases n - k,
    {
        proof {
            fib_creciente((k + 1) as nat, n as nat);
        }
        let temp = a + b;
        a = b;
        b = temp;
        k = k + 1;
    }
    b
}

} // verus!
