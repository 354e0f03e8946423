//! Small arithmetic functions, and functions passed as values.
use vstd::prelude::*;

verus! {

/// Applies `op` to `x` and `y`.
pub fn apply_operation(x: i32, y: i32, op: impl Fn(i32, i32) -> i32) -> (r: i32)
    requires
        call_requires(op, (x, y)),
    ensures
        call_ensures(op, (x, y), r),
{
    op(x, y)
}

/// `a - b`; the difference must fit in an `i32`.
pub fn subtract(a: i32, b: i32) -> (r: i32)
    requires
        i32::MIN <= a - b <= i32::MAX,
    ensures
        r == a - b,
{
    a - b
}

/// `n!`: the product of `1..=n`, and 1 for 0.
pub open spec fn factorial_of(n: nat) -> nat
    decreases n,
{
    if n == 0 {
        1
    } else {
        n * factorial_of((n - 1) as nat)
    }
}

proof fn lemma_factorial_grows(n: nat)
    requires
        n > 0,
    ensures
        factorial_of((n - 1) as nat) <= factorial_of(n),
{
    let f = factorial_of((n - 1) as nat);
    assert(f <= n * f) by (nonlinear_arith)
        requires
            n >= 1,
    ;
}

/// `n!`, computed recursively; the result must fit in a `u64`.
pub fn factorial(n: u64) -> (r: u64)
    requires
        factorial_of(n as nat) <= u64::MAX,
    ensures
        r == factorial_of(n as nat),
    decreases n,
{
    if n == 0 {
        1
    } else {
        proof {
            lemma_factorial_grows(n as nat);
        }
        n * factorial(n - 1)
    }
}

/// Adds one to a present value; `None` stays `None`. A present value must
/// be below `i32::MAX`.
pub fn plus_one(x: Option<i32>) -> (r: Option<i32>)
    requires
        x matches Some(i) ==> i < i32::MAX,
    ensures
        r == (match x {
            None => None,
            Some(i) => Some((i + 1) as i32),
        }),
{
    match x {
        None => None,
        Some(i) => Some(i + 1),
    }
}

/// The sum of the first `k` elements of `s`.
pub open spec fn prefix_sum(s: Seq<i32>, k: int) -> int
    decreases k,
{
    if k <= 0 {
        0
    } else {
        prefix_sum(s, k - 1) + s[k - 1]
    }
}

/// Every running total of `s`, from left to right, fits in an `i32`.
pub open spec fn running_sums_fit(s: Seq<i32>) -> bool {
    forall|k: int| 0 <= k <= s.len() ==> i32::MIN <= #[trigger] prefix_sum(s, k) <= i32::MAX
}

/// The sum of the elements of `arr`, added from left to right; no running
/// total may overflow.
pub fn sum_array<const N: usize>(arr: [i32; N]) -> (r: i32)
    requires
        running_sums_fit(arr@),
    ensures
        r == prefix_sum(arr@, N as int),
{
    let mut total: i32 = 0;
    let mut i: usize = 0;
    while i < N
        invariant
            0 <= i <= N,
            N == arr@.len(),
            running_sums_fit(arr@),
            total == prefix_sum(arr@, i as int),
        decreases N - i,
    {
        assert(i32::MIN <= prefix_sum(arr@, i + 1) <= i32::MAX);
        total = total + arr[i];
        i = i + 1;
    }
    total
}

} // verus!
