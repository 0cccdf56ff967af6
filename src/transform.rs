//! Buffer-shape transforms, generic over the sample type.
use vstd::prelude::*;

verus! {

/// `ceil(n / k)` for a positive `k`.
pub open spec fn ceil_div(n: int, k: int) -> int {
    (n + k - 1) / k
}

/// The `g`-th group of `k` consecutive samples (the last one may be shorter).
pub open spec fn group_of<T>(s: Seq<T>, k: int, g: int) -> Seq<T> {
    s.subrange(g * k, if (g + 1) * k <= s.len() { (g + 1) * k } else { s.len() as int })
}

/// `out` is a possible result of `mean` on a slice that holds exactly `group`.
pub open spec fn averaged<T, F: Fn(&[T]) -> T>(mean: F, group: Seq<T>, out: T) -> bool {
    exists|s: &[T]| s@ == group && #[trigger] call_ensures(mean, (s,), out)
}

/// Number of groups of `k` samples that `n` samples fall into.
pub fn group_count(n: usize, k: usize) -> (r: usize)
    requires
        k > 0,
    ensures
        r == ceil_div(n as int, k as int),
{
    let q = n / k;
    assert(n % k != 0 ==> q < n) by (nonlinear_arith)
        requires
            k > 0,
            q == n / k,
    ;
    let r = q + if n % k != 0 { 1 } else { 0 };
    assert(r == ceil_div(n as int, k as int)) by (nonlinear_arith)
        requires
            k > 0,
            r == n / k + if n % k != 0 { 1int } else { 0int },
    {
    }
    r
}

/// Replaces each group of `k` consecutive samples by `mean` of the group.
pub fn decimate<T: Copy, F: Fn(&[T]) -> T>(data: &[T], k: usize, mean: F) -> (r: Vec<T>)
    requires
        k > 0,
        forall|s: &[T]| 0 < s@.len() <= k ==> call_requires(mean, (s,)),
    ensures
        r.len() == ceil_div(data.len() as int, k as int),
        forall|g: int| 0 <= g < r.len() ==> averaged(mean, group_of(data@, k as int, g), #[trigger] r[g]),
{
    let n = data.len();
    let count = group_count(n, k);
    let mut r: Vec<T> = Vec::new();
    let mut g: usize = 0;
    while g < count
        invariant
            k > 0,
            n == data.len(),
            count == ceil_div(n as int, k as int),
            g <= count,
            r.len() == g,
            forall|s: &[T]| 0 < s@.len() <= k ==> call_requires(mean, (s,)),
            forall|h: int| 0 <= h < g ==> averaged(mean, group_of(data@, k as int, h), #[trigger] r[h]),
        decreases count - g,
    {
        proof {
            assert(g * k < n) by (nonlinear_arith)
                requires
                    g < count,
                    count == (n as int + k as int - 1) / (k as int),
                    k > 0,
            ;
        }
        let start = g * k;
        let end = if n - start >= k { start + k } else { n };
        let s = vstd::slice::slice_subrange(data, start, end);
        proof {
            assert((g + 1) * k == start + k) by (nonlinear_arith) requires start == g * k;
            assert(s@ == group_of(data@, k as int, g as int));
        }
        let v = mean(s);
        r.push(v);
        proof {
            assert(averaged(mean, group_of(data@, k as int, g as int), r[g as int]));
        }
        g = g + 1;
    }
    r
}

/// Applies `rotate(rate, n, x)` to the `n`-th sample `x`; `n` counts from zero.
pub fn shift<S, T: Copy, F: Fn(&S, usize, T) -> T>(data: &[T], rate: &S, rotate: F) -> (r: Vec<T>)
    requires
        forall|n: usize, x: T| call_requires(rotate, (rate, n, x)),
    ensures
        r.len() == data.len(),
        forall|n: int| 0 <= n < r.len() ==> call_ensures(rotate, (rate, n as usize, data@[n]), #[trigger] r[n]),
{
    let mut r: Vec<T> = Vec::new();
    let mut n: usize = 0;
    while n < data.len()
        invariant
            n <= data.len(),
            r.len() == n,
            forall|m: usize, x: T| call_requires(rotate, (rate, m, x)),
            forall|m: int| 0 <= m < n ==> call_ensures(rotate, (rate, m as usize, data@[m]), #[trigger] r[m]),
        decreases data.len() - n,
    {
        let v = rotate(rate, n, data[n]);
        r.push(v);
        n = n + 1;
    }
    r
}

/// Number of adjacent pairs in `n` samples: `max(n - 1, 0)`.
pub open spec fn pair_count(n: int) -> int {
    if n > 0 { n - 1 } else { 0 }
}

/// One output per adjacent pair: `step(s[i], s[i + 1])`.
pub fn discriminate<T: Copy, U, F: Fn(T, T) -> U>(data: &[T], step: F) -> (r: Vec<U>)
    requires
        forall|a: T, b: T| call_requires(step, (a, b)),
    ensures
        r.len() == pair_count(data.len() as int),
        forall|i: int| 0 <= i < r.len() ==> call_ensures(step, (data@[i], data@[i + 1]), #[trigger] r[i]),
{
    let mut r: Vec<U> = Vec::new();
    let mut i: usize = 1;
    while i < data.len()
        invariant
            1 <= i,
            data.len() == 0 ==> i == 1,
            data.len() > 0 ==> i <= data.len(),
            r.len() == i - 1,
            forall|a: T, b: T| call_requires(step, (a, b)),
            forall|j: int| 0 <= j < r.len() ==> call_ensures(step, (data@[j], data@[j + 1]), #[trigger] r[j]),
        decreases data.len() - i,
    {
        let v = step(data[i - 1], data[i]);
        r.push(v);
        i = i + 1;
    }
    r
}

/// Decodes consecutive byte pairs `(b[2i], b[2i + 1])`; an odd trailing byte is dropped.
pub fn decode_pairs<T, F: Fn(u8, u8) -> T>(bytes: &[u8], decode: F) -> (r: Vec<T>)
    requires
        forall|a: u8, b: u8| call_requires(decode, (a, b)),
    ensures
        r.len() == bytes.len() / 2,
        forall|i: int| 0 <= i < r.len() ==> call_ensures(decode, (bytes@[2 * i], bytes@[2 * i + 1]), #[trigger] r[i]),
{
    let half = bytes.len() / 2;
    let mut r: Vec<T> = Vec::new();
    let mut i: usize = 0;
    while i < half
        invariant
            half == bytes.len() / 2,
            i <= half,
            r.len() == i,
            forall|a: u8, b: u8| call_requires(decode, (a, b)),
            forall|j: int| 0 <= j < i ==> call_ensures(decode, (bytes@[2 * j], bytes@[2 * j + 1]), #[trigger] r[j]),
        decreases half - i,
    {
        let v = decode(bytes[2 * i], bytes[2 * i + 1]);
        r.push(v);
        i = i + 1;
    }
    r
}

} // verus!
