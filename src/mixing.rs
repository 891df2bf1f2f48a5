use vstd::prelude::*;

verus! {

/// `m` is an `n` by `n` matrix, stored row by row.
pub open spec fn is_square<T>(m: Seq<Vec<T>>, n: nat) -> bool {
    &&& m.len() == n
    &&& forall|i: int| 0 <= i < n ==> (#[trigger] m[i])@.len() == n
}

/// Entry `(i, j)` of `m` is what the combining rule `rule` gives for the
/// per-component values `v[i]` and `v[j]`.
pub open spec fn is_pairwise<T, F: Fn(T, T) -> T>(v: Seq<T>, rule: F, m: Seq<Vec<T>>) -> bool {
    &&& is_square(m, v.len())
    &&& forall|i: int, j: int|
        0 <= i < v.len() && 0 <= j < v.len() ==> rule.ensures((v[i], v[j]), #[trigger] m[i]@[j])
}

/// Entry `(i, j)` of `m` is what `rule` gives for the entries `(i, j)` of `a` and `b`.
pub open spec fn is_entrywise<T, F: Fn(T, T) -> T>(
    a: Seq<Vec<T>>,
    b: Seq<Vec<T>>,
    rule: F,
    m: Seq<Vec<T>>,
) -> bool {
    &&& is_square(m, a.len())
    &&& forall|i: int, j: int|
        0 <= i < a.len() && 0 <= j < a.len() ==> rule.ensures(
            (a[i]@[j], b[i]@[j]),
            #[trigger] m[i]@[j],
        )
}

/// A combining rule that can be applied to any pair of values.
pub open spec fn is_total<T, F: Fn(T, T) -> T>(rule: F) -> bool {
    forall|x: T, y: T| #[trigger] rule.requires((x, y))
}

/// A combining rule that gives one result for one pair of arguments.
pub open spec fn is_functional<T, F: Fn(T, T) -> T>(rule: F) -> bool {
    forall|x: T, y: T, r1: T, r2: T|
        #[trigger] rule.ensures((x, y), r1) && #[trigger] rule.ensures((x, y), r2) ==> r1 == r2
}

/// A combining rule that does not depend on the order of its arguments.
pub open spec fn is_commutative<T, F: Fn(T, T) -> T>(rule: F) -> bool {
    forall|x: T, y: T, r: T| #[trigger] rule.ensures((x, y), r) ==> rule.ensures((y, x), r)
}

pub open spec fn is_symmetric<T>(m: Seq<Vec<T>>) -> bool {
    forall|i: int, j: int| 0 <= i < m.len() && 0 <= j < m.len() ==> #[trigger] m[i]@[j] == m[j]@[i]
}

/// Builds the `n` by `n` matrix of a combining rule over `n` per-component values:
/// entry `(i, j)` is `rule(v[i], v[j])`.
pub fn pairwise<T: Copy, F: Fn(T, T) -> T>(v: &Vec<T>, rule: F) -> (m: Vec<Vec<T>>)
    requires
        is_total(rule),
    ensures
        is_pairwise(v@, rule, m@),
{
    let n = v.len();
    let mut m: Vec<Vec<T>> = Vec::with_capacity(n);
    let mut i: usize = 0;
    while i < n
        invariant
            n == v@.len(),
            i <= n,
            is_total(rule),
            m@.len() == i,
            forall|a: int| 0 <= a < i ==> (#[trigger] m@[a])@.len() == n,
            forall|a: int, b: int|
                0 <= a < i && 0 <= b < n ==> rule.ensures((v@[a], v@[b]), #[trigger] m@[a]@[b]),
        decreases n - i,
    {
        let mut row: Vec<T> = Vec::with_capacity(n);
        let mut j: usize = 0;
        while j < n
            invariant
                n == v@.len(),
                i < n,
                j <= n,
                is_total(rule),
                row@.len() == j,
                forall|b: int| 0 <= b < j ==> rule.ensures((v@[i as int], v@[b]), #[trigger] row@[b]),
            decreases n - j,
        {
            let x = rule(v[i], v[j]);
            row.push(x);
            j = j + 1;
        }
        m.push(row);
        i = i + 1;
    }
    m
}

/// Combines two `n` by `n` matrices entry by entry: entry `(i, j)` of the result is
/// `rule(a[i][j], b[i][j])`.
pub fn entrywise<T: Copy, F: Fn(T, T) -> T>(
    a: &Vec<Vec<T>>,
    b: &Vec<Vec<T>>,
    rule: F,
) -> (m: Vec<Vec<T>>)
    requires
        is_square(a@, a@.len()),
        is_square(b@, a@.len()),
        is_total(rule),
    ensures
        is_entrywise(a@, b@, rule, m@),
{
    let n = a.len();
    let mut m: Vec<Vec<T>> = Vec::with_capacity(n);
    let mut i: usize = 0;
    while i < n
        invariant
            n == a@.len(),
            is_square(a@, n as nat),
            is_square(b@, n as nat),
            i <= n,
            is_total(rule),
            m@.len() == i,
            forall|x: int| 0 <= x < i ==> (#[trigger] m@[x])@.len() == n,
            forall|x: int, y: int|
                0 <= x < i && 0 <= y < n ==> rule.ensures(
                    (a@[x]@[y], b@[x]@[y]),
                    #[trigger] m@[x]@[y],
                ),
        decreases n - i,
    {
        let ra = &a[i];
        let rb = &b[i];
        assert(ra@.len() == n && rb@.len() == n);
        let mut row: Vec<T> = Vec::with_capacity(n);
        let mut j: usize = 0;
        while j < n
            invariant
                ra@.len() == n,
                rb@.len() == n,
                ra == a@[i as int],
                rb == b@[i as int],
                j <= n,
                is_total(rule),
                row@.len() == j,
                forall|y: int| 0 <= y < j ==> rule.ensures((ra@[y], rb@[y]), #[trigger] row@[y]),
            decreases n - j,
        {
            let x = rule(ra[j], rb[j]);
            row.push(x);
            j = j + 1;
        }
        m.push(row);
        i = i + 1;
    }
    m
}

/// A combining rule that is commutative and gives one result per pair yields a
/// symmetric matrix.
pub proof fn lemma_pairwise_symmetric<T, F: Fn(T, T) -> T>(v: Seq<T>, rule: F, m: Seq<Vec<T>>)
    requires
        is_pairwise(v, rule, m),
        is_commutative(rule),
        is_functional(rule),
    ensures
        is_symmetric(m),
{
    assert forall|i: int, j: int| 0 <= i < m.len() && 0 <= j < m.len() implies #[trigger] m[i]@[j]
        == m[j]@[i] by {
        assert(rule.ensures((v[i], v[j]), m[i]@[j]));
        assert(rule.ensures((v[j], v[i]), m[j]@[i]));
        assert(rule.ensures((v[j], v[i]), m[i]@[j]));
    }
}

/// A correction whose rule leaves its second argument unchanged when the first is
/// `zero` changes nothing where every correction coefficient is `zero`.
pub proof fn lemma_zero_correction_is_identity<T, F: Fn(T, T) -> T>(
    k: Seq<Vec<T>>,
    e: Seq<Vec<T>>,
    zero: T,
    rule: F,
    m: Seq<Vec<T>>,
)
    requires
        is_square(k, k.len()),
        is_square(e, k.len()),
        is_entrywise(k, e, rule, m),
        forall|i: int, j: int| 0 <= i < k.len() && 0 <= j < k.len() ==> #[trigger] k[i]@[j] == zero,
        forall|x: T, r: T| #[trigger] rule.ensures((zero, x), r) ==> r == x,
    ensures
        forall|i: int, j: int| 0 <= i < k.len() && 0 <= j < k.len() ==> #[trigger] m[i]@[j] == e[i]@[j],
{
    assert forall|i: int, j: int| 0 <= i < k.len() && 0 <= j < k.len() implies #[trigger] m[i]@[j]
        == e[i]@[j] by {
        assert(k[i]@[j] == zero);
        assert(rule.ensures((k[i]@[j], e[i]@[j]), m[i]@[j]));
    }
}

} // verus!
