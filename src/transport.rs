use vstd::prelude::*;

verus! {

/// Every component supplied its value.
pub open spec fn all_present<T>(v: Seq<Option<T>>) -> bool {
    forall|i: int| 0 <= i < v.len() ==> (#[trigger] v[i]) is Some
}

/// `w` holds, in order, the values that every component supplied.
pub open spec fn unwrapped<T>(v: Seq<Option<T>>, w: Seq<T>) -> bool {
    &&& w.len() == v.len()
    &&& forall|i: int| 0 <= i < v.len() ==> v[i] == Some(#[trigger] w[i])
}

/// The values of all components where every one supplied a value, and nothing
/// where any did not: the result is never partially populated.
pub fn all_or_nothing<T>(values: Vec<Option<T>>) -> (r: Option<Vec<T>>)
    ensures
        r is Some <==> all_present(values@),
        r matches Some(w) ==> unwrapped(values@, w@),
{
    let ghost v0 = values@;
    let mut v = values;
        let mut w: Vec<T> = Vec::with_capacity(v.len());
    while v.len() > 0
        invariant
            v0 == values@,
            w@.len() + v@.len() == v0.len(),
            v@ == v0.subrange(w@.len() as int, v0.len() as int),
            forall|i: int| 0 <= i < w@.len() ==> v0[i] == Some(#[trigger] w@[i]),
        decreases v@.len(),
    {
        let ghost k = w@.len() as int;
        let x = v.remove(0);
        assert(x == v0[k]);
        match x {
            Some(y) => {
                w.push(y);
            },
            None => {
                assert(!(v0[k] is Some));
                assert(!all_present(v0));
                return None;
            },
        }
    }
    assert forall|i: int| 0 <= i < v0.len() implies (#[trigger] v0[i]) is Some by {
        assert(v0[i] == Some(w@[i]));
    }
    assert(unwrapped(v0, w@));
    Some(w)
}

/// `m` holds the coefficient sets as columns: entry `(a, i)` is coefficient `a` of
/// component `i`.
pub open spec fn is_column_layout<T, const K: usize>(cols: Seq<[T; K]>, m: Seq<Vec<T>>) -> bool {
    &&& m.len() == K
    &&& forall|a: int| 0 <= a < K ==> (#[trigger] m[a])@.len() == cols.len()
    &&& forall|a: int, i: int| 0 <= a < K && 0 <= i < cols.len() ==> #[trigger] m[a]@[i] == cols[i]@[a]
}

/// Lays out one coefficient set per component as the columns of a `K` by `n` matrix.
pub fn coefficient_columns<T: Copy, const K: usize>(cols: &Vec<[T; K]>) -> (m: Vec<Vec<T>>)
    ensures
        is_column_layout(cols@, m@),
{
    let n = cols.len();
    let mut m: Vec<Vec<T>> = Vec::with_capacity(K);
    let mut a: usize = 0;
    while a < K
        invariant
            n == cols@.len(),
            a <= K,
            m@.len() == a,
            forall|x: int| 0 <= x < a ==> (#[trigger] m@[x])@.len() == n,
            forall|x: int, i: int| 0 <= x < a && 0 <= i < n ==> #[trigger] m@[x]@[i] == cols@[i]@[x],
        decreases K - a,
    {
        let mut row: Vec<T> = Vec::with_capacity(n);
        let mut i: usize = 0;
        while i < n
            invariant
                n == cols@.len(),
                a < K,
                i <= n,
                row@.len() == i,
                forall|y: int| 0 <= y < i ==> #[trigger] row@[y] == cols@[y]@[a as int],
            decreases n - i,
        {
            let c = &cols[i];
            row.push(c[a]);
            i = i + 1;
        }
        m.push(row);
        a = a + 1;
    }
    m
}

/// `m` holds, as its columns, the coefficient sets that every component supplied.
pub open spec fn is_present_layout<T, const K: usize>(sets: Seq<Option<[T; K]>>, m: Seq<Vec<T>>) -> bool {
    &&& m.len() == K
    &&& forall|a: int| 0 <= a < K ==> (#[trigger] m[a])@.len() == sets.len()
    &&& forall|a: int, i: int|
        0 <= a < K && 0 <= i < sets.len() ==> sets[i] is Some && #[trigger] m[a]@[i]
            == sets[i]->Some_0@[a]
}

/// The `K` by `n` matrix of a transport correlation: present only where every
/// component supplied its coefficient set, and then holding each set as a column.
pub fn transport_matrix<T: Copy, const K: usize>(sets: Vec<Option<[T; K]>>) -> (r: Option<Vec<Vec<T>>>)
    ensures
        r is Some <==> all_present(sets@),
        r matches Some(m) ==> is_present_layout(sets@, m@),
{
    let ghost s0 = sets@;
    match all_or_nothing(sets) {
        Some(cols) => {
            let m = coefficient_columns(&cols);
            assert forall|a: int, i: int| 0 <= a < K && 0 <= i < s0.len() implies s0[i] is Some
                && #[trigger] m@[a]@[i] == s0[i]->Some_0@[a] by {
                assert(s0[i] == Some(cols@[i]));
            }
            Some(m)
        },
        None => None,
    }
}

} // verus!
