use vstd::prelude::*;
use crate::mixing::{is_entrywise, is_functional, is_pairwise, is_square};

verus! {

/// Every index points into a collection of `n` components.
pub open spec fn indices_below(indices: Seq<usize>, n: nat) -> bool {
    forall|a: int| 0 <= a < indices.len() ==> (#[trigger] indices[a]) < n
}

/// The values of the components named by `indices`, in the order given.
pub open spec fn selected<T>(v: Seq<T>, indices: Seq<usize>) -> Seq<T> {
    indices.map_values(|k: usize| v[k as int])
}

/// `r` holds the rows and columns of `m` named by `indices`.
pub open spec fn is_selected_square<T>(m: Seq<Vec<T>>, indices: Seq<usize>, r: Seq<Vec<T>>) -> bool {
    &&& is_square(r, indices.len())
    &&& forall|a: int, b: int|
        0 <= a < indices.len() && 0 <= b < indices.len() ==> #[trigger] r[a]@[b]
            == m[indices[a] as int]@[indices[b] as int]
}

/// Whether every index points into a collection of `n` components.
pub fn indices_in_range(indices: &Vec<usize>, n: usize) -> (r: bool)
    ensures
        r == indices_below(indices@, n as nat),
{
    let mut a: usize = 0;
    while a < indices.len()
        invariant
            a <= indices@.len(),
            forall|x: int| 0 <= x < a ==> (#[trigger] indices@[x]) < n,
        decreases indices@.len() - a,
    {
        if indices[a] >= n {
            return false;
        }
        a = a + 1;
    }
    true
}

/// The indices `0, 1, ..., n - 1` of the components of an `n`-component model.
pub fn component_index(n: usize) -> (r: Vec<usize>)
    ensures
        r@.len() == n,
        forall|i: int| 0 <= i < n ==> #[trigger] r@[i] == i,
{
    let mut r: Vec<usize> = Vec::with_capacity(n);
    let mut i: usize = 0;
    while i < n
        invariant
            i <= n,
            r@.len() == i,
            forall|a: int| 0 <= a < i ==> #[trigger] r@[a] == a,
        decreases n - i,
    {
        r.push(i);
        i = i + 1;
    }
    r
}

/// The per-component values of the components named by `indices`.
pub fn select<T: Copy>(v: &Vec<T>, indices: &Vec<usize>) -> (r: Vec<T>)
    requires
        indices_below(indices@, v@.len()),
    ensures
        r@ == selected(v@, indices@),
{
    let mut r: Vec<T> = Vec::with_capacity(indices.len());
    let mut a: usize = 0;
    while a < indices.len()
        invariant
            indices_below(indices@, v@.len()),
            a <= indices@.len(),
            r@ == selected(v@, indices@.subrange(0, a as int)),
        decreases indices@.len() - a,
    {
        let k = indices[a];
        r.push(v[k]);
        assert(indices@.subrange(0, a + 1) == indices@.subrange(0, a as int).push(k));
        a = a + 1;
    }
    assert(indices@.subrange(0, indices@.len() as int) == indices@);
    r
}

/// The rows and columns of an `n` by `n` matrix named by `indices`.
pub fn select_square<T: Copy>(m: &Vec<Vec<T>>, indices: &Vec<usize>) -> (r: Vec<Vec<T>>)
    requires
        is_square(m@, m@.len()),
        indices_below(indices@, m@.len()),
    ensures
        is_selected_square(m@, indices@, r@),
{
    let k = indices.len();
    let mut r: Vec<Vec<T>> = Vec::with_capacity(k);
    let mut a: usize = 0;
    while a < k
        invariant
            k == indices@.len(),
            is_square(m@, m@.len()),
            indices_below(indices@, m@.len()),
            a <= k,
            r@.len() == a,
            forall|x: int| 0 <= x < a ==> (#[trigger] r@[x])@.len() == k,
            forall|x: int, y: int|
                0 <= x < a && 0 <= y < k ==> #[trigger] r@[x]@[y]
                    == m@[indices@[x] as int]@[indices@[y] as int],
        decreases k - a,
    {
        let src = &m[indices[a]];
        assert(src@.len() == m@.len());
        let mut row: Vec<T> = Vec::with_capacity(k);
        let mut b: usize = 0;
        while b < k
            invariant
                k == indices@.len(),
                indices_below(indices@, m@.len()),
                src@.len() == m@.len(),
                b <= k,
                row@.len() == b,
                forall|y: int| 0 <= y < b ==> #[trigger] row@[y] == src@[indices@[y] as int],
            decreases k - b,
        {
            row.push(src[indices[b]]);
            b = b + 1;
        }
        r.push(row);
        a = a + 1;
    }
    r
}

/// Restricting the components and then applying a combining rule gives the rows and
/// columns of the full matrix that belong to the retained components.
pub proof fn lemma_subset_of_pairwise<T, F: Fn(T, T) -> T>(
    v: Seq<T>,
    indices: Seq<usize>,
    rule: F,
    full: Seq<Vec<T>>,
    sub: Seq<Vec<T>>,
)
    requires
        indices_below(indices, v.len()),
        is_functional(rule),
        is_pairwise(v, rule, full),
        is_pairwise(selected(v, indices), rule, sub),
    ensures
        is_selected_square(full, indices, sub),
{
    let s = selected(v, indices);
    assert forall|a: int, b: int| 0 <= a < indices.len() && 0 <= b < indices.len() implies #[trigger] sub[a]@[b]
        == full[indices[a] as int]@[indices[b] as int] by {
        let i = indices[a] as int;
        let j = indices[b] as int;
        assert(indices[a] < v.len() && indices[b] < v.len());
        assert(s[a] == v[i] && s[b] == v[j]);
        assert(rule.ensures((s[a], s[b]), sub[a]@[b]));
        assert(rule.ensures((v[i], v[j]), full[i]@[j]));
    }
}

/// Restricting two matrices and then combining them entry by entry gives the rows and
/// columns of the full combination that belong to the retained components.
pub proof fn lemma_subset_of_entrywise<T, F: Fn(T, T) -> T>(
    a: Seq<Vec<T>>,
    b: Seq<Vec<T>>,
    indices: Seq<usize>,
    rule: F,
    sub_a: Seq<Vec<T>>,
    sub_b: Seq<Vec<T>>,
    full: Seq<Vec<T>>,
    sub: Seq<Vec<T>>,
)
    requires
        is_square(a, a.len()),
        is_square(b, a.len()),
        indices_below(indices, a.len()),
        is_functional(rule),
        is_entrywise(a, b, rule, full),
        is_selected_square(a, indices, sub_a),
        is_selected_square(b, indices, sub_b),
        is_entrywise(sub_a, sub_b, rule, sub),
    ensures
        is_selected_square(full, indices, sub),
{
    assert forall|x: int, y: int| 0 <= x < indices.len() && 0 <= y < indices.len() implies #[trigger] sub[x]@[y]
        == full[indices[x] as int]@[indices[y] as int] by {
        let i = indices[x] as int;
        let j = indices[y] as int;
        assert(indices[x] < a.len() && indices[y] < a.len());
        assert(sub_a[x]@[y] == a[i]@[j]);
        assert(sub_b[x]@[y] == b[i]@[j]);
        assert(rule.ensures((sub_a[x]@[y], sub_b[x]@[y]), sub[x]@[y]));
        assert(rule.ensures((a[i]@[j], b[i]@[j]), full[i]@[j]));
    }
}

} // verus!
