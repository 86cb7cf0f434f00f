//! Ray/object hit records, their ordering along the ray, and hit selection.

use vstd::prelude::*;
use crate::scalar::Scalar;

verus! {

/// One crossing of a ray and an object: the ray parameter `t` at which it
/// happens, and the position of the object in the world's object list.
#[derive(Clone, Copy, Debug, PartialEq, Eq, Structural)]
pub struct Intersection {
    pub object: usize,
    pub t: Scalar,
}

/// `p` lists each index below `n` exactly once.
pub open spec fn is_permutation(p: Seq<int>, n: nat) -> bool {
    &&& p.len() == n
    &&& forall|i: int| 0 <= i < n ==> 0 <= #[trigger] p[i] < n
    &&& forall|i: int, j: int| 0 <= i < j < n ==> #[trigger] p[i] != #[trigger] p[j]
}

/// Some entry of `p` is `k`.
pub open spec fn reaches(p: Seq<int>, k: int) -> bool {
    exists|j: int| 0 <= j < p.len() && #[trigger] p[j] == k
}

/// Order of two records of one list: by `t` in the total order, and among
/// equal `t` by the position each had in that list.
pub open spec fn comes_before(a: Intersection, ia: int, b: Intersection, ib: int) -> bool {
    a.t.key < b.t.key || (a.t.key == b.t.key && ia < ib)
}

/// `after` holds the records of `before`, the one at `i` taken from `p[i]`,
/// in ascending order of `t` with ties in their order of `before`.
pub open spec fn arranges(p: Seq<int>, before: Seq<Intersection>, after: Seq<Intersection>) -> bool {
    &&& is_permutation(p, before.len())
    &&& after.len() == before.len()
    &&& forall|i: int| 0 <= i < after.len() ==> #[trigger] after[i] == before[p[i]]
    &&& forall|i: int, j: int|
        0 <= i < j < after.len() ==> comes_before(
            #[trigger] after[i],
            p[i],
            #[trigger] after[j],
            p[j],
        )
}

/// `after` is `before` sorted by `t`, ascending and stable.
pub open spec fn is_stable_sort_of(after: Seq<Intersection>, before: Seq<Intersection>) -> bool {
    exists|p: Seq<int>| arranges(p, before, after)
}

/// The records are in ascending order of `t`.
pub open spec fn is_sorted(xs: Seq<Intersection>) -> bool {
    forall|i: int, j: int| 0 <= i <= j < xs.len() ==> xs[i].t.precedes(xs[j].t)
}

/// Some record has `t > 0`: it lies in front of the ray's origin.
pub open spec fn has_visible(xs: Seq<Intersection>) -> bool {
    exists|k: int| 0 <= k < xs.len() && (#[trigger] xs[k]).t.positive()
}

/// The record at `i` is the first of `xs` with `t > 0`.
pub open spec fn is_first_visible(xs: Seq<Intersection>, i: int) -> bool {
    &&& 0 <= i < xs.len()
    &&& xs[i].t.positive()
    &&& forall|j: int| 0 <= j < i ==> !(#[trigger] xs[j]).t.positive()
}

/// The record at `i` is the nearest in front of the ray's origin: it has
/// `t > 0`, no record with `t > 0` has a smaller `t`, and every record
/// with `t > 0` that stands before it in the list has a larger one.
pub open spec fn is_nearest_visible(xs: Seq<Intersection>, i: int) -> bool {
    &&& 0 <= i < xs.len()
    &&& xs[i].t.positive()
    &&& forall|j: int|
        0 <= j < xs.len() && (#[trigger] xs[j]).t.positive() ==> xs[i].t.less_equal(xs[j].t)
    &&& forall|j: int| 0 <= j < i && (#[trigger] xs[j]).t.positive() ==> xs[i].t.less(xs[j].t)
}

/// The records that `roots` gives for the object at position `object`.
pub open spec fn tagged(object: usize, roots: Seq<Scalar>) -> Seq<Intersection> {
    Seq::new(roots.len(), |i: int| Intersection { object, t: roots[i] })
}

impl Intersection {
    pub fn new(t: Scalar, object: usize) -> (i: Intersection)
        ensures
            i.t == t,
            i.object == object,
    {
        Intersection { t, object }
    }

    /// Tags each root that a ray has on one object with that object. No
    /// roots (a miss) gives no records.
    pub fn intersects(object: usize, roots: &Option<Vec<Scalar>>) -> (r: Option<Vec<Intersection>>)
        ensures
            *roots is None <==> r is None,
            *roots matches Some(ts) ==> r matches Some(ixs) && ixs@ == tagged(object, ts@),
    {
        match roots {
            None => None,
            Some(ts) => {
                let mut ixs: Vec<Intersection> = Vec::new();
                let mut k: usize = 0;
                while k < ts.len()
                    invariant
                        k <= ts.len(),
                        ixs@ == tagged(object, ts@.take(k as int)),
                    decreases ts.len() - k,
                {
                    ixs.push(Intersection::new(ts[k], object));
                    k += 1;
                    assert(ixs@ =~= tagged(object, ts@.take(k as int)));
                }
                assert(ts@.take(k as int) =~= ts@);
                Some(ixs)
            },
        }
    }
}

/// Sorts the records by `t`, ascending in the total order; records with the
/// same `t` keep their order. The records of one ray are few, and they are
/// sorted by insertion.
pub fn sort_intersections(xs: &mut [Intersection])
    ensures
        is_stable_sort_of(final(xs)@, old(xs)@),
        is_sorted(final(xs)@),
{
    let n: usize = xs.len();
    let ghost before = xs@;
    let ghost mut p: Seq<int> = Seq::new(n as nat, |i: int| i);
    let mut i: usize = 0;
    while i < n
        invariant
            i <= n,
            xs@.len() == n,
            before.len() == n,
            is_permutation(p, n as nat),
            forall|k: int| 0 <= k < n ==> #[trigger] xs@[k] == before[p[k]],
            forall|k: int| i <= k < n ==> #[trigger] p[k] == k,
            forall|k: int| 0 <= k < i ==> #[trigger] p[k] < i,
            forall|a: int, b: int|
                0 <= a < b < i ==> comes_before(#[trigger] xs@[a], p[a], #[trigger] xs@[b], p[b]),
        decreases n - i,
    {
        let mut j: usize = i;
        while j > 0 && xs[j - 1].t.key > xs[j].t.key
            invariant
                j <= i < n,
                xs@.len() == n,
                before.len() == n,
                is_permutation(p, n as nat),
                forall|k: int| 0 <= k < n ==> #[trigger] xs@[k] == before[p[k]],
                forall|k: int| i < k < n ==> #[trigger] p[k] == k,
                forall|k: int| 0 <= k <= i ==> #[trigger] p[k] <= i,
                p[j as int] == i,
                forall|a: int, b: int|
                    0 <= a < b <= i && a != j && b != j ==> comes_before(
                        #[trigger] xs@[a],
                        p[a],
                        #[trigger] xs@[b],
                        p[b],
                    ),
                forall|b: int|
                    j < b <= i ==> comes_before(xs@[j as int], p[j as int], #[trigger] xs@[b], p[b]),
            decreases j,
        {
            let lower: Intersection = xs[j - 1];
            let upper: Intersection = xs[j];
            xs[j - 1] = upper;
            xs[j] = lower;
            proof {
                let pl = p[j - 1];
                let pu = p[j as int];
                p = p.update(j - 1, pu).update(j as int, pl);
            }
            j -= 1;
        }
        proof {
            assert forall|a: int, b: int| 0 <= a < b < i + 1 implies comes_before(
                #[trigger] xs@[a],
                p[a],
                #[trigger] xs@[b],
                p[b],
            ) by {
                if b == j {
                    // Everything left of the insertion point came from an
                    // earlier position and does not exceed the record before it.
                    if a < j - 1 {
                        assert(comes_before(xs@[a], p[a], xs@[j - 1], p[j - 1]));
                    }
                    assert(p[a] <= i);
                    assert(p[a] != p[j as int]);
                }
            }
        }
        i += 1;
    }
    proof {
        assert(arranges(p, before, xs@));
        assert forall|a: int, b: int| 0 <= a <= b < xs@.len() implies xs@[a].t.precedes(
            xs@[b].t,
        ) by {
            if a < b {
                assert(comes_before(xs@[a], p[a], xs@[b], p[b]));
            }
        }
    }
}

/// The nearest record in front of the ray's origin, wherever it stands in
/// the list: the one with the smallest `t > 0`, and of several with that
/// `t` the first. `None` where no record has `t > 0`.
pub fn hit(xs: Vec<Intersection>) -> (r: Option<Intersection>)
    ensures
        r is None <==> !has_visible(xs@),
        r matches Some(h) ==> exists|i: int| is_nearest_visible(xs@, i) && xs@[i] == h,
{
    nearest(xs.as_slice())
}

/// The nearest record in front of the ray's origin, as `hit` finds it, of
/// a list that the caller keeps.
pub fn nearest(xs: &[Intersection]) -> (r: Option<Intersection>)
    ensures
        r is None <==> !has_visible(xs@),
        r matches Some(h) ==> exists|i: int| is_nearest_visible(xs@, i) && xs@[i] == h,
{
    let mut found: bool = false;
    let mut at: usize = 0;
    let mut k: usize = 0;
    while k < xs.len()
        invariant
            k <= xs@.len(),
            !found ==> forall|j: int| 0 <= j < k ==> !(#[trigger] xs@[j]).t.positive(),
            found ==> at < k && xs@[at as int].t.positive(),
            found ==> forall|j: int|
                0 <= j < k && (#[trigger] xs@[j]).t.positive() ==> xs@[at as int].t.key
                    <= xs@[j].t.key,
            found ==> forall|j: int|
                0 <= j < at && (#[trigger] xs@[j]).t.positive() ==> xs@[at as int].t.key
                    < xs@[j].t.key,
        decreases xs@.len() - k,
    {
        if xs[k].t.is_positive() && (!found || xs[k].t.key < xs[at].t.key) {
            found = true;
            at = k;
        }
        k += 1;
    }
    if found {
        assert(is_nearest_visible(xs@, at as int));
        Some(xs[at])
    } else {
        assert(!has_visible(xs@)) by {
            if has_visible(xs@) {
                let j = choose|j: int| 0 <= j < xs@.len() && (#[trigger] xs@[j]).t.positive();
                assert(!xs@[j].t.positive());
            }
        }
        None
    }
}

/// A list has one nearest record in front only.
pub proof fn law_nearest_is_unique(xs: Seq<Intersection>, i: int, j: int)
    requires
        is_nearest_visible(xs, i),
        is_nearest_visible(xs, j),
    ensures
        i == j,
{
    if i < j {
        assert(xs[i].t.positive());
        assert(xs[j].t.less(xs[i].t));
        assert(xs[i].t.less_equal(xs[j].t));
    } else if j < i {
        assert(xs[j].t.positive());
        assert(xs[i].t.less(xs[j].t));
        assert(xs[j].t.less_equal(xs[i].t));
    }
}

/// In a list sorted by `t`, the nearest record in front is the first record
/// with `t > 0`.
pub proof fn law_hit_is_nearest(xs: Seq<Intersection>, i: int)
    requires
        is_sorted(xs),
    ensures
        is_first_visible(xs, i) <==> is_nearest_visible(xs, i),
{
    if is_first_visible(xs, i) {
        assert forall|j: int| 0 <= j < xs.len() && (#[trigger] xs[j]).t.positive() implies xs[i].t.less_equal(
            xs[j].t,
        ) by {
            if j < i {
                assert(!xs[j].t.positive());
            } else {
                assert(xs[i].t.precedes(xs[j].t));
            }
        }
        assert forall|j: int| 0 <= j < i && (#[trigger] xs[j]).t.positive() implies xs[i].t.less(
            xs[j].t,
        ) by {
            assert(!xs[j].t.positive());
        }
    }
    if is_nearest_visible(xs, i) {
        assert forall|j: int| 0 <= j < i implies !(#[trigger] xs[j]).t.positive() by {
            if xs[j].t.positive() {
                assert(xs[i].t.less(xs[j].t));
                assert(xs[j].t.precedes(xs[i].t));
            }
        }
    }
}

/// Sorting does not change the hit: the first record with `t > 0` of the
/// sorted list is the nearest record in front of the unsorted one.
pub proof fn law_hit_after_sort(before: Seq<Intersection>, after: Seq<Intersection>, i: int)
    requires
        is_stable_sort_of(after, before),
        is_first_visible(after, i),
    ensures
        exists|k: int| is_nearest_visible(before, k) && before[k] == after[i],
{
    let p = choose|p: Seq<int>| arranges(p, before, after);
    let k = p[i];
    assert(after[i] == before[p[i]]);
    lemma_permutation_is_onto(p, before.len());
    assert forall|j: int| 0 <= j < before.len() && (#[trigger] before[j]).t.positive() implies before[k].t.less_equal(
        before[j].t,
    ) by {
        assert(reaches(p, j));
        let m = choose|m: int| 0 <= m < p.len() && #[trigger] p[m] == j;
        assert(after[m] == before[p[m]]);
        if m < i {
            assert(!after[m].t.positive());
        } else if i < m {
            assert(comes_before(after[i], p[i], after[m], p[m]));
        }
    }
    assert forall|j: int| 0 <= j < k && (#[trigger] before[j]).t.positive() implies before[k].t.less(
        before[j].t,
    ) by {
        assert(reaches(p, j));
        let m = choose|m: int| 0 <= m < p.len() && #[trigger] p[m] == j;
        assert(after[m] == before[p[m]]);
        if m < i {
            assert(!after[m].t.positive());
        } else if i < m {
            assert(comes_before(after[i], p[i], after[m], p[m]));
        } else {
            assert(p[m] == p[i]);
        }
    }
    assert(is_nearest_visible(before, k));
}

/// Sorting loses and invents nothing: the sorted list is as long as the
/// unsorted one, and each holds every record of the other.
pub proof fn law_sort_rearranges(before: Seq<Intersection>, after: Seq<Intersection>)
    requires
        is_stable_sort_of(after, before),
    ensures
        after.len() == before.len(),
        forall|j: int| 0 <= j < after.len() ==> before.contains(#[trigger] after[j]),
        forall|k: int| 0 <= k < before.len() ==> after.contains(#[trigger] before[k]),
        has_visible(after) == has_visible(before),
{
    let p = choose|p: Seq<int>| arranges(p, before, after);
    lemma_permutation_is_onto(p, before.len());
    assert forall|j: int| 0 <= j < after.len() implies before.contains(#[trigger] after[j]) by {
        assert(after[j] == before[p[j]]);
    }
    assert forall|k: int| 0 <= k < before.len() implies after.contains(#[trigger] before[k]) by {
        assert(reaches(p, k));
        let j = choose|j: int| 0 <= j < p.len() && #[trigger] p[j] == k;
        assert(after[j] == before[p[j]]);
    }
    if has_visible(after) {
        let j = choose|j: int| 0 <= j < after.len() && (#[trigger] after[j]).t.positive();
        assert(before.contains(after[j]));
        let k = choose|k: int| 0 <= k < before.len() && before[k] == after[j];
        assert(before[k].t.positive());
    }
    if has_visible(before) {
        let k = choose|k: int| 0 <= k < before.len() && (#[trigger] before[k]).t.positive();
        assert(after.contains(before[k]));
        let j = choose|j: int| 0 <= j < after.len() && after[j] == before[k];
        assert(after[j].t.positive());
    }
}

/// Two arrangements of one list take each place from the same position.
proof fn lemma_arrangements_agree(
    before: Seq<Intersection>,
    p: Seq<int>,
    a: Seq<Intersection>,
    q: Seq<int>,
    b: Seq<Intersection>,
    i: int,
)
    requires
        arranges(p, before, a),
        arranges(q, before, b),
        0 <= i <= before.len(),
    ensures
        forall|k: int| 0 <= k < i ==> p[k] == q[k],
    decreases i,
{
    if i > 0 {
        let at = i - 1;
        lemma_arrangements_agree(before, p, a, q, b, at);
        let x = p[at];
        lemma_permutation_is_onto(q, before.len());
        assert(reaches(q, x));
        let j = choose|j: int| 0 <= j < q.len() && #[trigger] q[j] == x;
        if j < at {
            assert(p[j] == q[j]);
            assert(p[j] != p[at]);
        } else if j > at {
            let y = q[at];
            assert(q[at] != q[j]);
            lemma_permutation_is_onto(p, before.len());
            assert(reaches(p, y));
            let m = choose|m: int| 0 <= m < p.len() && #[trigger] p[m] == y;
            if m < at {
                assert(p[m] == q[m]);
                assert(q[m] != q[at]);
            } else {
                assert(m > at);
                assert(a[at] == before[p[at]]);
                assert(a[m] == before[p[m]]);
                assert(b[at] == before[q[at]]);
                assert(b[j] == before[q[j]]);
                assert(comes_before(a[at], p[at], a[m], p[m]));
                assert(comes_before(b[at], q[at], b[j], q[j]));
            }
        }
    }
}

/// A list has one stable sort only.
pub proof fn law_stable_sort_is_unique(
    before: Seq<Intersection>,
    a: Seq<Intersection>,
    b: Seq<Intersection>,
)
    requires
        is_stable_sort_of(a, before),
        is_stable_sort_of(b, before),
    ensures
        a == b,
{
    let p = choose|p: Seq<int>| arranges(p, before, a);
    let q = choose|q: Seq<int>| arranges(q, before, b);
    lemma_arrangements_agree(before, p, a, q, b, before.len() as int);
    assert forall|k: int| 0 <= k < a.len() implies a[k] == b[k] by {
        assert(a[k] == before[p[k]]);
        assert(b[k] == before[q[k]]);
    }
    assert(a =~= b);
}

/// A permutation of the indices below `n` reaches each of them.
proof fn lemma_permutation_is_onto(p: Seq<int>, n: nat)
    requires
        is_permutation(p, n),
    ensures
        forall|k: int| 0 <= k < n ==> #[trigger] reaches(p, k),
    decreases n,
{
    if n > 0 {
        let last = p[n - 1];
        // Drop the last entry and close the gap its value leaves.
        let q = Seq::new(
            (n - 1) as nat,
            |j: int|
                if p[j] > last {
                    p[j] - 1
                } else {
                    p[j]
                },
        );
        assert forall|a: int, b: int| 0 <= a < b < n - 1 implies #[trigger] q[a] != #[trigger] q[b] by {
            assert(p[a] != p[b]);
            assert(p[a] != p[n - 1]);
            assert(p[b] != p[n - 1]);
        }
        assert forall|a: int| 0 <= a < n - 1 implies 0 <= #[trigger] q[a] < n - 1 by {
            assert(p[a] != p[n - 1]);
            assert(0 <= p[a] < n);
        }
        lemma_permutation_is_onto(q, (n - 1) as nat);
        assert forall|k: int| 0 <= k < n implies #[trigger] reaches(p, k) by {
            if k == last {
                assert(p[n - 1] == k);
            } else {
                let kq = if k > last {
                    k - 1
                } else {
                    k
                };
                assert(reaches(q, kq));
                let j = choose|j: int| 0 <= j < q.len() && #[trigger] q[j] == kq;
                assert(p[j] == k);
            }
        }
    }
}

} // verus!
