//! The containment stack: which objects a ray is inside of as it passes the
//! crossings of a sorted intersection list, and from that the two media that
//! meet at a hit.

use vstd::prelude::*;
use crate::intersection::Intersection;

verus! {

/// The stack after one more crossing of `object`: the object leaves the stack
/// if it is on it (the ray exits), and goes on top if it is not (the ray
/// enters).
pub open spec fn toggle(stack: Seq<usize>, object: usize) -> Seq<usize> {
    if stack.contains(object) {
        stack.remove(first_place(stack, object))
    } else {
        stack.push(object)
    }
}

/// `k` is the lowest place of `stack` that holds `object`.
pub open spec fn is_first_place(stack: Seq<usize>, object: usize, k: int) -> bool {
    &&& 0 <= k < stack.len()
    &&& stack[k] == object
    &&& forall|j: int| 0 <= j < k ==> stack[j] != object
}

/// The lowest place of `stack` that holds `object`.
pub open spec fn first_place(stack: Seq<usize>, object: usize) -> int {
    choose|k: int| is_first_place(stack, object, k)
}

/// The stack after the first `n` crossings of `xs`, bottom first.
pub open spec fn containers(xs: Seq<Intersection>, n: nat) -> Seq<usize>
    decreases n,
{
    if n == 0 {
        Seq::empty()
    } else {
        toggle(containers(xs, (n - 1) as nat), xs[n - 1].object)
    }
}

/// The object on top of the stack, if any.
pub open spec fn top(stack: Seq<usize>) -> Option<usize> {
    if stack.len() == 0 {
        None
    } else {
        Some(stack.last())
    }
}

/// Two records are the same crossing: same object, numerically equal `t`.
pub open spec fn same_crossing(a: Intersection, b: Intersection) -> bool {
    a.object == b.object && a.t.equal(b.t)
}

/// `k` is the first position of `xs` that holds the crossing `hit`.
pub open spec fn is_position_of(hit: Intersection, xs: Seq<Intersection>, k: int) -> bool {
    &&& 0 <= k < xs.len()
    &&& same_crossing(hit, xs[k])
    &&& forall|j: int| 0 <= j < k ==> !same_crossing(hit, #[trigger] xs[j])
}

/// No position of `xs` holds the crossing `hit`.
pub open spec fn is_absent(hit: Intersection, xs: Seq<Intersection>) -> bool {
    forall|j: int| 0 <= j < xs.len() ==> !same_crossing(hit, #[trigger] xs[j])
}

/// How often `object` is crossed among the first `n` records of `xs`.
pub open spec fn crossings(xs: Seq<Intersection>, n: nat, object: usize) -> nat
    decreases n,
{
    if n == 0 {
        0
    } else {
        crossings(xs, (n - 1) as nat, object) + if xs[n - 1].object == object {
            1nat
        } else {
            0nat
        }
    }
}

/// `object` is crossed among the first `n` records of `xs`.
pub open spec fn is_crossed(xs: Seq<Intersection>, n: nat, object: usize) -> bool {
    exists|k: int| 0 <= k < n && (#[trigger] xs[k]).object == object
}

/// The two media that meet at a hit, each given by the object that fills it;
/// `None` is empty space.
#[derive(Clone, Copy, Debug, PartialEq, Eq, Structural)]
pub struct Media {
    /// The medium the ray is leaving.
    pub leaving: Option<usize>,
    /// The medium the ray is entering.
    pub entering: Option<usize>,
}

/// What `media_at` returns for a hit at position `k` of `xs`.
pub open spec fn media_at_position(xs: Seq<Intersection>, k: int) -> Media {
    Media { leaving: top(containers(xs, k as nat)), entering: top(containers(xs, (k + 1) as nat)) }
}

fn position_in(stack: &Vec<usize>, object: usize) -> (r: Option<usize>)
    ensures
        r is None <==> !stack@.contains(object),
        r matches Some(k) ==> k < stack@.len() && stack@[k as int] == object && forall|j: int|
            0 <= j < k ==> stack@[j] != object,
{
    let mut k: usize = 0;
    while k < stack.len()
        invariant
            k <= stack.len(),
            forall|j: int| 0 <= j < k ==> stack@[j] != object,
        decreases stack.len() - k,
    {
        if stack[k] == object {
            return Some(k);
        }
        k += 1;
    }
    None
}

fn top_of(stack: &Vec<usize>) -> (r: Option<usize>)
    ensures
        r == top(stack@),
{
    if stack.len() == 0 {
        None
    } else {
        Some(stack[stack.len() - 1])
    }
}

/// Walks `xs` in order, keeping the stack of objects the ray is inside of,
/// up to the first record that is the crossing `hit`. The medium the ray
/// leaves there is the top of the stack before that crossing, the medium it
/// enters is the top after it. A `hit` that `xs` does not hold meets empty
/// space on both sides.
pub fn media_at(hit: &Intersection, xs: &[Intersection]) -> (m: Media)
    ensures
        forall|k: int| is_position_of(*hit, xs@, k) ==> m == media_at_position(xs@, k),
        is_absent(*hit, xs@) ==> m == (Media { leaving: None, entering: None }),
        m.leaving matches Some(o) ==> is_crossed(xs@, xs@.len(), o),
        m.entering matches Some(o) ==> is_crossed(xs@, xs@.len(), o),
{
    let mut stack: Vec<usize> = Vec::new();
    let mut k: usize = 0;
    while k < xs.len()
        invariant
            k <= xs.len(),
            stack@ == containers(xs@, k as nat),
            forall|j: int| 0 <= j < k ==> !same_crossing(*hit, #[trigger] xs@[j]),
        decreases xs.len() - k,
    {
        let x: Intersection = xs[k];
        let found: bool = hit.object == x.object && hit.t.is_equal(x.t);
        let leaving: Option<usize> = top_of(&stack);
        match position_in(&stack, x.object) {
            Some(at) => {
                proof {
                    lemma_first_place(stack@, x.object, at as int);
                }
                stack.remove(at);
            },
            None => {
                stack.push(x.object);
            },
        }
        if found {
            let entering: Option<usize> = top_of(&stack);
            assert(is_position_of(*hit, xs@, k as int));
            proof {
                lemma_top_is_crossed(xs@, k as nat);
                lemma_top_is_crossed(xs@, (k + 1) as nat);
            }
            return Media { leaving, entering };
        }
        k += 1;
    }
    Media { leaving: None, entering: None }
}

/// The object on top of the stack is the object of a crossing of the list.
proof fn lemma_top_is_crossed(xs: Seq<Intersection>, n: nat)
    requires
        n <= xs.len(),
    ensures
        top(containers(xs, n)) matches Some(o) ==> is_crossed(xs, xs.len(), o),
{
    let stack = containers(xs, n);
    if stack.len() > 0 {
        let o = stack.last();
        assert(stack[stack.len() - 1] == o);
        assert(stack.contains(o));
        law_containers_come_from_crossings(xs, n);
        assert(is_crossed(xs, n, o));
        let k = choose|k: int| 0 <= k < n && (#[trigger] xs[k]).object == o;
        assert(xs[k].object == o);
    }
}

/// A crossing that a list holds has a first position in it.
proof fn lemma_has_position(hit: Intersection, xs: Seq<Intersection>, j: int)
    requires
        0 <= j < xs.len(),
        same_crossing(hit, xs[j]),
    ensures
        exists|k: int| k <= j && is_position_of(hit, xs, k),
    decreases j,
{
    if exists|m: int| 0 <= m < j && same_crossing(hit, #[trigger] xs[m]) {
        let m = choose|m: int| 0 <= m < j && same_crossing(hit, #[trigger] xs[m]);
        lemma_has_position(hit, xs, m);
        let k = choose|k: int| k <= m && is_position_of(hit, xs, k);
        assert(k <= j && is_position_of(hit, xs, k));
    } else {
        assert(is_position_of(hit, xs, j));
    }
}

/// A hit is either absent from a list or has exactly one first position in
/// it, so the media at a hit are always determined.
pub proof fn law_media_are_determined(hit: Intersection, xs: Seq<Intersection>)
    ensures
        is_absent(hit, xs) != (exists|k: int| is_position_of(hit, xs, k)),
        forall|k: int, l: int| is_position_of(hit, xs, k) && is_position_of(hit, xs, l) ==> k == l,
{
    if !is_absent(hit, xs) {
        let j = choose|j: int| 0 <= j < xs.len() && same_crossing(hit, #[trigger] xs[j]);
        lemma_has_position(hit, xs, j);
    }
    assert forall|k: int, l: int|
        is_position_of(hit, xs, k) && is_position_of(hit, xs, l) implies k == l by {
        if k < l {
            assert(!same_crossing(hit, xs[k]));
        } else if l < k {
            assert(!same_crossing(hit, xs[l]));
        }
    }
    if is_absent(hit, xs) {
        assert forall|k: int| !is_position_of(hit, xs, k) by {
            if 0 <= k < xs.len() {
                assert(!same_crossing(hit, xs[k]));
            }
        }
    }
}

/// The lowest place of a value is the only one that nothing equal precedes.
proof fn lemma_first_place(stack: Seq<usize>, object: usize, at: int)
    requires
        is_first_place(stack, object, at),
    ensures
        stack.contains(object),
        first_place(stack, object) == at,
{
    assert(stack[at] == object);
    let k = first_place(stack, object);
    assert(is_first_place(stack, object, k));
    if k < at {
        assert(stack[k] != object);
    } else if at < k {
        assert(stack[at] != object);
    }
}

/// Toggling an object on a stack without repeats leaves no repeats, changes
/// whether that object is on the stack, and keeps every other object where
/// it was: on or off.
proof fn lemma_toggle(stack: Seq<usize>, object: usize)
    requires
        stack.no_duplicates(),
    ensures
        toggle(stack, object).no_duplicates(),
        forall|o: usize| #[trigger]
            toggle(stack, object).contains(o) <==> (stack.contains(o) != (o == object)),
{
    let after = toggle(stack, object);
    if stack.contains(object) {
        let w = choose|w: int| 0 <= w < stack.len() && stack[w] == object;
        lemma_has_first_place(stack, object, w);
        let f = choose|f: int| is_first_place_witness(stack, object, w, f);
        lemma_first_place(stack, object, f);
        let at = first_place(stack, object);
        assert forall|o: usize| #[trigger] after.contains(o) <==> (stack.contains(o) != (o == object)) by {
            if after.contains(o) {
                let k = choose|k: int| 0 <= k < after.len() && after[k] == o;
                if k < at {
                    assert(after[k] == stack[k]);
                } else {
                    assert(after[k] == stack[k + 1]);
                }
            }
            if stack.contains(o) && o != object {
                let k = choose|k: int| 0 <= k < stack.len() && stack[k] == o;
                if k < at {
                    assert(after[k] == o);
                } else {
                    assert(after[k - 1] == o);
                }
            }
        }
    } else {
        assert forall|o: usize| #[trigger] after.contains(o) <==> (stack.contains(o) != (o == object)) by {
            if after.contains(o) {
                let k = choose|k: int| 0 <= k < after.len() && after[k] == o;
                if k < stack.len() {
                    assert(stack[k] == o);
                }
            }
            if stack.contains(o) {
                let k = choose|k: int| 0 <= k < stack.len() && stack[k] == o;
                assert(after[k] == o);
            }
            if o == object {
                assert(after[stack.len() as int] == o);
            }
        }
    }
}

/// `f` is the lowest place of `object` at or below the place `w` that holds it.
spec fn is_first_place_witness(stack: Seq<usize>, object: usize, w: int, f: int) -> bool {
    f <= w && is_first_place(stack, object, f)
}

/// A value that a sequence holds has a lowest place.
proof fn lemma_has_first_place(stack: Seq<usize>, object: usize, w: int)
    requires
        0 <= w < stack.len(),
        stack[w] == object,
    ensures
        exists|f: int| is_first_place_witness(stack, object, w, f),
    decreases w,
{
    if exists|j: int| 0 <= j < w && stack[j] == object {
        let j = choose|j: int| 0 <= j < w && stack[j] == object;
        lemma_has_first_place(stack, object, j);
        let f = choose|f: int| is_first_place_witness(stack, object, j, f);
        assert(is_first_place_witness(stack, object, w, f));
    } else {
        assert(is_first_place_witness(stack, object, w, w));
    }
}

/// The stack never holds an object twice, and holds exactly the objects
/// that the ray has crossed an odd number of times.
pub proof fn law_containers_are_the_entered_objects(xs: Seq<Intersection>, n: nat)
    ensures
        containers(xs, n).no_duplicates(),
        forall|o: usize| #[trigger] containers(xs, n).contains(o) <==> crossings(xs, n, o) % 2 == 1,
    decreases n,
{
    if n > 0 {
        let inner = containers(xs, (n - 1) as nat);
        law_containers_are_the_entered_objects(xs, (n - 1) as nat);
        lemma_toggle(inner, xs[n - 1].object);
        assert forall|o: usize| #[trigger]
            containers(xs, n).contains(o) <==> crossings(xs, n, o) % 2 == 1 by {
            assert(inner.contains(o) <==> crossings(xs, (n - 1) as nat, o) % 2 == 1);
        }
    } else {
        assert forall|o: usize| !(#[trigger] containers(xs, n).contains(o)) by {}
    }
}

/// Along a ray the media join up: the ray starts in empty space, the medium
/// it enters at one crossing is the one it leaves at the next, and once it
/// has crossed every object an even number of times it is back in empty
/// space.
pub proof fn law_media_join_up(xs: Seq<Intersection>, k: int)
    requires
        0 <= k < xs.len(),
    ensures
        media_at_position(xs, 0).leaving is None,
        media_at_position(xs, k).entering == media_at_position(xs, k + 1).leaving,
        (forall|o: usize| crossings(xs, xs.len(), o) % 2 == 0) ==> media_at_position(
            xs,
            xs.len() - 1,
        ).entering is None,
{
    let all = containers(xs, xs.len());
    law_containers_are_the_entered_objects(xs, xs.len());
    if (forall|o: usize| crossings(xs, xs.len(), o) % 2 == 0) && all.len() > 0 {
        assert(all.contains(all[0]));
    }
}

/// Every object on the stack is the object of a crossing walked so far.
pub proof fn law_containers_come_from_crossings(xs: Seq<Intersection>, n: nat)
    ensures
        forall|o: usize| #[trigger] containers(xs, n).contains(o) ==> is_crossed(xs, n, o),
    decreases n,
{
    if n > 0 {
        let inner = containers(xs, (n - 1) as nat);
        let crossed = xs[n - 1].object;
        law_containers_come_from_crossings(xs, (n - 1) as nat);
        law_containers_are_the_entered_objects(xs, (n - 1) as nat);
        lemma_toggle(inner, crossed);
        assert forall|o: usize| #[trigger] containers(xs, n).contains(o) implies is_crossed(
            xs,
            n,
            o,
        ) by {
            if o == crossed {
                assert(xs[n - 1].object == o);
            } else {
                assert(inner.contains(o));
                assert(is_crossed(xs, (n - 1) as nat, o));
                let k = choose|k: int| 0 <= k < n - 1 && (#[trigger] xs[k]).object == o;
                assert(xs[k].object == o);
            }
        }
    } else {
        assert forall|o: usize| !(#[trigger] containers(xs, n).contains(o)) by {}
    }
}

} // verus!
