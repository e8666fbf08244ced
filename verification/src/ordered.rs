//! Lists in strictly ascending order, which is how lock requests are brought into one
//! agreed order without repetition.
use vstd::prelude::*;

verus! {

/// Values with a total order, given by an integer rank that tells them apart.
pub trait Ordered: Copy {
    /// The position of the value in the order.
    spec fn rank(self) -> int;

    /// Values of equal rank are equal.
    proof fn rank_tells_apart(a: Self, b: Self)
        requires
            a.rank() == b.rank(),
        ensures
            a == b,
    ;

    /// Whether this value stands before `other`.
    fn before(self, other: Self) -> (r: bool)
        ensures
            r == (self.rank() < other.rank()),
    ;
}

/// Each value stands before all that follow it; so none occurs twice.
pub open spec fn strictly_ascending<T: Ordered>(s: Seq<T>) -> bool {
    forall|i: int, j: int|
        #![trigger s[i], s[j]]
        0 <= i < j < s.len() ==> s[i].rank() < s[j].rank()
}

/// The two lists hold the same values, whatever their order and repetitions.
pub open spec fn same_values<T>(a: Seq<T>, b: Seq<T>) -> bool {
    forall|x: T| #![trigger a.contains(x)] #![trigger b.contains(x)] a.contains(x) == b.contains(x)
}

/// `r` is the ascending list, without repetition, of the values of `s`.
pub open spec fn ascending_values_of<T: Ordered>(r: Seq<T>, s: Seq<T>) -> bool {
    strictly_ascending(r) && same_values(r, s)
}

/// There is only one ascending list of given values.
pub proof fn ascending_list_is_unique<T: Ordered>(a: Seq<T>, b: Seq<T>)
    requires
        strictly_ascending(a),
        strictly_ascending(b),
        same_values(a, b),
    ensures
        a == b,
    decreases a.len(),
{
    if a.len() == 0 {
        if b.len() > 0 {
            assert(b.contains(b[0]));
            assert(a.contains(b[0]));
        }
        assert(a =~= b);
    } else {
        assert(a.contains(a.last()));
        assert(b.contains(a.last()));
        assert(b.contains(b.last()));
        assert(a.contains(b.last()));
        let ia = choose|i: int| 0 <= i < a.len() && a[i] == b.last();
        let ib = choose|i: int| 0 <= i < b.len() && b[i] == a.last();
        assert(a[ia].rank() <= a[a.len() - 1].rank());
        assert(b[ib].rank() <= b[b.len() - 1].rank());
        T::rank_tells_apart(a.last(), b.last());
        let a0 = a.drop_last();
        let b0 = b.drop_last();
        assert forall|x: T| #[trigger] a0.contains(x) implies b0.contains(x) by {
            let i = choose|i: int| 0 <= i < a0.len() && a0[i] == x;
            assert(a[i] == x);
            assert(a.contains(x));
            let j = choose|j: int| 0 <= j < b.len() && b[j] == x;
            assert(a[i].rank() < a[a.len() - 1].rank());
            assert(j < b.len() - 1);
            assert(b0[j] == x);
        }
        assert forall|x: T| #[trigger] b0.contains(x) implies a0.contains(x) by {
            let i = choose|i: int| 0 <= i < b0.len() && b0[i] == x;
            assert(b[i] == x);
            assert(b.contains(x));
            let j = choose|j: int| 0 <= j < a.len() && a[j] == x;
            assert(b[i].rank() < b[b.len() - 1].rank());
            assert(j < a.len() - 1);
            assert(a0[j] == x);
        }
        ascending_list_is_unique(a0, b0);
        assert(a =~= a0.push(a.last()));
        assert(b =~= b0.push(b.last()));
    }
}

/// Adds a value to an ascending list, unless it is there.
pub fn insert_ascending<T: Ordered>(v: &mut Vec<T>, x: T)
    requires
        strictly_ascending(old(v)@),
    ensures
        strictly_ascending(final(v)@),
        forall|y: T| #[trigger]
            final(v)@.contains(y) <==> (old(v)@.contains(y) || y == x),
{
    let ghost before = v@;
    let mut i: usize = 0;
    while i < v.len() && v[i].before(x)
        invariant
            i <= v.len(),
            v@ == before,
            forall|k: int| 0 <= k < i ==> (#[trigger] before[k]).rank() < x.rank(),
        ensures
            i <= v.len(),
            i < v.len() ==> before[i as int].rank() >= x.rank(),
        decreases v.len() - i,
    {
        i += 1;
    }
    if i < v.len() && !x.before(v[i]) {
        proof {
            T::rank_tells_apart(before[i as int], x);
            assert(before.contains(x));
        }
        return;
    }
    v.insert(i, x);
    proof {
        assert(v@ =~= before.insert(i as int, x));
        assert forall|y: T| #[trigger] v@.contains(y) <==> (before.contains(y) || y == x) by {
            if before.contains(y) {
                let k = choose|k: int| 0 <= k < before.len() && before[k] == y;
                if k < i {
                    assert(v@[k] == y);
                } else {
                    assert(v@[k + 1] == y);
                }
            }
            if y == x {
                assert(v@[i as int] == y);
            }
            if v@.contains(y) {
                let k = choose|k: int| 0 <= k < v@.len() && v@[k] == y;
                if k < i {
                    assert(before[k] == y);
                } else if k > i {
                    assert(before[k - 1] == y);
                }
            }
        }
        assert forall|a: int, b: int|
            #![trigger v@[a], v@[b]]
            0 <= a < b < v@.len() implies v@[a].rank() < v@[b].rank() by {
            let pa = if a < i { a } else { a - 1 };
            let pb = if b < i { b } else { b - 1 };
            if a != i && b != i {
                assert(before[pa].rank() < before[pb].rank());
            } else if a == i {
                assert(before[i as int].rank() > x.rank());
                assert(pb == i || before[i as int].rank() < before[pb].rank());
            }
        }
    }
}

/// The values of the list in ascending order, each once.
pub fn sorted_unique<T: Ordered>(values: &Vec<T>) -> (r: Vec<T>)
    ensures
        ascending_values_of(r@, values@),
{
    let mut r: Vec<T> = Vec::new();
    let mut i: usize = 0;
    while i < values.len()
        invariant
            i <= values.len(),
            strictly_ascending(r@),
            forall|x: T| #[trigger] r@.contains(x) <==> values@.subrange(0, i as int).contains(x),
        decreases values.len() - i,
    {
        let ghost done = values@.subrange(0, i as int);
        let ghost next = values@.subrange(0, i + 1);
        insert_ascending(&mut r, values[i]);
        proof {
            assert(next =~= done.push(values@[i as int]));
            assert forall|x: T| #[trigger] r@.contains(x) <==> next.contains(x) by {
                if done.contains(x) {
                    let k = choose|k: int| 0 <= k < done.len() && done[k] == x;
                    assert(next[k] == x);
                }
                assert(next[i as int] == values@[i as int]);
                if next.contains(x) {
                    let k = choose|k: int| 0 <= k < next.len() && next[k] == x;
                    if k < i {
                        assert(done[k] == x);
                    }
                }
            }
        }
        i += 1;
    }
    assert(values@.subrange(0, values@.len() as int) =~= values@);
    r
}

} // verus!
