//! The orders in which addresses and allocations are listed.
use vstd::prelude::*;

use crate::addresses::{FixedAllocation, IpAddr, MacAddress};
use crate::ordered::{ascending_values_of, Ordered};

verus! {

/// Whether two MAC addresses agree before octet `k` and differ there, the first being the lesser.
pub open spec fn is_less_at(a: MacAddress, b: MacAddress, k: int) -> bool {
    &&& 0 <= k < 6
    &&& a.octets()[k] < b.octets()[k]
    &&& forall|i: int| 0 <= i < k ==> #[trigger] a.octets()[i] == b.octets()[i]
}

/// MAC addresses are ordered by the first octet in which they differ.
pub proof fn macs_are_ordered_by_their_first_difference(a: MacAddress, b: MacAddress)
    ensures
        a.rank() < b.rank() <==> exists|k: int| is_less_at(a, b, k),
{
    if a.rank() < b.rank() {
        a_lesser_mac_differs_first(a, b);
    }
    if exists|k: int| is_less_at(a, b, k) {
        let k = choose|k: int| is_less_at(a, b, k);
        if b.rank() < a.rank() {
            a_lesser_mac_differs_first(b, a);
            let l = choose|l: int| is_less_at(b, a, l);
            if k < l {
                assert(b.octets()[k] == a.octets()[k]);
            } else if l < k {
                assert(a.octets()[l] == b.octets()[l]);
            }
            assert(false);
        }
        if a.rank() == b.rank() {
            MacAddress::rank_tells_apart(a, b);
        }
    }
}

proof fn a_lesser_mac_differs_first(a: MacAddress, b: MacAddress)
    requires
        a.rank() < b.rank(),
    ensures
        exists|k: int| is_less_at(a, b, k),
{
    let x = a.octets();
    let y = b.octets();
    assert(x[0] == a.0 && x[1] == a.1 && x[2] == a.2 && x[3] == a.3 && x[4] == a.4 && x[5] == a.5);
    assert(y[0] == b.0 && y[1] == b.1 && y[2] == b.2 && y[3] == b.3 && y[4] == b.4 && y[5] == b.5);
    if a.0 != b.0 {
        assert(is_less_at(a, b, 0));
    } else if a.1 != b.1 {
        assert(is_less_at(a, b, 1));
    } else if a.2 != b.2 {
        assert(is_less_at(a, b, 2));
    } else if a.3 != b.3 {
        assert(is_less_at(a, b, 3));
    } else if a.4 != b.4 {
        assert(is_less_at(a, b, 4));
    } else {
        assert(is_less_at(a, b, 5));
    }
}

/// IP addresses are ordered by their numbers, the IPv4 addresses before the IPv6 addresses.
pub proof fn ips_are_ordered_by_family_and_number(a: IpAddr, b: IpAddr)
    ensures
        a.rank() < b.rank() <==> {
            ||| a is V4 && b is V6
            ||| a is V4 && b is V4 && a->V4_0 < b->V4_0
            ||| a is V6 && b is V6 && a->V6_0 < b->V6_0
        },
{
}

/// Fixed allocations are ordered by segment, and within a segment by address.
pub proof fn allocations_are_ordered_by_segment_and_address(a: FixedAllocation, b: FixedAllocation)
    ensures
        a.rank() < b.rank() <==> {
            ||| a.segment_id.0 < b.segment_id.0
            ||| a.segment_id.0 == b.segment_id.0 && a.address.rank() < b.address.rank()
        },
{
    assert(0 <= a.address.rank() < 0x1_0000_0000_0000_0000_0000_0001_0000_0000);
    assert(0 <= b.address.rank() < 0x1_0000_0000_0000_0000_0000_0001_0000_0000);
}

/// The ascending list of some values has each of them once and no other, from the least on: a
/// value of the list comes after exactly those that are less.
pub proof fn ascending_lists_go_from_the_least_on<T: Ordered>(r: Seq<T>, s: Seq<T>, i: int, j: int)
    requires
        ascending_values_of(r, s),
        0 <= i < r.len(),
        0 <= j < r.len(),
    ensures
        r[i].rank() < r[j].rank() <==> i < j,
        r[i] == r[j] <==> i == j,
        exists|k: int| 0 <= k < s.len() && s[k] == r[i],
{
    assert(r.contains(r[i]));
    assert(s.contains(r[i]));
    if i < j {
        assert(r[i].rank() < r[j].rank());
    } else if j < i {
        assert(r[j].rank() < r[i].rank());
    }
}

/// Every one of the values is in the ascending list.
pub proof fn ascending_lists_miss_nothing<T: Ordered>(r: Seq<T>, s: Seq<T>, k: int)
    requires
        ascending_values_of(r, s),
        0 <= k < s.len(),
    ensures
        exists|i: int| 0 <= i < r.len() && r[i] == s[k],
{
    assert(s.contains(s[k]));
    assert(r.contains(s[k]));
}

} // verus!
