//! Properties of the conversion that hold across components, stated and
//! proved once, over the same spec functions the components' contracts use.

use vstd::prelude::*;
use crate::adapter::adapted;
use crate::element::{NativeRecord, RouteUpdateElement};

verus! {

/// A native record with no optional attribute populated adapts to a
/// portable record with every optional field wholly absent — never a zero
/// or empty placeholder.
pub proof fn lemma_absence_maps_to_absence(e: RouteUpdateElement, n: NativeRecord)
    requires
        adapted(e, n),
        n.next_hop is None,
        n.as_path is None,
        n.origin_asns is None,
        n.origin is None,
        n.local_pref is None,
        n.med is None,
        n.communities is None,
        n.atomic is None,
        n.aggr_asn is None,
        n.aggr_ip is None,
        n.only_to_customer is None,
        n.unknown is None,
        n.deprecated is None,
    ensures
        e.next_hop is None,
        e.as_path is None,
        e.origin_asns is None,
        e.origin is None,
        e.local_pref is None,
        e.med is None,
        e.communities is None,
        e.atomic_aggregate is None,
        e.aggregator_asn is None,
        e.aggregator_ip is None,
        e.only_to_customer is None,
        e.unknown_attributes is None,
        e.deprecated_attributes is None,
{
}

/// The adapted path keeps the native path order exactly: position by
/// position, the portable number is the native number widened, so the
/// sequence is never reordered.
pub proof fn lemma_as_path_order_preserved(e: RouteUpdateElement, n: NativeRecord)
    requires
        adapted(e, n),
        n.as_path is Some,
    ensures
        e.as_path matches Some(w) && {
            &&& w@.len() == n.as_path.unwrap()@.len()
            &&& forall|i: int|
                0 <= i < w@.len() ==> #[trigger] w@[i] == n.as_path.unwrap()@[i] as u64
        },
{
}

} // verus!
