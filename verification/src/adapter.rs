//! The element adapter: assembles exactly one portable record from one
//! native record by applying the attribute encoder field by field. Absence
//! maps to absence, never to a sentinel; the conversion either succeeds as
//! a whole or fails atomically for that record.

use vstd::prelude::*;
use crate::element::{
    CommunityValue, ConversionError, NativeRecord, RawAttribute, RouteUpdateElement,
};
use crate::encoder::{
    community_str, community_valid, kind_str, origin_code_valid, origin_str, render_community,
    render_kind, render_origin, widen_asn,
};
use crate::ip::{ip_str, prefix_str, render_ip, render_prefix, IpAddress};

verus! {

/// Whether a native record meets the encoder's trusted-input assumption:
/// a known origin code and well-formed community values.
pub open spec fn native_valid(n: NativeRecord) -> bool {
    &&& (n.origin matches Some(code) ==> origin_code_valid(code))
    &&& (n.communities matches Some(cs) ==> forall|i: int|
        0 <= i < cs@.len() ==> community_valid(#[trigger] cs@[i]))
}

/// The error a conversion of an invalid native record reports: an unknown
/// origin code is reported first, a malformed community otherwise.
pub open spec fn expected_error(n: NativeRecord) -> ConversionError {
    if n.origin matches Some(code) && !origin_code_valid(code) {
        ConversionError::UnknownOrigin(n.origin.unwrap())
    } else {
        ConversionError::MalformedCommunity
    }
}

/// An optional text field carries exactly the given optional rendering:
/// absent exactly when the rendering is absent.
pub open spec fn opt_text_is(s: Option<String>, t: Option<Seq<char>>) -> bool {
    match (s, t) {
        (Option::None, Option::None) => true,
        (Option::Some(s0), Option::Some(t0)) => s0@ == t0,
        _ => false,
    }
}

/// An optional sequence of autonomous-system numbers is the losslessly
/// widened image of the native one, in the same order.
pub open spec fn opt_widened(w: Option<Vec<u64>>, n: Option<Vec<u32>>) -> bool {
    match (w, n) {
        (Option::None, Option::None) => true,
        (Option::Some(ws), Option::Some(ns)) => ws@.len() == ns@.len() && forall|i: int|
            0 <= i < ns@.len() ==> #[trigger] ws@[i] == ns@[i] as u64,
        _ => false,
    }
}

/// An optional text sequence carries exactly the renderings of the native
/// community values, in the same order.
pub open spec fn opt_communities_are(s: Option<Vec<String>>, n: Option<Vec<CommunityValue>>) -> bool {
    match (s, n) {
        (Option::None, Option::None) => true,
        (Option::Some(ss), Option::Some(cs)) => ss@.len() == cs@.len() && forall|i: int|
            0 <= i < cs@.len() ==> (#[trigger] ss@[i])@ == community_str(cs@[i]),
        _ => false,
    }
}

/// The full conversion contract: how each field of the portable record is
/// determined by the native record it was adapted from.
pub open spec fn adapted(e: RouteUpdateElement, n: NativeRecord) -> bool {
    &&& e.timestamp_bits == n.timestamp_bits
    &&& e.element_kind@ == kind_str(n.kind)
    &&& e.peer_address@ == ip_str(n.peer_ip)
    &&& e.peer_asn == n.peer_asn as u64
    &&& e.prefix@ == prefix_str(n.prefix)
    &&& opt_text_is(
        e.next_hop,
        match n.next_hop {
            Option::None => Option::None,
            Option::Some(ip) => Option::Some(ip_str(ip)),
        },
    )
    &&& opt_widened(e.as_path, n.as_path)
    &&& opt_widened(e.origin_asns, n.origin_asns)
    &&& opt_text_is(
        e.origin,
        match n.origin {
            Option::None => Option::None,
            Option::Some(code) => Option::Some(origin_str(code)),
        },
    )
    &&& e.local_pref == n.local_pref
    &&& e.med == n.med
    &&& opt_communities_are(e.communities, n.communities)
    &&& e.atomic_aggregate == n.atomic
    &&& (match (e.aggregator_asn, n.aggr_asn) {
        (Option::None, Option::None) => true,
        (Option::Some(w), Option::Some(a)) => w == a as u64,
        _ => false,
    })
    &&& opt_text_is(
        e.aggregator_ip,
        match n.aggr_ip {
            Option::None => Option::None,
            Option::Some(ip) => Option::Some(ip_str(ip)),
        },
    )
    &&& (match (e.only_to_customer, n.only_to_customer) {
        (Option::None, Option::None) => true,
        (Option::Some(w), Option::Some(a)) => w == a as u64,
        _ => false,
    })
    &&& e.unknown_attributes == n.unknown
    &&& e.deprecated_attributes == n.deprecated
}

/// Widens a sequence of autonomous-system numbers to 64 bits, keeping the
/// order exactly.
fn widen_asn_vec(v: &Vec<u32>) -> (r: Vec<u64>)
    ensures
        r@.len() == v@.len(),
        forall|i: int| 0 <= i < v@.len() ==> #[trigger] r@[i] == v@[i] as u64,
{
    let mut out: Vec<u64> = Vec::new();
    let mut i: usize = 0;
    while i < v.len()
        invariant
            i <= v@.len(),
            out@.len() == i,
            forall|j: int| 0 <= j < i ==> #[trigger] out@[j] == v@[j] as u64,
        decreases v@.len() - i,
    {
        out.push(widen_asn(v[i]));
        i = i + 1;
    }
    out
}

/// Renders every community value in order, or fails on the first malformed
/// one.
fn render_communities(cs: &Vec<CommunityValue>) -> (r: Result<Vec<String>, ConversionError>)
    ensures
        (forall|i: int| 0 <= i < cs@.len() ==> community_valid(#[trigger] cs@[i])) ==> (r matches
            Ok(ss) && ss@.len() == cs@.len() && forall|i: int|
                0 <= i < cs@.len() ==> (#[trigger] ss@[i])@ == community_str(cs@[i])),
        !(forall|i: int| 0 <= i < cs@.len() ==> community_valid(#[trigger] cs@[i])) ==> r == Err::<
            Vec<String>,
            ConversionError,
        >(ConversionError::MalformedCommunity),
{
    let mut out: Vec<String> = Vec::new();
    let mut i: usize = 0;
    while i < cs.len()
        invariant
            i <= cs@.len(),
            out@.len() == i,
            forall|j: int| 0 <= j < i ==> community_valid(#[trigger] cs@[j]),
            forall|j: int| 0 <= j < i ==> (#[trigger] out@[j])@ == community_str(cs@[j]),
        decreases cs@.len() - i,
    {
        match render_community(&cs[i]) {
            Ok(s) => out.push(s),
            Err(e) => {
                return Err(e);
            },
        }
        i = i + 1;
    }
    Ok(out)
}

/// Renders an optional address, which is wholly absent or wholly present.
fn render_opt_ip(ip: &Option<IpAddress>) -> (r: Option<String>)
    ensures
        opt_text_is(
            r,
            match *ip {
                Option::None => Option::None,
                Option::Some(a) => Option::Some(ip_str(a)),
            },
        ),
{
    match ip {
        Option::None => Option::None,
        Option::Some(a) => Option::Some(render_ip(a)),
    }
}

/// Adapts one native record into one portable record, applying the
/// attribute encoder to every field. Succeeds exactly on records that meet
/// the trusted-input assumption; fails atomically otherwise, reporting an
/// unknown origin code before a malformed community.
pub fn adapt(n: NativeRecord) -> (r: Result<RouteUpdateElement, ConversionError>)
    ensures
        native_valid(n) ==> (r matches Ok(e) && adapted(e, n)),
        !native_valid(n) ==> r == Err::<RouteUpdateElement, ConversionError>(expected_error(n)),
{
    let NativeRecord {
        timestamp_bits,
        kind,
        peer_ip,
        prefix,
        peer_asn,
        next_hop,
        as_path,
        origin_asns,
        origin,
        local_pref,
        med,
        communities,
        atomic,
        aggr_asn,
        aggr_ip,
        only_to_customer,
        unknown,
        deprecated,
    } = n;
    let origin_text: Option<String> = match origin {
        Option::None => Option::None,
        Option::Some(code) => {
            match render_origin(code) {
                Ok(s) => Option::Some(s),
                Err(e) => {
                    return Err(e);
                },
            }
        },
    };
    let community_texts: Option<Vec<String>> = match &communities {
        Option::None => Option::None,
        Option::Some(cs) => {
            match render_communities(cs) {
                Ok(ss) => Option::Some(ss),
                Err(e) => {
                    return Err(e);
                },
            }
        },
    };
    let as_path_wide: Option<Vec<u64>> = match &as_path {
        Option::None => Option::None,
        Option::Some(p) => Option::Some(widen_asn_vec(p)),
    };
    let origin_asns_wide: Option<Vec<u64>> = match &origin_asns {
        Option::None => Option::None,
        Option::Some(p) => Option::Some(widen_asn_vec(p)),
    };
    Ok(
        RouteUpdateElement {
            timestamp_bits,
            element_kind: render_kind(&kind),
            peer_address: render_ip(&peer_ip),
            peer_asn: widen_asn(peer_asn),
            prefix: render_prefix(&prefix),
            next_hop: render_opt_ip(&next_hop),
            as_path: as_path_wide,
            origin_asns: origin_asns_wide,
            origin: origin_text,
            local_pref,
            med,
            communities: community_texts,
            atomic_aggregate: atomic,
            aggregator_asn: match aggr_asn {
                Option::None => Option::None,
                Option::Some(a) => Option::Some(widen_asn(a)),
            },
            aggregator_ip: render_opt_ip(&aggr_ip),
            only_to_customer: match only_to_customer {
                Option::None => Option::None,
                Option::Some(a) => Option::Some(widen_asn(a)),
            },
            unknown_attributes: unknown,
            deprecated_attributes: deprecated,
        },
    )
}

} // verus!
