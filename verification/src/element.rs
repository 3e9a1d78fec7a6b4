//! The data model: the native update record as plain values, the portable
//! fully-owned record handed across the runtime boundary, and the error
//! kinds of the bridge.

use vstd::prelude::*;
use crate::ip::{IpAddress, Prefix};

verus! {

/// The kind of one routing update element.
#[derive(Clone, Copy, Debug, PartialEq, Eq, Structural)]
pub enum ElemKind {
    Announce,
    Withdraw,
    PeerState,
}

/// One community attribute value, in one of its three shapes: a standard
/// community (well-known or `asn:value`), a large community of three 32-bit
/// words, or an extended community of a type, a subtype and a value
/// payload (six bytes when well-formed).
#[derive(Clone, Debug, PartialEq, Eq)]
pub enum CommunityValue {
    NoExport,
    NoAdvertise,
    NoExportSubConfed,
    Custom(u32, u16),
    Large(u32, u32, u32),
    Extended(u8, u8, Vec<u8>),
}

/// One raw path attribute: its 8-bit type code and its payload bytes,
/// copied verbatim.
#[derive(Clone, Debug, PartialEq, Eq)]
pub struct RawAttribute {
    pub type_code: u8,
    pub payload: Vec<u8>,
}

/// One native update record, as plain values: what the upstream parser
/// emits for a single routing update, before conversion to the portable
/// form. The timestamp travels as the verbatim bit pattern of the source's
/// 64-bit floating-point seconds since epoch. The origin attribute travels
/// as its native numeric code (0 interior, 1 exterior, 2 incomplete).
#[derive(Clone, Debug)]
pub struct NativeRecord {
    pub timestamp_bits: u64,
    pub kind: ElemKind,
    pub peer_ip: IpAddress,
    pub peer_asn: u32,
    pub prefix: Prefix,
    pub next_hop: Option<IpAddress>,
    pub as_path: Option<Vec<u32>>,
    pub origin_asns: Option<Vec<u32>>,
    pub origin: Option<u8>,
    pub local_pref: Option<u32>,
    pub med: Option<u32>,
    pub communities: Option<Vec<CommunityValue>>,
    pub atomic: Option<bool>,
    pub aggr_asn: Option<u32>,
    pub aggr_ip: Option<IpAddress>,
    pub only_to_customer: Option<u32>,
    pub unknown: Option<Vec<RawAttribute>>,
    pub deprecated: Option<Vec<RawAttribute>>,
}

/// One portable, fully-owned record describing a single routing update.
/// Every field is a boundary-safe plain value; every optional field is
/// wholly absent or wholly present, never a sentinel. The timestamp is the
/// verbatim bit pattern of 64-bit floating-point seconds since epoch.
#[derive(Clone, Debug, PartialEq, Eq)]
pub struct RouteUpdateElement {
    pub timestamp_bits: u64,
    pub element_kind: String,
    pub peer_address: String,
    pub peer_asn: u64,
    pub prefix: String,
    pub next_hop: Option<String>,
    pub as_path: Option<Vec<u64>>,
    pub origin_asns: Option<Vec<u64>>,
    pub origin: Option<String>,
    pub local_pref: Option<u32>,
    pub med: Option<u32>,
    pub communities: Option<Vec<String>>,
    pub atomic_aggregate: Option<bool>,
    pub aggregator_asn: Option<u64>,
    pub aggregator_ip: Option<String>,
    pub only_to_customer: Option<u64>,
    pub unknown_attributes: Option<Vec<RawAttribute>>,
    pub deprecated_attributes: Option<Vec<RawAttribute>>,
}

/// Why the conversion of one native record failed. Scoped to that record
/// alone; the cursor and the feed stay usable.
#[derive(Clone, Copy, Debug, PartialEq, Eq, Structural)]
pub enum ConversionError {
    /// The origin attribute carries a code outside the known enumeration.
    UnknownOrigin(u8),
    /// A community value is malformed (an extended community whose value
    /// payload is not exactly six bytes).
    MalformedCommunity,
}

/// Why an iterator could not be opened.
#[derive(Clone, Copy, Debug, PartialEq, Eq, Structural)]
pub enum SourceError {
    /// The source identifier cannot be opened: unreachable, missing, or
    /// unrecognized.
    SourceUnavailable,
}

} // verus!
