//! The attribute encoder: pure, stateless conversion of each native field
//! to its portable counterpart. Enumerated tags render to stable non-empty
//! text, autonomous-system numbers widen losslessly to 64 bits, and each
//! community shape renders through its own textual rule.

use vstd::prelude::*;
use crate::element::{CommunityValue, ConversionError, ElemKind};
use crate::text::{dec_str, hex_str, render_hex, render_u64_dec};

verus! {

/// The stable textual tag of an element kind.
pub open spec fn kind_str(k: ElemKind) -> Seq<char> {
    match k {
        ElemKind::Announce => "ANNOUNCE"@,
        ElemKind::Withdraw => "WITHDRAW"@,
        ElemKind::PeerState => "PEER_STATE"@,
    }
}

/// Whether an origin code belongs to the known enumeration.
pub open spec fn origin_code_valid(code: u8) -> bool {
    code <= 2
}

/// The stable textual tag of a known origin code.
pub open spec fn origin_str(code: u8) -> Seq<char> {
    if code == 0 {
        "IGP"@
    } else if code == 1 {
        "EGP"@
    } else {
        "INCOMPLETE"@
    }
}

/// Whether a community value is well-formed: an extended community must
/// carry exactly six value bytes; the other shapes are always well-formed.
pub open spec fn community_valid(c: CommunityValue) -> bool {
    match c {
        CommunityValue::Extended(_, _, v) => v@.len() == 6,
        _ => true,
    }
}

/// The textual rendering of one community value. The three shapes merge
/// into one textual space; the shape tag is not preserved.
pub open spec fn community_str(c: CommunityValue) -> Seq<char> {
    match c {
        CommunityValue::NoExport => "no-export"@,
        CommunityValue::NoAdvertise => "no-advertise"@,
        CommunityValue::NoExportSubConfed => "no-export-sub-confed"@,
        CommunityValue::Custom(asn, value) => dec_str(asn as nat) + seq![':'] + dec_str(
            value as nat,
        ),
        CommunityValue::Large(g, l1, l2) => dec_str(g as nat) + seq![':'] + dec_str(l1 as nat)
            + seq![':'] + dec_str(l2 as nat),
        CommunityValue::Extended(t, s, v) => dec_str(t as nat) + seq![':'] + dec_str(s as nat)
            + seq![':'] + hex_str(v@),
    }
}

/// Widens an autonomous-system number losslessly to 64 bits: the widened
/// value equals the original as an integer.
pub fn widen_asn(asn: u32) -> (r: u64)
    ensures
        r == asn as u64,
{
    asn as u64
}

/// Renders the stable textual tag of an element kind.
pub fn render_kind(k: &ElemKind) -> (r: String)
    ensures
        r@ == kind_str(*k),
{
    match k {
        ElemKind::Announce => String::from_str("ANNOUNCE"),
        ElemKind::Withdraw => String::from_str("WITHDRAW"),
        ElemKind::PeerState => String::from_str("PEER_STATE"),
    }
}

/// Renders the textual tag of an origin code, or reports the code as
/// outside the known enumeration.
pub fn render_origin(code: u8) -> (r: Result<String, ConversionError>)
    ensures
        origin_code_valid(code) ==> (r matches Ok(s) && s@ == origin_str(code)),
        !origin_code_valid(code) ==> r == Err::<String, ConversionError>(
            ConversionError::UnknownOrigin(code),
        ),
{
    match code {
        0 => Ok(String::from_str("IGP")),
        1 => Ok(String::from_str("EGP")),
        2 => Ok(String::from_str("INCOMPLETE")),
        _ => Err(ConversionError::UnknownOrigin(code)),
    }
}

/// Renders one community value through the rule of its shape, or reports
/// it malformed.
pub fn render_community(c: &CommunityValue) -> (r: Result<String, ConversionError>)
    ensures
        community_valid(*c) ==> (r matches Ok(s) && s@ == community_str(*c)),
        !community_valid(*c) ==> r == Err::<String, ConversionError>(
            ConversionError::MalformedCommunity,
        ),
{
    proof {
        reveal_strlit(":");
    }
    match c {
        CommunityValue::NoExport => Ok(String::from_str("no-export")),
        CommunityValue::NoAdvertise => Ok(String::from_str("no-advertise")),
        CommunityValue::NoExportSubConfed => Ok(String::from_str("no-export-sub-confed")),
        CommunityValue::Custom(asn, value) => {
            let mut out = render_u64_dec(*asn as u64);
            out.append(":");
            let v = render_u64_dec(*value as u64);
            out.append(v.as_str());
            Ok(out)
        },
        CommunityValue::Large(g, l1, l2) => {
            let mut out = render_u64_dec(*g as u64);
            out.append(":");
            let s1 = render_u64_dec(*l1 as u64);
            out.append(s1.as_str());
            out.append(":");
            let s2 = render_u64_dec(*l2 as u64);
            out.append(s2.as_str());
            Ok(out)
        },
        CommunityValue::Extended(t, s, v) => {
            if v.len() != 6 {
                return Err(ConversionError::MalformedCommunity);
            }
            let mut out = render_u64_dec(*t as u64);
            out.append(":");
            let ss = render_u64_dec(*s as u64);
            out.append(ss.as_str());
            out.append(":");
            let hv = render_hex(v);
            out.append(hv.as_str());
            Ok(out)
        },
    }
}

/// The textual tag of every element kind is non-empty.
pub proof fn lemma_kind_str_nonempty(k: ElemKind)
    ensures
        kind_str(k).len() > 0,
{
    reveal_strlit("ANNOUNCE");
    reveal_strlit("WITHDRAW");
    reveal_strlit("PEER_STATE");
}

/// The textual tag of every known origin code is non-empty.
pub proof fn lemma_origin_str_nonempty(code: u8)
    ensures
        origin_str(code).len() > 0,
{
    reveal_strlit("IGP");
    reveal_strlit("EGP");
    reveal_strlit("INCOMPLETE");
}

} // verus!
