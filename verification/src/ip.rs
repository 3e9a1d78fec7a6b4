//! The address and prefix model, with verified rendering to canonical
//! textual form: dotted-quad for version 4 addresses, lowercase colon-hex
//! with longest-zero-run compression for version 6 addresses, and
//! `address/mask` for network prefixes.

use vstd::prelude::*;
use crate::text::{dec_str, hex_group, render_u64_dec, render_u16_hex};

verus! {

/// An IP address as plain values: four octets for version 4, eight 16-bit
/// groups for version 6.
#[derive(Clone, Copy, Debug)]
pub enum IpAddress {
    V4(u8, u8, u8, u8),
    V6([u16; 8]),
}

/// A network prefix: an address together with its mask length.
#[derive(Clone, Copy, Debug)]
pub struct Prefix {
    pub address: IpAddress,
    pub mask_len: u8,
}

/// The dotted-quad rendering of a version 4 address.
pub open spec fn ipv4_str(a: u8, b: u8, c: u8, d: u8) -> Seq<char> {
    dec_str(a as nat) + seq!['.'] + dec_str(b as nat) + seq!['.'] + dec_str(c as nat) + seq![
        '.',
    ] + dec_str(d as nat)
}

/// The number of consecutive zero groups starting at position `i`.
pub open spec fn zero_run_len(segs: Seq<u16>, i: int) -> nat
    decreases segs.len() - i when 0 <= i <= segs.len()
{
    if i < segs.len() && segs[i] == 0 {
        1 + zero_run_len(segs, i + 1)
    } else {
        0
    }
}

/// The start and length of the longest run of zero groups at or after
/// position `i`, preferring the earliest on ties. Length zero means no zero
/// group at all.
pub open spec fn best_zero_run(segs: Seq<u16>, i: int) -> (int, nat)
    decreases segs.len() - i when 0 <= i <= segs.len()
{
    if i >= segs.len() {
        (i, 0)
    } else {
        let here = zero_run_len(segs, i);
        let rest = best_zero_run(segs, i + 1);
        if here >= rest.1 {
            (i, here)
        } else {
            rest
        }
    }
}

/// The groups rendered as lowercase hexadecimal and joined with `':'`.
pub open spec fn groups_join(segs: Seq<u16>) -> Seq<char>
    decreases segs.len(),
{
    if segs.len() == 0 {
        Seq::empty()
    } else if segs.len() == 1 {
        hex_group(segs[0] as nat)
    } else {
        groups_join(segs.drop_last()) + seq![':'] + hex_group(segs.last() as nat)
    }
}

/// The canonical colon-hex rendering of a version 6 address: lowercase
/// hexadecimal groups joined with `':'`, with the longest run of two or
/// more zero groups (the earliest such run on ties) compressed to `"::"`.
pub open spec fn ipv6_str(segs: Seq<u16>) -> Seq<char> {
    let run = best_zero_run(segs, 0);
    if run.1 >= 2 {
        groups_join(segs.take(run.0)) + seq![':', ':'] + groups_join(
            segs.skip(run.0 + run.1),
        )
    } else {
        groups_join(segs)
    }
}

/// The canonical textual form of an address.
pub open spec fn ip_str(ip: IpAddress) -> Seq<char> {
    match ip {
        IpAddress::V4(a, b, c, d) => ipv4_str(a, b, c, d),
        IpAddress::V6(segs) => ipv6_str(segs@),
    }
}

/// The textual form of a prefix: the address, `'/'`, and the mask length
/// in decimal.
pub open spec fn prefix_str(p: Prefix) -> Seq<char> {
    ip_str(p.address) + seq!['/'] + dec_str(p.mask_len as nat)
}

/// Renders a version 4 address as its dotted-quad text.
fn render_ipv4(a: u8, b: u8, c: u8, d: u8) -> (r: String)
    ensures
        r@ == ipv4_str(a, b, c, d),
{
    let mut out = render_u64_dec(a as u64);
    out.append(".");
    proof {
        reveal_strlit(".");
    }
    let sb = render_u64_dec(b as u64);
    out.append(sb.as_str());
    out.append(".");
    let sc = render_u64_dec(c as u64);
    out.append(sc.as_str());
    out.append(".");
    let sd = render_u64_dec(d as u64);
    out.append(sd.as_str());
    out
}

/// The length of the run of zero groups starting at `i`.
fn zero_run_at(segs: &[u16; 8], i: usize) -> (r: usize)
    requires
        i <= 8,
    ensures
        r == zero_run_len(segs@, i as int),
        i + r <= 8,
    decreases 8 - i,
{
    if i < 8 && segs[i] == 0 {
        1 + zero_run_at(segs, i + 1)
    } else {
        0
    }
}

/// The start and length of the longest zero run at or after `i`, earliest
/// on ties.
fn best_run_from(segs: &[u16; 8], i: usize) -> (r: (usize, usize))
    requires
        i <= 8,
    ensures
        (r.0 as int, r.1 as nat) == best_zero_run(segs@, i as int),
        i <= r.0,
        r.0 + r.1 <= 8,
    decreases 8 - i,
{
    if i >= 8 {
        (i, 0)
    } else {
        let here = zero_run_at(segs, i);
        let rest = best_run_from(segs, i + 1);
        if here >= rest.1 {
            (i, here)
        } else {
            rest
        }
    }
}

/// Renders the groups in positions `from..to` joined with `':'`.
fn render_groups(segs: &[u16; 8], from: usize, to: usize) -> (r: String)
    requires
        from <= to <= 8,
    ensures
        r@ == groups_join(segs@.subrange(from as int, to as int)),
{
    let mut out = String::new();
    let mut j: usize = from;
    while j < to
        invariant
            from <= j <= to <= 8,
            out@ == groups_join(segs@.subrange(from as int, j as int)),
        decreases to - j,
    {
        if j > from {
            out.append(":");
            proof {
                reveal_strlit(":");
            }
        }
        let g = render_u16_hex(segs[j]);
        out.append(g.as_str());
        proof {
            let sub1 = segs@.subrange(from as int, j + 1 as int);
            assert(sub1.drop_last() =~= segs@.subrange(from as int, j as int));
            assert(sub1.last() == segs@[j as int]);
        }
        j = j + 1;
    }
    out
}

/// Renders a version 6 address as its canonical colon-hex text.
fn render_ipv6(segs: &[u16; 8]) -> (r: String)
    ensures
        r@ == ipv6_str(segs@),
{
    let (start, len) = best_run_from(segs, 0);
    if len >= 2 {
        let mut out = render_groups(segs, 0, start);
        out.append("::");
        proof {
            reveal_strlit("::");
            assert("::"@ =~= seq![':', ':']);
            assert(segs@.subrange(0, start as int) =~= segs@.take(start as int));
        }
        let tail = render_groups(segs, start + len, 8);
        out.append(tail.as_str());
        proof {
            assert(segs@.subrange(start + len as int, 8) =~= segs@.skip(start + len as int));
        }
        out
    } else {
        let out = render_groups(segs, 0, 8);
        proof {
            assert(segs@.subrange(0, 8) =~= segs@);
        }
        out
    }
}

/// Renders an address to its canonical textual form.
pub fn render_ip(ip: &IpAddress) -> (r: String)
    ensures
        r@ == ip_str(*ip),
{
    match ip {
        IpAddress::V4(a, b, c, d) => render_ipv4(*a, *b, *c, *d),
        IpAddress::V6(segs) => render_ipv6(segs),
    }
}

/// Renders a prefix as the address, a slash, and the mask length.
pub fn render_prefix(p: &Prefix) -> (r: String)
    ensures
        r@ == prefix_str(*p),
{
    let mut out = render_ip(&p.address);
    out.append("/");
    proof {
        reveal_strlit("/");
    }
    let m = render_u64_dec(p.mask_len as u64);
    out.append(m.as_str());
    out
}

} // verus!
