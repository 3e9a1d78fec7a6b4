use bgp_elements::element::{CommunityValue, ConversionError, ElemKind};
use bgp_elements::encoder::{render_community, render_kind, render_origin, widen_asn};
use bgp_elements::ip::{render_ip, render_prefix, IpAddress, Prefix};
use bgp_elements::text::{decode_hex, render_hex, render_u64_dec};

#[test]
fn decimal_rendering() {
    assert_eq!(render_u64_dec(0), "0");
    assert_eq!(render_u64_dec(7), "7");
    assert_eq!(render_u64_dec(65000), "65000");
    assert_eq!(render_u64_dec(u64::MAX), "18446744073709551615");
}

#[test]
fn hex_rendering_is_uppercase_two_digits_per_byte() {
    assert_eq!(render_hex(&vec![]), "");
    assert_eq!(render_hex(&vec![0x00]), "00");
    assert_eq!(render_hex(&vec![0x0A]), "0A");
    assert_eq!(render_hex(&vec![0x00, 0x0F, 0x10, 0xFF]), "000F10FF");
}

#[test]
fn hex_rendering_is_deterministic() {
    let payload = vec![0xDE, 0xAD, 0xBE, 0xEF];
    assert_eq!(render_hex(&payload), render_hex(&payload.clone()));
}

#[test]
fn hex_round_trip() {
    let payloads: Vec<Vec<u8>> = vec![
        vec![],
        vec![0x00],
        vec![0xFF],
        vec![0x01, 0x23, 0x45, 0x67, 0x89, 0xAB, 0xCD, 0xEF],
    ];
    for payload in payloads {
        let text = render_hex(&payload);
        assert_eq!(decode_hex(&text), Some(payload));
    }
}

#[test]
fn hex_decoding_rejects_non_renderings() {
    assert_eq!(decode_hex("0"), None); // odd length
    assert_eq!(decode_hex("0a"), None); // lowercase is not produced
    assert_eq!(decode_hex("GG"), None); // not hexadecimal
    assert_eq!(decode_hex("00 FF"), None); // no separators in the format
}

#[test]
fn ipv4_rendering() {
    assert_eq!(render_ip(&IpAddress::V4(10, 0, 0, 0)), "10.0.0.0");
    assert_eq!(render_ip(&IpAddress::V4(192, 168, 1, 1)), "192.168.1.1");
    assert_eq!(render_ip(&IpAddress::V4(255, 255, 255, 255)), "255.255.255.255");
}

#[test]
fn ipv6_rendering_compresses_longest_zero_run() {
    assert_eq!(render_ip(&IpAddress::V6([0, 0, 0, 0, 0, 0, 0, 0])), "::");
    assert_eq!(render_ip(&IpAddress::V6([0, 0, 0, 0, 0, 0, 0, 1])), "::1");
    assert_eq!(
        render_ip(&IpAddress::V6([0x2001, 0xdb8, 0, 0, 0, 0x8a2e, 0x370, 0x7334])),
        "2001:db8::8a2e:370:7334"
    );
    assert_eq!(render_ip(&IpAddress::V6([1, 2, 3, 4, 5, 6, 7, 8])), "1:2:3:4:5:6:7:8");
    // the longer of two runs wins
    assert_eq!(render_ip(&IpAddress::V6([1, 0, 0, 2, 0, 0, 0, 3])), "1:0:0:2::3");
    // ties go to the earliest run
    assert_eq!(render_ip(&IpAddress::V6([0, 0, 1, 0, 0, 1, 0, 0])), "::1:0:0:1:0:0");
    // a run reaching the end leaves a trailing double colon
    assert_eq!(render_ip(&IpAddress::V6([1, 2, 3, 4, 5, 6, 0, 0])), "1:2:3:4:5:6::");
    // a lone zero group is not compressed
    assert_eq!(render_ip(&IpAddress::V6([1, 0, 2, 3, 4, 5, 6, 7])), "1:0:2:3:4:5:6:7");
    // groups are lowercase hexadecimal without leading zeros
    assert_eq!(
        render_ip(&IpAddress::V6([0xffff, 0xabc, 0xd, 1, 0, 0, 0, 0xbeef])),
        "ffff:abc:d:1::beef"
    );
}

#[test]
fn prefix_rendering() {
    let p4 = Prefix { address: IpAddress::V4(10, 0, 0, 0), mask_len: 8 };
    assert_eq!(render_prefix(&p4), "10.0.0.0/8");
    let p6 = Prefix {
        address: IpAddress::V6([0x2001, 0xdb8, 0, 0, 0, 0, 0, 0]),
        mask_len: 32,
    };
    assert_eq!(render_prefix(&p6), "2001:db8::/32");
}

#[test]
fn element_kind_tags() {
    assert_eq!(render_kind(&ElemKind::Announce), "ANNOUNCE");
    assert_eq!(render_kind(&ElemKind::Withdraw), "WITHDRAW");
    assert_eq!(render_kind(&ElemKind::PeerState), "PEER_STATE");
}

#[test]
fn origin_tags() {
    assert_eq!(render_origin(0).unwrap(), "IGP");
    assert_eq!(render_origin(1).unwrap(), "EGP");
    assert_eq!(render_origin(2).unwrap(), "INCOMPLETE");
    assert_eq!(render_origin(3), Err(ConversionError::UnknownOrigin(3)));
    assert_eq!(render_origin(255), Err(ConversionError::UnknownOrigin(255)));
}

#[test]
fn asn_widening_preserves_value() {
    assert_eq!(widen_asn(0), 0u64);
    assert_eq!(widen_asn(65000), 65000u64);
    assert_eq!(widen_asn(u32::MAX), 4294967295u64);
}

#[test]
fn standard_community_rendering() {
    assert_eq!(render_community(&CommunityValue::NoExport).unwrap(), "no-export");
    assert_eq!(render_community(&CommunityValue::NoAdvertise).unwrap(), "no-advertise");
    assert_eq!(
        render_community(&CommunityValue::NoExportSubConfed).unwrap(),
        "no-export-sub-confed"
    );
    assert_eq!(render_community(&CommunityValue::Custom(64512, 100)).unwrap(), "64512:100");
}

#[test]
fn large_community_rendering() {
    assert_eq!(render_community(&CommunityValue::Large(1, 2, 3)).unwrap(), "1:2:3");
}

#[test]
fn extended_community_rendering() {
    let c = CommunityValue::Extended(3, 3, vec![9, 10, 11, 12, 13, 14]);
    assert_eq!(render_community(&c).unwrap(), "3:3:090A0B0C0D0E");
}

#[test]
fn extended_community_with_short_value_is_malformed() {
    let c = CommunityValue::Extended(3, 3, vec![9, 10]);
    assert_eq!(render_community(&c), Err(ConversionError::MalformedCommunity));
}
