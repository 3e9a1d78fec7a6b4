use bgp_elements::adapter::adapt;
use bgp_elements::bridge::{IteratorCursor, PullEvent, PullOutcome};
use bgp_elements::element::{
    CommunityValue, ConversionError, ElemKind, NativeRecord, RawAttribute, RouteUpdateElement,
    SourceError,
};
use bgp_elements::ip::{IpAddress, Prefix};

fn bare_record(kind: ElemKind) -> NativeRecord {
    NativeRecord {
        timestamp_bits: 1234.5f64.to_bits(),
        kind,
        peer_ip: IpAddress::V4(10, 1, 2, 3),
        peer_asn: 65000,
        prefix: Prefix { address: IpAddress::V4(10, 0, 0, 0), mask_len: 8 },
        next_hop: None,
        as_path: None,
        origin_asns: None,
        origin: None,
        local_pref: None,
        med: None,
        communities: None,
        atomic: None,
        aggr_asn: None,
        aggr_ip: None,
        only_to_customer: None,
        unknown: None,
        deprecated: None,
    }
}

fn assert_all_optionals_absent(e: &RouteUpdateElement) {
    assert!(e.next_hop.is_none());
    assert!(e.as_path.is_none());
    assert!(e.origin_asns.is_none());
    assert!(e.origin.is_none());
    assert!(e.local_pref.is_none());
    assert!(e.med.is_none());
    assert!(e.communities.is_none());
    assert!(e.atomic_aggregate.is_none());
    assert!(e.aggregator_asn.is_none());
    assert!(e.aggregator_ip.is_none());
    assert!(e.only_to_customer.is_none());
    assert!(e.unknown_attributes.is_none());
    assert!(e.deprecated_attributes.is_none());
}

#[test]
fn bare_record_adapts_with_every_optional_field_absent() {
    let e = adapt(bare_record(ElemKind::Announce)).unwrap();
    assert_all_optionals_absent(&e);
    assert_eq!(e.timestamp_bits, 1234.5f64.to_bits());
    assert_eq!(e.element_kind, "ANNOUNCE");
    assert_eq!(e.peer_address, "10.1.2.3");
    assert_eq!(e.peer_asn, 65000u64);
    assert_eq!(e.prefix, "10.0.0.0/8");
}

#[test]
fn populated_record_adapts_field_by_field() {
    let mut n = bare_record(ElemKind::Announce);
    n.next_hop = Some(IpAddress::V6([0x2001, 0xdb8, 0, 0, 0, 0, 0, 1]));
    n.as_path = Some(vec![65000, 65001]);
    n.origin_asns = Some(vec![65001]);
    n.origin = Some(0);
    n.local_pref = Some(100);
    n.med = Some(50);
    n.communities = Some(vec![
        CommunityValue::Custom(65000, 44),
        CommunityValue::NoExport,
        CommunityValue::Large(1, 2, 3),
    ]);
    n.atomic = Some(true);
    n.aggr_asn = Some(65002);
    n.aggr_ip = Some(IpAddress::V4(192, 0, 2, 1));
    n.only_to_customer = Some(65003);
    n.unknown = Some(vec![RawAttribute { type_code: 99, payload: vec![0xAB, 0xCD] }]);
    n.deprecated = Some(vec![RawAttribute { type_code: 28, payload: vec![] }]);

    let e = adapt(n).unwrap();
    assert_eq!(e.next_hop.as_deref(), Some("2001:db8::1"));
    assert_eq!(e.as_path, Some(vec![65000u64, 65001u64]));
    assert_eq!(e.origin_asns, Some(vec![65001u64]));
    assert_eq!(e.origin.as_deref(), Some("IGP"));
    assert_eq!(e.local_pref, Some(100));
    assert_eq!(e.med, Some(50));
    assert_eq!(
        e.communities,
        Some(vec!["65000:44".to_string(), "no-export".to_string(), "1:2:3".to_string()])
    );
    assert_eq!(e.atomic_aggregate, Some(true));
    assert_eq!(e.aggregator_asn, Some(65002u64));
    assert_eq!(e.aggregator_ip.as_deref(), Some("192.0.2.1"));
    assert_eq!(e.only_to_customer, Some(65003u64));
    assert_eq!(
        e.unknown_attributes,
        Some(vec![RawAttribute { type_code: 99, payload: vec![0xAB, 0xCD] }])
    );
    assert_eq!(
        e.deprecated_attributes,
        Some(vec![RawAttribute { type_code: 28, payload: vec![] }])
    );
}

#[test]
fn as_path_order_is_preserved_exactly() {
    let mut n = bare_record(ElemKind::Announce);
    n.as_path = Some(vec![65000, 65001]);
    let e = adapt(n).unwrap();
    assert_eq!(e.as_path, Some(vec![65000u64, 65001u64]));
    assert_ne!(e.as_path, Some(vec![65001u64, 65000u64]));
}

#[test]
fn unknown_origin_code_fails_conversion() {
    let mut n = bare_record(ElemKind::Announce);
    n.origin = Some(9);
    assert_eq!(adapt(n), Err(ConversionError::UnknownOrigin(9)));
}

#[test]
fn malformed_community_fails_conversion() {
    let mut n = bare_record(ElemKind::Announce);
    n.communities = Some(vec![CommunityValue::Extended(0, 2, vec![1, 2, 3])]);
    assert_eq!(adapt(n), Err(ConversionError::MalformedCommunity));
}

#[test]
fn unknown_origin_is_reported_before_malformed_community() {
    let mut n = bare_record(ElemKind::Announce);
    n.origin = Some(7);
    n.communities = Some(vec![CommunityValue::Extended(0, 2, vec![])]);
    assert_eq!(adapt(n), Err(ConversionError::UnknownOrigin(7)));
}

#[test]
fn unopenable_source_yields_no_cursor() {
    let r = IteratorCursor::open(false);
    assert_eq!(r.err(), Some(SourceError::SourceUnavailable));
}

#[test]
fn conversion_failure_leaves_the_cursor_active() {
    let mut cursor = IteratorCursor::open(true).unwrap();
    let mut bad = bare_record(ElemKind::Announce);
    bad.origin = Some(200);
    match cursor.pull(PullEvent::Record(bad)) {
        PullOutcome::Failed(e) => assert_eq!(e, ConversionError::UnknownOrigin(200)),
        other => panic!("expected a conversion failure, got {:?}", other),
    }
    assert!(cursor.wants_record());
    match cursor.pull(PullEvent::Record(bare_record(ElemKind::Announce))) {
        PullOutcome::Element(e) => assert_eq!(e.element_kind, "ANNOUNCE"),
        other => panic!("expected an element, got {:?}", other),
    }
}

#[test]
fn two_records_then_terminate_exactly_once_then_inert() {
    let mut cursor = IteratorCursor::open(true).unwrap();

    let mut record_a = bare_record(ElemKind::Announce);
    record_a.as_path = Some(vec![65000, 65001]);
    match cursor.pull(PullEvent::Record(record_a)) {
        PullOutcome::Element(e) => {
            assert_eq!(e.element_kind, "ANNOUNCE");
            assert_eq!(e.prefix, "10.0.0.0/8");
            assert_eq!(e.peer_asn, 65000u64);
            assert_eq!(e.as_path, Some(vec![65000u64, 65001u64]));
            assert!(e.communities.is_none());
        },
        other => panic!("expected an element, got {:?}", other),
    }
    assert!(cursor.wants_record());

    let record_b = bare_record(ElemKind::Withdraw);
    match cursor.pull(PullEvent::Record(record_b)) {
        PullOutcome::Element(e) => {
            assert_eq!(e.element_kind, "WITHDRAW");
            assert_eq!(e.prefix, "10.0.0.0/8");
            assert_all_optionals_absent(&e);
        },
        other => panic!("expected an element, got {:?}", other),
    }
    assert!(cursor.wants_record());

    // the third pull terminates...
    assert!(matches!(cursor.pull(PullEvent::EndOfStream), PullOutcome::Terminate));
    assert!(!cursor.wants_record());

    // ...and every later pull is inert, whatever is handed in
    assert!(matches!(cursor.pull(PullEvent::EndOfStream), PullOutcome::Terminate));
    assert!(matches!(
        cursor.pull(PullEvent::Record(bare_record(ElemKind::Announce))),
        PullOutcome::Terminate
    ));
    assert!(!cursor.wants_record());
}

#[test]
fn close_is_idempotent_and_terminates_iteration() {
    let mut cursor = IteratorCursor::open(true).unwrap();
    cursor.close();
    assert!(!cursor.wants_record());
    cursor.close();
    assert!(matches!(cursor.pull(PullEvent::EndOfStream), PullOutcome::Terminate));
}
