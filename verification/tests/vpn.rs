use std::str::FromStr;

use rns_vpn::address::{destination_to_ip, host_number, NetworkPrefix};
use rns_vpn::default_announce_freq_secs;
use rns_vpn::identity::{hex_digit, Identifier};
use rns_vpn::lifecycle::{LinkState, Peer, PeerEvent};
use rns_vpn::policy::{drop_anomaly, handling, loop_continues, Anomaly, Handling};
use rns_vpn::registry::{ConfigError, LocalEndpoint, PeerRegistry};
use rns_vpn::router::{
    handle_link_event, route_packet, route_parsed, DropReason, LinkEvent, LinkEventData, Route,
};

const LOCAL: &str = "000102030405060708090a0b0c0d0e0f";
const PEER_A: &str = "fb08aff16ec6f5ccf0d3eb179028e9c3";
const PEER_B: &str = "11111111111111111111111100000102";
// Shares bytes 12 to 15 with PEER_A.
const PEER_A_TWIN: &str = "0000000000000000000000009028e9c3";
// Shares bytes 12 to 15 with LOCAL, modulo the network bits of a /16.
const LOCAL_TWIN: &str = "ffffffffffffffffffffffffaaaa0e0f";

fn id(text: &str) -> Identifier {
    Identifier::from_hex(text).unwrap()
}

fn ip(a: u8, b: u8, c: u8, d: u8) -> u32 {
    u32::from_be_bytes([a, b, c, d])
}

fn net16() -> NetworkPrefix {
    NetworkPrefix::new(ip(10, 1, 0, 0), 16).unwrap()
}

fn texts(list: &[&str]) -> Vec<String> {
    list.iter().map(|s| s.to_string()).collect()
}

fn registry() -> PeerRegistry {
    PeerRegistry::build(id(LOCAL), net16(), &texts(&[PEER_A, PEER_B])).unwrap()
}

fn ipv4_packet(dst: [u8; 4]) -> Vec<u8> {
    let mut p: Vec<u8> = vec![0x45, 0x00, 0x00, 0x14, 0, 0, 0x40, 0x00, 64, 17, 0, 0];
    p.extend_from_slice(&[10, 1, 0, 1]);
    p.extend_from_slice(&dst);
    p
}

fn ipv6_packet(dst: [u8; 16]) -> Vec<u8> {
    let mut p: Vec<u8> = vec![0x60, 0, 0, 0, 0, 0, 59, 64];
    p.extend_from_slice(&[0u8; 16]);
    p.extend_from_slice(&dst);
    p
}

#[test]
fn dest_to_ip() {
    let destination = Identifier::from_hex("fb08aff16ec6f5ccf0d3eb179028e9c3").unwrap();
    // 0xe9 = 233, 0xc3 = 195
    let prefix = cidr::Ipv4Cidr::from_str("10.1.0.0/16").unwrap();
    let prefix =
        NetworkPrefix::new(prefix.first_address().to_bits(), prefix.network_length()).unwrap();
    let ip = destination_to_ip(destination, prefix);
    let expected = cidr::Ipv4Cidr::from_str("10.1.233.195").unwrap().first_address().to_bits();
    assert_eq!(ip, expected);
    assert_eq!(ip, 0x0a01_e9c3);
}

#[test]
fn announce_interval_defaults_to_one_second() {
    assert_eq!(default_announce_freq_secs(), 1);
}

#[test]
fn hex_digits_have_their_values() {
    assert_eq!(hex_digit('0'), Some(0));
    assert_eq!(hex_digit('9'), Some(9));
    assert_eq!(hex_digit('a'), Some(10));
    assert_eq!(hex_digit('f'), Some(15));
    assert_eq!(hex_digit('A'), Some(10));
    assert_eq!(hex_digit('F'), Some(15));
    assert_eq!(hex_digit('g'), None);
    assert_eq!(hex_digit('+'), None);
    assert_eq!(hex_digit(' '), None);
    assert_eq!(hex_digit('\u{e9}'), None);
}

#[test]
fn identifier_is_read_two_digits_a_byte() {
    let got = id(PEER_A);
    assert_eq!(
        got.bytes,
        [
            0xfb, 0x08, 0xaf, 0xf1, 0x6e, 0xc6, 0xf5, 0xcc, 0xf0, 0xd3, 0xeb, 0x17, 0x90, 0x28,
            0xe9, 0xc3
        ]
    );
    assert_eq!(id("FB08AFF16EC6F5CCF0D3EB179028E9C3"), got);
    assert_eq!(Identifier::new(got.bytes), got);
    assert!(got.same(&Identifier::new(got.bytes)));
    assert!(!got.same(&id(PEER_B)));
    assert_ne!(got, id(PEER_B));
}

#[test]
fn identifier_reads_only_the_first_32_digits() {
    let long = format!("{}zz", PEER_A);
    assert_eq!(Identifier::from_hex(&long), Some(id(PEER_A)));
}

#[test]
fn malformed_identifiers_are_refused() {
    assert_eq!(Identifier::from_hex(""), None);
    assert_eq!(Identifier::from_hex("fb08aff16ec6f5ccf0d3eb179028e9c"), None);
    assert_eq!(Identifier::from_hex("fb08aff16ec6f5ccf0d3eb179028e9cg"), None);
    assert_eq!(Identifier::from_hex("+b08aff16ec6f5ccf0d3eb179028e9c3"), None);
    assert_eq!(Identifier::from_hex("\u{e9}b08aff16ec6f5ccf0d3eb179028e9c3"), None);
}

#[test]
fn prefix_needs_a_clean_host_part() {
    assert!(NetworkPrefix::new(ip(10, 1, 0, 0), 16).is_some());
    assert!(NetworkPrefix::new(ip(10, 1, 0, 1), 16).is_none());
    assert!(NetworkPrefix::new(ip(10, 1, 0, 0), 33).is_none());
    assert!(NetworkPrefix::new(0, 0).is_some());
    assert!(NetworkPrefix::new(1, 0).is_none());
    assert!(NetworkPrefix::new(ip(10, 1, 2, 3), 32).is_some());
    let p = net16();
    assert_eq!(p.first_address(), ip(10, 1, 0, 0));
    assert_eq!(p.network_length(), 16);
}

#[test]
fn mask_has_the_network_bits() {
    assert_eq!(net16().mask(), 0xffff_0000);
    assert_eq!(NetworkPrefix::new(0, 0).unwrap().mask(), 0);
    assert_eq!(NetworkPrefix::new(ip(10, 1, 2, 3), 32).unwrap().mask(), 0xffff_ffff);
    assert_eq!(NetworkPrefix::new(ip(10, 1, 2, 0), 24).unwrap().mask(), 0xffff_ff00);
    assert_eq!(NetworkPrefix::new(ip(128, 0, 0, 0), 1).unwrap().mask(), 0x8000_0000);
}

#[test]
fn host_number_is_big_endian() {
    assert_eq!(host_number(&id(PEER_A)), 0x9028_e9c3);
    assert_eq!(host_number(&id(LOCAL)), 0x0c0d_0e0f);
}

#[test]
fn derived_address_lies_in_the_prefix() {
    let d = id(PEER_A);
    for len in 0u8..=32 {
        let mask: u32 = if len == 0 { 0 } else { u32::MAX << (32 - len as u32) };
        let base = ip(10, 1, 2, 3) & mask;
        let p = NetworkPrefix::new(base, len).unwrap();
        let got = destination_to_ip(d, p);
        assert_eq!(got & mask, base);
        assert_eq!(got & !mask, 0x9028_e9c3 & !mask);
        assert_eq!(p.mask(), mask);
    }
}

#[test]
fn derived_address_edges() {
    let d = id(PEER_A);
    assert_eq!(destination_to_ip(d, NetworkPrefix::new(0, 0).unwrap()), 0x9028_e9c3);
    assert_eq!(
        destination_to_ip(d, NetworkPrefix::new(ip(10, 1, 2, 3), 32).unwrap()),
        ip(10, 1, 2, 3)
    );
    assert_eq!(
        destination_to_ip(d, NetworkPrefix::new(ip(192, 168, 7, 0), 24).unwrap()),
        ip(192, 168, 7, 195)
    );
}

#[test]
fn identifiers_sharing_the_segment_collide() {
    assert_eq!(destination_to_ip(id(PEER_A), net16()), destination_to_ip(id(PEER_A_TWIN), net16()));
}

#[test]
fn local_endpoint_has_its_derived_address() {
    let l = LocalEndpoint::new(id(LOCAL), net16());
    assert_eq!(l.dest, id(LOCAL));
    assert_eq!(l.ip, ip(10, 1, 14, 15));
}

#[test]
fn registry_holds_the_peers_in_list_order() {
    let reg = registry();
    assert_eq!(reg.len(), 2);
    assert_eq!(reg.local(), LocalEndpoint { dest: id(LOCAL), ip: ip(10, 1, 14, 15) });
    assert_eq!(reg.prefix(), net16());
    assert_eq!(reg.entry(0).ip, ip(10, 1, 233, 195));
    assert_eq!(reg.entry(0).peer, Peer { dest: id(PEER_A), link_id: None, link_active: false });
    assert_eq!(reg.entry(1).ip, ip(10, 1, 1, 2));
    assert_eq!(reg.entry(1).peer.dest, id(PEER_B));
    assert_eq!(reg.position(ip(10, 1, 1, 2)), Some(1));
    assert_eq!(reg.position(ip(10, 1, 1, 3)), None);
    assert_eq!(reg.lookup(ip(10, 1, 233, 195)), Some(Peer::new(id(PEER_A))));
    assert_eq!(reg.lookup(ip(10, 1, 14, 15)), None);
}

#[test]
fn registry_of_no_peers_is_empty() {
    let reg = PeerRegistry::build(id(LOCAL), net16(), &Vec::new()).unwrap();
    assert_eq!(reg.len(), 0);
    assert_eq!(reg.lookup(ip(10, 1, 233, 195)), None);
}

#[test]
fn registry_refuses_a_malformed_peer() {
    let err = PeerRegistry::build(id(LOCAL), net16(), &texts(&[PEER_A, "nonsense", PEER_A_TWIN]))
        .err()
        .unwrap();
    assert_eq!(err, ConfigError::MalformedPeer { index: 1, text: "nonsense".to_string() });
    assert_eq!(err.index(), 1);
}

#[test]
fn registry_refuses_a_peer_on_the_local_address() {
    let err = PeerRegistry::build(id(LOCAL), net16(), &texts(&[PEER_A, LOCAL_TWIN, "bad"]))
        .err()
        .unwrap();
    assert_eq!(
        err,
        ConfigError::LocalConflict {
            index: 1,
            peer: id(LOCAL_TWIN),
            local: id(LOCAL),
            ip: ip(10, 1, 14, 15),
        }
    );
}

#[test]
fn registry_refuses_two_peers_on_one_address() {
    let err = PeerRegistry::build(id(LOCAL), net16(), &texts(&[PEER_B, PEER_A, PEER_A_TWIN]))
        .err()
        .unwrap();
    assert_eq!(
        err,
        ConfigError::PeerConflict {
            index: 2,
            existing_index: 1,
            existing: id(PEER_A),
            peer: id(PEER_A_TWIN),
            ip: ip(10, 1, 233, 195),
        }
    );
    assert_eq!(err.index(), 2);
}

#[test]
fn registry_refuses_a_peer_listed_twice() {
    let err = PeerRegistry::build(id(LOCAL), net16(), &texts(&[PEER_A, PEER_A])).err().unwrap();
    assert_eq!(
        err,
        ConfigError::PeerConflict {
            index: 1,
            existing_index: 0,
            existing: id(PEER_A),
            peer: id(PEER_A),
            ip: ip(10, 1, 233, 195),
        }
    );
}

#[test]
fn peer_walks_through_its_states() {
    let link = id(PEER_B);
    let mut p = Peer::new(id(PEER_A));
    assert_eq!(p.state(), LinkState::NoLink);
    assert!(p.wants_link(&id(PEER_A)));
    assert!(!p.wants_link(&id(PEER_B)));
    assert!(!p.activated(&link));
    assert!(!p.closed(&link));
    assert_eq!(p, Peer::new(id(PEER_A)));

    assert!(p.link_created(&id(PEER_A), link));
    assert_eq!(p.state(), LinkState::Pending);
    assert_eq!(p, Peer { dest: id(PEER_A), link_id: Some(link), link_active: false });
    assert!(p.has_link(&link));
    assert!(!p.has_link(&id(LOCAL)));

    // A second announce creates no second link.
    assert!(!p.wants_link(&id(PEER_A)));
    assert!(!p.link_created(&id(PEER_A), id(LOCAL)));
    assert_eq!(p.link_id, Some(link));

    assert!(!p.activated(&id(LOCAL)));
    assert_eq!(p.state(), LinkState::Pending);
    assert!(p.activated(&link));
    assert_eq!(p.state(), LinkState::Active);
    assert!(!p.link_created(&id(PEER_A), id(LOCAL)));
    assert_eq!(p, Peer { dest: id(PEER_A), link_id: Some(link), link_active: true });

    assert!(!p.closed(&id(LOCAL)));
    assert_eq!(p.state(), LinkState::Active);
    assert!(p.closed(&link));
    assert_eq!(p.state(), LinkState::NoLink);
    assert_eq!(p, Peer::new(id(PEER_A)));
    assert!(p.wants_link(&id(PEER_A)));
}

#[test]
fn pending_peer_closes_to_no_link() {
    let link = id(PEER_B);
    let mut p = Peer::new(id(PEER_A));
    assert!(p.apply(&PeerEvent::LinkCreated { dest: id(PEER_A), link }));
    assert_eq!(p.state(), LinkState::Pending);
    assert!(p.apply(&PeerEvent::Closed(link)));
    assert_eq!(p.state(), LinkState::NoLink);
    assert!(!p.apply(&PeerEvent::Activated(link)));
    assert_eq!(p.state(), LinkState::NoLink);
}

#[test]
fn registry_follows_announces_and_link_events() {
    let mut reg = registry();
    let link = id("aaaaaaaaaaaaaaaaaaaaaaaaaaaaaaaa");
    assert!(!reg.needs_link(&id(LOCAL)));
    assert!(reg.needs_link(&id(PEER_A)));
    assert!(!reg.link_created(&id(LOCAL), link));
    assert!(reg.link_created(&id(PEER_A), link));
    assert_eq!(reg.entry(0).peer.state(), LinkState::Pending);
    assert_eq!(reg.entry(1).peer.state(), LinkState::NoLink);
    assert_eq!(reg.entry(0).ip, ip(10, 1, 233, 195));
    assert!(!reg.needs_link(&id(PEER_A)));
    assert!(!reg.link_created(&id(PEER_A), id(PEER_B)));
    assert_eq!(reg.entry(0).peer.link_id, Some(link));

    assert!(!reg.link_activated(&id(PEER_B)));
    assert!(reg.link_activated(&link));
    assert_eq!(reg.lookup(ip(10, 1, 233, 195)).unwrap().state(), LinkState::Active);
    assert!(!reg.needs_link(&id(PEER_A)));

    assert!(reg.link_closed(&link));
    assert!(!reg.link_closed(&link));
    assert_eq!(reg.lookup(ip(10, 1, 233, 195)), Some(Peer::new(id(PEER_A))));
    assert!(reg.needs_link(&id(PEER_A)));
    assert!(reg.apply(&PeerEvent::LinkCreated { dest: id(PEER_B), link }));
    assert_eq!(reg.entry(1).peer.state(), LinkState::Pending);
    assert_eq!(reg.len(), 2);
}

#[test]
fn packet_to_an_unregistered_address_is_dropped() {
    let reg = registry();
    assert_eq!(
        route_packet(&reg, &ipv4_packet([10, 1, 9, 9])),
        Route::Drop(DropReason::Unregistered)
    );
    assert_eq!(
        route_packet(&reg, &ipv4_packet([10, 1, 14, 15])),
        Route::Drop(DropReason::Unregistered)
    );
}

#[test]
fn packet_to_a_peer_without_link_is_dropped() {
    let reg = registry();
    assert_eq!(
        route_packet(&reg, &ipv4_packet([10, 1, 233, 195])),
        Route::Drop(DropReason::NoLink)
    );
    assert_eq!(reg.entry(0).peer, Peer::new(id(PEER_A)));
    assert!(reg.needs_link(&id(PEER_A)));
}

#[test]
fn packet_to_a_linked_peer_is_forwarded() {
    let mut reg = registry();
    let link = id("aaaaaaaaaaaaaaaaaaaaaaaaaaaaaaaa");
    reg.link_created(&id(PEER_A), link);
    let want = Route::Forward { dest: id(PEER_A), link };
    assert_eq!(route_packet(&reg, &ipv4_packet([10, 1, 233, 195])), want);
    reg.link_activated(&link);
    assert_eq!(route_packet(&reg, &ipv4_packet([10, 1, 233, 195])), want);
    assert_eq!(route_packet(&reg, &ipv4_packet([10, 1, 1, 2])), Route::Drop(DropReason::NoLink));
    reg.link_closed(&link);
    assert_eq!(
        route_packet(&reg, &ipv4_packet([10, 1, 233, 195])),
        Route::Drop(DropReason::NoLink)
    );
}

#[test]
fn unreadable_packet_is_dropped() {
    let reg = registry();
    assert_eq!(route_packet(&reg, &[]), Route::Drop(DropReason::Unparsed));
    assert_eq!(route_packet(&reg, &[0x45, 0, 0]), Route::Drop(DropReason::Unparsed));
    assert_eq!(route_packet(&reg, &[0x15; 40]), Route::Drop(DropReason::Unparsed));
}

#[test]
fn ipv6_packet_finds_no_peer() {
    let reg = registry();
    let mut dst = [0u8; 16];
    dst[12..].copy_from_slice(&[10, 1, 233, 195]);
    assert_eq!(route_packet(&reg, &ipv6_packet(dst)), Route::Drop(DropReason::Unregistered));
}

#[test]
fn route_of_given_address_bytes() {
    let mut reg = registry();
    let link = id("aaaaaaaaaaaaaaaaaaaaaaaaaaaaaaaa");
    assert_eq!(route_parsed(&reg, &None), Route::Drop(DropReason::Unparsed));
    assert_eq!(route_parsed(&reg, &Some(vec![10, 1, 1, 2])), Route::Drop(DropReason::NoLink));
    assert_eq!(route_parsed(&reg, &Some(vec![10, 1, 1, 3])), Route::Drop(DropReason::Unregistered));
    assert_eq!(route_parsed(&reg, &Some(vec![0u8; 16])), Route::Drop(DropReason::Unregistered));
    reg.link_created(&id(PEER_B), link);
    assert_eq!(
        route_parsed(&reg, &Some(vec![10, 1, 1, 2])),
        Route::Forward { dest: id(PEER_B), link }
    );
}

#[test]
fn data_for_another_endpoint_is_ignored() {
    let mut reg = registry();
    let event = LinkEventData {
        id: id(PEER_B),
        address_hash: id(PEER_A),
        event: LinkEvent::Data(vec![1, 2, 3]),
    };
    assert_eq!(handle_link_event(&mut reg, &event), None);
}

#[test]
fn data_for_the_local_endpoint_is_handed_on_unchanged() {
    let mut reg = registry();
    let payload: Vec<u8> = vec![0x45, 0, 0, 20, 9, 8, 7];
    let event = LinkEventData {
        id: id(PEER_B),
        address_hash: id(LOCAL),
        event: LinkEvent::Data(payload.clone()),
    };
    assert_eq!(handle_link_event(&mut reg, &event), Some(&payload));
    assert_eq!(reg.entry(0).peer, Peer::new(id(PEER_A)));
    let empty = LinkEventData {
        id: id(PEER_B),
        address_hash: id(LOCAL),
        event: LinkEvent::Data(Vec::new()),
    };
    assert_eq!(handle_link_event(&mut reg, &empty), Some(&Vec::new()));
}

#[test]
fn link_events_reach_the_registry_only_when_local() {
    let mut reg = registry();
    let link = id("aaaaaaaaaaaaaaaaaaaaaaaaaaaaaaaa");
    reg.link_created(&id(PEER_A), link);
    let foreign =
        LinkEventData { id: link, address_hash: id(PEER_B), event: LinkEvent::Activated };
    assert_eq!(handle_link_event(&mut reg, &foreign), None);
    assert_eq!(reg.entry(0).peer.state(), LinkState::Pending);
    let local = LinkEventData { id: link, address_hash: id(LOCAL), event: LinkEvent::Activated };
    assert_eq!(handle_link_event(&mut reg, &local), None);
    assert_eq!(reg.entry(0).peer.state(), LinkState::Active);
    let foreign_close =
        LinkEventData { id: link, address_hash: id(PEER_B), event: LinkEvent::Closed };
    assert_eq!(handle_link_event(&mut reg, &foreign_close), None);
    assert_eq!(reg.entry(0).peer.state(), LinkState::Active);
    let close = LinkEventData { id: link, address_hash: id(LOCAL), event: LinkEvent::Closed };
    assert_eq!(handle_link_event(&mut reg, &close), None);
    assert_eq!(reg.entry(0).peer.state(), LinkState::NoLink);
    assert_eq!(reg.entry(1).peer.state(), LinkState::NoLink);
}

#[test]
fn anomalies_are_handled_by_kind() {
    assert_eq!(handling(Anomaly::Configuration), Handling::FatalAtStartup);
    assert_eq!(handling(Anomaly::Device), Handling::FatalAtStartup);
    assert_eq!(handling(Anomaly::RuntimeIo), Handling::FatalToLoop);
    assert_eq!(handling(Anomaly::RoutingMiss), Handling::Recovered);
    assert_eq!(handling(Anomaly::Parse), Handling::Recovered);
    assert_eq!(handling(Anomaly::LaggedStream), Handling::Recovered);
    assert!(!loop_continues(Anomaly::Configuration));
    assert!(!loop_continues(Anomaly::Device));
    assert!(!loop_continues(Anomaly::RuntimeIo));
    assert!(loop_continues(Anomaly::RoutingMiss));
    assert!(loop_continues(Anomaly::Parse));
    assert!(loop_continues(Anomaly::LaggedStream));
}

#[test]
fn dropped_packets_keep_the_loop_alive() {
    assert_eq!(drop_anomaly(DropReason::Unparsed), Anomaly::Parse);
    assert_eq!(drop_anomaly(DropReason::Unregistered), Anomaly::RoutingMiss);
    assert_eq!(drop_anomaly(DropReason::NoLink), Anomaly::RoutingMiss);
    for reason in [DropReason::Unparsed, DropReason::Unregistered, DropReason::NoLink] {
        assert!(loop_continues(drop_anomaly(reason)));
    }
}

#[test]
fn configuration_builds_its_registry() {
    let config = rns_vpn::config::Config::new(net16(), texts(&[PEER_A, PEER_B]));
    assert_eq!(config.announce_freq_secs, 1);
    assert_eq!(config.network, net16());
    let reg = config.registry(id(LOCAL)).unwrap();
    assert_eq!(reg.len(), 2);
    assert_eq!(reg.entry(1).ip, ip(10, 1, 1, 2));
    let bad = rns_vpn::config::Config::new(net16(), texts(&[PEER_A, "zz"]));
    assert_eq!(
        bad.registry(id(LOCAL)).err(),
        Some(ConfigError::MalformedPeer { index: 1, text: "zz".to_string() })
    );
}
