use vor_router::filter::{AddressList, FilterRules, PacketFilter, Verdict};
use vor_router::OscDatagram;

const BUF_LEN: usize = 1536;

fn message_bytes(addr: &str) -> Vec<u8> {
    let packet = rosc::OscPacket::Message(rosc::OscMessage {
        addr: addr.to_string(),
        args: vec![rosc::OscType::Int(7)],
    });
    rosc::encoder::encode(&packet).unwrap()
}

fn bundle_bytes() -> Vec<u8> {
    let packet = rosc::OscPacket::Bundle(rosc::OscBundle {
        timetag: rosc::OscTime { seconds: 0, fractional: 1 },
        content: vec![],
    });
    rosc::encoder::encode(&packet).unwrap()
}

/// A receive buffer as the router fills it: the datagram, then zeros.
fn padded(bytes: &[u8]) -> Vec<u8> {
    let mut buf = vec![0u8; BUF_LEN];
    buf[..bytes.len()].copy_from_slice(bytes);
    buf
}

fn bad_buffer() -> Vec<u8> {
    padded(b"not osc\0")
}

fn entries(names: &[&str]) -> Vec<(String, bool)> {
    names.iter().map(|n| (n.to_string(), false)).collect()
}

fn filter(enabled: bool, filter_bad: bool, wl: Option<&[&str]>, bl: Option<&[&str]>) -> PacketFilter {
    PacketFilter {
        enabled,
        filter_bad_packets: filter_bad,
        wl_enabled: wl.is_some(),
        address_wl: entries(wl.unwrap_or(&[])),
        bl_enabled: bl.is_some(),
        address_bl: entries(bl.unwrap_or(&[])),
    }
}

fn forwards(pf: &PacketFilter, buf: &[u8]) -> Option<Vec<u8>> {
    FilterRules::new(pf).route_datagram(buf, false).forward
}

#[test]
fn disabled_filter_forwards_whole_buffer() {
    let pf = filter(false, true, Some(&["/other"]), None);
    let buf = padded(&message_bytes("/avatar/x"));
    let r = FilterRules::new(&pf).route_datagram(&buf, true);
    assert_eq!(r.forward, Some(buf.clone()));
    let d = r.debug.expect("a debug record");
    assert_eq!(d.verdict, Verdict::Allowed);
    assert!(d.packet.is_some());
}

#[test]
fn disabled_filter_forwards_bad_packet_without_decoded_packet() {
    let pf = filter(false, true, None, None);
    let buf = bad_buffer();
    let r = FilterRules::new(&pf).route_datagram(&buf, true);
    assert_eq!(r.forward, Some(buf.clone()));
    let d = r.debug.unwrap();
    assert_eq!(d.verdict, Verdict::Allowed);
    assert!(d.packet.is_none());
}

#[test]
fn no_debug_record_without_debug_view() {
    let pf = filter(true, true, Some(&["/a"]), None);
    let buf = padded(&message_bytes("/b"));
    let r = FilterRules::new(&pf).route_datagram(&buf, false);
    assert!(r.forward.is_none());
    assert!(r.debug.is_none());
}

#[test]
fn whitelist_passes_listed_message_reencoded() {
    let msg = message_bytes("/avatar/parameters/A");
    let pf = filter(true, false, Some(&["/avatar/parameters/A"]), None);
    let r = FilterRules::new(&pf).route_datagram(&padded(&msg), true);
    assert_eq!(r.forward, Some(msg.clone()));
    assert!(msg.len() < BUF_LEN);
    let d = r.debug.unwrap();
    assert_eq!(d.verdict, Verdict::Allowed);
    assert!(d.packet.is_some());
}

#[test]
fn whitelist_drops_unlisted_message() {
    let pf = filter(true, false, Some(&["/avatar/parameters/A"]), None);
    let r = FilterRules::new(&pf).route_datagram(&padded(&message_bytes("/avatar/parameters/B")), true);
    assert!(r.forward.is_none());
    let d = r.debug.unwrap();
    assert_eq!(d.verdict, Verdict::Dropped);
    assert!(d.packet.is_some());
}

#[test]
fn list_mode_ignores_bundles() {
    for pf in [filter(true, true, Some(&["/a"]), None), filter(true, false, None, Some(&["/a"]))] {
        let r = FilterRules::new(&pf).route_datagram(&padded(&bundle_bytes()), true);
        assert!(r.forward.is_none());
        assert!(r.debug.is_none());
    }
}

#[test]
fn list_mode_bad_packet_passes_raw_unless_filtered() {
    let buf = bad_buffer();
    let open = filter(true, false, Some(&["/a"]), None);
    let r = FilterRules::new(&open).route_datagram(&buf, true);
    assert_eq!(r.forward, Some(buf.clone()));
    assert_eq!(r.debug.as_ref().unwrap().verdict, Verdict::Allowed);
    assert!(r.debug.unwrap().packet.is_none());

    let strict = filter(true, true, None, Some(&["/a"]));
    let r = FilterRules::new(&strict).route_datagram(&buf, true);
    assert!(r.forward.is_none());
    assert_eq!(r.debug.as_ref().unwrap().verdict, Verdict::Dropped);
    assert!(r.debug.unwrap().packet.is_none());
}

#[test]
fn blacklist_drops_listed_and_passes_others() {
    let pf = filter(true, false, None, Some(&["/blocked"]));
    let blocked = message_bytes("/blocked");
    let other = message_bytes("/open");
    assert!(forwards(&pf, &padded(&blocked)).is_none());
    assert_eq!(forwards(&pf, &padded(&other)), Some(other));
}

#[test]
fn whitelist_overrides_blacklist() {
    let msg = message_bytes("/both");
    let with_bl = filter(true, false, Some(&["/both"]), Some(&["/both"]));
    let without_bl = filter(true, false, Some(&["/both"]), None);
    assert_eq!(forwards(&with_bl, &padded(&msg)), Some(msg.clone()));
    assert_eq!(forwards(&without_bl, &padded(&msg)), Some(msg));
}

#[test]
fn no_list_filter_bad_reencodes_good_and_drops_bad() {
    let pf = filter(true, true, None, None);
    let msg = message_bytes("/x");
    assert_eq!(forwards(&pf, &padded(&msg)), Some(msg));
    let bundle = bundle_bytes();
    assert_eq!(forwards(&pf, &padded(&bundle)), Some(bundle));
    let r = FilterRules::new(&pf).route_datagram(&bad_buffer(), true);
    assert!(r.forward.is_none());
    assert_eq!(r.debug.unwrap().verdict, Verdict::Dropped);
}

#[test]
fn no_list_no_filter_forwards_raw() {
    let pf = filter(true, false, None, None);
    let buf = padded(&message_bytes("/x"));
    assert_eq!(forwards(&pf, &buf), Some(buf.clone()));
    let bad = bad_buffer();
    assert_eq!(forwards(&pf, &bad), Some(bad.clone()));
}

#[test]
fn entry_flags_play_no_part() {
    let msg = padded(&message_bytes("/flagged"));
    let mut a = filter(true, false, Some(&["/flagged"]), None);
    let mut b = a.clone();
    a.address_wl[0].1 = true;
    b.address_wl[0].1 = false;
    assert_eq!(forwards(&a, &msg), forwards(&b, &msg));
    assert!(forwards(&a, &msg).is_some());
}

#[test]
fn whitelist_and_blacklist_of_same_addresses_are_complementary() {
    let list: &[&str] = &["/one", "/two"];
    let wl = filter(true, false, Some(list), None);
    let bl = filter(true, false, None, Some(list));
    for addr in ["/one", "/two", "/three"] {
        let buf = padded(&message_bytes(addr));
        assert_ne!(forwards(&wl, &buf).is_some(), forwards(&bl, &buf).is_some());
    }
}

#[test]
fn growing_the_whitelist_keeps_passing_and_growing_the_blacklist_keeps_blocking() {
    let buf = padded(&message_bytes("/kept"));
    let small = filter(true, false, Some(&["/kept"]), None);
    let large = filter(true, false, Some(&["/kept", "/more"]), None);
    assert!(forwards(&small, &buf).is_some());
    assert_eq!(forwards(&small, &buf), forwards(&large, &buf));

    let small_bl = filter(true, false, None, Some(&["/kept"]));
    let large_bl = filter(true, false, None, Some(&["/kept", "/more"]));
    assert!(forwards(&small_bl, &buf).is_none());
    assert!(forwards(&large_bl, &buf).is_none());
}

#[test]
fn datagram_decode_reports_address_and_reencodes_without_padding() {
    let msg = message_bytes("/avatar/parameters/VelocityX");
    let buf = padded(&msg);
    let d = OscDatagram::decode(&buf).expect("decodes");
    assert_eq!(d.address().map(|s| s.as_str()), Some("/avatar/parameters/VelocityX"));
    let bytes = d.reencode();
    assert_eq!(bytes, msg);
    assert_ne!(bytes, buf);
    match d.into_packet() {
        rosc::OscPacket::Message(m) => assert_eq!(m.args, vec![rosc::OscType::Int(7)]),
        rosc::OscPacket::Bundle(_) => panic!("a message was expected"),
    }
}

#[test]
fn datagram_decode_of_bundle_and_garbage() {
    let d = OscDatagram::decode(&padded(&bundle_bytes())).expect("decodes");
    assert!(d.address().is_none());
    assert!(OscDatagram::decode(&bad_buffer()).is_none());
    assert!(OscDatagram::decode(&[]).is_none());
}

#[test]
fn address_list_keeps_names_in_order() {
    let list = AddressList::from_entries(&vec![("/a".to_string(), true), ("/b".to_string(), false)]);
    assert!(list.contains(&"/a".to_string()));
    assert!(list.contains(&"/b".to_string()));
    assert!(!list.contains(&"/c".to_string()));
    assert!(!list.contains(&"/".to_string()));
}

#[test]
fn whitelists_with_same_addresses_decide_alike() {
    let a = filter(true, false, Some(&["/a", "/b"]), None);
    let b = filter(true, false, Some(&["/b", "/a", "/a"]), None);
    for addr in ["/a", "/b", "/c"] {
        let buf = padded(&message_bytes(addr));
        assert_eq!(forwards(&a, &buf), forwards(&b, &buf));
    }
}
