use batman_robin::commands::ap_isolation::{
    ap_isolation_missing, ap_isolation_of_message, ap_isolation_of_reply, get_ap_isolation_request,
    set_ap_isolation_request,
};
use batman_robin::commands::dump::dump_step;
use batman_robin::commands::gw_mode::{gateway_info_from_reply, get_gateway_request, set_gateway_request};
use batman_robin::commands::interface::{
    count_enslaved, count_interfaces_request, get_interfaces_request, hardif_lookup_indices,
    hardif_of_entry, interface_entry, interfaces_of_dump, set_interface_request,
};
use batman_robin::commands::mesh::{
    checked_mesh_of_link, create_mesh_request, delete_mesh_request, list_meshes_request, mesh_of_link,
    meshes_of_links,
};
use batman_robin::commands::originators::{
    get_originators_request, originator_from_attrs, originator_lookup_indices, originator_outgoing,
    originators_of_dump, outgoing_if_name, OutgoingIf,
};
use batman_robin::netlink::{
    attr_string, link_request_attrs, nested_attrs, LinkAttr, LinkAttrValue, AttrValueForSend, Attribute, ByteOrder, Command, GenlMessage, GenlPayload,
    LinkOp, NlAttr, IFLA_IFNAME, IFLA_INFO_KIND, IFLA_LINKINFO, IFLA_MASTER, NLMSG_DONE, NLMSG_ERROR,
};
use batman_robin::{Error, GwMode, Interface};

fn attr(kind: u16, payload: &[u8]) -> NlAttr {
    NlAttr { kind, payload: payload.to_vec() }
}

fn msg(attrs: Vec<NlAttr>) -> GenlMessage {
    GenlMessage { nl_type: 30, payload: GenlPayload::Attrs(attrs) }
}

#[test]
fn ap_isolation_requests_and_reply() {
    let r = get_ap_isolation_request(4);
    assert_eq!(r.command, Command::BatadvCmdGetMeshInfo);
    assert!(!r.dump && !r.ack);
    assert_eq!(r.attrs, vec![(Attribute::BatadvAttrMeshIfindex, AttrValueForSend::U32(4))]);
    let r = set_ap_isolation_request(4, true);
    assert_eq!(r.command, Command::BatadvCmdSetMesh);
    assert!(r.ack);
    assert_eq!(r.attrs[1], (Attribute::BatadvAttrApIsolationEnabled, AttrValueForSend::U8(1)));
    assert_eq!(set_ap_isolation_request(4, false).attrs[1].1, AttrValueForSend::U8(0));

    let m = msg(vec![attr(3, &[4, 0, 0, 0]), attr(42, &[]), attr(42, &[7])]);
    assert_eq!(ap_isolation_of_message(&m), Some(true));
    let m = msg(vec![attr(42, &[0])]);
    assert_eq!(ap_isolation_of_message(&m), Some(false));
    let m = msg(vec![attr(41, &[1])]);
    assert_eq!(ap_isolation_of_message(&m), None);
    let m = GenlMessage { nl_type: NLMSG_ERROR, payload: GenlPayload::Error(0) };
    assert_eq!(ap_isolation_of_message(&m), None);
    assert_eq!(ap_isolation_missing().message(), "Error - AP isolation attribute not found");
}

#[test]
fn gateway_mode_requests() {
    let r = get_gateway_request(2);
    assert_eq!(r.command, Command::BatadvCmdGetMeshInfo);
    let r = set_gateway_request(GwMode::Server, None, Some(5000), None, 2).unwrap();
    assert_eq!(r.command, Command::BatadvCmdSetMesh);
    assert!(r.ack);
    assert_eq!(
        r.attrs,
        vec![
            (Attribute::BatadvAttrMeshIfindex, AttrValueForSend::U32(2)),
            (Attribute::BatadvAttrGwMode, AttrValueForSend::U8(2)),
            (Attribute::BatadvAttrGwBandwidthDown, AttrValueForSend::U32(100)),
            (Attribute::BatadvAttrGwBandwidthUp, AttrValueForSend::U32(50)),
            (Attribute::BatadvAttrGwSelClass, AttrValueForSend::U32(0)),
        ]
    );
    let r = set_gateway_request(GwMode::Client, Some(1), Some(1), Some(20), 2).unwrap();
    assert_eq!(r.attrs.len(), 2);
    assert_eq!(r.attrs[1], (Attribute::BatadvAttrGwMode, AttrValueForSend::U8(1)));
    let r = set_gateway_request(GwMode::Off, None, None, None, 2).unwrap();
    assert_eq!(r.attrs[1], (Attribute::BatadvAttrGwMode, AttrValueForSend::U8(0)));
    let e = set_gateway_request(GwMode::Unknown, None, None, None, 2).err().unwrap();
    assert_eq!(e.message(), "Cannot set unknown gateway mode");
}

#[test]
fn gateway_info_decoding() {
    let m = msg(vec![
        attr(51, &[1]),
        attr(52, &[20, 0, 0, 0]),
        attr(49, &[0x10, 0x27, 0, 0]),
        attr(50, &[0, 0, 0x07, 0xd0]),
        attr(2, b"BATMAN_IV\0\0\0"),
    ]);
    let g = gateway_info_from_reply(Some(&m), ByteOrder::Little).unwrap();
    assert_eq!(g.mode, GwMode::Client);
    assert_eq!(g.sel_class, 20);
    assert_eq!(g.bandwidth_down, 10000);
    assert_eq!(g.bandwidth_up, 0xd0070000);
    assert_eq!(g.algo, "BATMAN_IV");
    let g = gateway_info_from_reply(Some(&m), ByteOrder::Big).unwrap();
    assert_eq!(g.bandwidth_up, 2000);
    assert_eq!(g.sel_class, 20 << 24);

    let m2 = msg(vec![attr(51, &[9]), attr(52, &[1, 0, 0, 0]), attr(49, &[1, 0, 0, 0]), attr(50, &[1, 0, 0, 0]), attr(2, b"BATMAN_V")]);
    let g = gateway_info_from_reply(Some(&m2), ByteOrder::Little).unwrap();
    assert_eq!(g.mode, GwMode::Unknown);
    assert_eq!(g.algo, "BATMAN_V");

    let e = gateway_info_from_reply(None, ByteOrder::Little).err().unwrap();
    assert_eq!(e.message(), "Error - no response from kernel");
    let e = gateway_info_from_reply(Some(&GenlMessage { nl_type: 2, payload: GenlPayload::Other }), ByteOrder::Little)
        .err()
        .unwrap();
    assert_eq!(e.message(), "Error - message has no payload");
    let short = msg(vec![attr(52, &[1, 0, 0])]);
    let e = gateway_info_from_reply(Some(&short), ByteOrder::Little).err().unwrap();
    assert_eq!(e.message(), "Error - gateway selection class missing");
    let no_up = msg(vec![attr(52, &[1, 0, 0, 0]), attr(49, &[1, 0, 0, 0])]);
    let e = gateway_info_from_reply(Some(&no_up), ByteOrder::Little).err().unwrap();
    assert_eq!(e.message(), "Error - gateway upstream bandwidth missing");
    let no_algo = msg(vec![attr(52, &[1, 0, 0, 0]), attr(49, &[1, 0, 0, 0]), attr(50, &[1, 0, 0, 0])]);
    let e = gateway_info_from_reply(Some(&no_algo), ByteOrder::Little).err().unwrap();
    assert_eq!(e.message(), "Error - routing algorithm name missing");
}

#[test]
fn dump_steps() {
    let done = GenlMessage { nl_type: NLMSG_DONE, payload: GenlPayload::Other };
    assert!(matches!(dump_step(&done, "x"), Ok(None)));
    let ok = GenlMessage { nl_type: NLMSG_ERROR, payload: GenlPayload::Error(0) };
    assert!(matches!(dump_step(&ok, "x"), Ok(None)));
    let err = GenlMessage { nl_type: NLMSG_ERROR, payload: GenlPayload::Error(-95) };
    assert_eq!(dump_step(&err, "x").err().unwrap().message(), "Netlink error -95");
    let odd = GenlMessage { nl_type: NLMSG_ERROR, payload: GenlPayload::Other };
    assert_eq!(dump_step(&odd, "x").err().unwrap().message(), "Unknown netlink error payload");
    let empty = GenlMessage { nl_type: 28, payload: GenlPayload::Other };
    assert_eq!(dump_step(&empty, "Message without payload").err().unwrap().message(), "Message without payload");
    let entry = msg(vec![attr(6, &[1, 0, 0, 0])]);
    assert_eq!(dump_step(&entry, "x").unwrap().unwrap().len(), 1);
}

#[test]
fn interface_requests_and_entries() {
    let r = count_interfaces_request();
    assert_eq!(r.op, LinkOp::Getlink);
    assert!(r.flags.dump && r.flags.ack && !r.flags.request);
    let links = vec![
        Some(vec![attr(IFLA_MASTER, &[5, 0, 0, 0])]),
        Some(vec![attr(3, b"eth0\0"), attr(IFLA_MASTER, &[6, 0, 0, 0])]),
        None,
        Some(vec![attr(IFLA_MASTER, &[5, 0, 0, 0])]),
        Some(vec![attr(IFLA_MASTER, &[5, 0])]),
    ];
    assert_eq!(count_enslaved(&links, 5, ByteOrder::Little), 2);
    assert_eq!(count_enslaved(&links, 6, ByteOrder::Little), 1);
    assert_eq!(count_enslaved(&links, 5 << 24, ByteOrder::Big), 2);

    let r = get_interfaces_request(3);
    assert_eq!(r.command, Command::BatadvCmdGetHardif);
    assert!(r.dump);
    assert_eq!(hardif_of_entry(&[attr(6, &[9, 0, 0, 0]), attr(15, &[])], ByteOrder::Little).unwrap(), (9, true));
    assert_eq!(hardif_of_entry(&[attr(6, &[9, 0, 0, 0])], ByteOrder::Little).unwrap(), (9, false));
    let e = hardif_of_entry(&[attr(15, &[])], ByteOrder::Little).err().unwrap();
    assert_eq!(e.message(), "Error - missing HARD_IFINDEX");
    let i = interface_entry(9, true, Some("wlan0".to_string())).unwrap();
    assert_eq!(i.ifname, "wlan0");
    assert!(i.active);
    let e = interface_entry(9, true, None).err().unwrap();
    assert_eq!(e.message(), "Error - failed to resolve interface index 9");

    let r = set_interface_request(7, Some(3));
    assert_eq!(r.op, LinkOp::Setlink);
    assert_eq!(r.index, 7);
    assert_eq!(r.master, Some(3));
    assert!(r.flags.request && r.flags.ack);
    assert_eq!(set_interface_request(7, None).master, Some(0));
    assert_eq!(set_interface_request(u32::MAX, None).index, -1);
}

#[test]
fn mesh_requests() {
    let r = create_mesh_request("bat0", Some("BATMAN_V"));
    assert_eq!(r.op, LinkOp::Newlink);
    assert!(r.flags.request && r.flags.create && r.flags.excl && r.flags.ack && !r.flags.dump);
    assert_eq!(r.ifname.as_deref(), Some("bat0"));
    let li = r.link_info.unwrap();
    assert_eq!(li.kind, "batadv");
    assert_eq!(li.algo_name.as_deref(), Some("BATMAN_V"));
    assert_eq!(create_mesh_request("bat1", None).link_info.unwrap().algo_name, None);
    let r = delete_mesh_request(8);
    assert_eq!(r.op, LinkOp::Dellink);
    assert_eq!(r.index, 8);
    assert!(list_meshes_request().flags.dump);
}

/// A nested rtnetlink attribute in host byte order, padded to four bytes.
fn rtattr_bytes(kind: u16, payload: &[u8]) -> Vec<u8> {
    let len = (4 + payload.len()) as u16;
    let mut v = Vec::new();
    v.extend_from_slice(&len.to_ne_bytes());
    v.extend_from_slice(&kind.to_ne_bytes());
    v.extend_from_slice(payload);
    while v.len() % 4 != 0 {
        v.push(0);
    }
    v
}

fn link(name: Option<&[u8]>, kind: Option<&[u8]>) -> Vec<NlAttr> {
    let mut attrs = vec![attr(4, &1500u32.to_ne_bytes())];
    if let Some(n) = name {
        attrs.push(attr(IFLA_IFNAME, n));
    }
    if let Some(k) = kind {
        let mut info = rtattr_bytes(IFLA_INFO_KIND, k);
        info.extend(rtattr_bytes(2, &[0u8; 8]));
        attrs.push(attr(IFLA_LINKINFO, &info));
    }
    attrs
}

#[test]
fn mesh_list_entries() {
    let bat0 = Interface { ifname: "bat0".to_string(), active: true };
    assert_eq!(mesh_of_link(&link(Some(b"bat0\0"), Some(b"batadv\0"))), Some(bat0.clone()));
    assert_eq!(mesh_of_link(&link(Some(b"br0\0"), Some(b"bridge\0"))), None);
    assert_eq!(mesh_of_link(&link(None, Some(b"batadv\0"))), None);
    assert_eq!(mesh_of_link(&link(Some(b"lo\0"), None)), None);
    // A name that is not UTF-8 is skipped.
    assert_eq!(mesh_of_link(&link(Some(b"\xffa\0"), Some(b"batadv\0"))), None);
    // Link information that does not parse is skipped.
    let mut broken = link(Some(b"bat1\0"), None);
    broken.push(attr(IFLA_LINKINFO, &[200, 0, 1, 0, b'b']));
    assert_eq!(mesh_of_link(&broken), None);
    assert_eq!(checked_mesh_of_link(&link(Some(b"bat0\0"), Some(b"batadv\0"))), Some(Some(bat0)));
    assert_eq!(checked_mesh_of_link(&link(Some(b"br0\0"), Some(b"bridge\0"))), Some(None));
    assert_eq!(checked_mesh_of_link(&link(Some(b""), Some(b"batadv\0"))), None);
    assert_eq!(checked_mesh_of_link(&link(Some(b"bat0\0"), Some(b""))), None);
    // With no readable name the kind is never read.
    assert_eq!(checked_mesh_of_link(&link(None, Some(b""))), Some(None));
}

#[test]
fn string_and_nested_attributes() {
    let attrs = vec![attr(3, b"wlan0\0"), attr(5, b"x\0"), attr(3, b"other\0")];
    assert_eq!(attr_string(&attrs, 3), Some("wlan0".to_string()));
    assert_eq!(attr_string(&attrs, 5), Some("x".to_string()));
    assert_eq!(attr_string(&attrs, 9), None);
    assert_eq!(attr_string(&[attr(3, &[0xc3, 0x28, 0])], 3), None);
    let mut payload = rtattr_bytes(1, b"batadv\0");
    payload.extend(rtattr_bytes(7, &[9, 8, 7, 6]));
    let nested = nested_attrs(&[attr(18, &payload)], 18).unwrap();
    assert_eq!(nested, vec![attr(1, b"batadv\0"), attr(7, &[9, 8, 7, 6])]);
    assert_eq!(nested_attrs(&[attr(18, &[8, 0, 1])], 18), None);
    assert_eq!(nested_attrs(&[attr(18, &payload)], 17), None);
    assert_eq!(nested_attrs(&[attr(18, &[])], 18), Some(vec![]));
}

#[test]
fn originator_entries() {
    let r = get_originators_request(4);
    assert_eq!(r.command, Command::BatadvCmdGetOriginators);
    assert!(r.dump);
    let mut name = [0u8; 16];
    name[..5].copy_from_slice(b"wlan0");
    let attrs = vec![
        attr(9, &[1, 2, 3, 4, 5, 6]),
        attr(24, &[0xaa, 0xbb, 0xcc, 0xdd, 0xee, 0xff]),
        attr(7, &name),
        attr(23, &[0xe8, 0x03, 0, 0]),
        attr(25, &[200]),
        attr(22, &[]),
    ];
    let out = originator_outgoing(&attrs, ByteOrder::Little).unwrap();
    let n = outgoing_if_name(out, None).unwrap();
    assert_eq!(n, "wlan0");
    let o = originator_from_attrs(&attrs, n, ByteOrder::Little).unwrap();
    assert_eq!(o.originator.to_text(), "01:02:03:04:05:06");
    assert_eq!(o.next_hop.to_text(), "AA:BB:CC:DD:EE:FF");
    assert_eq!(o.last_seen_ms, 1000);
    assert_eq!(o.tq, Some(200));
    assert_eq!(o.throughput, None);
    assert!(o.is_best);

    let by_index = vec![
        attr(9, &[1, 2, 3, 4, 5, 6]),
        attr(24, &[1, 2, 3, 4, 5, 6]),
        attr(7, b"wlan0\0"),
        attr(6, &[3, 0, 0, 0]),
    ];
    match originator_outgoing(&by_index, ByteOrder::Little).unwrap() {
        OutgoingIf::Index(3) => {}
        _ => panic!("index expected"),
    }
    let e = outgoing_if_name(OutgoingIf::Index(3), None).err().unwrap();
    assert_eq!(e.message(), "Failed to resolve ifindex 3 -> name");
    assert_eq!(outgoing_if_name(OutgoingIf::Index(3), Some("eth1".to_string())).unwrap(), "eth1");
    let e = originator_from_attrs(&by_index, "eth1".to_string(), ByteOrder::Little).err().unwrap();
    assert_eq!(e.message(), "Missing LAST_SEEN_MSECS");
    let e = originator_outgoing(&[attr(9, &[1, 2, 3, 4, 5])], ByteOrder::Little).err().unwrap();
    assert_eq!(e.message(), "Missing ORIG_ADDRESS");
    let e = originator_outgoing(&[attr(9, &[1, 2, 3, 4, 5, 6])], ByteOrder::Little).err().unwrap();
    assert_eq!(e.message(), "Missing NEIGH_ADDRESS");
    let e = originator_outgoing(&by_index[..3], ByteOrder::Little).err().unwrap();
    assert_eq!(e.message(), "Missing HARD_IFINDEX");
}

fn done() -> GenlMessage {
    GenlMessage { nl_type: NLMSG_DONE, payload: GenlPayload::Other }
}

fn read_failure(text: &str) -> Result<GenlMessage, Error> {
    Err(Error::Netlink(text.to_string()))
}

#[test]
fn ap_isolation_whole_reply() {
    let on = msg(vec![attr(42, &[1])]);
    let off = msg(vec![attr(42, &[0])]);
    let none = msg(vec![attr(3, &[4, 0, 0, 0])]);
    assert_eq!(ap_isolation_of_reply(&[Ok(none.clone()), Ok(on.clone()), Ok(off.clone())]).unwrap(), true);
    assert_eq!(ap_isolation_of_reply(&[Ok(off), read_failure("x")]).unwrap(), false);
    let e = ap_isolation_of_reply(&[Ok(none.clone())]).err().unwrap();
    assert!(matches!(e, Error::NotFound(_)));
    assert_eq!(e.message(), "Error - AP isolation attribute not found");
    let e = ap_isolation_of_reply(&[]).err().unwrap();
    assert!(matches!(e, Error::NotFound(_)));
    let e = ap_isolation_of_reply(&[Ok(none), read_failure("Error - failed to parse netlink response"), Ok(on)])
        .err()
        .unwrap();
    assert!(matches!(e, Error::Netlink(_)));
    assert_eq!(e.message(), "Error - failed to parse netlink response");
}

fn hardif(index: u8, active: bool) -> GenlMessage {
    let mut attrs = vec![attr(6, &[index, 0, 0, 0])];
    if active {
        attrs.push(attr(15, &[]));
    }
    msg(attrs)
}

#[test]
fn interface_whole_dump() {
    let replies = vec![Ok(hardif(3, true)), Ok(hardif(5, false)), Ok(done()), Ok(hardif(9, true))];
    assert_eq!(hardif_lookup_indices(&replies, ByteOrder::Little), vec![3, 5]);
    let names = vec![(5, Some("wlan1".to_string())), (3, Some("eth0".to_string()))];
    assert_eq!(
        interfaces_of_dump(&replies, &names, ByteOrder::Little).unwrap(),
        vec![
            Interface { ifname: "eth0".to_string(), active: true },
            Interface { ifname: "wlan1".to_string(), active: false }
        ]
    );
    let e = interfaces_of_dump(&replies, &[(3, Some("eth0".to_string())), (5, None)], ByteOrder::Little)
        .err()
        .unwrap();
    assert_eq!(e.message(), "Error - failed to resolve interface index 5");
    let failing = vec![
        Ok(hardif(3, true)),
        Ok(GenlMessage { nl_type: NLMSG_ERROR, payload: GenlPayload::Error(-95) }),
    ];
    assert_eq!(hardif_lookup_indices(&failing, ByteOrder::Little), vec![3]);
    let e = interfaces_of_dump(&failing, &names, ByteOrder::Little).err().unwrap();
    assert_eq!(e.message(), "Netlink error -95");
    let ended = vec![Ok(hardif(3, true)), Ok(GenlMessage { nl_type: NLMSG_ERROR, payload: GenlPayload::Error(0) })];
    assert_eq!(interfaces_of_dump(&ended, &names, ByteOrder::Little).unwrap().len(), 1);
    let broken = vec![Ok(hardif(3, true)), Ok(msg(vec![attr(15, &[])])), read_failure("y")];
    assert_eq!(hardif_lookup_indices(&broken, ByteOrder::Little), vec![3]);
    let e = interfaces_of_dump(&broken, &names, ByteOrder::Little).err().unwrap();
    assert_eq!(e.message(), "Error - missing HARD_IFINDEX");
    let unread = vec![Ok(hardif(3, true)), read_failure("Error - failed to parse netlink message")];
    let e = interfaces_of_dump(&unread, &names, ByteOrder::Little).err().unwrap();
    assert_eq!(e.message(), "Error - failed to parse netlink message");
    let no_payload = vec![Ok(GenlMessage { nl_type: 30, payload: GenlPayload::Other })];
    let e = interfaces_of_dump(&no_payload, &names, ByteOrder::Little).err().unwrap();
    assert!(matches!(e, Error::Argument(_)));
    assert_eq!(e.message(), "Error - message has no payload");
    assert_eq!(interfaces_of_dump(&[], &[], ByteOrder::Little).unwrap(), vec![]);
}

fn originator_msg(last: u8, out: NlAttr) -> GenlMessage {
    msg(vec![
        attr(9, &[1, 2, 3, 4, 5, last]),
        attr(24, &[6, 5, 4, 3, 2, 1]),
        out,
        attr(23, &[10, 0, 0, 0]),
        attr(26, &[0, 1, 0, 0]),
    ])
}

#[test]
fn originator_whole_dump() {
    let mut name = [0u8; 16];
    name[..4].copy_from_slice(b"eth7");
    let replies = vec![
        Ok(originator_msg(1, attr(7, &name))),
        Ok(originator_msg(2, attr(6, &[4, 0, 0, 0]))),
        Ok(done()),
    ];
    assert_eq!(originator_lookup_indices(&replies, ByteOrder::Little), vec![4]);
    let names = vec![(4, Some("wlan0".to_string()))];
    let v = originators_of_dump(&replies, &names, ByteOrder::Little).unwrap();
    assert_eq!(v.len(), 2);
    assert_eq!(v[0].outgoing_if, "eth7");
    assert_eq!(v[0].originator.to_text(), "01:02:03:04:05:01");
    assert_eq!(v[1].outgoing_if, "wlan0");
    assert_eq!(v[1].next_hop.to_text(), "06:05:04:03:02:01");
    assert_eq!(v[1].last_seen_ms, 10);
    assert_eq!(v[1].throughput, Some(256));
    assert_eq!(v[1].tq, None);
    assert!(!v[1].is_best);
    let e = originators_of_dump(&replies, &[(4, None)], ByteOrder::Little).err().unwrap();
    assert_eq!(e.message(), "Failed to resolve ifindex 4 -> name");
    let bad = vec![Ok(originator_msg(1, attr(7, &name))), Ok(msg(vec![attr(9, &[1, 2, 3, 4, 5, 6])]))];
    assert_eq!(originator_lookup_indices(&bad, ByteOrder::Little), Vec::<u32>::new());
    let e = originators_of_dump(&bad, &names, ByteOrder::Little).err().unwrap();
    assert_eq!(e.message(), "Missing NEIGH_ADDRESS");
    let no_payload = vec![Ok(GenlMessage { nl_type: 30, payload: GenlPayload::Other })];
    let e = originators_of_dump(&no_payload, &names, ByteOrder::Little).err().unwrap();
    assert_eq!(e.message(), "Message without payload");
}

#[test]
fn mesh_list_of_whole_dump() {
    let links = vec![
        link(Some(b"bat0\0"), Some(b"batadv\0")),
        link(Some(b"eth0\0"), Some(b"veth\0")),
        link(Some(b"lo\0"), None),
        link(Some(b"bat1\0"), Some(b"batadv\0")),
    ];
    assert_eq!(
        meshes_of_links(&links),
        Some(vec![
            Interface { ifname: "bat0".to_string(), active: true },
            Interface { ifname: "bat1".to_string(), active: true }
        ])
    );
    assert_eq!(meshes_of_links(&[]), Some(vec![]));
    let mut bad = links.clone();
    bad.push(link(Some(b"bat2\0"), Some(b"")));
    assert_eq!(meshes_of_links(&bad), None);
}

fn text(kind: u16, s: &str) -> LinkAttr {
    LinkAttr { kind, value: LinkAttrValue::Text(s.to_string()) }
}

#[test]
fn link_request_attribute_trees() {
    let attrs = link_request_attrs(&create_mesh_request("bat0", Some("BATMAN_V")));
    assert_eq!(
        attrs,
        vec![
            text(3, "bat0"),
            LinkAttr {
                kind: 18,
                value: LinkAttrValue::Nested(vec![
                    text(1, "batadv"),
                    LinkAttr { kind: 2, value: LinkAttrValue::Nested(vec![text(1, "BATMAN_V")]) },
                ]),
            },
        ]
    );
    let attrs = link_request_attrs(&create_mesh_request("bat1", None));
    assert_eq!(
        attrs[1],
        LinkAttr {
            kind: 18,
            value: LinkAttrValue::Nested(vec![text(1, "batadv"), LinkAttr { kind: 2, value: LinkAttrValue::Nested(vec![]) }]),
        }
    );
    let attrs = link_request_attrs(&set_interface_request(5, Some(7)));
    assert_eq!(attrs, vec![LinkAttr { kind: 10, value: LinkAttrValue::U32(7) }]);
    assert!(link_request_attrs(&delete_mesh_request(8)).is_empty());
}
