use batman_robin::cli::{
    create_routing_algo, empty_mesh_warning, enabled_label, gateway_event_header, gateway_event_row,
    gateway_table, parse_gw_mode_arg, parse_interface_action, InterfaceAction,
};
use batman_robin::{Gateway, GatewayEvent, GatewayEventAction, GwMode, MacAddress};

#[test]
fn event_listing_lines() {
    let (a, b) = gateway_event_header("bat0");
    assert_eq!(a, "Listening for gateway events on bat0. Press Ctrl+C to stop.");
    assert_eq!(b, format!("{:>12}  {:<7}  GATEWAY", "UNIX_TS", "ACTION"));
    let ev = GatewayEvent::new(1, GatewayEventAction::Add, Some(MacAddress::parse("60:09:c3:aa:bb:cc").unwrap()));
    assert_eq!(gateway_event_row(1700000000, &ev), "  1700000000  ADD  60:09:C3:AA:BB:CC");
    let ev = GatewayEvent::new(1, GatewayEventAction::Delete, None);
    assert_eq!(gateway_event_row(5, &ev), "           5  DELETE  none");
    let ev = GatewayEvent::new(1, GatewayEventAction::Change, None);
    assert_eq!(gateway_event_row(1234567890123, &ev), "1234567890123  CHANGE  none");
}

#[test]
fn command_line_arguments() {
    assert_eq!(parse_gw_mode_arg("off"), Some(GwMode::Off));
    assert_eq!(parse_gw_mode_arg("client"), Some(GwMode::Client));
    assert_eq!(parse_gw_mode_arg("server"), Some(GwMode::Server));
    assert_eq!(parse_gw_mode_arg("Server"), None);
    assert_eq!(parse_interface_action("D"), Some(InterfaceAction::Destroy));
    assert_eq!(parse_interface_action("create"), Some(InterfaceAction::Create));
    assert_eq!(parse_interface_action("a"), Some(InterfaceAction::Add));
    assert_eq!(parse_interface_action("del"), Some(InterfaceAction::Del));
    assert_eq!(parse_interface_action("remove"), None);
    assert_eq!(create_routing_algo(&[]), Ok(None));
    assert_eq!(create_routing_algo(&["ra".to_string(), "BATMAN_V".to_string()]), Ok(Some("BATMAN_V".to_string())));
    assert_eq!(create_routing_algo(&["routing_algo".to_string(), "BATMAN_IV".to_string()]), Ok(Some("BATMAN_IV".to_string())));
    assert_eq!(create_routing_algo(&["algo".to_string(), "BATMAN_IV".to_string()]), Err(()));
    assert_eq!(create_routing_algo(&["ra".to_string()]), Err(()));
    assert_eq!(enabled_label(true), "enabled");
    assert_eq!(enabled_label(false), "disabled");
    assert_eq!(
        empty_mesh_warning("bat0", false, InterfaceAction::Del, 2, 0),
        Some("Warning: bat0 has no interfaces and can be destroyed with: robctl meshif bat0 interface destroy".to_string())
    );
    assert_eq!(empty_mesh_warning("bat0", true, InterfaceAction::Del, 2, 0), None);
    assert_eq!(empty_mesh_warning("bat0", false, InterfaceAction::Add, 2, 0), None);
    assert_eq!(empty_mesh_warning("bat0", false, InterfaceAction::Del, 0, 0), None);
    assert_eq!(empty_mesh_warning("bat0", false, InterfaceAction::Del, 2, 1), None);
}

fn gw(best: bool) -> Gateway {
    Gateway {
        mac_addr: MacAddress::from_octets([0x02, 0, 0, 0, 0, 0x01]),
        router: MacAddress::from_octets([0x02, 0, 0, 0, 0, 0x0a]),
        outgoing_if: "wlan0".to_string(),
        tq: Some(255),
        throughput: None,
        bandwidth_down: Some(100),
        bandwidth_up: None,
        is_best: best,
    }
}

#[test]
fn gateway_tables() {
    assert!(gateway_table(&[gw(true)], "BATMAN_X").is_none());
    let t = gateway_table(&[gw(true), gw(false)], "BATMAN_IV").unwrap();
    assert_eq!(t.header, vec!["Router", "TQ", "Next Hop", "OutgoingIF", "Bandwidth Down (Mbit/s)", "Bandwidth Up (Mbit/s)"]);
    assert_eq!(t.rows[0], vec!["* 02:00:00:00:00:01", "255", "02:00:00:00:00:0A", "wlan0", "100", "0"]);
    assert_eq!(t.rows[1][0], "02:00:00:00:00:01");
    let t = gateway_table(&[gw(false)], "BATMAN_V").unwrap();
    assert_eq!(t.header[1], "Throughput");
    assert_eq!(t.rows[0][1], "0");
    assert_eq!(gateway_table(&[], "BATMAN_V").unwrap().rows.len(), 0);
}
