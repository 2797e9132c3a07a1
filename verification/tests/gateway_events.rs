use batman_robin::gateway_event::{GatewayEvent, GatewayEventAction};
use batman_robin::mac::MacAddress;
use batman_robin::uevent::{UeventDecision, UeventListener, UeventProperties};

#[test]
fn test_parse_uevent_properties() {
    let data = b"ACTION=change\0BATTYPE=gw\0BATACTION=ADD\0BATDATA=60:09:c3:aa:bb:cc\0";
    let props = UeventListener::parse_uevent_properties(data).unwrap();

    assert_eq!(props.get("ACTION"), Some(&"change".to_string()));
    assert_eq!(props.get("BATTYPE"), Some(&"gw".to_string()));
    assert_eq!(props.get("BATACTION"), Some(&"ADD".to_string()));
    assert_eq!(props.get("BATDATA"), Some(&"60:09:c3:aa:bb:cc".to_string()));
}

#[test]
fn test_parse_gateway_event_add() {
    let mut props = UeventProperties::new();
    props.insert("BATTYPE".to_string(), "gw".to_string());
    props.insert("BATACTION".to_string(), "ADD".to_string());
    props.insert("BATDATA".to_string(), "60:09:c3:aa:bb:cc".to_string());

    let event = UeventListener::parse_gateway_event(6, props).unwrap();

    assert_eq!(event.meshif, 6);
    assert_eq!(event.action, GatewayEventAction::Add);
    assert!(event.gateway_mac.is_some());
}

#[test]
fn test_parse_gateway_event_delete() {
    let mut props = UeventProperties::new();
    props.insert("BATTYPE".to_string(), "gw".to_string());
    props.insert("BATACTION".to_string(), "DEL".to_string());

    let event = UeventListener::parse_gateway_event(6, props).unwrap();

    assert_eq!(event.meshif, 6);
    assert_eq!(event.action, GatewayEventAction::Delete);
    assert!(event.gateway_mac.is_none());
}

#[test]
fn test_invalid_action() {
    let mut props = UeventProperties::new();
    props.insert("BATTYPE".to_string(), "gw".to_string());
    props.insert("BATACTION".to_string(), "INVALID".to_string());

    let result = UeventListener::parse_gateway_event(6, props);
    assert!(result.is_err());
}

#[test]
fn test_gateway_event_creation() {
    let mac: MacAddress = "60:09:c3:aa:bb:cc".parse().unwrap();
    let event = GatewayEvent::new(6, GatewayEventAction::Add, Some(mac.clone()));

    assert_eq!(event.meshif, 6);
    assert_eq!(event.action, GatewayEventAction::Add);
    assert_eq!(event.gateway_mac, Some(mac));
    assert!(event.has_gateway());
}

fn mac_of(s: &str) -> MacAddress {
    MacAddress::parse(s).unwrap()
}

#[test]
fn test_delete_event_no_gateway() {
    let event = GatewayEvent::new(6, GatewayEventAction::Delete, None);

    assert_eq!(event.action, GatewayEventAction::Delete);
    assert!(!event.has_gateway());
}

#[test]
fn test_action_display() {
    assert_eq!(GatewayEventAction::Add.to_string(), "ADD");
    assert_eq!(GatewayEventAction::Change.to_string(), "CHANGE");
    assert_eq!(GatewayEventAction::Delete.to_string(), "DELETE");
}

#[test]
fn uevent_later_property_wins_and_lines_without_equals_are_ignored() {
    let props =
        UeventListener::parse_uevent_properties(b"add@/devices\0KEY=one\0KEY=two\0EMPTY=\0=v").unwrap();
    assert_eq!(props.get("KEY"), Some(&"two".to_string()));
    assert_eq!(props.get("EMPTY"), Some(&"".to_string()));
    assert_eq!(props.get(""), Some(&"v".to_string()));
    assert_eq!(props.get("add@/devices"), None);
}

#[test]
fn uevent_value_keeps_later_equals_signs() {
    let props = UeventListener::parse_uevent_text("A=b=c").unwrap();
    assert_eq!(props.get("A"), Some(&"b=c".to_string()));
}

#[test]
fn uevent_without_property_is_refused() {
    let err = UeventListener::parse_uevent_properties(b"no properties\0here").err().unwrap();
    assert_eq!(err.message(), "empty uevent properties");
    assert!(UeventListener::parse_uevent_properties(b"").is_err());
}

#[test]
fn uevent_invalid_utf8_is_replaced() {
    let props = UeventListener::parse_uevent_properties(b"K=\xff\0").unwrap();
    assert_eq!(props.get("K"), Some(&"\u{fffd}".to_string()));
}

#[test]
fn gateway_event_action_is_case_insensitive_and_errors_name_the_action() {
    let mut props = UeventProperties::new();
    props.insert("BATTYPE".to_string(), "gw".to_string());
    props.insert("BATACTION".to_string(), "change".to_string());
    props.insert("BATDATA".to_string(), "not a mac".to_string());
    let event = UeventListener::parse_gateway_event(3, props).unwrap();
    assert_eq!(event.action, GatewayEventAction::Change);
    assert!(!event.has_gateway());

    let mut props = UeventProperties::new();
    props.insert("BATTYPE".to_string(), "gw".to_string());
    props.insert("BATACTION".to_string(), "Bogus".to_string());
    let err = UeventListener::parse_gateway_event(3, props).err().unwrap();
    assert_eq!(err.message(), "unknown BATACTION: Bogus");
}

#[test]
fn gateway_event_needs_gateway_type_and_action() {
    let mut props = UeventProperties::new();
    props.insert("BATTYPE".to_string(), "bla".to_string());
    props.insert("BATACTION".to_string(), "ADD".to_string());
    let err = UeventListener::parse_gateway_event(3, props).err().unwrap();
    assert_eq!(err.message(), "not a gateway uevent");

    let mut props = UeventProperties::new();
    props.insert("BATTYPE".to_string(), "gw".to_string());
    let err = UeventListener::parse_gateway_event(3, props).err().unwrap();
    assert_eq!(err.message(), "missing BATACTION");
}

#[test]
fn handle_uevent_decisions() {
    let good = b"ACTION=change\0SUBSYSTEM=net\0INTERFACE=bat0\0BATTYPE=gw\0BATACTION=ADD\0BATDATA=60:09:c3:aa:bb:cc\0";
    match UeventListener::handle_uevent(7, "bat0", good) {
        UeventDecision::Emit(ev) => {
            assert_eq!(ev.meshif, 7);
            assert_eq!(ev.action, GatewayEventAction::Add);
            assert_eq!(ev.gateway_mac, Some(mac_of("60:09:c3:aa:bb:cc")));
        }
        _ => panic!("expected an event"),
    }
    let by_index = b"SUBSYSTEM=net\0IFINDEX=+7\0BATTYPE=gw\0BATACTION=DEL\0";
    match UeventListener::handle_uevent(7, "bat0", by_index) {
        UeventDecision::Emit(ev) => assert_eq!(ev.action, GatewayEventAction::Delete),
        _ => panic!("expected an event"),
    }
    assert!(matches!(UeventListener::handle_uevent(7, "bat0", b""), UeventDecision::Stop));
    let other_if = b"SUBSYSTEM=net\0INTERFACE=bat1\0IFINDEX=8\0BATTYPE=gw\0BATACTION=ADD\0";
    assert!(matches!(UeventListener::handle_uevent(7, "bat0", other_if), UeventDecision::Skip));
    let not_net = b"SUBSYSTEM=usb\0INTERFACE=bat0\0BATTYPE=gw\0BATACTION=ADD\0";
    assert!(matches!(UeventListener::handle_uevent(7, "bat0", not_net), UeventDecision::Skip));
    let bad_action = b"SUBSYSTEM=net\0INTERFACE=bat0\0BATTYPE=gw\0BATACTION=X\0";
    assert!(matches!(UeventListener::handle_uevent(7, "bat0", bad_action), UeventDecision::Skip));
    let garbage = b"garbage";
    assert!(matches!(UeventListener::handle_uevent(7, "bat0", garbage), UeventDecision::Skip));
}

#[test]
fn delete_event_drops_a_gateway_address() {
    let mut props = UeventProperties::new();
    props.insert("BATTYPE".to_string(), "gw".to_string());
    props.insert("BATACTION".to_string(), "DEL".to_string());
    props.insert("BATDATA".to_string(), "60:09:c3:aa:bb:cc".to_string());
    let event = UeventListener::parse_gateway_event(6, props).unwrap();
    assert_eq!(event.action, GatewayEventAction::Delete);
    assert!(event.gateway_mac.is_none());
    assert!(!event.has_gateway());

    let with_data = b"SUBSYSTEM=net\0INTERFACE=bat0\0BATTYPE=gw\0BATACTION=del\0BATDATA=60:09:c3:aa:bb:cc\0";
    match UeventListener::handle_uevent(7, "bat0", with_data) {
        UeventDecision::Emit(ev) => {
            assert_eq!(ev.action, GatewayEventAction::Delete);
            assert_eq!(ev.gateway_mac, None);
        }
        _ => panic!("expected an event"),
    }
}

#[test]
fn upper_cased_actions() {
    assert_eq!(UeventListener::action_of_upper("ADD"), Some(GatewayEventAction::Add));
    assert_eq!(UeventListener::action_of_upper("CHANGE"), Some(GatewayEventAction::Change));
    assert_eq!(UeventListener::action_of_upper("DEL"), Some(GatewayEventAction::Delete));
    assert_eq!(UeventListener::action_of_upper("DELETE"), None);
    assert_eq!(UeventListener::action_of_upper("add"), None);
    assert_eq!(UeventListener::action_of_upper(""), None);
}
