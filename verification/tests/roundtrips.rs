use batman_robin::commands::ap_isolation::{ap_isolation_of_message, set_ap_isolation_request};
use batman_robin::commands::gw_mode::{gateway_info_from_reply, set_gateway_request};
use batman_robin::netlink::{AttrValueForSend, ByteOrder, GenlMessage, GenlPayload, NlAttr};
use batman_robin::text::parse_u32;
use batman_robin::uevent::{UeventListener, UeventProperties};
use batman_robin::GwMode;

fn reply_with_mode(b: u8) -> GenlMessage {
    let attr = |kind: u16, payload: Vec<u8>| NlAttr { kind, payload };
    GenlMessage {
        nl_type: 30,
        payload: GenlPayload::Attrs(vec![
            attr(51, vec![b]),
            attr(52, vec![0, 0, 0, 0]),
            attr(49, vec![0, 0, 0, 0]),
            attr(50, vec![0, 0, 0, 0]),
            attr(2, b"BATMAN_IV\0".to_vec()),
        ]),
    }
}

#[test]
fn gateway_mode_written_is_read_back() {
    for mode in [GwMode::Off, GwMode::Client, GwMode::Server] {
        let req = set_gateway_request(mode, None, None, None, 1).unwrap();
        let b = match req.attrs[1].1 {
            AttrValueForSend::U8(b) => b,
            _ => panic!("mode byte expected"),
        };
        let info = gateway_info_from_reply(Some(&reply_with_mode(b)), ByteOrder::Little).unwrap();
        assert_eq!(info.mode, mode);
    }
}

#[test]
fn ap_isolation_written_is_read_back() {
    for enabled in [true, false] {
        let req = set_ap_isolation_request(1, enabled);
        let b = match req.attrs[1].1 {
            AttrValueForSend::U8(b) => b,
            _ => panic!("flag byte expected"),
        };
        let msg = GenlMessage {
            nl_type: 30,
            payload: GenlPayload::Attrs(vec![NlAttr { kind: 42, payload: vec![b] }]),
        };
        assert_eq!(ap_isolation_of_message(&msg), Some(enabled));
    }
}

#[test]
fn uevent_written_properties_are_read_back() {
    let pairs = [("ACTION", "change"), ("SEQNUM", "1234"), ("ACTION", "add"), ("DATA", "a=b")];
    let mut text = String::new();
    for (k, v) in pairs {
        text.push_str(k);
        text.push('=');
        text.push_str(v);
        text.push('\0');
    }
    let props = UeventListener::parse_uevent_text(&text).unwrap();
    assert_eq!(props.get("ACTION"), Some(&"add".to_string()));
    assert_eq!(props.get("SEQNUM"), Some(&"1234".to_string()));
    assert_eq!(props.get("DATA"), Some(&"a=b".to_string()));
    assert_eq!(props.get("OTHER"), None);
}

#[test]
fn property_set_is_read_back() {
    let mut props = UeventProperties::new();
    assert!(props.is_empty());
    props.insert("K".to_string(), "1".to_string());
    props.insert("J".to_string(), "2".to_string());
    props.insert("K".to_string(), "3".to_string());
    assert_eq!(props.get("K"), Some(&"3".to_string()));
    assert_eq!(props.get("J"), Some(&"2".to_string()));
    assert!(!props.is_empty());
}

#[test]
fn decimal_index_is_read_back() {
    for n in [0u32, 7, 10, 4294967295] {
        assert_eq!(parse_u32(&n.to_string()), Some(n));
    }
}
