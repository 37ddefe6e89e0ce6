use sonos_state::ids::SpeakerId;
use sonos_state::manager::{Device, StateManager};
use sonos_state::net::{parse_ip_addr, IpAddr};
use sonos_state::speaker::Speaker;

fn v6(s: &str) -> IpAddr {
    parse_ip_addr(s).unwrap_or_else(|| panic!("{s} should parse"))
}

#[test]
fn ipv6_texts_parse() {
    assert_eq!(v6("::1"), IpAddr::V6(0, 0, 0, 0, 0, 0, 0, 1));
    assert_eq!(v6("::"), IpAddr::V6(0, 0, 0, 0, 0, 0, 0, 0));
    assert_eq!(v6("1::"), IpAddr::V6(1, 0, 0, 0, 0, 0, 0, 0));
    assert_eq!(v6("FE80::1"), IpAddr::V6(0xfe80, 0, 0, 0, 0, 0, 0, 1));
    assert_eq!(v6("1:2:3:4:5:6:7:8"), IpAddr::V6(1, 2, 3, 4, 5, 6, 7, 8));
    assert_eq!(v6("1:2:3:4:5:6:7::"), IpAddr::V6(1, 2, 3, 4, 5, 6, 7, 0));
    assert_eq!(v6("::ffff:192.168.1.1"), IpAddr::V6(0, 0, 0, 0, 0, 0xffff, 0xc0a8, 0x0101));
    assert_eq!(v6("1:2:3:4:5:6:1.2.3.4"), IpAddr::V6(1, 2, 3, 4, 5, 6, 0x0102, 0x0304));
    assert_eq!(v6("2001:db8::8:800:200c:417a"), IpAddr::V6(0x2001, 0xdb8, 0, 0, 8, 0x800, 0x200c, 0x417a));
}

#[test]
fn malformed_ipv6_texts_are_rejected() {
    for bad in [
        ":::", "1:2:3:4:5:6:7:8:9", "12345::", "1::2::3", "g::1", "1:2:3:4:5:6:7:8::", "::1.2.3.4:5",
        "1.2.3.4::", "1:2:3:4:5:1.2.3.4", "[::1]", ":1::", "1::2:", "",
    ] {
        assert!(parse_ip_addr(bad).is_none(), "{bad:?} should not parse");
    }
}

#[test]
fn ipv6_text_is_rfc5952() {
    assert_eq!(v6("::1").to_text(), "::1");
    assert_eq!(v6("0:0:0:0:0:0:0:0").to_text(), "::");
    assert_eq!(v6("FE80:0:0:0:0:0:0:1").to_text(), "fe80::1");
    assert_eq!(v6("2001:db8:0:0:1:0:0:1").to_text(), "2001:db8::1:0:0:1");
    assert_eq!(v6("1:0:2:3:4:5:6:7").to_text(), "1:0:2:3:4:5:6:7");
    assert_eq!(v6("1::").to_text(), "1::");
    assert_eq!(v6("::ffff:192.168.1.1").to_text(), "::ffff:192.168.1.1");
    assert_eq!(v6("::1.2.3.4").to_text(), "::102:304");
    assert_eq!(v6("0001:00ab::").to_text(), "1:ab::");
}

#[test]
fn ipv6_speaker_address() {
    let speaker = Speaker {
        id: SpeakerId::new("RINCON_6"),
        name: "Den".to_string(),
        room_name: "Den".to_string(),
        ip_address: v6("fe80::1"),
        port: 1400,
        model_name: "Sonos One".to_string(),
        software_version: "1.0".to_string(),
        boot_seq: 0,
        satellites: vec![],
    };
    assert_eq!(speaker.address(), "fe80::1:1400");
}

#[test]
fn ipv6_device_registers() {
    let mut manager = StateManager::new().unwrap();
    let device = Device {
        id: "RINCON_6".to_string(),
        name: "Den".to_string(),
        room_name: "Den".to_string(),
        ip_address: "::1".to_string(),
        port: 1400,
        model_name: "Sonos One".to_string(),
    };
    assert!(manager.add_devices(vec![device]).is_ok());
    assert_eq!(manager.get_speaker_ip(&SpeakerId::new("RINCON_6")), Some(v6("::1")));
}
