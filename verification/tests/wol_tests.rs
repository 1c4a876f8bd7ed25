use lgtv_service::config::{Config, TimeoutConfig, TvConfig};
use lgtv_service::tv::wake_on_lan;
use lgtv_service::tv::wol::{mac_text_panics_wakey, magic_packet, WolError};

fn expected_packet(mac: [u8; 6]) -> Vec<u8> {
    let mut v = vec![0xFFu8; 6];
    for _ in 0..16 {
        v.extend_from_slice(&mac);
    }
    v
}

#[test]
fn magic_packet_for_canonical_mac() {
    let p = magic_packet("A8:23:FE:01:02:03").unwrap();
    assert_eq!(p.len(), 102);
    assert_eq!(p, expected_packet([0xA8, 0x23, 0xFE, 0x01, 0x02, 0x03]));
}

#[test]
fn magic_packet_accepts_lowercase() {
    assert_eq!(
        magic_packet("a8:23:fe:0a:bc:ff").unwrap(),
        expected_packet([0xA8, 0x23, 0xFE, 0x0A, 0xBC, 0xFF])
    );
}

#[test]
fn short_or_long_mac_is_a_length_error() {
    assert_eq!(magic_packet("01:02:03:04:05"), Err(WolError::InvalidMacLength));
    assert_eq!(magic_packet("01:02:03:04:05:06:07"), Err(WolError::InvalidMacLength));
    assert_eq!(magic_packet(""), Err(WolError::InvalidMacLength));
}

#[test]
fn malformed_mac_is_a_format_error() {
    assert_eq!(magic_packet("A8-23-FE-01-02-03"), Err(WolError::InvalidMacFormat));
    assert_eq!(magic_packet("ZZ:02:03:04:05:06"), Err(WolError::InvalidMacFormat));
    assert_eq!(magic_packet("01002:03:04:05:06"), Err(WolError::InvalidMacFormat));
    assert_eq!(magic_packet("AB:CD:EF:01:02:0G"), Err(WolError::InvalidMacFormat));
}

#[test]
fn non_ascii_mac_length_counts_bytes() {
    // 16 characters, 17 bytes.
    assert_eq!(magic_packet("é1:02:03:04:05:0"), Err(WolError::InvalidMacFormat));
}

#[test]
fn other_groupings_that_wakey_reads_as_six_bytes() {
    let want = expected_packet([0xA8, 0x23, 0xFE, 0x01, 0x02, 0x03]);
    assert_eq!(magic_packet("A823FE010203:::::").unwrap(), want);
    assert_eq!(magic_packet("A823:FE:01:02::03").unwrap(), want);
    assert_eq!(magic_packet("A823FE:0102:03::").unwrap_err(), WolError::InvalidMacLength);
    assert_eq!(magic_packet("0102:03:04:05:06:").unwrap(), expected_packet([1, 2, 3, 4, 5, 6]));
}

#[test]
fn texts_wakey_would_panic_on_are_refused() {
    // Seven or more leading pieces that decode, or pieces decoding to more than six bytes.
    for t in [":::::::::::::::::", "00:00:00:00:00:00", "000000:0000000000", "0000:0000:000000:"] {
        if t == "00:00:00:00:00:00" {
            assert!(!mac_text_panics_wakey(t.as_bytes()));
            continue;
        }
        assert!(mac_text_panics_wakey(t.as_bytes()), "{t}");
        assert_eq!(magic_packet(t), Err(WolError::InvalidMacFormat), "{t}");
    }
    assert!(!mac_text_panics_wakey(b"A8-23-FE-01-02-03"));
    assert!(!mac_text_panics_wakey(b"short"));
}

#[test]
fn wake_on_lan_uses_the_configured_mac() {
    let c = Config {
        tv: TvConfig {
            ip: "10.0.0.2".to_string(),
            mac: "01:02:03:04:05:06".to_string(),
            client_key_path: "k".to_string(),
        },
        timeouts: TimeoutConfig::default(),
    };
    assert_eq!(wake_on_lan(&c).unwrap(), expected_packet([1, 2, 3, 4, 5, 6]));
}

#[test]
fn wake_on_lan_with_bad_mac_reports_the_error() {
    let c = Config {
        tv: TvConfig { ip: String::new(), mac: "nope".to_string(), client_key_path: String::new() },
        timeouts: TimeoutConfig::default(),
    };
    assert_eq!(wake_on_lan(&c), Err(WolError::InvalidMacLength));
}
