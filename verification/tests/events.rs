use agent::events::{Event, EventDto, EventType, EVENT_SIZE};

fn name(s: &[u8]) -> [u8; 256] {
    let mut f = [0u8; 256];
    f[..s.len()].copy_from_slice(s);
    f
}

fn event(pid: u32, event_type: u32, filename: &[u8], dest_ip: u32, dest_port: u16) -> Event {
    Event::new(pid, 1000, 123_456_789, event_type, name(filename), dest_ip, dest_port)
}

#[test]
fn event_type_from_known_codes() {
    assert_eq!(EventType::from(1), EventType::FileOpen);
    assert_eq!(EventType::from(2), EventType::NetworkConnect);
}

#[test]
fn event_type_from_unknown_codes() {
    assert_eq!(EventType::from(0), EventType::Unknown);
    assert_eq!(EventType::from(3), EventType::Unknown);
    assert_eq!(EventType::from(u32::MAX), EventType::Unknown);
}

#[test]
fn event_type_code_roundtrip() {
    assert_eq!(EventType::from(1), EventType::FileOpen);
    assert_eq!(EventType::from(2), EventType::NetworkConnect);
    assert_eq!(EventType::from(0), EventType::Unknown);
}

#[test]
fn event_type_discriminants_are_the_codes() {
    assert_eq!(EventType::Unknown as u32, 0);
    assert_eq!(EventType::FileOpen as u32, 1);
    assert_eq!(EventType::NetworkConnect as u32, 2);
    for t in [EventType::Unknown, EventType::FileOpen, EventType::NetworkConnect] {
        assert_eq!(EventType::from(t as u32), t);
    }
}

#[test]
fn lossy_filename_has_no_nul_and_no_more_chars_than_bytes() {
    let e = event(1, 1, b"\xff\xfe\xc3(", 0, 0);
    let s = e.get_filename_lossy();
    assert!(e.get_filename().is_err());
    assert!(s.contains('\u{FFFD}'));
    assert!(!s.contains('\0'));
    assert!(s.chars().count() <= e.filename_len());
}

#[test]
fn dest_ip_fields_read_back() {
    for ip in [0u32, 0x0100_007f, 0x0a01_a8c0, u32::MAX, 0x00ff_0010] {
        let s = event(1, 2, b"", ip, 0).get_dest_ip();
        let parts: Vec<&str> = s.split('.').collect();
        assert_eq!(parts.len(), 4);
        let mut octets = [0u8; 4];
        for (i, p) in parts.iter().enumerate() {
            assert!(p.len() == 1 || !p.starts_with('0'), "{p}");
            octets[i] = p.parse::<u8>().unwrap();
        }
        assert_eq!(u32::from_le_bytes(octets), ip);
    }
}

#[test]
fn event_type_names() {
    assert_eq!(EventType::FileOpen.to_string(), "FileOpen");
    assert_eq!(EventType::NetworkConnect.to_string(), "NetworkConncet");
    assert_eq!(EventType::Unknown.to_string(), "Unknown");
}

#[test]
fn filename_stops_at_first_zero() {
    let e = event(1, 1, b"/etc/passwd", 0, 0);
    assert_eq!(e.filename_len(), 11);
    assert_eq!(e.get_filename().unwrap(), "/etc/passwd");
    assert_eq!(e.get_filename_lossy(), "/etc/passwd");
}

#[test]
fn filename_without_zero_fills_field() {
    let e = Event::new(1, 0, 0, 1, [b'a'; 256], 0, 0);
    assert_eq!(e.filename_len(), 256);
    assert_eq!(e.get_filename().unwrap(), "a".repeat(256));
    assert_eq!(e.get_filename_lossy(), "a".repeat(256));
}

#[test]
fn empty_filename() {
    let e = event(1, 1, b"", 0, 0);
    assert_eq!(e.filename_len(), 0);
    assert_eq!(e.get_filename().unwrap(), "");
    assert_eq!(e.get_filename_lossy(), "");
}

#[test]
fn filename_ignores_bytes_after_zero() {
    let e = event(1, 1, b"ab\0\xffcd", 0, 0);
    assert_eq!(e.filename_len(), 2);
    assert_eq!(e.get_filename().unwrap(), "ab");
}

#[test]
fn non_utf8_filename_is_an_error() {
    let e = event(1, 1, b"\xffa", 0, 0);
    assert!(e.get_filename().is_err());
    assert_eq!(e.get_filename_lossy(), "\u{FFFD}a");
}

#[test]
fn utf8_filename_lossy_agrees_with_strict() {
    let e = event(1, 1, "/home/jürgen/ß.txt".as_bytes(), 0, 0);
    let strict = e.get_filename().unwrap();
    assert_eq!(strict, "/home/jürgen/ß.txt");
    assert_eq!(e.get_filename_lossy(), strict);
}

#[test]
fn dest_ip_is_lowest_byte_first() {
    let e = event(1, 2, b"", 0x0100_007f, 80);
    assert_eq!(e.get_dest_ip(), "127.0.0.1");
    let e = event(1, 2, b"", 0x0a01_a8c0, 80);
    assert_eq!(e.get_dest_ip(), "192.168.1.10");
}

#[test]
fn dest_ip_extremes() {
    assert_eq!(event(1, 2, b"", 0, 0).get_dest_ip(), "0.0.0.0");
    assert_eq!(event(1, 2, b"", u32::MAX, 0).get_dest_ip(), "255.255.255.255");
}

#[test]
fn dest_ip_distinct_addresses_render_differently() {
    let a = event(1, 2, b"", 0x0101_0b01, 0).get_dest_ip();
    let b = event(1, 2, b"", 0x0101_010b, 0).get_dest_ip();
    assert_eq!(a, "1.11.1.1");
    assert_eq!(b, "11.1.1.1");
    assert_ne!(a, b);
}

#[test]
fn event_type_of_event() {
    assert_eq!(event(1, 1, b"", 0, 0).get_event_type(), EventType::FileOpen);
    assert_eq!(event(1, 2, b"", 0, 0).get_event_type(), EventType::NetworkConnect);
    assert_eq!(event(1, 9, b"", 0, 0).get_event_type(), EventType::Unknown);
}

#[test]
fn validity_needs_pid_and_type() {
    assert!(event(1, 1, b"", 0, 0).is_valid());
    assert!(event(1, 7, b"", 0, 0).is_valid());
    assert!(!event(0, 1, b"", 0, 0).is_valid());
    assert!(!event(1, 0, b"", 0, 0).is_valid());
    assert!(!event(0, 0, b"", 0, 0).is_valid());
}

fn record() -> Vec<u8> {
    let mut b = vec![0u8; EVENT_SIZE];
    b[0..4].copy_from_slice(&4242u32.to_le_bytes());
    b[4..8].copy_from_slice(&1001u32.to_le_bytes());
    b[8..16].copy_from_slice(&0x0102_0304_0506_0708u64.to_le_bytes());
    b[16..20].copy_from_slice(&2u32.to_le_bytes());
    b[20..24].copy_from_slice(b"/tmp");
    b[276..280].copy_from_slice(&0x0100_007fu32.to_le_bytes());
    b[280..282].copy_from_slice(&8080u16.to_le_bytes());
    b
}

#[test]
fn record_is_decoded_field_by_field() {
    let e = Event::from_bytes(&record()).unwrap();
    assert_eq!(e.pid, 4242);
    assert_eq!(e.uid, 1001);
    assert_eq!(e.timestamp, 0x0102_0304_0506_0708);
    assert_eq!(e.event_type, 2);
    assert_eq!(&e.filename[..5], b"/tmp\0");
    assert_eq!(e.dest_ip, 0x0100_007f);
    assert_eq!(e.dest_port, 8080);
    assert_eq!(e.get_dest_ip(), "127.0.0.1");
}

#[test]
fn short_record_is_refused() {
    let b = record();
    assert!(Event::from_bytes(&b[..EVENT_SIZE - 1]).is_none());
    assert!(Event::from_bytes(&[]).is_none());
}

#[test]
fn bytes_past_the_record_are_ignored() {
    let mut b = record();
    b.extend_from_slice(&[0xff; 16]);
    let e = Event::from_bytes(&b).unwrap();
    assert_eq!(e.pid, 4242);
    assert_eq!(e.dest_port, 8080);
}

#[test]
fn dto_of_file_open() {
    let d = EventDto::from(&event(7, 1, b"/bin/sh", 0x0100_007f, 22));
    assert_eq!(d.pid, 7);
    assert_eq!(d.uid, 1000);
    assert_eq!(d.timestamp, 123_456_789);
    assert_eq!(d.event_type, "FileOpen");
    assert_eq!(d.filename.as_deref(), Some("/bin/sh"));
    assert_eq!(d.dest_ip, None);
    assert_eq!(d.dest_port, None);
}

#[test]
fn dto_of_network_connect() {
    let d = EventDto::from(&event(7, 2, b"/bin/sh", 0x0100_007f, 22));
    assert_eq!(d.event_type, "NetworkConncet");
    assert_eq!(d.filename, None);
    assert_eq!(d.dest_ip.as_deref(), Some("127.0.0.1"));
    assert_eq!(d.dest_port, Some(22));
}

#[test]
fn dto_of_unknown_event() {
    let d = EventDto::from(&event(7, 0, b"/bin/sh", 0x0100_007f, 22));
    assert_eq!(d.event_type, "Unknown");
    assert_eq!(d.filename, None);
    assert_eq!(d.dest_ip, None);
    assert_eq!(d.dest_port, None);
}

#[test]
fn dto_of_file_open_with_bad_utf8() {
    let d = EventDto::from(&event(7, 1, b"a\xc3", 0, 0));
    assert_eq!(d.filename.as_deref(), Some("a\u{FFFD}"));
}
