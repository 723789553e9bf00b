use rm8::config_font::Font;
use rm8::draw::{covers_screen, glyph, octave_glyph, velocity_glyphs, zoom_window, LINE_HEIGHT};
use rm8::hex::push_hex;
use rm8::names::{position, same_names};
use rm8::ports::{
    detect, is_m8_capture, list_ports, open, port_is_m8, starts_with, PortError, PortInfo,
};

fn port(name: &str, usb: Option<(u16, u16)>) -> PortInfo {
    PortInfo { name: name.to_string(), usb }
}

fn ports() -> Vec<PortInfo> {
    vec![
        port("/dev/ttyS0", None),
        port("/dev/ttyACM0", Some((0x16c0, 0x048a))),
        port("/dev/ttyUSB0", Some((0x0403, 0x6001))),
        port("/dev/ttyACM1", Some((0x16c0, 0x048a))),
        port("/dev/ttyACM2", Some((0x16c0, 0x048b))),
        port("/dev/ttyACM0", None),
    ]
}

#[test]
fn trackers_are_told_by_their_ids() {
    assert!(port_is_m8(&port("a", Some((0x16c0, 0x048a)))));
    assert!(!port_is_m8(&port("a", Some((0x048a, 0x16c0)))));
    assert!(!port_is_m8(&port("a", None)));
}

#[test]
fn ports_of_trackers_are_listed() {
    assert_eq!(list_ports(&ports()), vec!["/dev/ttyACM0", "/dev/ttyACM1"]);
    assert_eq!(detect(&ports()), vec![1, 3]);
    assert!(list_ports(&Vec::new()).is_empty());
    assert!(detect(&vec![port("a", None)]).is_empty());
}

#[test]
fn port_is_opened_by_its_name() {
    assert_eq!(open(&ports(), "/dev/ttyACM1"), Ok(3));
    assert_eq!(open(&ports(), "/dev/ttyACM0"), Ok(1));
    assert_eq!(open(&ports(), "/dev/ttyUSB0"), Err(PortError::NotM8));
    assert_eq!(open(&ports(), "/dev/ttyS0"), Err(PortError::NotM8));
    assert_eq!(open(&ports(), "/dev/ttyACM9"), Err(PortError::DeviceNotFound));
    assert_eq!(open(&Vec::new(), ""), Err(PortError::DeviceNotFound));
    // the first port of the name decides
    let mut twice = ports();
    twice.swap(1, 5);
    assert_eq!(open(&twice, "/dev/ttyACM0"), Err(PortError::NotM8));
}

#[test]
fn port_error_messages() {
    assert_eq!(PortError::DeviceNotFound.message(), "Device not found");
    assert_eq!(PortError::NotM8.message(), "M8 not found");
    assert_eq!(PortError::NoPort.message(), "No port found");
}

#[test]
fn names_are_compared_and_found() {
    let list = vec!["a".to_string(), "b".to_string(), "a".to_string()];
    assert!(same_names(&list, &list.clone()));
    assert!(!same_names(&list, &list[..2].to_vec()));
    assert!(!same_names(&list, &vec!["a".to_string(), "b".to_string(), "c".to_string()]));
    assert!(same_names(&Vec::new(), &Vec::new()));
    assert_eq!(position(&list, &"a".to_string()), Some(0));
    assert_eq!(position(&list, &"b".to_string()), Some(1));
    assert_eq!(position(&list, &"c".to_string()), None);
    assert_eq!(position(&Vec::new(), &"a".to_string()), None);
}

#[test]
fn hexadecimal_digits() {
    for byte in 0..=255u8 {
        let mut lower = String::from("x");
        push_hex(&mut lower, byte, false);
        assert_eq!(lower, format!("x{:02x}", byte));
        let mut upper = String::new();
        push_hex(&mut upper, byte, true);
        assert_eq!(upper, format!("{:02X}", byte));
    }
}

#[test]
fn glyphs_of_the_fonts() {
    for c in 0..=255u8 {
        let upper = if c.is_ascii_lowercase() { c - 32 } else { c };
        let lower = if c.is_ascii_uppercase() { c + 32 } else { c };
        assert_eq!(glyph(Font::Uppercase, c), upper);
        assert_eq!(glyph(Font::Lowercase, c), lower);
        assert_eq!(glyph(Font::UpperAltZero, c), if c == b'0' { 125 } else { upper });
        assert_eq!(glyph(Font::LowerAltZero, c), if c == b'0' { 123 } else { lower });
    }
}

#[test]
fn indicators() {
    assert_eq!(octave_glyph(0), b'1');
    assert_eq!(octave_glyph(8), b'9');
    assert_eq!(octave_glyph(9), b'A');
    assert_eq!(octave_glyph(10), b'B');
    assert_eq!(octave_glyph(199), 255);
    for v in 0..=255u8 {
        let text = format!("{:02X}", v);
        assert_eq!(velocity_glyphs(v), (text.as_bytes()[0], text.as_bytes()[1]));
    }
    assert_eq!(LINE_HEIGHT, 10);
}

#[test]
fn screen_and_window() {
    assert!(covers_screen((0, 0, 320, 240)));
    assert!(!covers_screen((0, 0, 320, 239)));
    assert!(!covers_screen((0, 1, 320, 240)));
    assert!(!covers_screen((1, 0, 320, 240)));
    assert!(!covers_screen((0, 0, 319, 240)));
    assert_eq!(zoom_window(4, 1280), None);
    assert_eq!(zoom_window(4, 1281), Some((1280, 960)));
    assert_eq!(zoom_window(1, 1280), Some((320, 240)));
    assert_eq!(zoom_window(0, 1280), Some((0, 0)));
    assert_eq!(zoom_window(13421772, 0), Some((4294967040, 3221225280)));
}

#[test]
fn capture_device_of_the_tracker() {
    assert!(is_m8_capture("M8 Analog Stereo"));
    assert!(is_m8_capture("M8 Analog Stereo (2)"));
    assert!(!is_m8_capture("M8 Analog Stere"));
    assert!(!is_m8_capture("m8 analog stereo"));
    assert!(!is_m8_capture(" M8 Analog Stereo"));
    assert!(!is_m8_capture(""));
    assert!(starts_with(b"abc", b""));
    assert!(starts_with(b"abc", b"ab"));
    assert!(starts_with(b"abc", b"abc"));
    assert!(!starts_with(b"abc", b"abcd"));
    assert!(!starts_with(b"abc", b"b"));
    assert!(starts_with(b"", b""));
}
