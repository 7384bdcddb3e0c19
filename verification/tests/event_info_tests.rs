use efl::cstr::decode_c_string;
use efl::cstr::encode_c_string;
use efl::events::BUTTON_DOUBLE_CLICK;
use efl::events::ButtonFlags;
use efl::events::CoordPoint;
use efl::events::EVENT_FLAG_ON_HOLD;
use efl::events::EvasCoordPoint;
use efl::events::EvasPoint;
use efl::events::EvasPosition;
use efl::events::EventFlags;
use efl::events::Hold;
use efl::events::KeyDown;
use efl::events::Lock;
use efl::events::Modifier;
use efl::events::KeyUp;
use efl::events::MouseDown;
use efl::events::MouseIn;
use efl::events::MouseMove;
use efl::events::MouseOut;
use efl::events::MouseUp;
use efl::events::MouseWheel;
use efl::events::MultiDown;
use efl::events::MultiMove;
use efl::events::MultiUp;
use efl::events::Point;
use efl::events::Position;

fn c(bytes: &[u8]) -> Vec<u8> {
    encode_c_string(&bytes.to_vec())
}

#[test]
fn key_down_strings_round_trip() {
    let info = KeyDown {
        keyname: c(b"Return"),
        key: c(b"Return"),
        string: c(b"\r"),
        compose: c(b"\r"),
        modifiers: Modifier { names: vec![String::from("Control")] },
        locks: Lock { names: vec![String::from("Caps_Lock")] },
        timestamp: 123456,
        event_flags: 0,
        keycode: 36,
    };
    assert_eq!(info.keyname(), b"Return".to_vec());
    assert_eq!(info.key(), b"Return".to_vec());
    assert_eq!(info.string(), b"\r".to_vec());
    assert_eq!(info.compose(), b"\r".to_vec());
    assert_eq!(info.timestamp(), 123456);
    assert_eq!(info.keycode(), 36);
    assert!(info.modifiers().is_set("Control"));
    assert!(!info.modifiers().is_set("Shift"));
    assert!(info.locks().is_set("Caps_Lock"));
    assert!(!info.locks().is_set("Num_Lock"));
}

#[test]
fn repeated_decoding_is_stable() {
    let info = KeyDown {
        keyname: c(b"space"),
        key: c(b"space"),
        string: c(b" "),
        compose: c(b" "),
        modifiers: Modifier { names: vec![] },
        locks: Lock { names: vec![] },
        timestamp: 1,
        event_flags: 0,
        keycode: 65,
    };
    assert_eq!(info.keyname(), info.keyname());
    assert_eq!(info.string(), b" ".to_vec());
    assert_eq!(info.string(), b" ".to_vec());
}

#[test]
fn c_string_decoding_stops_at_first_nul() {
    assert_eq!(decode_c_string(&vec![b'a', b'b', 0, b'c']), vec![b'a', b'b']);
    assert_eq!(decode_c_string(&vec![0, b'x']), Vec::<u8>::new());
    assert_eq!(decode_c_string(&vec![]), Vec::<u8>::new());
    assert_eq!(decode_c_string(&vec![b'z']), vec![b'z']);
}

#[test]
fn c_string_encoding_appends_terminator() {
    assert_eq!(encode_c_string(&vec![b'h', b'i']), vec![b'h', b'i', 0]);
    assert_eq!(encode_c_string(&vec![]), vec![0]);
}

#[test]
fn event_flags_validate_known_bits() {
    assert_eq!(EventFlags::from_bits(0), Some(EventFlags { bits: 0 }));
    assert_eq!(EventFlags::from_bits(EVENT_FLAG_ON_HOLD), Some(EventFlags { bits: 1 }));
    assert_eq!(EventFlags::from_bits(3), Some(EventFlags { bits: 3 }));
    assert_eq!(EventFlags::from_bits(4), None);
    assert_eq!(EventFlags::from_bits(0x80), None);
    assert!(EventFlags { bits: 3 }.contains(EVENT_FLAG_ON_HOLD));
    assert!(!EventFlags { bits: 2 }.contains(EVENT_FLAG_ON_HOLD));
}

#[test]
fn button_flags_validate_known_bits() {
    assert_eq!(ButtonFlags::from_bits(BUTTON_DOUBLE_CLICK), Some(ButtonFlags { bits: 1 }));
    assert_eq!(ButtonFlags::from_bits(4), None);
    assert!(ButtonFlags { bits: 1 }.contains(BUTTON_DOUBLE_CLICK));
}

#[test]
fn points_decode_from_native_records() {
    let p = Point::from_evas(EvasPoint { x: 3, y: -4 });
    assert_eq!((p.x, p.y), (3, -4));
    let cp = CoordPoint::from_evas(EvasCoordPoint { x: 7, y: 9 });
    assert_eq!((cp.x, cp.y), (7, 9));
    let pos = Position::from_evas(EvasPosition {
        output: EvasPoint { x: 1, y: 2 },
        canvas: EvasCoordPoint { x: 3, y: 4 },
    });
    assert_eq!((pos.output.x, pos.output.y), (1, 2));
    assert_eq!((pos.canvas.x, pos.canvas.y), (3, 4));
}

#[test]
fn mouse_down_view_decodes_fields() {
    let info = MouseDown {
        button: 1,
        output: EvasPoint { x: 10, y: 20 },
        canvas: EvasCoordPoint { x: 11, y: 21 },
        modifiers: Modifier { names: vec![String::from("Shift")] },
        locks: Lock { names: vec![] },
        flags: BUTTON_DOUBLE_CLICK,
        timestamp: 99,
        event_flags: EVENT_FLAG_ON_HOLD,
    };
    assert_eq!(info.button(), 1);
    assert_eq!((info.output().x, info.output().y), (10, 20));
    assert_eq!((info.canvas().x, info.canvas().y), (11, 21));
    assert!(info.modifiers().is_set("Shift"));
    assert_eq!(info.flags().bits, BUTTON_DOUBLE_CLICK);
    assert_eq!(info.timestamp(), 99);
    assert_eq!(info.event_flags().bits, EVENT_FLAG_ON_HOLD);
}

#[test]
fn mouse_move_view_decodes_positions() {
    let info = MouseMove {
        buttons: 1,
        cur: EvasPosition {
            output: EvasPoint { x: 5, y: 6 },
            canvas: EvasCoordPoint { x: 7, y: 8 },
        },
        prev: EvasPosition {
            output: EvasPoint { x: 1, y: 2 },
            canvas: EvasCoordPoint { x: 3, y: 4 },
        },
        modifiers: Modifier { names: vec![] },
        locks: Lock { names: vec![] },
        timestamp: 5,
        event_flags: 0,
    };
    assert_eq!(info.buttons(), 1);
    assert_eq!((info.cur().output.x, info.cur().canvas.y), (5, 8));
    assert_eq!((info.prev().output.y, info.prev().canvas.x), (2, 3));
}

#[test]
fn hold_view_decodes_fields() {
    let info = Hold { hold: 1, timestamp: 17, event_flags: 2 };
    assert_eq!(info.hold(), 1);
    assert_eq!(info.timestamp(), 17);
    assert_eq!(info.event_flags().bits, 2);
}

#[test]
fn mouse_up_and_crossing_views_decode_fields() {
    let up = MouseUp {
        button: 2,
        output: EvasPoint { x: 1, y: 2 },
        canvas: EvasCoordPoint { x: 3, y: 4 },
        modifiers: Modifier { names: vec![] },
        locks: Lock { names: vec![] },
        flags: 0,
        timestamp: 8,
        event_flags: 0,
    };
    assert_eq!(up.button(), 2);
    assert_eq!((up.output().x, up.canvas().y), (1, 4));
    assert_eq!(up.flags().bits, 0);
    let inside = MouseIn {
        buttons: 0,
        output: EvasPoint { x: 9, y: 8 },
        canvas: EvasCoordPoint { x: 7, y: 6 },
        modifiers: Modifier { names: vec![] },
        locks: Lock { names: vec![] },
        timestamp: 1,
        event_flags: 0,
    };
    assert_eq!(inside.buttons(), 0);
    assert_eq!((inside.output().y, inside.canvas().x), (8, 7));
    let outside = MouseOut {
        buttons: 1,
        output: EvasPoint { x: 0, y: 0 },
        canvas: EvasCoordPoint { x: 0, y: 0 },
        modifiers: Modifier { names: vec![] },
        locks: Lock { names: vec![] },
        timestamp: 2,
        event_flags: 1,
    };
    assert_eq!(outside.buttons(), 1);
    assert_eq!(outside.event_flags().bits, 1);
}

#[test]
fn wheel_multi_and_key_up_views_decode_fields() {
    let wheel = MouseWheel {
        direction: 0,
        z: -3,
        output: EvasPoint { x: 4, y: 5 },
        canvas: EvasCoordPoint { x: 6, y: 7 },
        modifiers: Modifier { names: vec![] },
        locks: Lock { names: vec![] },
        timestamp: 3,
        event_flags: 0,
    };
    assert_eq!((wheel.direction(), wheel.z()), (0, -3));
    assert_eq!((wheel.output().x, wheel.canvas().y), (4, 7));
    let down = MultiDown {
        device: 2,
        output: EvasPoint { x: 1, y: 1 },
        canvas: EvasCoordPoint { x: 2, y: 2 },
        modifiers: Modifier { names: vec![] },
        locks: Lock { names: vec![] },
        flags: 0,
        timestamp: 4,
        event_flags: 0,
    };
    assert_eq!(down.device(), 2);
    assert_eq!(down.output().x, 1);
    let up = MultiUp {
        device: 2,
        output: EvasPoint { x: 1, y: 1 },
        canvas: EvasCoordPoint { x: 2, y: 2 },
        modifiers: Modifier { names: vec![] },
        locks: Lock { names: vec![] },
        flags: 0,
        timestamp: 5,
        event_flags: 0,
    };
    assert_eq!(up.device(), 2);
    assert_eq!(up.flags().bits, 0);
    let mv = MultiMove {
        device: 3,
        cur: EvasPosition {
            output: EvasPoint { x: 10, y: 11 },
            canvas: EvasCoordPoint { x: 12, y: 13 },
        },
        modifiers: Modifier { names: vec![] },
        locks: Lock { names: vec![] },
        timestamp: 6,
        event_flags: 0,
    };
    assert_eq!(mv.device(), 3);
    assert_eq!((mv.cur().output.x, mv.cur().canvas.y), (10, 13));
    let key = KeyUp {
        keyname: c(b"Escape"),
        key: c(b"Escape"),
        string: c(b""),
        compose: c(b""),
        modifiers: Modifier { names: vec![] },
        locks: Lock { names: vec![] },
        timestamp: 7,
        event_flags: 0,
        keycode: 9,
    };
    assert_eq!(key.keyname(), b"Escape".to_vec());
    assert_eq!(key.string(), Vec::<u8>::new());
    assert_eq!(key.keycode(), 9);
}

#[test]
fn modifier_lookup_is_exact() {
    let m = Modifier { names: vec![String::from("Control"), String::from("Alt")] };
    assert!(m.is_set("Control"));
    assert!(m.is_set("Alt"));
    assert!(!m.is_set("control"));
    assert!(!m.is_set(""));
    let empty = Modifier { names: vec![] };
    assert!(!empty.is_set("Control"));
}
