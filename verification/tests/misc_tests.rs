use xege::enums::BkMode;
use xege::error::GR_OK;
use xege::geom::flatten_lines;
use xege::geom::flatten_pixel_points;
use xege::geom::flatten_points;
use xege::msg::decode_key_event;
use xege::msg::KEY_FLAG_CTRL;
use xege::msg::KEY_FLAG_FIRST_DOWN;
use xege::msg::KEY_FLAG_SHIFT;
use xege::msg::KEY_MSG_CHAR;
use xege::msg::KEY_MSG_DOWN;
use xege::msg::KEY_MSG_UP;
use xege::rop::derive_rop2;
use xege::rop::derive_rop3;
use xege::AlphaType;
use xege::Color;
use xege::FillPattern;
use xege::Key;
use xege::KeyFlags;
use xege::KeyMsg;
use xege::Line;
use xege::LineCap;
use xege::LineJoin;
use xege::LineStyle;
use xege::MouseMsg;
use xege::PathFillMode;
use xege::PixelPoint;
use xege::Point;
use xege::TextHAlign;
use xege::TextVAlign;

#[test]
fn rop2_known_codes() {
    // copy mode: the pen probe itself, 0b1100 + 1
    assert_eq!(derive_rop2(|p, _d| p), 13);
    // and mode: 0b1100 & 0b1010 = 0b1000, + 1
    assert_eq!(derive_rop2(|p, d| p & d), 9);
    // xor mode: 0b0110, + 1
    assert_eq!(derive_rop2(|p, d| p ^ d), 7);
    // black mode: 0 + 1
    assert_eq!(derive_rop2(|_p, _d| 0), 1);
}

#[test]
fn rop3_known_codes() {
    // source copy: the source probe mask
    assert_eq!(derive_rop3(|_p, s, _d| s), 0xCC0000);
    // DPSao: (s & p) | d
    assert_eq!(derive_rop3(|p, s, d| (s & p) | d), (0xCC0000 & 0xF00000) | 0xAA0000);
    // DPo: d | p
    assert_eq!(derive_rop3(|p, _s, d| d | p), 0xFA0000);
}

#[test]
fn key_event_decoding() {
    let down = decode_key_event(KEY_MSG_DOWN, 0x41, 0).unwrap();
    assert_eq!(down.0, KeyMsg::Down(Key::A));
    assert_eq!(down.1, KeyFlags::none());

    let up = decode_key_event(KEY_MSG_UP, 13, KEY_FLAG_SHIFT).unwrap();
    assert_eq!(up.0, KeyMsg::Up(Key::Enter));
    assert_eq!(up.1, KeyFlags::shift());

    let ch = decode_key_event(KEY_MSG_CHAR, 'q' as u32, KEY_FLAG_CTRL | KEY_FLAG_FIRST_DOWN)
        .unwrap();
    assert_eq!(ch.0, KeyMsg::Char('q'));
    assert_eq!(ch.1, KeyFlags::ctrl().or(KeyFlags::first()));
}

#[test]
fn key_event_rejects_unknown_message_and_bad_char() {
    assert!(decode_key_event(8, 0x41, 0).is_none());
    assert!(decode_key_event(KEY_MSG_CHAR, 0xD800, 0).is_none());
    assert!(decode_key_event(KEY_MSG_CHAR, 0x110000, 0).is_none());
}

#[test]
fn mouse_msg_queries() {
    let m = MouseMsg { msg: 64, flags: 1 | 4, x: 10, y: -3, wheel: 0 };
    assert!(m.is_move());
    assert!(!m.is_down());
    assert!(!m.is_up());
    assert!(m.is_left());
    assert!(!m.is_right());
    assert!(m.is_middle());
    assert!(!m.is_wheel());
    let p = m.pos();
    assert_eq!((p.x, p.y), (10, -3));

    let w = MouseMsg { msg: 128, flags: 0, x: 0, y: 0, wheel: -120 };
    assert!(w.is_wheel());
    assert!(!w.is_move());
    assert_eq!(w.wheel(), -120);

    let not_wheel = MouseMsg { msg: 16, flags: 128, x: 0, y: 0, wheel: 0 };
    assert!(!not_wheel.is_wheel());
}

#[test]
fn flatten_points_interleaves() {
    let pts = [Point { x: 1, y: 2 }, Point { x: 3, y: 4 }, Point { x: -5, y: 6 }];
    assert_eq!(flatten_points(&pts), vec![1, 2, 3, 4, -5, 6]);
    assert_eq!(flatten_points(&[]), Vec::<i32>::new());
}

#[test]
fn flatten_lines_interleaves() {
    let lines = [Line { x1: 1, y1: 2, x2: 3, y2: 4 }, Line { x1: 5, y1: 6, x2: 7, y2: 8 }];
    assert_eq!(flatten_lines(&lines), vec![1, 2, 3, 4, 5, 6, 7, 8]);
}

#[test]
fn flatten_pixel_points_packs_colors() {
    let pts = [PixelPoint { x: 9, y: 8, color: Color::rgb(1, 2, 3) }];
    assert_eq!(flatten_pixel_points(&pts), vec![9, 8, 0xFF010203u32 as i32]);
}

#[test]
fn style_enum_codes() {
    assert_eq!(FillPattern::Empty.code(), 0);
    assert_eq!(FillPattern::Solid.code(), 1);
    assert_eq!(FillPattern::UserDefined.code(), 12);
    assert_eq!(LineStyle::Solid.code(), 0);
    assert_eq!(LineStyle::Null.code(), 5);
    assert_eq!(LineStyle::UserDef(0xAAAA).code(), 7);
    assert_eq!(LineStyle::from_code(7), Some(LineStyle::UserDef(0)));
    assert_eq!(LineStyle::from_code(4), None);
    assert_eq!(LineCap::from_code(2), Some(LineCap::Round));
    assert_eq!(LineCap::from_code(3), None);
    assert_eq!(LineJoin::Miter.code(), 0);
    assert_eq!(LineJoin::Bevel.code(), 1);
    assert_eq!(LineJoin::Round.code(), 2);
    assert_eq!(TextHAlign::Left.code(), 0);
    assert_eq!(TextVAlign::Bottom.code(), 2);
    assert_eq!(AlphaType::Straight.code(), 0);
    assert_eq!(AlphaType::PreMultiplied.code(), 1);
    assert_eq!(PathFillMode::Default.code(), 0);
    assert_eq!(PathFillMode::Alternate.code(), 1);
    assert_eq!(PathFillMode::Winding.code(), 2);
    assert_eq!(BkMode::Transparent.code(), 1);
    assert_eq!(BkMode::Opaque.code(), 2);
    assert_eq!(GR_OK, 0);
}

#[test]
fn linestyle_decode_keeps_user_pattern() {
    assert_eq!(LineStyle::decode(7, 0xAAAA), Some(LineStyle::UserDef(0xAAAA)));
    assert_eq!(LineStyle::decode(0, 0xAAAA), Some(LineStyle::Solid));
    assert_eq!(LineStyle::decode(4, 0), None);
}
