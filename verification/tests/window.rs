use overlay::{
    encode_utf16z, WindowClassHandle, WindowHandle, CS_HREDRAW, CS_VREDRAW, WS_OVERLAPPEDWINDOW,
};

#[test]
fn utf16_encoding_matches_the_standard_encoder() {
    for s in ["", "Overlay", "fenster \u{00e9}\u{20ac}", "wide \u{1F600} pair"] {
        let mut expected: Vec<u16> = s.encode_utf16().collect();
        expected.push(0);
        assert_eq!(encode_utf16z(s), expected);
    }
}

#[test]
fn utf16_encoding_exact_values() {
    // 'A' is one unit; U+1F600 is the surrogate pair D83D DE00.
    assert_eq!(encode_utf16z("A\u{1F600}"), vec![0x41, 0xD83D, 0xDE00, 0]);
}

#[test]
fn class_build_fills_the_registration_data() {
    let h = WindowClassHandle::build("OverlayClass", 0x1111, 0x2222);
    assert_eq!(h.style, CS_HREDRAW | CS_VREDRAW);
    assert_eq!(h.style, 3);
    assert_eq!(h.process, 0x2222);
    assert_eq!(h.class_extra, 0);
    assert_eq!(h.window_extra, 0);
    assert_eq!(h.instance, 0x1111);
    assert_eq!(h.icon, 0);
    assert_eq!(h.cursor, 0);
    assert_eq!(h.background, 0);
    assert_eq!(h.menu_name, 0);
    assert_eq!(h.small_icon, 0);
    let mut expected: Vec<u16> = "OverlayClass".encode_utf16().collect();
    expected.push(0);
    assert_eq!(h.name, expected);
}

#[test]
fn window_build_takes_class_name_and_fixed_geometry() {
    let class = WindowClassHandle::build("OverlayClass", 0x1111, 0x2222);
    let w = WindowHandle::build(&class);
    assert_eq!(w.extended_style, 0);
    assert_eq!(w.class_handle_name, class.name);
    assert_eq!(w.name, class.name);
    assert_eq!(w.style, WS_OVERLAPPEDWINDOW);
    assert_eq!(w.style, 0xCF0000);
    assert_eq!((w.x, w.y, w.width, w.height), (0, 0, 100, 100));
    assert_eq!(w.parent, 0);
    assert_eq!(w.menu, 0);
    assert_eq!(w.instance, 0x1111);
    assert_eq!(w.param, 0);
    assert!(w.hwnd.is_none());
}
