use klava_core::shortcut::{route_shortcut, ShortcutRoute};
use klava_core::titlebar::{colorref, frame_attributes, frame_colors, FrameAttribute, CREAM, KRAFT, VIOLET, WALL};

#[test]
fn shortcut_routes() {
    assert_eq!(route_shortcut("transcribe", true, true), ShortcutRoute::Coordinator);
    assert_eq!(route_shortcut("transcribe_with_post_process", false, false), ShortcutRoute::Coordinator);
    assert_eq!(route_shortcut("cancel", true, true), ShortcutRoute::CancelIfRecording);
    assert_eq!(route_shortcut("cancel", false, true), ShortcutRoute::Ignore);
    assert_eq!(route_shortcut("cancel", true, false), ShortcutRoute::Unbound);
    assert_eq!(route_shortcut("test", true, true), ShortcutRoute::Start);
    assert_eq!(route_shortcut("test", false, true), ShortcutRoute::Stop);
    assert_eq!(route_shortcut("unknown", true, false), ShortcutRoute::Unbound);
}

#[test]
fn colorref_reverses_byte_order() {
    assert_eq!(colorref(0x12, 0x34, 0x56), 0x0056_3412);
    assert_eq!(colorref(0, 0, 0), 0);
    assert_eq!(colorref(0xff, 0xff, 0xff), 0x00ff_ffff);
    assert_eq!(colorref(0x1e, 0x16, 0x40), WALL);
    assert_eq!(colorref(0xdd, 0xd4, 0xbd), CREAM);
    assert_eq!(colorref(0xe9, 0xdf, 0xc8), KRAFT);
    assert_eq!(colorref(0x2c, 0x1a, 0x72), VIOLET);
}

#[test]
fn frame_colors_per_theme() {
    assert_eq!(frame_colors(true), (WALL, CREAM));
    assert_eq!(frame_colors(false), (KRAFT, VIOLET));
    assert_eq!(
        frame_attributes(true),
        vec![
            (FrameAttribute::CaptionColor, WALL),
            (FrameAttribute::TextColor, CREAM),
            (FrameAttribute::BorderColor, WALL),
        ]
    );
    assert_eq!(frame_attributes(false)[2], (FrameAttribute::BorderColor, KRAFT));
}
