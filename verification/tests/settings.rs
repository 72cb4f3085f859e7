use komoswitch::settings::{
    transparency_key_dark, transparency_key_light, AccentKind, ColorRef, ColorSettings, Settings, UiColor,
};

const BLACK: UiColor = UiColor { r: 0, g: 0, b: 0 };
const WHITE: UiColor = UiColor { r: 255, g: 255, b: 255 };
const ACCENT: UiColor = UiColor { r: 0, g: 120, b: 215 };

#[test]
fn from_rgb_packs_red_low() {
    assert_eq!(ColorRef::from_rgb(0xff, 0x80, 0x00), ColorRef(0x0080ff));
    assert_eq!(ColorRef::from_rgb(1, 2, 3), ColorRef(0x030201));
}

#[test]
fn intensities_read_back() {
    let c = ColorRef::from_rgb(12, 200, 99);
    assert_eq!(c.get_r_value(), 12);
    assert_eq!(c.get_g_value(), 200);
    assert_eq!(c.get_b_value(), 99);
}

#[test]
fn intensities_ignore_high_byte() {
    let c = ColorRef(0xAB_01_02_03);
    assert_eq!(c.get_r_value(), 3);
    assert_eq!(c.get_g_value(), 2);
    assert_eq!(c.get_b_value(), 1);
}

#[test]
fn transparency_keys() {
    assert_eq!(transparency_key_dark(), ColorRef(0));
    assert_eq!(transparency_key_light(), ColorRef(0xffffff));
}

#[test]
fn accent_follows_mode() {
    assert_eq!(ColorSettings::accent_for(BLACK), AccentKind::AccentDark1);
    assert_eq!(ColorSettings::accent_for(WHITE), AccentKind::AccentLight2);
    assert_eq!(ColorSettings::accent_for(UiColor { r: 0, g: 0, b: 1 }), AccentKind::AccentLight2);
}

#[test]
fn light_palette() {
    let c = ColorSettings::get_colors_from_system(BLACK, ACCENT);
    assert!(c.is_light_mode());
    assert_eq!(c.foreground, ColorRef::from_rgb(0, 0, 0));
    assert_eq!(c.focused, ColorRef::from_rgb(0, 120, 215));
    assert_eq!(c.nonempty, ColorRef::from_rgb(150, 150, 150));
    assert_eq!(c.empty, ColorRef::from_rgb(200, 200, 200));
    assert_eq!(c.monocle, ColorRef::from_rgb(255, 135, 210));
    assert_eq!(c.maximized, ColorRef::from_rgb(180, 215, 215));
    assert_eq!(c.get_color_key(), transparency_key_light());
}

#[test]
fn dark_palette() {
    let c = ColorSettings::new(WHITE, ACCENT);
    assert!(!c.is_light_mode());
    assert_eq!(c.foreground, ColorRef::from_rgb(255, 255, 255));
    assert_eq!(c.focused, ColorRef::from_rgb(0, 120, 215));
    assert_eq!(c.nonempty, ColorRef::from_rgb(100, 100, 100));
    assert_eq!(c.empty, ColorRef::from_rgb(50, 50, 50));
    assert_eq!(c.monocle, ColorRef::from_rgb(225, 21, 123));
    assert_eq!(c.maximized, ColorRef::from_rgb(10, 102, 194));
    assert_eq!(c.get_color_key(), transparency_key_dark());
}

#[test]
fn text_never_in_transparency_key() {
    for fg in [BLACK, WHITE, UiColor { r: 30, g: 0, b: 0 }] {
        let c = ColorSettings::new(fg, ACCENT);
        assert_ne!(c.foreground, c.get_color_key());
    }
}

#[test]
fn light_mode_needs_pure_black_text() {
    let c = ColorSettings::new(UiColor { r: 0, g: 1, b: 0 }, ACCENT);
    assert!(!c.is_light_mode());
}

#[test]
fn font_face_follows_mode() {
    let light = Settings::new(ColorSettings::new(BLACK, ACCENT));
    assert_eq!(light.font_name, "Segoe UI Variable Text Semibold");
    let dark = Settings::new(ColorSettings::new(WHITE, ACCENT));
    assert_eq!(dark.font_name, "Segoe UI Variable Text");
    assert_eq!(dark.colors, ColorSettings::new(WHITE, ACCENT));
}
