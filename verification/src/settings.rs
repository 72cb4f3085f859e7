use vstd::prelude::*;

verus! {

/// A colour packed as the Win32 `COLORREF`: red in the low byte, then green, then blue.
#[derive(Clone, Copy, Debug, PartialEq, Eq, Structural)]
pub struct ColorRef(pub u32);

/// The packed value of a colour with the given intensities.
pub open spec fn rgb_value(red: u8, green: u8, blue: u8) -> u32 {
    (red as u32) | ((green as u32) << 8u32) | ((blue as u32) << 16u32)
}

impl ColorRef {
    pub open spec fn red(self) -> u8 {
        (self.0 & 0xffu32) as u8
    }

    pub open spec fn green(self) -> u8 {
        ((self.0 >> 8u32) & 0xffu32) as u8
    }

    pub open spec fn blue(self) -> u8 {
        ((self.0 >> 16u32) & 0xffu32) as u8
    }

    pub fn from_rgb(red: u8, green: u8, blue: u8) -> (c: ColorRef)
        ensures
            c.0 == rgb_value(red, green, blue),
            c.red() == red,
            c.green() == green,
            c.blue() == blue,
    {
        proof {
            lemma_rgb_roundtrip(red, green, blue);
        }
        ColorRef((red as u32) | ((green as u32) << 8u32) | ((blue as u32) << 16u32))
    }

    pub fn get_r_value(self) -> (r: u8)
        ensures
            r == self.red(),
    {
        (self.0 & 0xffu32) as u8
    }

    pub fn get_g_value(self) -> (r: u8)
        ensures
            r == self.green(),
    {
        ((self.0 >> 8u32) & 0xffu32) as u8
    }

    pub fn get_b_value(self) -> (r: u8)
        ensures
            r == self.blue(),
    {
        ((self.0 >> 16u32) & 0xffu32) as u8
    }
}

/// Reading the intensities back out of a packed colour gives the intensities it was made of.
pub proof fn lemma_rgb_roundtrip(red: u8, green: u8, blue: u8)
    ensures
        ColorRef(rgb_value(red, green, blue)).red() == red,
        ColorRef(rgb_value(red, green, blue)).green() == green,
        ColorRef(rgb_value(red, green, blue)).blue() == blue,
{
    assert(((red as u32) | ((green as u32) << 8u32) | ((blue as u32) << 16u32)) & 0xffu32 == red as u32)
        by (bit_vector);
    assert(((((red as u32) | ((green as u32) << 8u32) | ((blue as u32) << 16u32)) >> 8u32) & 0xffu32)
        == green as u32) by (bit_vector);
    assert(((((red as u32) | ((green as u32) << 8u32) | ((blue as u32) << 16u32)) >> 16u32) & 0xffu32)
        == blue as u32) by (bit_vector);
}


/// The colour key drawn where the bar is transparent over a dark taskbar.
pub open spec fn spec_transparency_key_dark() -> ColorRef {
    ColorRef(rgb_value(0, 0, 0))
}

/// The colour key drawn where the bar is transparent over a light taskbar.
pub open spec fn spec_transparency_key_light() -> ColorRef {
    ColorRef(rgb_value(255, 255, 255))
}

pub fn transparency_key_dark() -> (c: ColorRef)
    ensures
        c == spec_transparency_key_dark(),
{
    ColorRef::from_rgb(0, 0, 0)
}

pub fn transparency_key_light() -> (c: ColorRef)
    ensures
        c == spec_transparency_key_light(),
{
    ColorRef::from_rgb(255, 255, 255)
}

/// A colour as the system's UI settings report it.
#[derive(Clone, Copy, Debug, PartialEq, Eq, Structural)]
pub struct UiColor {
    pub r: u8,
    pub g: u8,
    pub b: u8,
}

/// Which accent colour of the system the focused workspace is drawn in.
#[derive(Clone, Copy, Debug, PartialEq, Eq, Structural)]
pub enum AccentKind {
    AccentDark1,
    AccentLight2,
}

/// The system draws black text exactly in light mode.
pub open spec fn is_black(c: UiColor) -> bool {
    c.r == 0 && c.g == 0 && c.b == 0
}

pub open spec fn spec_accent_for(foreground: UiColor) -> AccentKind {
    if is_black(foreground) {
        AccentKind::AccentDark1
    } else {
        AccentKind::AccentLight2
    }
}

/// The colours the bar draws with.
#[derive(Clone, Copy, Debug, PartialEq, Eq, Structural)]
pub struct ColorSettings {
    pub nonempty: ColorRef,
    pub focused: ColorRef,
    pub empty: ColorRef,
    pub monocle: ColorRef,
    pub maximized: ColorRef,
    pub foreground: ColorRef,
}

/// The palette for a system whose text colour is `foreground`, with `accent` the accent
/// colour that `spec_accent_for(foreground)` names.
pub open spec fn spec_colors_from_system(foreground: UiColor, accent: UiColor) -> ColorSettings {
    let light = is_black(foreground);
    ColorSettings {
        nonempty: if light { ColorRef(rgb_value(150, 150, 150)) } else { ColorRef(rgb_value(100, 100, 100)) },
        focused: ColorRef(rgb_value(accent.r, accent.g, accent.b)),
        empty: if light { ColorRef(rgb_value(200, 200, 200)) } else { ColorRef(rgb_value(50, 50, 50)) },
        monocle: if light { ColorRef(rgb_value(255, 135, 210)) } else { ColorRef(rgb_value(225, 21, 123)) },
        maximized: if light { ColorRef(rgb_value(180, 215, 215)) } else { ColorRef(rgb_value(10, 102, 194)) },
        foreground: if light { ColorRef(rgb_value(0, 0, 0)) } else { ColorRef(rgb_value(255, 255, 255)) },
    }
}

impl ColorSettings {
    pub open spec fn spec_is_light_mode(self) -> bool {
        self.foreground.red() == 0 && self.foreground.green() == 0 && self.foreground.blue() == 0
    }

    pub open spec fn spec_color_key(self) -> ColorRef {
        if self.spec_is_light_mode() {
            spec_transparency_key_light()
        } else {
            spec_transparency_key_dark()
        }
    }

    /// The palette for the system colours read from the UI settings.
    pub fn new(foreground: UiColor, accent: UiColor) -> (c: ColorSettings)
        ensures
            c == spec_colors_from_system(foreground, accent),
    {
        Self::get_colors_from_system(foreground, accent)
    }

    /// Which accent colour of the system the palette for `foreground` takes.
    pub fn accent_for(foreground: UiColor) -> (k: AccentKind)
        ensures
            k == spec_accent_for(foreground),
    {
        if foreground.r == 0 && foreground.g == 0 && foreground.b == 0 {
            AccentKind::AccentDark1
        } else {
            AccentKind::AccentLight2
        }
    }

    pub fn is_light_mode(&self) -> (r: bool)
        ensures
            r == self.spec_is_light_mode(),
    {
        self.foreground.get_r_value() == 0 && self.foreground.get_g_value() == 0
            && self.foreground.get_b_value() == 0
    }

    pub fn get_color_key(&self) -> (c: ColorRef)
        ensures
            c == self.spec_color_key(),
    {
        if self.is_light_mode() {
            transparency_key_light()
        } else {
            transparency_key_dark()
        }
    }

    pub fn get_colors_from_system(foreground: UiColor, accent: UiColor) -> (c: ColorSettings)
        ensures
            c == spec_colors_from_system(foreground, accent),
    {
        let is_light_mode = foreground.r == 0 && foreground.g == 0 && foreground.b == 0;
        let foreground = if is_light_mode {
            ColorRef::from_rgb(0, 0, 0)
        } else {
            ColorRef::from_rgb(255, 255, 255)
        };
        let focused = ColorRef::from_rgb(accent.r, accent.g, accent.b);
        let nonempty = if is_light_mode {
            ColorRef::from_rgb(150, 150, 150)
        } else {
            ColorRef::from_rgb(100, 100, 100)
        };
        let empty = if is_light_mode {
            ColorRef::from_rgb(200, 200, 200)
        } else {
            ColorRef::from_rgb(50, 50, 50)
        };
        let monocle = if is_light_mode {
            ColorRef::from_rgb(255, 135, 210)
        } else {
            ColorRef::from_rgb(225, 21, 123)
        };
        let maximized = if is_light_mode {
            ColorRef::from_rgb(180, 215, 215)
        } else {
            ColorRef::from_rgb(10, 102, 194)
        };
        ColorSettings { nonempty, focused, empty, monocle, maximized, foreground }
    }
}

/// A palette made from the system colours is in light mode exactly when the system
/// draws black text.
pub proof fn lemma_system_palette_mode(foreground: UiColor, accent: UiColor)
    ensures
        spec_colors_from_system(foreground, accent).spec_is_light_mode() == is_black(foreground),
{
    lemma_rgb_roundtrip(0, 0, 0);
    lemma_rgb_roundtrip(255, 255, 255);
}

/// On a palette made from the system colours, text is never drawn in the transparency key,
/// so it never disappears into the background.
pub proof fn lemma_text_not_transparent(foreground: UiColor, accent: UiColor)
    ensures
        spec_colors_from_system(foreground, accent).foreground
            != spec_colors_from_system(foreground, accent).spec_color_key(),
{
    lemma_rgb_roundtrip(0, 0, 0);
    lemma_rgb_roundtrip(255, 255, 255);
}

/// The face of the bar's font in light mode.
pub open spec fn light_font_name() -> Seq<char> {
    "Segoe UI Variable Text Semibold"@
}

/// The face of the bar's font in dark mode.
pub open spec fn dark_font_name() -> Seq<char> {
    "Segoe UI Variable Text"@
}

/// What the bar draws with: its font's face and its colours.
pub struct Settings {
    pub font_name: String,
    pub colors: ColorSettings,
}

impl Settings {
    pub fn new(colors: ColorSettings) -> (s: Settings)
        ensures
            s.colors == colors,
            s.font_name@ == if colors.spec_is_light_mode() {
                light_font_name()
            } else {
                dark_font_name()
            },
    {
        let font_name = if colors.is_light_mode() {
            "Segoe UI Variable Text Semibold".to_string()
        } else {
            "Segoe UI Variable Text".to_string()
        };
        Settings { font_name, colors }
    }
}

} // verus!
