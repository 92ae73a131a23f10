//! Colours, spacing and type of the dark and light looks.
use crate::text::strip_prefixes;
use vstd::prelude::*;

verus! {

/// An RGB colour.
#[derive(Debug, Clone, Copy, PartialEq, Eq, Structural)]
pub struct Color {
    pub r: u8,
    pub g: u8,
    pub b: u8,
}

/// The value of one hexadecimal digit, either case.
pub open spec fn hex_digit_value(c: char) -> Option<u8> {
    if '0' <= c && c <= '9' {
        Some((c as u32 - '0' as u32) as u8)
    } else if 'a' <= c && c <= 'f' {
        Some((c as u32 - 'a' as u32 + 10) as u8)
    } else if 'A' <= c && c <= 'F' {
        Some((c as u32 - 'A' as u32 + 10) as u8)
    } else {
        None
    }
}

/// The byte two characters give when read in base 16 as `u8::from_str_radix`
/// reads them: two digits, or a `+` sign and one digit.
pub open spec fn hex_byte(a: char, b: char) -> Option<u8> {
    match (hex_digit_value(a), hex_digit_value(b)) {
        (Some(x), Some(y)) => Some((16 * x + y) as u8),
        (None, Some(y)) => if a == '+' {
            Some(y)
        } else {
            None
        },
        _ => None,
    }
}

/// The colour written as `RRGGBB` after any leading `#` signs.
pub open spec fn color_of_hex(s: Seq<char>) -> Option<Color> {
    let t = strip_prefixes(s, seq!['#']);
    if t.len() != 6 {
        None
    } else {
        match (hex_byte(t[0], t[1]), hex_byte(t[2], t[3]), hex_byte(t[4], t[5])) {
            (Some(r), Some(g), Some(b)) => Some(Color { r, g, b }),
            _ => None,
        }
    }
}

fn digit_value(c: char) -> (r: Option<u8>)
    ensures
        r == hex_digit_value(c),
{
    if '0' <= c && c <= '9' {
        Some((c as u32 - '0' as u32) as u8)
    } else if 'a' <= c && c <= 'f' {
        Some((c as u32 - 'a' as u32 + 10) as u8)
    } else if 'A' <= c && c <= 'F' {
        Some((c as u32 - 'A' as u32 + 10) as u8)
    } else {
        None
    }
}

fn byte_value(a: char, b: char) -> (r: Option<u8>)
    ensures
        r == hex_byte(a, b),
{
    match (digit_value(a), digit_value(b)) {
        (Some(x), Some(y)) => Some(16 * x + y),
        (None, Some(y)) => if a == '+' {
            Some(y)
        } else {
            None
        },
        _ => None,
    }
}

impl Color {
    pub fn new(r: u8, g: u8, b: u8) -> (c: Color)
        ensures
            c == (Color { r, g, b }),
    {
        Color { r, g, b }
    }

    /// Read a colour written as `RRGGBB`, after any leading `#` signs; `None` for
    /// anything else.
    pub fn from_hex(hex: &str) -> (r: Option<Color>)
        ensures
            r == color_of_hex(hex@),
    {
        let n = hex.unicode_len();
        let mut k: usize = 0;
        assert(hex@.skip(0) =~= hex@);
        while k < n && hex.get_char(k) == '#'
            invariant
                0 <= k <= n,
                n == hex@.len(),
                strip_prefixes(hex@, seq!['#']) == strip_prefixes(hex@.skip(k as int), seq!['#']),
            decreases n - k,
        {
            let ghost rest = hex@.skip(k as int);
            assert(rest.take(1) =~= seq!['#']);
            assert(rest.skip(1) =~= hex@.skip(k + 1));
            k = k + 1;
        }
        let ghost t = hex@.skip(k as int);
        assert(k < n ==> t.take(1) != seq!['#']) by {
            if k < n {
                assert(t.take(1)[0] == hex@[k as int]);
            }
        }
        if n - k != 6 {
            return None;
        }
        let r = byte_value(hex.get_char(k), hex.get_char(k + 1));
        let g = byte_value(hex.get_char(k + 2), hex.get_char(k + 3));
        let b = byte_value(hex.get_char(k + 4), hex.get_char(k + 5));
        match (r, g, b) {
            (Some(r), Some(g), Some(b)) => Some(Color { r, g, b }),
            _ => None,
        }
    }
}

/// The colours of one look.
#[derive(Debug, Clone)]
pub struct ColorPalette {
    pub bg_window: Color,
    pub bg_toolbar: Color,
    pub bg_tab_active: Color,
    pub bg_tab_inactive: Color,
    pub text_primary: Color,
    pub text_secondary: Color,
    pub accent: Color,
    pub accent_hover: Color,
    pub success: Color,
    pub warning: Color,
    pub error: Color,
    pub border_subtle: Color,
}

impl ColorPalette {
    /// The dark palette.
    pub fn dark() -> (p: ColorPalette)
        ensures
            p.bg_window == (Color { r: 17, g: 24, b: 39 }),
            p.bg_toolbar == (Color { r: 31, g: 41, b: 51 }),
            p.bg_tab_active == (Color { r: 17, g: 24, b: 39 }),
            p.bg_tab_inactive == (Color { r: 31, g: 41, b: 51 }),
            p.text_primary == (Color { r: 249, g: 250, b: 251 }),
            p.text_secondary == (Color { r: 156, g: 163, b: 175 }),
            p.accent == (Color { r: 59, g: 130, b: 246 }),
            p.accent_hover == (Color { r: 96, g: 165, b: 250 }),
            p.success == (Color { r: 34, g: 197, b: 94 }),
            p.warning == (Color { r: 251, g: 191, b: 36 }),
            p.error == (Color { r: 248, g: 113, b: 113 }),
            p.border_subtle == (Color { r: 55, g: 65, b: 81 }),
    {
        ColorPalette {
            bg_window: Color::new(17, 24, 39),
            bg_toolbar: Color::new(31, 41, 51),
            bg_tab_active: Color::new(17, 24, 39),
            bg_tab_inactive: Color::new(31, 41, 51),
            text_primary: Color::new(249, 250, 251),
            text_secondary: Color::new(156, 163, 175),
            accent: Color::new(59, 130, 246),
            accent_hover: Color::new(96, 165, 250),
            success: Color::new(34, 197, 94),
            warning: Color::new(251, 191, 36),
            error: Color::new(248, 113, 113),
            border_subtle: Color::new(55, 65, 81),
        }
    }

    /// The light palette.
    pub fn light() -> (p: ColorPalette)
        ensures
            p.bg_window == (Color { r: 249, g: 250, b: 251 }),
            p.bg_toolbar == (Color { r: 229, g: 231, b: 235 }),
            p.bg_tab_active == (Color { r: 255, g: 255, b: 255 }),
            p.bg_tab_inactive == (Color { r: 229, g: 231, b: 235 }),
            p.text_primary == (Color { r: 17, g: 24, b: 39 }),
            p.text_secondary == (Color { r: 75, g: 85, b: 99 }),
            p.accent == (Color { r: 37, g: 99, b: 235 }),
            p.accent_hover == (Color { r: 29, g: 78, b: 216 }),
            p.success == (Color { r: 22, g: 163, b: 74 }),
            p.warning == (Color { r: 234, g: 179, b: 8 }),
            p.error == (Color { r: 220, g: 38, b: 38 }),
            p.border_subtle == (Color { r: 209, g: 213, b: 219 }),
    {
        ColorPalette {
            bg_window: Color::new(249, 250, 251),
            bg_toolbar: Color::new(229, 231, 235),
            bg_tab_active: Color::new(255, 255, 255),
            bg_tab_inactive: Color::new(229, 231, 235),
            text_primary: Color::new(17, 24, 39),
            text_secondary: Color::new(75, 85, 99),
            accent: Color::new(37, 99, 235),
            accent_hover: Color::new(29, 78, 216),
            success: Color::new(22, 163, 74),
            warning: Color::new(234, 179, 8),
            error: Color::new(220, 38, 38),
            border_subtle: Color::new(209, 213, 219),
        }
    }
}

/// Spacing in pixels.
#[derive(Debug, Clone)]
pub struct Spacing {
    pub unit: i32,
    pub small: i32,
    pub standard: i32,
    pub large: i32,
}

impl Default for Spacing {
    fn default() -> (r: Spacing)
        ensures
            r.unit == 4 && r.small == 4 && r.standard == 8 && r.large == 12,
    {
        Spacing { unit: 4, small: 4, standard: 8, large: 12 }
    }
}

/// Corner radii in whole pixels.
#[derive(Debug, Clone)]
pub struct Radii {
    pub button: u16,
    pub tab: u16,
    pub field: u16,
    pub panel: u16,
}

impl Default for Radii {
    fn default() -> (r: Radii)
        ensures
            r.button == 4 && r.tab == 4 && r.field == 6 && r.panel == 6,
    {
        Radii { button: 4, tab: 4, field: 6, panel: 6 }
    }
}

/// Text sizes in points, and the font stack.
#[derive(Debug, Clone)]
pub struct Typography {
    pub base_size: u16,
    pub tab_size: u16,
    pub menu_size: u16,
    pub font_family: String,
}

/// The font stack of the default typography.
pub const DEFAULT_FONT_FAMILY: &'static str = "system-ui, -apple-system, BlinkMacSystemFont, 'Segoe UI', sans-serif";

impl Default for Typography {
    fn default() -> (r: Typography)
        ensures
            r.base_size == 14 && r.tab_size == 13 && r.menu_size == 13,
            r.font_family@ == DEFAULT_FONT_FAMILY@,
    {
        Typography { base_size: 14, tab_size: 13, menu_size: 13, font_family: DEFAULT_FONT_FAMILY.to_string() }
    }
}

/// A named look: palette, spacing, radii and type.
#[derive(Debug, Clone)]
pub struct Theme {
    name: String,
    palette: ColorPalette,
    spacing: Spacing,
    radii: Radii,
    typography: Typography,
}

impl Theme {
    pub closed spec fn spec_name(&self) -> Seq<char> {
        self.name@
    }

    pub closed spec fn spec_palette(&self) -> ColorPalette {
        self.palette
    }

    pub closed spec fn spec_spacing(&self) -> Spacing {
        self.spacing
    }

    pub closed spec fn spec_radii(&self) -> Radii {
        self.radii
    }

    pub closed spec fn spec_typography(&self) -> Typography {
        self.typography
    }

    /// A look with the given name and palette and the default spacing, radii and type.
    pub fn new(name: &str, palette: ColorPalette) -> (r: Theme)
        ensures
            r.spec_name() == name@,
            r.spec_palette() == palette,
            r.spec_spacing().unit == 4 && r.spec_spacing().small == 4,
            r.spec_spacing().standard == 8 && r.spec_spacing().large == 12,
            r.spec_radii().button == 4 && r.spec_radii().tab == 4,
            r.spec_radii().field == 6 && r.spec_radii().panel == 6,
            r.spec_typography().base_size == 14,
            r.spec_typography().tab_size == 13 && r.spec_typography().menu_size == 13,
            r.spec_typography().font_family@ == DEFAULT_FONT_FAMILY@,
    {
        Theme {
            name: name.to_string(),
            palette,
            spacing: Spacing::default(),
            radii: Radii::default(),
            typography: Typography::default(),
        }
    }

    pub fn name(&self) -> (r: &str)
        ensures
            r@ == self.spec_name(),
    {
        self.name.as_str()
    }

    pub fn palette(&self) -> (r: &ColorPalette)
        ensures
            *r == self.spec_palette(),
    {
        &self.palette
    }

    pub fn spacing(&self) -> (r: &Spacing)
        ensures
            *r == self.spec_spacing(),
    {
        &self.spacing
    }

    pub fn radii(&self) -> (r: &Radii)
        ensures
            *r == self.spec_radii(),
    {
        &self.radii
    }

    pub fn typography(&self) -> (r: &Typography)
        ensures
            *r == self.spec_typography(),
    {
        &self.typography
    }

    pub fn font_family(&self) -> (r: &str)
        ensures
            r@ == self.spec_typography().font_family@,
    {
        self.typography.font_family.as_str()
    }

    pub fn font_size(&self) -> (r: u16)
        ensures
            r == self.spec_typography().base_size,
    {
        self.typography.base_size
    }
}

impl Default for Theme {
    /// The dark look.
    fn default() -> (r: Theme)
        ensures
            r.spec_name() == "Dark"@,
            r.spec_palette().bg_window == (Color { r: 17, g: 24, b: 39 }),
    {
        Theme::new("Dark", ColorPalette::dark())
    }
}

} // verus!
