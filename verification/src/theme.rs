//! Theme colors and the look of buttons.
use vstd::prelude::*;
use vstd::string::StringSliceAdditionalSpecFns;
use vstd::utf8::{decode_utf8, encode_utf8, encode_utf8_decode_utf8, is_char_boundary};
use crate::text::{chars_of, string_from_chars};

verus! {

/// A color by its alpha, red, green and blue channels.
#[derive(Clone, Copy, Debug, PartialEq, Eq)]
pub struct Rgba {
    pub a: u8,
    pub r: u8,
    pub g: u8,
    pub b: u8,
}

/// An opaque color.
pub open spec fn rgb(r: u8, g: u8, b: u8) -> Rgba {
    Rgba { a: 255, r, g, b }
}

pub fn from_rgb(r: u8, g: u8, b: u8) -> (c: Rgba)
    ensures
        c == rgb(r, g, b),
{
    Rgba { a: 255, r, g, b }
}

pub fn from_argb(a: u8, r: u8, g: u8, b: u8) -> (c: Rgba)
    ensures
        c == (Rgba { a, r, g, b }),
{
    Rgba { a, r, g, b }
}

impl Rgba {
    /// The same color with alpha `a`.
    pub fn with_a(&self, a: u8) -> (c: Rgba)
        ensures
            c == (Rgba { a, ..*self }),
    {
        Rgba { a, r: self.r, g: self.g, b: self.b }
    }
}

pub open spec fn transparent() -> Rgba {
    Rgba { a: 0, r: 0, g: 0, b: 0 }
}

pub fn brand() -> (c: Rgba)
    ensures
        c == rgb(88, 101, 242),
{
    from_rgb(88, 101, 242)
}

pub fn fg_primary() -> (c: Rgba)
    ensures
        c == rgb(255, 255, 255),
{
    from_rgb(255, 255, 255)
}

pub fn fg_secondary() -> (c: Rgba)
    ensures
        c == rgb(180, 180, 180),
{
    from_rgb(180, 180, 180)
}

/// Text on the brand color: white.
pub fn fg_on_brand() -> (c: Rgba)
    ensures
        c == rgb(255, 255, 255),
{
    from_rgb(255, 255, 255)
}

pub fn component_bg() -> (c: Rgba)
    ensures
        c == rgb(40, 40, 40),
{
    from_rgb(40, 40, 40)
}

pub fn component_border() -> (c: Rgba)
    ensures
        c == rgb(80, 80, 80),
{
    from_rgb(80, 80, 80)
}

pub fn page_elevated() -> (c: Rgba)
    ensures
        c == rgb(30, 30, 30),
{
    from_rgb(30, 30, 30)
}

pub fn ghost_overlay_hover() -> (c: Rgba)
    ensures
        c == (Rgba { a: 20, r: 255, g: 255, b: 255 }),
{
    from_argb(20, 255, 255, 255)
}

pub fn success() -> (c: Rgba)
    ensures
        c == rgb(67, 181, 129),
{
    from_rgb(67, 181, 129)
}

pub fn danger() -> (c: Rgba)
    ensures
        c == rgb(237, 66, 69),
{
    from_rgb(237, 66, 69)
}

// ---------------------------------------------------------------------------
// Buttons
// ---------------------------------------------------------------------------

#[derive(Clone, Copy, Debug, PartialEq, Eq)]
pub enum ButtonVariant {
    Primary,
    Secondary,
    Flat,
    Danger,
}

#[derive(Clone, Copy, Debug, PartialEq, Eq)]
pub enum ButtonSize {
    Small,
    Medium,
    Large,
}

/// What decides how a button looks: its variant, size, whether it is
/// enabled, and its label.
pub struct Button {
    pub variant: ButtonVariant,
    pub size: ButtonSize,
    pub enabled: bool,
    pub text: Option<String>,
}

/// The colors a button is drawn with.
#[derive(Clone, Copy, Debug, PartialEq, Eq)]
pub struct ButtonPalette {
    pub background: Rgba,
    pub foreground: Rgba,
    pub border: Rgba,
}

/// Background, label and border color of each variant.
pub open spec fn variant_palette(v: ButtonVariant) -> ButtonPalette {
    match v {
        ButtonVariant::Primary => ButtonPalette {
            background: rgb(88, 101, 242),
            foreground: rgb(255, 255, 255),
            border: rgb(88, 101, 242),
        },
        ButtonVariant::Secondary => ButtonPalette {
            background: rgb(40, 40, 40),
            foreground: rgb(255, 255, 255),
            border: rgb(80, 80, 80),
        },
        ButtonVariant::Flat => ButtonPalette {
            background: transparent(),
            foreground: rgb(255, 255, 255),
            border: transparent(),
        },
        ButtonVariant::Danger => ButtonPalette {
            background: rgb(237, 66, 69),
            foreground: rgb(255, 255, 255),
            border: rgb(237, 66, 69),
        },
    }
}

impl Button {
    /// A medium, enabled primary button without a label.
    pub fn new() -> (b: Self)
        ensures
            b.variant == ButtonVariant::Primary,
            b.size == ButtonSize::Medium,
            b.enabled,
            b.text is None,
    {
        Button { variant: ButtonVariant::Primary, size: ButtonSize::Medium, enabled: true, text: None }
    }

    pub fn primary(self) -> (b: Self)
        ensures
            b == (Button { variant: ButtonVariant::Primary, ..self }),
    {
        Button { variant: ButtonVariant::Primary, ..self }
    }

    pub fn secondary(self) -> (b: Self)
        ensures
            b == (Button { variant: ButtonVariant::Secondary, ..self }),
    {
        Button { variant: ButtonVariant::Secondary, ..self }
    }

    pub fn ghost(self) -> (b: Self)
        ensures
            b == (Button { variant: ButtonVariant::Flat, ..self }),
    {
        Button { variant: ButtonVariant::Flat, ..self }
    }

    pub fn danger(self) -> (b: Self)
        ensures
            b == (Button { variant: ButtonVariant::Danger, ..self }),
    {
        Button { variant: ButtonVariant::Danger, ..self }
    }

    pub fn small(self) -> (b: Self)
        ensures
            b == (Button { size: ButtonSize::Small, ..self }),
    {
        Button { size: ButtonSize::Small, ..self }
    }

    pub fn large(self) -> (b: Self)
        ensures
            b == (Button { size: ButtonSize::Large, ..self }),
    {
        Button { size: ButtonSize::Large, ..self }
    }

    pub fn enabled(self, enabled: bool) -> (b: Self)
        ensures
            b == (Button { enabled, ..self }),
    {
        Button { enabled, ..self }
    }

    /// Sets the label.
    pub fn text(self, text: &str) -> (b: Self)
        ensures
            b.variant == self.variant,
            b.size == self.size,
            b.enabled == self.enabled,
            b.text matches Some(t) && t@ == text@,
    {
        Button { text: Some(string_from_chars(chars_of(text).as_slice())), ..self }
    }

    /// The colors the button is drawn with: those of its variant, at half
    /// opacity (alpha 128) for the background and label when it is disabled.
    pub fn palette(&self) -> (p: ButtonPalette)
        ensures
            ({
                let base = variant_palette(self.variant);
                &&& p.border == base.border
                &&& p.background == if self.enabled {
                    base.background
                } else {
                    Rgba { a: 128, ..base.background }
                }
                &&& p.foreground == if self.enabled {
                    base.foreground
                } else {
                    Rgba { a: 128, ..base.foreground }
                }
            }),
    {
        let (bg, fg, border) = match self.variant {
            ButtonVariant::Primary => (brand(), fg_on_brand(), brand()),
            ButtonVariant::Secondary => (component_bg(), fg_primary(), component_border()),
            ButtonVariant::Flat => (
                from_argb(0, 0, 0, 0),
                fg_primary(),
                from_argb(0, 0, 0, 0),
            ),
            ButtonVariant::Danger => (danger(), fg_on_brand(), danger()),
        };
        if self.enabled {
            ButtonPalette { background: bg, foreground: fg, border }
        } else {
            ButtonPalette { background: bg.with_a(128), foreground: fg.with_a(128), border }
        }
    }

    /// Whether hovering shows the pointer cursor: only when enabled.
    pub fn shows_pointer(&self) -> (p: bool)
        ensures
            p == self.enabled,
    {
        self.enabled
    }
}

/// Every button's label is white, and for every variant the label color
/// differs from the background, whether the button is enabled or not; primary
/// and danger buttons are drawn on the brand and danger colors, bordered alike,
/// secondary ones on the component background with the component border, and
/// flat ones with no background or border at all.
pub proof fn lemma_button_labels_readable(v: ButtonVariant)
    ensures
        variant_palette(v).foreground == (Rgba { a: 255, r: 255, g: 255, b: 255 }),
        variant_palette(v).foreground != variant_palette(v).background,
        (Rgba { a: 128, ..variant_palette(v).foreground }) != (Rgba {
            a: 128,
            ..variant_palette(v).background
        }),
        v == ButtonVariant::Primary ==> variant_palette(v).background == (Rgba {
            a: 255,
            r: 88,
            g: 101,
            b: 242,
        }) && variant_palette(v).border == variant_palette(v).background,
        v == ButtonVariant::Danger ==> variant_palette(v).background == (Rgba {
            a: 255,
            r: 237,
            g: 66,
            b: 69,
        }) && variant_palette(v).border == variant_palette(v).background,
        v == ButtonVariant::Secondary ==> variant_palette(v).background == (Rgba {
            a: 255,
            r: 40,
            g: 40,
            b: 40,
        }) && variant_palette(v).border == (Rgba { a: 255, r: 80, g: 80, b: 80 }),
        v == ButtonVariant::Flat ==> variant_palette(v).background.a == 0
            && variant_palette(v).border.a == 0,
{
}

// ---------------------------------------------------------------------------
// Avatars
// ---------------------------------------------------------------------------

/// What `str::to_uppercase` makes of a string (Unicode upper-casing).
pub uninterp spec fn uppercase_of(s: Seq<char>) -> Seq<char>;

/// Calls `str::to_uppercase`. Its result follows the Unicode case tables and
/// depends on the string alone; it is named `uppercase_of`, and nothing more
/// is stated of it.
#[verifier::external_body]
fn str_to_uppercase(s: &str) -> (r: String)
    ensures
        r@ == uppercase_of(s@),
{
    s.to_uppercase()
}

/// The initials an avatar shows: the first two bytes of the account id,
/// upper-cased (`account_id[..2].to_uppercase()`).
pub fn avatar_initials(account_id: &str) -> (s: String)
    requires
        is_char_boundary(account_id.spec_bytes(), 2),
    ensures
        s@ == uppercase_of(decode_utf8(account_id.spec_bytes().subrange(0, 2))),
{
    let (head, _) = account_id.split_at(2);
    proof {
        encode_utf8_decode_utf8(head@);
        assert(head.spec_bytes() == encode_utf8(head@));
    }
    str_to_uppercase(head)
}

} // verus!
