//! Colour themes: the palettes, the stylesheet text built from them, and the
//! choice between a light and a dark base scheme.
use vstd::prelude::*;
use crate::text::{
    append_decimal_u64, decimal_nat, lemma_usize_text_round_trip, parse_usize, parse_usize_spec,
};

verus! {

/// A full colour scheme. The palettes are drawn from a few well-known apps but
/// stay deliberately unnamed in the UI; they are just swatches to pick from.
#[derive(Clone, Copy, Debug)]
pub struct Theme {
    pub app_bg: &'static str,
    pub rail_bg: &'static str,
    pub content_bg: &'static str,
    pub border: &'static str,
    pub ink: &'static str,
    pub accent: &'static str,
    pub accent_fg: &'static str,
    pub accent_ink: &'static str,
    pub dark: bool,
}

/// How many themes there are.
pub const COUNT: usize = 7;

/// The theme stored at slot `i`.
pub open spec fn theme_spec(i: int) -> Theme {
    if i == 0 {
        // Ours: ivory + sage green.
        Theme {
            app_bg: "#F0EDE4",
            rail_bg: "#ECE8DD",
            content_bg: "#F7F5EF",
            border: "#DED9CB",
            ink: "#24221D",
            accent: "#5F8C6B",
            accent_fg: "#FFFFFF",
            accent_ink: "#3C5E47",
            dark: false,
        }
    } else if i == 1 {
        // Ivory + clay.
        Theme {
            app_bg: "#F0EDE6",
            rail_bg: "#EDE8DE",
            content_bg: "#FAF8F3",
            border: "#E0D9CC",
            ink: "#2B2A26",
            accent: "#CC785C",
            accent_fg: "#FFFFFF",
            accent_ink: "#A24E32",
            dark: false,
        }
    } else if i == 2 {
        // Clean white + teal.
        Theme {
            app_bg: "#FFFFFF",
            rail_bg: "#F7F7F8",
            content_bg: "#FFFFFF",
            border: "#E5E5E5",
            ink: "#1F2023",
            accent: "#10A37F",
            accent_fg: "#FFFFFF",
            accent_ink: "#0E8C6D",
            dark: false,
        }
    } else if i == 3 {
        // Near-black + bright green.
        Theme {
            app_bg: "#000000",
            rail_bg: "#121212",
            content_bg: "#121212",
            border: "#282828",
            ink: "#FFFFFF",
            accent: "#1DB954",
            accent_fg: "#000000",
            accent_ink: "#1ED760",
            dark: true,
        }
    } else if i == 4 {
        // Dark + warm yellow.
        Theme {
            app_bg: "#0D0D0D",
            rail_bg: "#161616",
            content_bg: "#141414",
            border: "#2A2A2A",
            ink: "#FFFFFF",
            accent: "#FFD54A",
            accent_fg: "#000000",
            accent_ink: "#FFDB4D",
            dark: true,
        }
    } else if i == 5 {
        // Light grey + orange.
        Theme {
            app_bg: "#F2F2F2",
            rail_bg: "#FFFFFF",
            content_bg: "#FFFFFF",
            border: "#E4E4E4",
            ink: "#333333",
            accent: "#FF5500",
            accent_fg: "#FFFFFF",
            accent_ink: "#E64D00",
            dark: false,
        }
    } else {
        // Dark + red.
        Theme {
            app_bg: "#0F0F0F",
            rail_bg: "#0F0F0F",
            content_bg: "#181818",
            border: "#303030",
            ink: "#FFFFFF",
            accent: "#FF3B30",
            accent_fg: "#FFFFFF",
            accent_ink: "#FF5C54",
            dark: true,
        }
    }
}

/// The theme stored at slot `index`.
pub fn theme(index: usize) -> (t: Theme)
    requires
        index < COUNT,
    ensures
        t == theme_spec(index as int),
{
    if index == 0 {
        Theme {
            app_bg: "#F0EDE4",
            rail_bg: "#ECE8DD",
            content_bg: "#F7F5EF",
            border: "#DED9CB",
            ink: "#24221D",
            accent: "#5F8C6B",
            accent_fg: "#FFFFFF",
            accent_ink: "#3C5E47",
            dark: false,
        }
    } else if index == 1 {
        Theme {
            app_bg: "#F0EDE6",
            rail_bg: "#EDE8DE",
            content_bg: "#FAF8F3",
            border: "#E0D9CC",
            ink: "#2B2A26",
            accent: "#CC785C",
            accent_fg: "#FFFFFF",
            accent_ink: "#A24E32",
            dark: false,
        }
    } else if index == 2 {
        Theme {
            app_bg: "#FFFFFF",
            rail_bg: "#F7F7F8",
            content_bg: "#FFFFFF",
            border: "#E5E5E5",
            ink: "#1F2023",
            accent: "#10A37F",
            accent_fg: "#FFFFFF",
            accent_ink: "#0E8C6D",
            dark: false,
        }
    } else if index == 3 {
        Theme {
            app_bg: "#000000",
            rail_bg: "#121212",
            content_bg: "#121212",
            border: "#282828",
            ink: "#FFFFFF",
            accent: "#1DB954",
            accent_fg: "#000000",
            accent_ink: "#1ED760",
            dark: true,
        }
    } else if index == 4 {
        Theme {
            app_bg: "#0D0D0D",
            rail_bg: "#161616",
            content_bg: "#141414",
            border: "#2A2A2A",
            ink: "#FFFFFF",
            accent: "#FFD54A",
            accent_fg: "#000000",
            accent_ink: "#FFDB4D",
            dark: true,
        }
    } else if index == 5 {
        Theme {
            app_bg: "#F2F2F2",
            rail_bg: "#FFFFFF",
            content_bg: "#FFFFFF",
            border: "#E4E4E4",
            ink: "#333333",
            accent: "#FF5500",
            accent_fg: "#FFFFFF",
            accent_ink: "#E64D00",
            dark: false,
        }
    } else {
        Theme {
            app_bg: "#0F0F0F",
            rail_bg: "#0F0F0F",
            content_bg: "#181818",
            border: "#303030",
            ink: "#FFFFFF",
            accent: "#FF3B30",
            accent_fg: "#FFFFFF",
            accent_ink: "#FF5C54",
            dark: true,
        }
    }
}

/// Any index selects a theme, wrapping around the list.
pub open spec fn slot_spec(index: int) -> int {
    index % (COUNT as int)
}

/// The slot that index `index` selects (`index % COUNT`).
pub fn theme_slot(index: usize) -> (slot: usize)
    ensures
        slot == slot_spec(index as int),
        slot < COUNT,
{
    index % COUNT
}

/// The named-colour block the structural stylesheet is written against.
pub open spec fn palette_spec(t: Theme) -> Seq<char> {
    "@define-color accent_bg_color "@ + t.accent@
        + ";\n         @define-color accent_fg_color "@ + t.accent_fg@
        + ";\n         @define-color accent_color "@ + t.accent_ink@
        + ";\n         @define-color window_bg_color "@ + t.app_bg@
        + ";\n         @define-color window_fg_color "@ + t.ink@
        + ";\n         @define-color view_bg_color "@ + t.content_bg@
        + ";\n         @define-color view_fg_color "@ + t.ink@
        + ";\n         @define-color app_bg "@ + t.app_bg@
        + ";\n         @define-color rail_bg "@ + t.rail_bg@
        + ";\n         @define-color content_bg "@ + t.content_bg@
        + ";\n         @define-color card_border "@ + t.border@ + ";"@
}

/// The named-colour block the structural stylesheet is written against.
pub fn palette_css(t: &Theme) -> (css: String)
    ensures
        css@ == palette_spec(*t),
{
    let mut css = String::from_str("@define-color accent_bg_color ");
    css.append(t.accent);
    css.append(";\n         @define-color accent_fg_color ");
    css.append(t.accent_fg);
    css.append(";\n         @define-color accent_color ");
    css.append(t.accent_ink);
    css.append(";\n         @define-color window_bg_color ");
    css.append(t.app_bg);
    css.append(";\n         @define-color window_fg_color ");
    css.append(t.ink);
    css.append(";\n         @define-color view_bg_color ");
    css.append(t.content_bg);
    css.append(";\n         @define-color view_fg_color ");
    css.append(t.ink);
    css.append(";\n         @define-color app_bg ");
    css.append(t.app_bg);
    css.append(";\n         @define-color rail_bg ");
    css.append(t.rail_bg);
    css.append(";\n         @define-color content_bg ");
    css.append(t.content_bg);
    css.append(";\n         @define-color card_border ");
    css.append(t.border);
    css.append(";");
    css
}

/// The picker rule of swatch `i`: half its background colour, half its accent.
pub open spec fn swatch_rule(i: nat, t: Theme) -> Seq<char> {
    ".swatch-"@ + decimal_nat(i) + " { background-image: linear-gradient(135deg, "@
        + t.content_bg@ + " 0%, "@ + t.content_bg@ + " 50%, "@ + t.accent@ + " 50%, "@
        + t.accent@ + " 100%); }\n"@
}

/// The rules of the first `n` swatches, in order.
pub open spec fn swatches_spec(n: nat) -> Seq<char>
    decreases n,
{
    if n == 0 {
        Seq::empty()
    } else {
        swatches_spec((n - 1) as nat) + swatch_rule((n - 1) as nat, theme_spec(n - 1))
    }
}

/// Per-theme swatch backgrounds for the picker (constant across the active
/// theme, so they cannot use named colours).
pub fn swatch_css() -> (css: String)
    ensures
        css@ == swatches_spec(COUNT as nat),
{
    let mut css = String::new();
    let mut i: usize = 0;
    while i < COUNT
        invariant
            i <= COUNT,
            css@ == swatches_spec(i as nat),
        decreases COUNT - i,
    {
        let t = theme(i);
        let ghost before = css@;
        css.append(".swatch-");
        append_decimal_u64(&mut css, i as u64);
        css.append(" { background-image: linear-gradient(135deg, ");
        css.append(t.content_bg);
        css.append(" 0%, ");
        css.append(t.content_bg);
        css.append(" 50%, ");
        css.append(t.accent);
        css.append(" 50%, ");
        css.append(t.accent);
        css.append(" 100%); }\n");
        assert(css@ =~= before + swatch_rule(i as nat, theme_spec(i as int)));
        i = i + 1;
    }
    css
}

/// The full stylesheet for the theme that `index` selects: its palette, the
/// structural rules, then the swatch rules, separated by newlines.
pub open spec fn stylesheet_spec(index: int, structural: Seq<char>) -> Seq<char> {
    palette_spec(theme_spec(slot_spec(index))) + "\n"@ + structural + "\n"@ + swatches_spec(
        COUNT as nat,
    )
}

/// The full stylesheet for the theme that `index` selects.
pub fn stylesheet(index: usize, structural: &str) -> (css: String)
    ensures
        css@ == stylesheet_spec(index as int, structural@),
{
    let t = theme(theme_slot(index));
    let mut css = palette_css(&t);
    css.append("\n");
    css.append(structural);
    css.append("\n");
    let swatches = swatch_css();
    css.append(swatches.as_str());
    css
}

/// Whether the theme that `index` selects forces the dark base scheme
/// (otherwise the light one).
pub fn prefers_dark(index: usize) -> (dark: bool)
    ensures
        dark == theme_spec(slot_spec(index as int)).dark,
{
    theme(theme_slot(index)).dark
}

/// The theme index stored in the settings, when the stored text is an
/// unsigned decimal that fits (`value.parse::<usize>().ok()`).
pub fn saved_theme(value: &str) -> (index: Option<usize>)
    ensures
        index == parse_usize_spec(value@),
{
    parse_usize(value)
}

/// A theme index saved as its decimal text (`i.to_string()`) is read back
/// as the same index, so the chosen theme survives a restart.
pub proof fn lemma_saved_theme_round_trip(index: usize)
    ensures
        parse_usize_spec(decimal_nat(index as nat)) == Some(index),
        slot_spec(parse_usize_spec(decimal_nat(index as nat))->0 as int) == slot_spec(index as int),
{
    lemma_usize_text_round_trip(index);
}

/// Selecting a theme only depends on the index modulo the number of themes.
pub proof fn lemma_theme_wraps(index: int)
    requires
        index >= 0,
    ensures
        slot_spec(index + COUNT as int) == slot_spec(index),
        theme_spec(slot_spec(index + COUNT as int)) == theme_spec(slot_spec(index)),
        0 <= slot_spec(index) < COUNT,
        index < COUNT ==> slot_spec(index) == index,
{
    assert((index + 7) % 7 == index % 7) by (nonlinear_arith)
        requires
            index >= 0,
    ;
}

} // verus!
