use raudio::theme::{palette_css, prefers_dark, saved_theme, stylesheet, swatch_css, theme, theme_slot, Theme, COUNT};

fn palette_reference(t: &Theme) -> String {
    format!(
        "@define-color accent_bg_color {accent};
         @define-color accent_fg_color {accent_fg};
         @define-color accent_color {accent_ink};
         @define-color window_bg_color {app_bg};
         @define-color window_fg_color {ink};
         @define-color view_bg_color {content_bg};
         @define-color view_fg_color {ink};
         @define-color app_bg {app_bg};
         @define-color rail_bg {rail_bg};
         @define-color content_bg {content_bg};
         @define-color card_border {border};",
        accent = t.accent,
        accent_fg = t.accent_fg,
        accent_ink = t.accent_ink,
        app_bg = t.app_bg,
        ink = t.ink,
        content_bg = t.content_bg,
        rail_bg = t.rail_bg,
        border = t.border,
    )
}

fn swatch_reference() -> String {
    let mut css = String::new();
    for i in 0..COUNT {
        let t = theme(i);
        css.push_str(&format!(
            ".swatch-{i} {{ background-image: linear-gradient(135deg, {bg} 0%, {bg} 50%, {acc} 50%, {acc} 100%); }}\n",
            i = i,
            bg = t.content_bg,
            acc = t.accent,
        ));
    }
    css
}

#[test]
fn there_are_seven_themes() {
    assert_eq!(COUNT, 7);
    let first = theme(0);
    assert_eq!(first.app_bg, "#F0EDE4");
    assert_eq!(first.accent, "#5F8C6B");
    assert!(!first.dark);
    let last = theme(6);
    assert_eq!(last.accent, "#FF3B30");
    assert!(last.dark);
}

#[test]
fn palette_css_matches_the_template() {
    for i in 0..COUNT {
        let t = theme(i);
        assert_eq!(palette_css(&t), palette_reference(&t));
    }
    let css = palette_css(&theme(3));
    assert!(css.starts_with("@define-color accent_bg_color #1DB954;"));
    assert!(css.ends_with("@define-color card_border #282828;"));
}

#[test]
fn swatch_css_has_one_rule_per_theme() {
    let css = swatch_css();
    assert_eq!(css, swatch_reference());
    assert_eq!(css.lines().count(), COUNT);
    assert!(css.starts_with(".swatch-0 { background-image: linear-gradient(135deg, #F7F5EF 0%, #F7F5EF 50%, #5F8C6B 50%, #5F8C6B 100%); }\n"));
}

#[test]
fn stylesheet_joins_palette_structure_and_swatches() {
    let css = stylesheet(9, ".rail { padding: 4px; }");
    let expected = format!("{}\n{}\n{}", palette_reference(&theme(2)), ".rail { padding: 4px; }", swatch_reference());
    assert_eq!(css, expected);
}

#[test]
fn theme_index_wraps_around() {
    assert_eq!(theme_slot(0), 0);
    assert_eq!(theme_slot(6), 6);
    assert_eq!(theme_slot(7), 0);
    assert_eq!(theme_slot(16), 2);
    assert_eq!(theme_slot(usize::MAX), usize::MAX % 7);
    assert!(prefers_dark(3));
    assert!(prefers_dark(10));
    assert!(!prefers_dark(5));
    assert!(!prefers_dark(7));
}

#[test]
fn saved_theme_parses_the_setting() {
    assert_eq!(saved_theme("4"), Some(4));
    assert_eq!(saved_theme("+4"), Some(4));
    assert_eq!(saved_theme("12"), Some(12));
    assert_eq!(saved_theme(""), None);
    assert_eq!(saved_theme("dark"), None);
    assert_eq!(saved_theme("-1"), None);
    assert_eq!(saved_theme("0.7"), None);
}

#[test]
fn saved_theme_reads_back_what_was_written() {
    for i in [0usize, 1, 6, 7, 12, 1000, usize::MAX] {
        assert_eq!(saved_theme(&i.to_string()), Some(i));
        assert_eq!(theme_slot(saved_theme(&i.to_string()).unwrap()), i % COUNT);
    }
}
