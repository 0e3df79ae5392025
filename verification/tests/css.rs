use webatui::css::{body_background_rule, span_style, to_css_color};
use webatui::palette::Palette;
use webatui::style::{Color, Modifier};

fn p() -> Palette {
    Palette::default()
}

#[test]
fn named_colors_map_to_fixed_literals() {
    let cases = [
        (Color::Black, "black"),
        (Color::Red, "red"),
        (Color::Green, "green"),
        (Color::Yellow, "yellow"),
        (Color::Blue, "blue"),
        (Color::Magenta, "magenta"),
        (Color::Cyan, "cyan"),
        (Color::Gray, "gray"),
        (Color::DarkGray, "darkgray"),
        (Color::LightRed, "#de2b56"),
        (Color::LightGreen, "lightgreen"),
        (Color::LightYellow, "LightGoldenRodYellow"),
        (Color::LightBlue, "LightSkyBlue"),
        (Color::LightMagenta, "#ff00ff"),
        (Color::LightCyan, "lightcyan"),
        (Color::White, "white"),
    ];
    for (c, s) in cases {
        assert_eq!(to_css_color(&p(), c).as_deref(), Some(s));
    }
}

#[test]
fn reset_has_no_mapping() {
    assert_eq!(to_css_color(&p(), Color::Reset), None);
}

#[test]
fn true_color_formats_as_a_zero_padded_hex_triple() {
    assert_eq!(to_css_color(&p(), Color::Rgb(0xFF, 0x00, 0x0A)).as_deref(), Some("#FF000A"));
    assert_eq!(to_css_color(&p(), Color::Rgb(1, 2, 3)).as_deref(), Some("#010203"));
    assert_eq!(to_css_color(&p(), Color::Rgb(0x12, 0xAB, 0xCD)).as_deref(), Some("#12ABCD"));
    assert_eq!(to_css_color(&p(), Color::Rgb(0, 0, 0)).as_deref(), Some("#000000"));
}

#[test]
fn indexed_colors_resolve_through_the_palette() {
    assert_eq!(to_css_color(&p(), Color::Indexed(0)).as_deref(), Some("#262626"));
    assert_eq!(to_css_color(&p(), Color::Indexed(9)).as_deref(), Some("#FF8700"));
    assert_eq!(to_css_color(&p(), Color::Indexed(15)).as_deref(), Some("#BCBCBC"));
}

#[test]
fn span_style_composes_colors_and_modifiers() {
    let style = span_style(&p(), Color::Black, Color::White, Modifier::empty());
    assert_eq!(style, "color: black; background-color: white;");

    let style = span_style(&p(), Color::Black, Color::White, Modifier::bold());
    assert_eq!(style, "color: black; background-color: white; font-weight: bolder;");

    let all = Modifier::bold().union(Modifier::italic()).union(Modifier::underlined());
    let style = span_style(&p(), Color::Red, Color::Blue, all);
    assert_eq!(
        style,
        "color: red; background-color: blue; font-weight: bolder; font-style: oblique; \
         text-decoration: underline;"
    );
}

#[test]
fn span_style_substitutes_palette_defaults_for_reset() {
    let style = span_style(&p(), Color::Reset, Color::Reset, Modifier::empty());
    assert_eq!(style, "color: #5F8787; background-color: #AF5F5F;");
}

#[test]
fn hydration_marker_adds_no_css_segment() {
    let style = span_style(&p(), Color::Black, Color::White, Modifier::hydration());
    assert_eq!(style, "color: black; background-color: white;");
}

#[test]
fn body_rule_uses_the_default_background() {
    assert_eq!(body_background_rule(&p()), "body { background-color: #AF5F5F; }");
}
