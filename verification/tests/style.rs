use webatui::cell::Cell;
use webatui::palette::{Base16Accent, Base16Color, Base16Shade, Shade};
use webatui::style::{
    Base16Style, Color, Modifier, NeedsHydration, Style, ToIndexedColor, HYDRATION_BITS,
};

#[test]
fn modifier_contains_and_union_work_on_bit_sets() {
    let both = Modifier::bold().union(Modifier::italic());
    assert!(both.contains(Modifier::bold()));
    assert!(both.contains(Modifier::italic()));
    assert!(!both.contains(Modifier::underlined()));
    assert!(Modifier::empty().contains(Modifier::empty()));
    assert!(!Modifier::empty().contains(Modifier::hydration()));
    assert_eq!(Modifier::hydration().bits, HYDRATION_BITS);
}

#[test]
fn style_builder_sets_colors_and_modifiers() {
    let s = Style::new().fg(Color::Red).bg(Color::Blue).add_modifier(Modifier::bold());
    assert_eq!(s.fg, Some(Color::Red));
    assert_eq!(s.bg, Some(Color::Blue));
    assert!(s.add_modifier.contains(Modifier::bold()));
}

#[test]
fn to_hydrate_adds_the_hydration_marker() {
    let s = Style::new().fg(Color::Red).to_hydrate();
    assert!(s.add_modifier.contains(Modifier::hydration()));
    assert_eq!(s.fg, Some(Color::Red));
    let twice = s.to_hydrate();
    assert_eq!(twice.add_modifier, s.add_modifier);
}

#[test]
fn palette_colors_convert_to_indexed_cell_colors() {
    assert_eq!(Base16Color::dark_1().to_color(), Color::Indexed(0));
    assert_eq!(Base16Shade::Light(Shade::Lightest).to_color(), Color::Indexed(7));
    assert_eq!(Base16Accent::Accent03.color_index(), 11);
    assert_eq!(Base16Accent::Accent03.to_color(), Color::Indexed(11));
}

#[test]
fn style_helpers_select_the_documented_defaults() {
    let full = Base16Color::dark_1().full_style(Base16Color::light_4());
    assert_eq!(full.fg, Some(Color::Indexed(0)));
    assert_eq!(full.bg, Some(Color::Indexed(7)));

    let fg = Base16Color::dark_4().fg_style();
    assert_eq!(fg.fg, Some(Color::Indexed(3)));
    assert_eq!(fg.bg, Some(Color::Indexed(1)));

    let bg = Base16Color::dark_4().bg_style();
    assert_eq!(bg.fg, Some(Color::Indexed(6)));
    assert_eq!(bg.bg, Some(Color::Indexed(3)));

    let d = Base16Color::default_style();
    assert_eq!(d.fg, Some(Color::Indexed(6)));
    assert_eq!(d.bg, Some(Color::Indexed(1)));
    assert_eq!(<Base16Color as Base16Style>::default_style(), d);
}

#[test]
fn default_cell_is_a_blank_space() {
    let c = Cell::default();
    assert_eq!(c.symbol, " ");
    assert_eq!(c.fg, Color::Reset);
    assert_eq!(c.bg, Color::Reset);
    assert_eq!(c.modifier, Modifier::empty());
}
