use webatui::palette::{
    Apprentice, ApprenticePalette, Atlas, AtlasPalette, Base16Accent, Base16Color, Base16Palette,
    Base16Shade, Palette, Shade,
};

fn all_colors() -> Vec<Base16Color> {
    let shades = [Shade::Darkest, Shade::Darker, Shade::Lighter, Shade::Lightest];
    let accents = [
        Base16Accent::Accent00,
        Base16Accent::Accent01,
        Base16Accent::Accent02,
        Base16Accent::Accent03,
        Base16Accent::Accent04,
        Base16Accent::Accent05,
        Base16Accent::Accent06,
        Base16Accent::Accent07,
    ];
    let mut out = Vec::new();
    for s in shades {
        out.push(Base16Color::Shade(Base16Shade::Dark(s)));
    }
    for s in shades {
        out.push(Base16Color::Shade(Base16Shade::Light(s)));
    }
    for a in accents {
        out.push(Base16Color::Accent(a));
    }
    out
}

#[test]
fn index_assigns_each_color_its_slot() {
    let colors = all_colors();
    for (i, c) in colors.iter().enumerate() {
        assert_eq!(c.index(), i as u8);
    }
}

#[test]
fn index_then_from_index_round_trips() {
    for c in all_colors() {
        assert_eq!(Base16Color::from_index(c.index()), c);
    }
}

#[test]
fn from_index_then_index_round_trips() {
    for i in 0u8..16 {
        assert_eq!(Base16Color::from_index(i).index(), i);
    }
}

#[test]
fn try_from_index_rejects_sixteen_and_up() {
    for i in 0u8..16 {
        assert_eq!(Base16Color::try_from_index(i), Some(Base16Color::from_index(i)));
    }
    for i in [16u8, 17, 100, 255] {
        assert_eq!(Base16Color::try_from_index(i), None);
    }
}

#[test]
fn default_colors_are_fixed_slots() {
    assert_eq!(Base16Color::default_fg(), Base16Color::light_3());
    assert_eq!(Base16Color::default_bg(), Base16Color::dark_2());
    assert_eq!(Base16Color::default_fg().index(), 6);
    assert_eq!(Base16Color::default_bg().index(), 1);
}

#[test]
fn shade_constructors_cover_the_first_eight_slots() {
    assert_eq!(Base16Color::dark_1().index(), 0);
    assert_eq!(Base16Color::dark_2().index(), 1);
    assert_eq!(Base16Color::dark_3().index(), 2);
    assert_eq!(Base16Color::dark_4().index(), 3);
    assert_eq!(Base16Color::light_1().index(), 4);
    assert_eq!(Base16Color::light_2().index(), 5);
    assert_eq!(Base16Color::light_3().index(), 6);
    assert_eq!(Base16Color::light_4().index(), 7);
}

#[test]
fn apprentice_hex_table() {
    let expected = [
        "#262626", "#AF5F5F", "#5F875F", "#87875F", "#5F87AF", "#5F5F87", "#5F8787", "#6C6C6C",
        "#444444", "#FF8700", "#87AF87", "#FFFFAF", "#87AFD7", "#8787AF", "#5FAFAF", "#BCBCBC",
    ];
    for i in 0u8..16 {
        let c = Base16Color::from_index(i);
        assert_eq!(Apprentice.to_hex_str(c), expected[i as usize]);
    }
}

#[test]
fn atlas_hex_table() {
    let expected = [
        "#002635", "#00384d", "#517F8D", "#6C8B91", "#869696", "#a1a19a", "#e6e6dc", "#fafaf8",
        "#ff5a67", "#f08e48", "#ffcc1b", "#7fc06e", "#5dd7b9", "#14747e", "#9a70a4", "#c43060",
    ];
    for i in 0u8..16 {
        let c = Base16Color::from_index(i);
        assert_eq!(Atlas.to_hex_str(c), expected[i as usize]);
    }
}

#[test]
fn rgb_matches_hex_table() {
    assert_eq!(Apprentice.to_rgb(Base16Color::dark_1()), (0x26, 0x26, 0x26));
    assert_eq!(Apprentice.to_rgb(Base16Color::from_index(9)), (0xFF, 0x87, 0x00));
    assert_eq!(Atlas.to_rgb(Base16Color::dark_1()), (0x00, 0x26, 0x35));
    assert_eq!(Atlas.to_rgb(Base16Color::from_index(15)), (0xc4, 0x30, 0x60));
}

#[test]
fn palette_dispatch_reaches_the_tables() {
    let a = Palette::ApprenticePalette(ApprenticePalette::Apprentice(Apprentice));
    let t = Palette::AtlasPalette(AtlasPalette::Atlas(Atlas));
    assert_eq!(a.to_hex_str(Base16Color::dark_1()), "#262626");
    assert_eq!(t.to_hex_str(Base16Color::dark_1()), "#002635");
    assert_eq!(a.to_rgb(Base16Color::light_4()), (0x6C, 0x6C, 0x6C));
    assert_eq!(t.to_rgb(Base16Color::light_4()), (0xfa, 0xfa, 0xf8));
}

#[test]
fn default_palette_is_apprentice() {
    let p = Palette::default();
    assert_eq!(p, Palette::ApprenticePalette(ApprenticePalette::Apprentice(Apprentice)));
    assert_eq!(p.to_hex_str(Base16Color::default_bg()), "#AF5F5F");
}
