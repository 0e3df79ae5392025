use webatui::backend::{
    get_screen_size, get_window_size, is_mobile, window_size_or_default, DefaultHydrator,
    TermBackend,
};
use webatui::cell::Cell;
use webatui::palette::{Atlas, AtlasPalette, Palette};
use webatui::style::{Color, Modifier};
use webatui::touch::ScrollMotion;
use webatui::{WebTermMessage, WebTermProps};

fn plain(sym: &str) -> Cell {
    Cell::new(sym.to_string(), Color::Red, Color::Black, Modifier::empty())
}

#[test]
fn new_builds_a_blank_grid_of_the_given_dimensions() {
    let b = TermBackend::<u32>::new(4, 2);
    assert_eq!(b.buffer.len(), 2);
    for row in &b.buffer {
        assert_eq!(row.len(), 4);
        for c in row {
            assert_eq!(c.symbol, " ");
            assert_eq!(c.fg, Color::Reset);
            assert_eq!(c.bg, Color::Reset);
            assert_eq!(c.modifier, Modifier::empty());
        }
    }
    assert!(b.pre_hydrated.is_empty());
}

#[test]
fn size_reports_the_grid_dimensions() {
    let b = TermBackend::<u32>::new(4, 2);
    assert_eq!(b.size(), (4, 2));
    let b = TermBackend::<u32>::new(0, 2);
    assert_eq!(b.size(), (0, 2));
}

#[test]
fn draw_overwrites_in_place_and_later_writes_win() {
    let mut b = TermBackend::<u32>::new(3, 1);
    b.draw(vec![(1, 0, plain("x")), (1, 0, plain("y"))]);
    assert_eq!(b.buffer[0][1].symbol, "y");
    assert_eq!(b.buffer[0][0].symbol, " ");
}

#[test]
fn draw_grows_a_row_with_blank_cells_and_never_shrinks() {
    let mut b = TermBackend::<u32>::new(2, 1);
    b.draw(vec![(4, 0, plain("z"))]);
    assert_eq!(b.buffer[0].len(), 5);
    assert_eq!(b.buffer[0][2].symbol, " ");
    assert_eq!(b.buffer[0][3].symbol, " ");
    assert_eq!(b.buffer[0][4].symbol, "z");
    b.draw(vec![(0, 0, plain("a"))]);
    assert_eq!(b.buffer[0].len(), 5);
}

#[test]
fn clear_reallocates_a_blank_grid() {
    let mut b = TermBackend::<u32>::new(2, 1);
    b.draw(vec![(0, 0, plain("q"))]);
    b.clear(3, 2);
    assert_eq!(b.buffer.len(), 2);
    assert_eq!(b.buffer[0].len(), 3);
    assert!(b.buffer.iter().flatten().all(|c| c.symbol == " "));
}

#[test]
fn resize_buffer_keeps_content_when_dimensions_match() {
    let mut b = TermBackend::<u32>::new(2, 1);
    b.draw(vec![(0, 0, plain("q"))]);
    b.resize_buffer(2, 1);
    assert_eq!(b.buffer[0][0].symbol, "q");
    b.resize_buffer(3, 1);
    assert_eq!(b.buffer[0].len(), 3);
    assert_eq!(b.buffer[0][0].symbol, " ");
}

#[test]
fn update_palette_changes_indexed_resolution() {
    let mut b = TermBackend::<u32>::new(1, 1);
    b.update_palette(Palette::AtlasPalette(AtlasPalette::Atlas(Atlas)));
    b.draw(vec![(0, 0, Cell::new(
        "x".to_string(),
        Color::Indexed(0),
        Color::Black,
        Modifier::empty(),
    ))]);
    b.flush();
    let mut h = DefaultHydrator::new();
    let out = b.hydrate(&mut h);
    assert_eq!(out[0][0].style, "color: #002635; background-color: black;");
}

#[test]
fn window_grid_uses_ten_by_twenty_pixel_cells() {
    assert_eq!(get_window_size((1024, 768)), (102, 38));
    assert_eq!(get_window_size((0, 0)), (0, 0));
}

#[test]
fn screen_grid_uses_ten_by_nineteen_pixel_cells() {
    assert_eq!(get_screen_size((375, 667)), (37, 35));
}

#[test]
fn missing_raw_dimensions_fall_back_to_the_fixed_default() {
    assert_eq!(window_size_or_default(Some((300, 400))), (300, 400));
    assert_eq!(window_size_or_default(None), (120, 120));
}

#[test]
fn narrow_screens_count_as_mobile() {
    assert!(is_mobile(549));
    assert!(!is_mobile(550));
    assert!(!is_mobile(1920));
}

#[test]
fn messages_wrap_application_values() {
    let m: WebTermMessage<u32> = WebTermMessage::new(5u32);
    assert!(matches!(m, WebTermMessage::Inner(5)));
    let m: WebTermMessage<u32> = 7u32.into();
    assert!(matches!(m, WebTermMessage::Inner(7)));
    let m: WebTermMessage<u32> = WebTermMessage::Scrolled(ScrollMotion::Up);
    assert!(matches!(m, WebTermMessage::Scrolled(ScrollMotion::Up)));
    let p = WebTermProps::new(9i32);
    assert_eq!(p.inner, 9);
}
