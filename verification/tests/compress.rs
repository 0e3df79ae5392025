use webatui::backend::{DefaultHydrator, RecordingHydrator, SpanNode, TermBackend};
use webatui::cell::Cell;
use webatui::css::span_style;
use webatui::palette::Palette;
use webatui::style::{Color, Modifier};

fn cell(sym: &str, fg: Color, bg: Color, mods: Modifier) -> Cell {
    Cell::new(sym.to_string(), fg, bg, mods)
}

fn style1() -> (Color, Color, Modifier) {
    (Color::Red, Color::Black, Modifier::empty())
}

fn style2() -> (Color, Color, Modifier) {
    (Color::Blue, Color::Black, Modifier::empty())
}

fn draw_row(b: &mut TermBackend<u32>, row: u16, cells: Vec<Cell>) {
    let content: Vec<(u16, u16, Cell)> =
        cells.into_iter().enumerate().map(|(x, c)| (x as u16, row, c)).collect();
    b.draw(content);
}

fn hydrate_default(b: &mut TermBackend<u32>) -> Vec<Vec<SpanNode<u32>>> {
    let mut h = DefaultHydrator::new();
    b.hydrate(&mut h)
}

fn recorder() -> RecordingHydrator<u32> {
    RecordingHydrator::new(Some(7), Some("https://example.com".to_string()))
}

#[test]
fn uniform_row_produces_exactly_one_run() {
    let (fg, bg, m) = style1();
    let mut b = TermBackend::<u32>::new(5, 1);
    draw_row(&mut b, 0, vec![
        cell("a", fg, bg, m),
        cell("b", fg, bg, m),
        cell("c", fg, bg, m),
        cell("d", fg, bg, m),
        cell("e", fg, bg, m),
    ]);
    b.flush();
    let out = hydrate_default(&mut b);
    assert_eq!(out.len(), 1);
    assert_eq!(out[0].len(), 1);
    assert_eq!(out[0][0].text, "abcde");
}

#[test]
fn alternating_row_produces_one_run_per_cell() {
    let (fg1, bg1, m1) = style1();
    let (fg2, bg2, m2) = style2();
    let mut b = TermBackend::<u32>::new(4, 1);
    draw_row(&mut b, 0, vec![
        cell("a", fg1, bg1, m1),
        cell("b", fg2, bg2, m2),
        cell("c", fg1, bg1, m1),
        cell("d", fg2, bg2, m2),
    ]);
    b.flush();
    let out = hydrate_default(&mut b);
    assert_eq!(out[0].len(), 4);
    let texts: Vec<&str> = out[0].iter().map(|n| n.text.as_str()).collect();
    assert_eq!(texts, vec!["a", "b", "c", "d"]);
}

#[test]
fn run_texts_concatenate_to_the_row_text() {
    let (fg1, bg1, m1) = style1();
    let (fg2, bg2, m2) = style2();
    let mut b = TermBackend::<u32>::new(6, 1);
    draw_row(&mut b, 0, vec![
        cell("h", fg1, bg1, m1),
        cell("e", fg1, bg1, m1),
        cell("l", fg2, bg2, m2),
        cell("l", fg2, bg2, m2),
        cell("o", fg1, bg1, m1),
        cell("!", fg1, bg1, m1),
    ]);
    b.flush();
    let out = hydrate_default(&mut b);
    let joined: String = out[0].iter().map(|n| n.text.as_str()).collect();
    assert_eq!(joined, "hello!");
    assert_eq!(out[0].len(), 3);
}

#[test]
fn end_to_end_scenario_without_marker() {
    let (fg1, bg1, m1) = style1();
    let (fg2, bg2, m2) = style2();
    let mut b = TermBackend::<u32>::new(3, 1);
    draw_row(&mut b, 0, vec![
        cell("A", fg1, bg1, m1),
        cell("B", fg1, bg1, m1),
        cell("C", fg2, bg2, m2),
    ]);
    b.flush();
    let mut h = recorder();
    let out = b.hydrate(&mut h);
    assert_eq!(out.len(), 1);
    assert_eq!(out[0].len(), 2);
    assert_eq!(out[0][0].text, "AB");
    assert_eq!(out[0][1].text, "C");
    assert_eq!(out[0][0].style, span_style(&Palette::default(), fg1, bg1, m1));
    assert_eq!(out[0][1].style, span_style(&Palette::default(), fg2, bg2, m2));
    assert!(h.texts.is_empty());
    assert!(out[0].iter().all(|n| n.on_click.is_none() && n.hyperlink.is_none()));
}

#[test]
fn end_to_end_scenario_with_marker_defers_the_second_run() {
    let (fg1, bg1, m1) = style1();
    let (fg2, bg2, _) = style2();
    let m2 = Modifier::hydration();
    let mut b = TermBackend::<u32>::new(3, 1);
    draw_row(&mut b, 0, vec![
        cell("A", fg1, bg1, m1),
        cell("B", fg1, bg1, m1),
        cell("C", fg2, bg2, m2),
    ]);
    b.flush();
    let mut h = recorder();
    let out = b.hydrate(&mut h);
    assert_eq!(h.texts, vec!["C"]);
    assert_eq!(out[0].len(), 2);
    assert_eq!(out[0][0].on_click, None);
    assert_eq!(out[0][0].hyperlink, None);
    assert_eq!(out[0][1].text, "C");
    assert_eq!(out[0][1].on_click, Some(7));
    assert_eq!(out[0][1].hyperlink.as_deref(), Some("https://example.com"));
}

#[test]
fn resolver_runs_exactly_once_per_deferred_run_in_order() {
    let (fg1, bg1, m1) = style1();
    let deferred = Modifier::hydration();
    let mut b = TermBackend::<u32>::new(3, 2);
    draw_row(&mut b, 0, vec![
        cell("a", fg1, bg1, deferred),
        cell("b", fg1, bg1, m1),
        cell("c", fg1, bg1, deferred),
    ]);
    draw_row(&mut b, 1, vec![
        cell("d", fg1, bg1, deferred),
        cell("e", fg1, bg1, deferred),
        cell("f", fg1, bg1, m1),
    ]);
    b.flush();
    let mut h = recorder();
    let out = b.hydrate(&mut h);
    // Row 0 splits on the modifier changes; row 1's two marked cells share
    // a style and form one deferred run.
    assert_eq!(h.texts, vec!["a", "c", "de"]);
    assert_eq!(out.len(), 2);
    assert!(b.pre_hydrated.is_empty());
    // The drained runs are not available for a second pass.
    let mut h2 = recorder();
    let again = b.hydrate(&mut h2);
    assert!(again.is_empty());
    assert!(h2.texts.is_empty());
}

#[test]
fn deferred_spans_expose_their_style_and_text() {
    let (fg, bg, _) = style1();
    let m = Modifier::hydration();
    let mut b = TermBackend::<u32>::new(2, 1);
    draw_row(&mut b, 0, vec![cell("h", fg, bg, m), cell("i", fg, bg, m)]);
    b.flush();
    assert_eq!(b.pre_hydrated.len(), 1);
    assert_eq!(b.pre_hydrated[0].len(), 1);
    match &b.pre_hydrated[0][0] {
        webatui::span::TermSpan::Dehydrated(d) => {
            assert_eq!(*d.style(), (fg, bg));
            assert_eq!(*d.modifiers(), m);
            assert_eq!(d.text(), "hi");
        }
        webatui::span::TermSpan::Plain(..) => panic!("marked run was not deferred"),
    }
}

#[test]
fn interaction_set_on_a_span_reaches_the_output_node() {
    let (fg, bg, _) = style1();
    let m = Modifier::hydration();
    let mut b = TermBackend::<u32>::new(1, 1);
    draw_row(&mut b, 0, vec![cell("x", fg, bg, m)]);
    b.flush();
    match &mut b.pre_hydrated[0][0] {
        webatui::span::TermSpan::Dehydrated(d) => {
            d.on_click(42);
            d.hyperlink("https://example.org".to_string());
        }
        webatui::span::TermSpan::Plain(..) => panic!("marked run was not deferred"),
    }
    let out = hydrate_default(&mut b);
    assert_eq!(out[0][0].on_click, Some(42));
    assert_eq!(out[0][0].hyperlink.as_deref(), Some("https://example.org"));
}

#[test]
fn empty_grid_flushes_to_nothing() {
    let mut b = TermBackend::<u32>::new(0, 0);
    b.flush();
    assert!(b.pre_hydrated.is_empty());
    let out = hydrate_default(&mut b);
    assert!(out.is_empty());
}

#[test]
fn zero_width_grid_flushes_to_nothing() {
    let mut b = TermBackend::<u32>::new(0, 3);
    b.flush();
    assert!(b.pre_hydrated.is_empty());
}

#[test]
fn flushing_twice_queues_the_grid_twice() {
    let (fg, bg, m) = style1();
    let mut b = TermBackend::<u32>::new(2, 1);
    draw_row(&mut b, 0, vec![cell("h", fg, bg, m), cell("i", fg, bg, m)]);
    b.flush();
    b.flush();
    assert_eq!(b.pre_hydrated.len(), 2);
    let out = hydrate_default(&mut b);
    assert_eq!(out.len(), 2);
    assert_eq!(out[0][0].text, "hi");
    assert_eq!(out[1][0].text, "hi");
}
