//! The rendering backend core: a grid of styled cells, its compression
//! into per-row style-homogeneous runs, and the hydration pass that
//! resolves deferred runs and materializes renderable span nodes.
//!
//! The backend is generic over `C`, the host's activation-callback type: a
//! deferred run's resolver may attach a `C` to a span, and the produced
//! nodes carry it through unchanged. The host glue converts raw viewport
//! dimensions to grid dimensions with the sizing helpers at the bottom of
//! this module and hands the backend plain values only.

use vstd::prelude::*;

use crate::cell::Cell;
use crate::css::{span_style, spec_span_style};
use crate::palette::{Apprentice, ApprenticePalette, Palette};
use crate::span::{
    deferred_data, deferred_data_all, runs_of, spans_match_runs, CellData, DehydratedSpan,
    DehydratedView, SpanData, TermSpan,
};
use crate::style::{Color, Modifier};

verus! {

/// The view of a row of cells.
pub open spec fn row_view(r: Seq<Cell>) -> Seq<CellData> {
    Seq::new(r.len(), |j: int| r[j]@)
}

/// The view of the whole grid, row by row.
pub open spec fn rows_view(b: Seq<Vec<Cell>>) -> Seq<Seq<CellData>> {
    Seq::new(b.len(), |i: int| row_view(b[i]@))
}

/// The content of a blank cell: a single space, reset colors, no
/// modifiers.
pub open spec fn blank_data() -> CellData {
    CellData { symbol: " "@, fg: Color::Reset, bg: Color::Reset, modifier: Modifier { bits: 0 } }
}

/// A `height` by `width` grid of blank cells.
pub open spec fn is_blank_grid(b: Seq<Vec<Cell>>, width: u16, height: u16) -> bool {
    &&& b.len() == height
    &&& forall|i: int| 0 <= i < b.len() ==> (#[trigger] b[i])@.len() == width
    &&& forall|i: int, j: int|
        0 <= i < b.len() && 0 <= j < b[i]@.len() ==> (#[trigger] b[i]@[j])@ == blank_data()
}

/// Every span of a compressed row is fresh and carries valid colors and
/// nonempty text.
pub open spec fn row_spans_wf<C>(row: Seq<TermSpan<C>>) -> bool {
    forall|k: int|
        0 <= k < row.len() ==> (#[trigger] row[k]).fresh() && row[k].data().wf()
}

/// One absolute-coordinate cell write: overwrites in place, growing the
/// row with blank cells when the column lies beyond its current end.
pub open spec fn draw_one(rows: Seq<Seq<CellData>>, x: int, y: int, c: CellData) -> Seq<
    Seq<CellData>,
> {
    let row = rows[y];
    let row2 = if x < row.len() {
        row.update(x, c)
    } else {
        row + Seq::new((x - row.len()) as nat, |i: int| blank_data()) + seq![c]
    };
    rows.update(y, row2)
}

/// The grid after a sequence of cell writes, applied in order.
pub open spec fn apply_draws(rows: Seq<Seq<CellData>>, content: Seq<(u16, u16, Cell)>) -> Seq<
    Seq<CellData>,
>
    decreases content.len(),
{
    if content.len() == 0 {
        rows
    } else {
        let t = content.last();
        draw_one(apply_draws(rows, content.drop_last()), t.0 as int, t.1 as int, t.2@)
    }
}

/// The backend state: the cell grid written by the drawing engine, the
/// compressed runs awaiting hydration, and the active palette.
#[derive(Debug)]
pub struct TermBackend<C> {
    pub buffer: Vec<Vec<Cell>>,
    pub pre_hydrated: Vec<Vec<TermSpan<C>>>,
    pub palette: Palette,
}

impl<C> TermBackend<C> {
    /// Well-formedness: the grid keeps within the dimensions the drawing
    /// contract can address, every cell is well-formed, and every
    /// compressed span is fresh and well-formed.
    pub open spec fn wf(self) -> bool {
        &&& self.buffer@.len() <= 0xFFFF
        &&& forall|i: int| 0 <= i < self.buffer@.len() ==> (#[trigger] self.buffer@[i])@.len()
            <= 0x10000
        &&& forall|i: int, j: int|
            0 <= i < self.buffer@.len() && 0 <= j < self.buffer@[i]@.len()
                ==> (#[trigger] self.buffer@[i]@[j])@.wf()
        &&& forall|i: int|
            0 <= i < self.pre_hydrated@.len() ==> row_spans_wf(
                (#[trigger] self.pre_hydrated@[i])@,
            )
    }

    /// A backend over a blank `height` by `width` grid with the default
    /// palette.
    pub fn new(width: u16, height: u16) -> (r: Self)
        ensures
            r.wf(),
            is_blank_grid(r.buffer@, width, height),
            r.pre_hydrated@.len() == 0,
            r.palette == Palette::ApprenticePalette(ApprenticePalette::Apprentice(Apprentice)),
    {
        proof {
            lemma_blank_wf();
        }
        TermBackend {
            buffer: blank_grid(width, height),
            pre_hydrated: Vec::new(),
            palette: Palette::default(),
        }
    }

    /// A backend over a blank grid with the given palette.
    pub fn new_with_palette(width: u16, height: u16, palette: Palette) -> (r: Self)
        ensures
            r.wf(),
            is_blank_grid(r.buffer@, width, height),
            r.pre_hydrated@.len() == 0,
            r.palette == palette,
    {
        proof {
            lemma_blank_wf();
        }
        TermBackend { buffer: blank_grid(width, height), pre_hydrated: Vec::new(), palette }
    }

    /// Replaces the palette used to resolve indexed colors.
    pub fn update_palette(&mut self, palette: Palette)
        ensures
            final(self).palette == palette,
            final(self).buffer == old(self).buffer,
            final(self).pre_hydrated == old(self).pre_hydrated,
            old(self).wf() ==> final(self).wf(),
    {
        self.palette = palette;
    }

    /// The current character-grid dimensions: the width of the first row
    /// and the number of rows. The width must fit the dimension type; a
    /// wider first row can only arise from a draw at the very last
    /// addressable column.
    pub fn size(&self) -> (r: (u16, u16))
        requires
            self.wf(),
            self.buffer@.len() > 0,
            self.buffer@[0]@.len() <= u16::MAX,
        ensures
            r.0 == self.buffer@[0]@.len(),
            r.1 == self.buffer@.len(),
    {
        let w = self.buffer[0].len();
        let h = self.buffer.len();
        (w as u16, h as u16)
    }

    /// Discards the grid content, reallocating a blank grid of the given
    /// dimensions.
    pub fn clear(&mut self, width: u16, height: u16)
        ensures
            is_blank_grid(final(self).buffer@, width, height),
            final(self).pre_hydrated == old(self).pre_hydrated,
            final(self).palette == old(self).palette,
            old(self).wf() ==> final(self).wf(),
    {
        proof {
            lemma_blank_wf();
        }
        self.buffer = blank_grid(width, height);
    }

    /// Replaces the grid with a blank one of the given dimensions if they
    /// differ from the current ones; otherwise leaves it untouched.
    pub fn resize_buffer(&mut self, width: u16, height: u16)
        requires
            old(self).buffer@.len() > 0,
        ensures
            final(self).pre_hydrated == old(self).pre_hydrated,
            final(self).palette == old(self).palette,
            if old(self).buffer@.len() == height && old(self).buffer@[0]@.len() == width {
                final(self).buffer == old(self).buffer
            } else {
                is_blank_grid(final(self).buffer@, width, height)
            },
            old(self).wf() ==> final(self).wf(),
    {
        proof {
            lemma_blank_wf();
        }
        if self.buffer.len() != height as usize || self.buffer[0].len() != width as usize {
            self.buffer = blank_grid(width, height);
        }
    }

    /// Writes cells at absolute coordinates, in order: overwrites in
    /// place, growing a row with blank cells where a column lies beyond
    /// its end; never shrinks. Rows beyond the grid cannot be addressed.
    pub fn draw(&mut self, content: Vec<(u16, u16, Cell)>)
        requires
            old(self).wf(),
            forall|k: int|
                0 <= k < content@.len() ==> ((#[trigger] content@[k]).1 as int)
                    < old(self).buffer@.len() && content@[k].2@.wf(),
        ensures
            final(self).wf(),
            final(self).palette == old(self).palette,
            final(self).pre_hydrated == old(self).pre_hydrated,
            final(self).buffer@.len() == old(self).buffer@.len(),
            rows_view(final(self).buffer@) == apply_draws(rows_view(old(self).buffer@), content@),
    {
        let ghost orig = content@;
        let ghost rows0 = rows_view(old(self).buffer@);
        let mut content = content;
        let mut k: usize = 0;
        let n0 = content.len();
        proof {
            assert(orig.take(0) =~= Seq::<(u16, u16, Cell)>::empty());
            assert(orig.len() == n0);
        }
        while content.len() > 0
            invariant
                k + content@.len() == orig.len(),
                orig.len() == n0,
                content@ =~= orig.skip(k as int),
                self.palette == old(self).palette,
                self.pre_hydrated == old(self).pre_hydrated,
                self.buffer@.len() == old(self).buffer@.len(),
                self.buffer@.len() <= 0xFFFF,
                forall|i: int|
                    0 <= i < self.buffer@.len() ==> (#[trigger] self.buffer@[i])@.len() <= 0x10000,
                forall|i: int, j: int|
                    0 <= i < self.buffer@.len() && 0 <= j < self.buffer@[i]@.len()
                        ==> (#[trigger] self.buffer@[i]@[j])@.wf(),
                forall|t: int|
                    0 <= t < orig.len() ==> ((#[trigger] orig[t]).1 as int) < self.buffer@.len()
                        && orig[t].2@.wf(),
                forall|i: int|
                    0 <= i < self.pre_hydrated@.len() ==> row_spans_wf(
                        (#[trigger] self.pre_hydrated@[i])@,
                    ),
                rows_view(self.buffer@) == apply_draws(rows0, orig.take(k as int)),
            decreases content@.len(),
        {
            let (x, y, cell) = content.remove(0);
            let xi = x as usize;
            let yi = y as usize;
            proof {
                assert(content@ =~= orig.skip(k + 1));
                assert(orig.skip(k as int)[0] == orig[k as int]);
            }
            let ghost before = rows_view(self.buffer@);
            write_cell(&mut self.buffer[yi], xi, cell);
            proof {
                lemma_blank_wf();
                let rows1 = rows_view(self.buffer@);
                assert(orig.take(k + 1).drop_last() =~= orig.take(k as int));
                assert(orig.take(k + 1).last() == orig[k as int]);
                assert(rows1 =~= draw_one(before, xi as int, yi as int, cell@));
                assert forall|i: int, j: int|
                    0 <= i < self.buffer@.len() && 0 <= j
                        < self.buffer@[i]@.len() implies (#[trigger] self.buffer@[i]@[j])@.wf() by {
                    assert(rows1[i][j] == self.buffer@[i]@[j]@);
                    if i == yi {
                        assert(rows1[i] == draw_one(before, xi as int, yi as int, cell@)[i]);
                    }
                }
            }
            k = k + 1;
        }
        proof {
            assert(orig.take(orig.len() as int) =~= orig);
        }
    }
}

/// Writes one cell at column `x` of a row: overwrites in place, growing
/// the row with blank cells first where `x` lies beyond its end.
fn write_cell(line: &mut Vec<Cell>, x: usize, c: Cell)
    requires
        x <= 0xFFFF,
    ensures
        row_view(final(line)@) == (if x < old(line)@.len() {
            row_view(old(line)@).update(x as int, c@)
        } else {
            row_view(old(line)@) + Seq::new((x - old(line)@.len()) as nat, |i: int| blank_data())
                + seq![c@]
        }),
        final(line)@.len() == if x < old(line)@.len() {
            old(line)@.len() as int
        } else {
            x + 1
        },
{
    if x < line.len() {
        line[x] = c;
        proof {
            assert(row_view(line@) =~= row_view(old(line)@).update(x as int, c@));
        }
    } else {
        while line.len() < x
            invariant
                old(line)@.len() <= line@.len() <= x,
                forall|t: int| 0 <= t < old(line)@.len() ==> line@[t] == old(line)@[t],
                forall|t: int|
                    old(line)@.len() <= t < line@.len() ==> (#[trigger] line@[t])@ == blank_data(),
            decreases x - line@.len(),
        {
            line.push(Cell::default());
        }
        line.push(c);
        proof {
            assert(row_view(line@) =~= row_view(old(line)@) + Seq::new(
                (x - old(line)@.len()) as nat,
                |i: int| blank_data(),
            ) + seq![c@]);
        }
    }
}

impl<C> TermBackend<C> {
    /// Compresses the current grid into per-row run sequences, appending
    /// one compressed row per grid row to the queue awaiting hydration.
    ///
    /// Each grid row yields the maximal style-homogeneous runs of its
    /// cells, in order; a run whose modifiers carry the hydration marker
    /// becomes a deferred span, any other a plain one. A grid with no
    /// rows, or whose first row has no cells, contributes nothing.
    pub fn flush(&mut self)
        requires
            old(self).wf(),
        ensures
            final(self).wf(),
            final(self).buffer == old(self).buffer,
            final(self).palette == old(self).palette,
            ({
                let rows = rows_view(old(self).buffer@);
                let oldn = old(self).pre_hydrated@.len() as int;
                if rows.len() > 0 && rows[0].len() > 0 {
                    &&& final(self).pre_hydrated@.len() == oldn + rows.len()
                    &&& (forall|t: int|
                        0 <= t < oldn ==> final(self).pre_hydrated@[t] == old(
                            self,
                        ).pre_hydrated@[t])
                    &&& (forall|t: int|
                        0 <= t < rows.len() ==> spans_match_runs(
                            (#[trigger] final(self).pre_hydrated@[oldn + t])@,
                            runs_of(rows[t]),
                        ))
                } else {
                    final(self).pre_hydrated == old(self).pre_hydrated
                }
            }),
    {
        let ghost rows = rows_view(old(self).buffer@);
        let ghost oldn = old(self).pre_hydrated@.len() as int;
        if self.buffer.len() == 0 {
            return ;
        }
        if self.buffer[0].len() == 0 {
            proof {
                assert(rows[0].len() == 0);
            }
            return ;
        }
        let height = self.buffer.len();
        let mut j: usize = 0;
        while j < height
            invariant
                j <= height,
                height == self.buffer@.len(),
                self.buffer == old(self).buffer,
                self.palette == old(self).palette,
                old(self).wf(),
                rows == rows_view(self.buffer@),
                oldn == old(self).pre_hydrated@.len(),
                self.pre_hydrated@.len() == oldn + j,
                forall|t: int|
                    0 <= t < oldn ==> self.pre_hydrated@[t] == old(self).pre_hydrated@[t],
                forall|t: int|
                    0 <= t < j ==> spans_match_runs(
                        (#[trigger] self.pre_hydrated@[oldn + t])@,
                        runs_of(rows[t]),
                    ),
            decreases height - j,
        {
            let line_buf = compress_row(&self.buffer[j]);
            self.pre_hydrated.push(line_buf);
            j = j + 1;
        }
        proof {
            assert forall|i: int| 0 <= i < self.pre_hydrated@.len() implies row_spans_wf(
                (#[trigger] self.pre_hydrated@[i])@,
            ) by {
                if i < oldn {
                    assert(self.pre_hydrated@[i] == old(self).pre_hydrated@[i]);
                } else {
                    let t = i - oldn;
                    let r = rows[t];
                    assert forall|k: int| 0 <= k < r.len() implies (#[trigger] r[k]).wf() by {
                        assert(r[k] == self.buffer@[t]@[k]@);
                    }
                    crate::span::lemma_runs_wf(r);
                    assert(self.pre_hydrated@[oldn + t] == self.pre_hydrated@[i]);
                    assert(spans_match_runs(self.pre_hydrated@[i]@, runs_of(r)));
                }
            }
        }
    }
}

/// Compresses one row of cells into its maximal style-homogeneous runs:
/// the running style is seeded from the first cell, closed into a span at
/// every style change, and flushed once more at the row's end.
fn compress_row<C>(row: &Vec<Cell>) -> (line_buf: Vec<TermSpan<C>>)
    requires
        forall|k: int| 0 <= k < row@.len() ==> (#[trigger] row@[k])@.wf(),
    ensures
        spans_match_runs(line_buf@, runs_of(row_view(row@))),
{
    let ghost r = row_view(row@);
    let row_len = row.len();
    let mut line_buf: Vec<TermSpan<C>> = Vec::new();
    if row_len == 0 {
        return line_buf;
    }
    let mut fg = row[0].fg;
    let mut bg = row[0].bg;
    let mut mods = row[0].modifier;
    let mut text = String::new();
    text.append(row[0].symbol.as_str());
    proof {
        assert(r[0] == row@[0]@);
        assert(r.take(1).drop_last() =~= Seq::<CellData>::empty());
        assert(r.take(1).last() == r[0]);
        assert(runs_of(Seq::<CellData>::empty()) == Seq::<SpanData>::empty());
        assert(runs_of(r.take(1)) == Seq::<SpanData>::empty().push(SpanData::of_cell(r[0])));
        assert(runs_of(r.take(1)).drop_last() =~= Seq::<SpanData>::empty());
        assert(text@ =~= r[0].symbol);
        assert(row@[0]@.wf());
    }
    let mut i: usize = 1;
    while i < row_len
        invariant
            1 <= i <= row_len,
            row_len == r.len(),
            r == row_view(row@),
            forall|k: int| 0 <= k < row@.len() ==> (#[trigger] row@[k])@.wf(),
            ({
                let rs = runs_of(r.take(i as int));
                &&& rs.len() == line_buf@.len() + 1
                &&& spans_match_runs(line_buf@, rs.drop_last())
                &&& rs.last().fg == fg
                &&& rs.last().bg == bg
                &&& rs.last().modifier == mods
                &&& rs.last().text == text@
            }),
            text@.len() > 0,
        decreases row_len - i,
    {
        let cfg = row[i].fg;
        let cbg = row[i].bg;
        let cmods = row[i].modifier;
        let ghost rs = runs_of(r.take(i as int));
        proof {
            assert(r[i as int] == row@[i as int]@);
            assert(r.take(i + 1).drop_last() =~= r.take(i as int));
            assert(r.take(i + 1).last() == r[i as int]);
        }
        if fg != cfg || bg != cbg || mods != cmods {
            let t = text;
            text = String::new();
            if !t.as_str().is_empty() {
                let span: TermSpan<C> = if mods.contains(Modifier::hydration()) {
                    TermSpan::Dehydrated(DehydratedSpan::new(fg, bg, mods, t))
                } else {
                    TermSpan::Plain((fg, bg), mods, t)
                };
                line_buf.push(span);
            }
            fg = cfg;
            bg = cbg;
            mods = cmods;
            proof {
                let rs2 = runs_of(r.take(i + 1));
                assert(!rs.last().same_style(r[i as int]));
                assert(rs2 == rs.push(SpanData::of_cell(r[i as int])));
                assert(rs2.drop_last() =~= rs);
            }
        } else {
            proof {
                let rs2 = runs_of(r.take(i + 1));
                assert(rs.last().same_style(r[i as int]));
                assert(rs2 == rs.update(rs.len() - 1, rs.last().push_text(r[i as int].symbol)));
                assert(rs2.drop_last() =~= rs.drop_last());
            }
        }
        text.append(row[i].symbol.as_str());
        i = i + 1;
    }
    proof {
        assert(r.take(row_len as int) =~= r);
    }
    let t = text;
    if !t.as_str().is_empty() {
        let span: TermSpan<C> = if mods.contains(Modifier::hydration()) {
            TermSpan::Dehydrated(DehydratedSpan::new(fg, bg, mods, t))
        } else {
            TermSpan::Plain((fg, bg), mods, t)
        };
        line_buf.push(span);
    }
    proof {
        let rs = runs_of(r);
        assert(line_buf@.len() == rs.len());
        assert(rs.drop_last().push(rs.last()) =~= rs);
    }
    line_buf
}

/// One renderable inline node: the composed CSS style text, the run text,
/// an optional activation callback, and an optional hyperlink target. The
/// host realizes a node with a hyperlink as a link wrapper that opens a
/// new navigation context with no underline decoration.
#[derive(Debug)]
pub struct SpanNode<C> {
    pub style: String,
    pub text: String,
    pub on_click: Option<C>,
    pub hyperlink: Option<String>,
}

/// The application-supplied resolver for deferred runs. It may attach
/// interaction data to the span it is handed; the span's style and text
/// are not its to change. `log` abstracts the spans it has resolved so
/// far, oldest first, so that callers can state how often and in what
/// order it was invoked.
pub trait Hydrator<C> {
    /// The style and text of every deferred run this resolver has been
    /// handed, oldest first. The default abstraction forgets the calls; a
    /// resolver about which callers prove anything overrides it.
    open spec fn log(&self) -> Seq<SpanData> {
        Seq::empty()
    }

    /// The full state of each resolved span as this resolver returned it,
    /// oldest first: the run data plus whatever interaction data it bound.
    open spec fn outcomes(&self) -> Seq<DehydratedView<C>> {
        Seq::empty()
    }

    /// Resolves one deferred run: may set a click callback and/or a
    /// hyperlink target, or do nothing. Runs to completion before the
    /// next run is processed.
    fn hydrate_span(&mut self, span: &mut DehydratedSpan<C>)
        ensures
            final(self).log() == old(self).log().push(old(span)@.data()),
            final(self).outcomes() == old(self).outcomes().push(final(span)@),
            final(span)@.fg == old(span)@.fg,
            final(span)@.bg == old(span)@.bg,
            final(span)@.modifier == old(span)@.modifier,
            final(span)@.text == old(span)@.text,
    ;
}

/// The default resolver: binds no interaction data at all, leaving every
/// deferred run exactly as compression produced it.
pub struct DefaultHydrator<C> {
    calls: Ghost<Seq<SpanData>>,
    outs: Ghost<Seq<DehydratedView<C>>>,
}

impl<C> DefaultHydrator<C> {
    /// The runs this resolver has been handed, oldest first.
    pub closed spec fn spec_log(&self) -> Seq<SpanData> {
        self.calls@
    }

    /// The spans as this resolver returned them, oldest first.
    pub closed spec fn spec_outcomes(&self) -> Seq<DehydratedView<C>> {
        self.outs@
    }

    pub fn new() -> (r: Self)
        ensures
            r.spec_log() == Seq::<SpanData>::empty(),
            r.spec_outcomes() == Seq::<DehydratedView<C>>::empty(),
    {
        DefaultHydrator { calls: Ghost(Seq::empty()), outs: Ghost(Seq::empty()) }
    }
}

impl<C> Hydrator<C> for DefaultHydrator<C> {
    open spec fn log(&self) -> Seq<SpanData> {
        self.spec_log()
    }

    open spec fn outcomes(&self) -> Seq<DehydratedView<C>> {
        self.spec_outcomes()
    }

    fn hydrate_span(&mut self, span: &mut DehydratedSpan<C>) {
        proof {
            self.calls@ = self.calls@.push(span@.data());
            self.outs@ = self.outs@.push(span@);
        }
    }
}

/// A resolver with observable behavior: it records the text of every span
/// it is handed, in order, and binds the configured interaction data to
/// each. It lets a host check how the pipeline drives resolution without
/// writing a resolver of its own.
pub struct RecordingHydrator<C> {
    /// The text of each span handed to this resolver, oldest first.
    pub texts: Vec<String>,
    /// A callback to bind to every span it resolves, if any.
    pub click: Option<C>,
    /// A hyperlink target to bind to every span it resolves, if any.
    pub link: Option<String>,
    calls: Ghost<Seq<SpanData>>,
    outs: Ghost<Seq<DehydratedView<C>>>,
}

impl<C> RecordingHydrator<C> {
    /// The runs this resolver has been handed, oldest first.
    pub closed spec fn spec_log(&self) -> Seq<SpanData> {
        self.calls@
    }

    /// The spans as this resolver returned them, oldest first.
    pub closed spec fn spec_outcomes(&self) -> Seq<DehydratedView<C>> {
        self.outs@
    }

    /// The recorded texts, oldest first.
    pub closed spec fn spec_texts(&self) -> Seq<String> {
        self.texts@
    }

    /// The interaction data this resolver binds.
    pub closed spec fn spec_binding(&self) -> (Option<C>, Option<String>) {
        (self.click, self.link)
    }

    /// A recording resolver that binds the given interaction data.
    pub fn new(click: Option<C>, link: Option<String>) -> (r: Self)
        ensures
            r.spec_log() == Seq::<SpanData>::empty(),
            r.spec_outcomes() == Seq::<DehydratedView<C>>::empty(),
            r.spec_texts() == Seq::<String>::empty(),
            r.spec_binding() == (click, link),
    {
        RecordingHydrator {
            texts: Vec::new(),
            click,
            link,
            calls: Ghost(Seq::empty()),
            outs: Ghost(Seq::empty()),
        }
    }
}

impl<C: Copy> Hydrator<C> for RecordingHydrator<C> {
    open spec fn log(&self) -> Seq<SpanData> {
        self.spec_log()
    }

    open spec fn outcomes(&self) -> Seq<DehydratedView<C>> {
        self.spec_outcomes()
    }

    fn hydrate_span(&mut self, span: &mut DehydratedSpan<C>)
        ensures
            final(self).spec_texts().len() == old(self).spec_texts().len() + 1,
            final(self).spec_texts().last()@ == old(span)@.text,
            forall|i: int|
                0 <= i < old(self).spec_texts().len() ==> #[trigger] final(self).spec_texts()[i]
                    == old(self).spec_texts()[i],
            final(self).spec_binding() == old(self).spec_binding(),
            final(span)@.on_click == if old(self).spec_binding().0 is Some {
                old(self).spec_binding().0
            } else {
                old(span)@.on_click
            },
            match old(self).spec_binding().1 {
                Some(l) => final(span)@.hyperlink == Some(l@),
                None => final(span)@.hyperlink == old(span)@.hyperlink,
            },
    {
        proof {
            self.calls@ = self.calls@.push(span@.data());
        }
        let text = span.text().to_owned();
        self.texts.push(text);
        match self.click {
            Some(c) => span.on_click(c),
            None => (),
        }
        match &self.link {
            Some(l) => span.hyperlink(l.clone()),
            None => (),
        }
        proof {
            self.outs@ = self.outs@.push(span@);
        }
    }
}

/// What the hydration pass promises of each produced node: its style text
/// is composed from the run's style under the given palette, its text is
/// the run's text, and only a deferred run can carry interaction data.
pub open spec fn nodes_match_spans<C>(
    p: Palette,
    row: Seq<TermSpan<C>>,
    nodes: Seq<SpanNode<C>>,
) -> bool {
    &&& nodes.len() == row.len()
    &&& forall|k: int|
        0 <= k < row.len() ==> {
            let d = (#[trigger] row[k]).data();
            &&& (#[trigger] nodes[k]).style@ == spec_span_style(p, d.fg, d.bg, d.modifier)
            &&& nodes[k].text@ == d.text
            &&& (!row[k].is_deferred() ==> nodes[k].on_click is None && nodes[k].hyperlink is None)
        }
}

/// The node built from a deferred run carries exactly the interaction
/// data the resolver bound to it: the resolver outcome `v` saw the run's
/// own data, and the node's callback and hyperlink are the outcome's.
pub open spec fn node_reflects_outcome<C>(
    s: TermSpan<C>,
    n: SpanNode<C>,
    v: DehydratedView<C>,
) -> bool {
    &&& v.data() == s.data()
    &&& n.on_click == v.on_click
    &&& match n.hyperlink {
        Some(l) => v.hyperlink == Some(l@),
        None => v.hyperlink is None,
    }
}

/// The deferred runs of one compressed row, each paired with the node
/// built from it, in order. `nodes` lists one node per run.
pub open spec fn deferred_nodes<C>(row: Seq<TermSpan<C>>, nodes: Seq<SpanNode<C>>) -> Seq<
    (TermSpan<C>, SpanNode<C>),
>
    decreases row.len(),
{
    if row.len() == 0 || nodes.len() == 0 {
        Seq::empty()
    } else {
        deferred_nodes(row.drop_last(), nodes.drop_last()) + if row.last().is_deferred() {
            seq![(row.last(), nodes.last())]
        } else {
            Seq::empty()
        }
    }
}

/// The deferred runs of a compressed run grid paired with their nodes,
/// top to bottom then left to right.
pub open spec fn deferred_nodes_all<C>(
    rows: Seq<Vec<TermSpan<C>>>,
    outs: Seq<Vec<SpanNode<C>>>,
) -> Seq<(TermSpan<C>, SpanNode<C>)>
    decreases rows.len(),
{
    if rows.len() == 0 || outs.len() == 0 {
        Seq::empty()
    } else {
        deferred_nodes_all(rows.drop_last(), outs.drop_last()) + deferred_nodes(
            rows.last()@,
            outs.last()@,
        )
    }
}

impl<C> TermBackend<C> {
    /// Consumes the full pending run grid, exactly once per render cycle,
    /// and materializes one row of renderable nodes per compressed row.
    ///
    /// Every deferred run is handed to the resolver exactly once, top to
    /// bottom then left to right — `h.log()` grows by exactly the deferred
    /// runs of the consumed grid, in that order. Every run, deferred or
    /// plain, appears in the output as a styled node, and each node built
    /// from a deferred run carries exactly the interaction data the
    /// resolver bound to it, as `h.outcomes()` records.
    #[verifier::loop_isolation(false)]
    pub fn hydrate<H: Hydrator<C>>(&mut self, h: &mut H) -> (out: Vec<Vec<SpanNode<C>>>)
        requires
            old(self).wf(),
        ensures
            final(self).wf(),
            final(self).buffer == old(self).buffer,
            final(self).palette == old(self).palette,
            final(self).pre_hydrated@.len() == 0,
            final(h).log() == old(h).log() + deferred_data_all(old(self).pre_hydrated@),
            final(h).outcomes().len() == old(h).outcomes().len() + deferred_data_all(
                old(self).pre_hydrated@,
            ).len(),
            out@.len() == old(self).pre_hydrated@.len(),
            forall|j: int|
                0 <= j < out@.len() ==> nodes_match_spans(
                    old(self).palette,
                    old(self).pre_hydrated@[j]@,
                    (#[trigger] out@[j])@,
                ),
            forall|m: int|
                0 <= m < deferred_nodes_all(old(self).pre_hydrated@, out@).len()
                    ==> node_reflects_outcome(
                    (#[trigger] deferred_nodes_all(old(self).pre_hydrated@, out@)[m]).0,
                    deferred_nodes_all(old(self).pre_hydrated@, out@)[m].1,
                    final(h).outcomes()[old(h).outcomes().len() + m],
                ),
    {
        let ghost rows0 = self.pre_hydrated@;
        let mut out: Vec<Vec<SpanNode<C>>> = Vec::new();
        proof {
            assert(rows0.take(0) =~= Seq::<Vec<TermSpan<C>>>::empty());
            assert(rows0.skip(0) =~= rows0);
        }
        while self.pre_hydrated.len() > 0
            invariant
                out@.len() + self.pre_hydrated@.len() == rows0.len(),
                self.pre_hydrated@ == rows0.skip(out@.len() as int),
                self.buffer == old(self).buffer,
                self.palette == old(self).palette,
                h.log() == old(h).log() + deferred_data_all(rows0.take(out@.len() as int)),
                h.outcomes().len() == old(h).outcomes().len() + deferred_data_all(
                    rows0.take(out@.len() as int),
                ).len(),
                forall|i: int|
                    0 <= i < old(h).outcomes().len() ==> #[trigger] h.outcomes()[i] == old(
                        h,
                    ).outcomes()[i],
                forall|t: int|
                    0 <= t < out@.len() ==> nodes_match_spans(
                        old(self).palette,
                        rows0[t]@,
                        (#[trigger] out@[t])@,
                    ),
                deferred_nodes_all(rows0.take(out@.len() as int), out@).len()
                    == deferred_data_all(rows0.take(out@.len() as int)).len(),
                forall|m: int|
                    0 <= m < deferred_nodes_all(rows0.take(out@.len() as int), out@).len()
                        ==> node_reflects_outcome(
                        (#[trigger] deferred_nodes_all(rows0.take(out@.len() as int), out@)[m]).0,
                        deferred_nodes_all(rows0.take(out@.len() as int), out@)[m].1,
                        h.outcomes()[old(h).outcomes().len() + m],
                    ),
            decreases self.pre_hydrated@.len(),
        {
            let ghost j = out@.len() as int;
            let mut row = self.pre_hydrated.remove(0);
            proof {
                assert(row == rows0[j]);
                assert(self.pre_hydrated@ =~= rows0.skip(j + 1));
            }
            let ghost row0 = row@;
            let ghost log_row_start = h.log();
            let ghost outs_row_start = h.outcomes();
            let mut inner: Vec<SpanNode<C>> = Vec::new();
            proof {
                assert(row0.take(0) =~= Seq::<TermSpan<C>>::empty());
                assert(row0.skip(0) =~= row0);
                assert(row_spans_wf(row0));
            }
            while row.len() > 0
                invariant
                    inner@.len() + row@.len() == row0.len(),
                    row@ == row0.skip(inner@.len() as int),
                    h.log() == log_row_start + deferred_data(row0.take(inner@.len() as int)),
                    h.outcomes().len() == outs_row_start.len() + deferred_data(
                        row0.take(inner@.len() as int),
                    ).len(),
                    forall|i: int|
                        0 <= i < outs_row_start.len() ==> #[trigger] h.outcomes()[i]
                            == outs_row_start[i],
                    deferred_nodes(row0.take(inner@.len() as int), inner@).len()
                        == deferred_data(row0.take(inner@.len() as int)).len(),
                    forall|m: int|
                        0 <= m < deferred_nodes(row0.take(inner@.len() as int), inner@).len()
                            ==> node_reflects_outcome(
                            (#[trigger] deferred_nodes(
                                row0.take(inner@.len() as int),
                                inner@,
                            )[m]).0,
                            deferred_nodes(row0.take(inner@.len() as int), inner@)[m].1,
                            h.outcomes()[outs_row_start.len() + m],
                        ),
                    forall|t: int|
                        0 <= t < inner@.len() ==> {
                            let d = (#[trigger] row0[t]).data();
                            &&& (#[trigger] inner@[t]).style@ == spec_span_style(
                                self.palette,
                                d.fg,
                                d.bg,
                                d.modifier,
                            )
                            &&& inner@[t].text@ == d.text
                            &&& (!row0[t].is_deferred() ==> inner@[t].on_click is None
                                && inner@[t].hyperlink is None)
                        },
                decreases row@.len(),
            {
                let ghost k = inner@.len() as int;
                let ghost inner_prev = inner@;
                let s = row.remove(0);
                let ghost s0 = s;
                proof {
                    assert(s0 == row0[k]);
                    assert(row@ =~= row0.skip(k + 1));
                    assert(row0[k].fresh() && row0[k].data().wf());
                    assert(row0.take(k + 1).drop_last() =~= row0.take(k));
                    assert(row0.take(k + 1).last() == row0[k]);
                }
                match s {
                    TermSpan::Plain(st, m, t) => {
                        let style = span_style(&self.palette, st.0, st.1, m);
                        inner.push(SpanNode { style, text: t, on_click: None, hyperlink: None });
                        proof {
                            assert(deferred_data(row0.take(k + 1)) =~= deferred_data(
                                row0.take(k),
                            ));
                            assert(inner@.drop_last() =~= inner_prev);
                            assert(deferred_nodes(row0.take(k + 1), inner@) =~= deferred_nodes(
                                row0.take(k),
                                inner_prev,
                            ));
                        }
                    },
                    TermSpan::Dehydrated(mut d) => {
                        h.hydrate_span(&mut d);
                        let ghost v = h.outcomes().last();
                        let parts = d.into_parts();
                        let style = span_style(&self.palette, parts.0.0, parts.0.1, parts.1);
                        inner.push(
                            SpanNode {
                                style,
                                text: parts.2,
                                on_click: parts.3,
                                hyperlink: parts.4,
                            },
                        );
                        proof {
                            assert(deferred_data(row0.take(k + 1)) =~= deferred_data(
                                row0.take(k),
                            ).push(s0.data()));
                            assert(v.data() == s0.data());
                            assert(node_reflects_outcome(s0, inner@.last(), v));
                            assert(inner@.drop_last() =~= inner_prev);
                            assert(deferred_nodes(row0.take(k + 1), inner@) =~= deferred_nodes(
                                row0.take(k),
                                inner_prev,
                            ).push((s0, inner@.last())));
                        }
                    },
                }
            }
            proof {
                assert(row0.take(row0.len() as int) =~= row0);
            }
            let ghost out_prev = out@;
            let ghost inner_final = inner@;
            out.push(inner);
            proof {
                assert(rows0.take(j + 1).drop_last() =~= rows0.take(j));
                assert(rows0.take(j + 1).last() == rows0[j]);
                assert(h.log() =~= old(h).log() + deferred_data_all(rows0.take(j + 1)));
                assert(out@.drop_last() =~= out_prev);
                assert(out@.last()@ == inner_final);
                assert(deferred_nodes_all(rows0.take(j + 1), out@) =~= deferred_nodes_all(
                    rows0.take(j),
                    out_prev,
                ) + deferred_nodes(row0, inner_final));
            }
        }
        proof {
            assert(rows0.take(rows0.len() as int) =~= rows0);
        }
        out
    }
}

/// A blank cell is well-formed: it displays one space.
pub proof fn lemma_blank_wf()
    ensures
        blank_data().wf(),
{
    reveal_strlit(" ");
}

/// A blank row of `width` cells.
fn blank_row(width: u16) -> (r: Vec<Cell>)
    ensures
        r@.len() == width,
        forall|j: int| 0 <= j < r@.len() ==> (#[trigger] r@[j])@ == blank_data(),
{
    let mut r: Vec<Cell> = Vec::new();
    let mut j: u16 = 0;
    while j < width
        invariant
            j <= width,
            r@.len() == j,
            forall|t: int| 0 <= t < r@.len() ==> (#[trigger] r@[t])@ == blank_data(),
        decreases width - j,
    {
        r.push(Cell::default());
        j = j + 1;
    }
    r
}

/// A blank `height` by `width` grid.
fn blank_grid(width: u16, height: u16) -> (r: Vec<Vec<Cell>>)
    ensures
        is_blank_grid(r@, width, height),
{
    let mut r: Vec<Vec<Cell>> = Vec::new();
    let mut i: u16 = 0;
    while i < height
        invariant
            i <= height,
            r@.len() == i,
            forall|t: int| 0 <= t < r@.len() ==> (#[trigger] r@[t])@.len() == width,
            forall|t: int, j: int|
                0 <= t < r@.len() && 0 <= j < r@[t]@.len() ==> (#[trigger] r@[t]@[j])@
                    == blank_data(),
        decreases height - i,
    {
        r.push(blank_row(width));
        i = i + 1;
    }
    r
}

/// The character-grid dimensions that fit a window of the given raw pixel
/// dimensions, for pointer-driven contexts.
pub fn get_window_size(raw: (u16, u16)) -> (r: (u16, u16))
    ensures
        r.0 == raw.0 / 10,
        r.1 == raw.1 / 20,
{
    (raw.0 / 10, raw.1 / 20)
}

/// The character-grid dimensions that fit a screen of the given raw pixel
/// dimensions, for touch-only contexts.
pub fn get_screen_size(raw: (u16, u16)) -> (r: (u16, u16))
    ensures
        r.0 == raw.0 / 10,
        r.1 == raw.1 / 19,
{
    (raw.0 / 10, raw.1 / 19)
}

/// Raw viewport dimensions, with the fixed fallback for a host that could
/// not report them.
pub fn window_size_or_default(raw: Option<(u16, u16)>) -> (r: (u16, u16))
    ensures
        r == match raw {
            Some(d) => d,
            None => (120u16, 120u16),
        },
{
    match raw {
        Some(d) => d,
        None => (120, 120),
    }
}

/// Whether a screen of the given raw width is narrow enough to be treated
/// as a touch-first mobile display.
pub fn is_mobile(raw_screen_width: i32) -> (r: bool)
    ensures
        r == (raw_screen_width < 550),
{
    raw_screen_width < 550
}

} // verus!
