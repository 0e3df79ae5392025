//! Styled text runs: the compressed form of a row of cells.
//!
//! A run is a maximal contiguous sequence of cells within one row sharing
//! one (foreground, background, modifier-set) style, carrying the
//! concatenated text of those cells. A run whose modifiers carry the
//! hydration marker is deferred: it is handed back to the application for
//! interaction data before being rendered.

use vstd::prelude::*;

use crate::cell::Cell;
use crate::style::{color_ok, Color, Modifier};

verus! {

/// The view of one cell: its grapheme as a character sequence plus its
/// style.
pub ghost struct CellData {
    pub symbol: Seq<char>,
    pub fg: Color,
    pub bg: Color,
    pub modifier: Modifier,
}

impl View for Cell {
    type V = CellData;

    open spec fn view(&self) -> CellData {
        CellData { symbol: self.symbol@, fg: self.fg, bg: self.bg, modifier: self.modifier }
    }
}

impl CellData {
    /// A well-formed cell displays at least one character and names only
    /// valid palette indices.
    pub open spec fn wf(self) -> bool {
        &&& self.symbol.len() > 0
        &&& color_ok(self.fg)
        &&& color_ok(self.bg)
    }

    pub open spec fn same_style(self, other: CellData) -> bool {
        &&& self.fg == other.fg
        &&& self.bg == other.bg
        &&& self.modifier == other.modifier
    }
}

/// The style and text of one run.
pub ghost struct SpanData {
    pub fg: Color,
    pub bg: Color,
    pub modifier: Modifier,
    pub text: Seq<char>,
}

impl SpanData {
    /// The run consisting of the single cell `c`.
    pub open spec fn of_cell(c: CellData) -> SpanData {
        SpanData { fg: c.fg, bg: c.bg, modifier: c.modifier, text: c.symbol }
    }

    /// This run with `t` appended to its text.
    pub open spec fn push_text(self, t: Seq<char>) -> SpanData {
        SpanData { text: self.text + t, ..self }
    }

    pub open spec fn same_style(self, c: CellData) -> bool {
        &&& self.fg == c.fg
        &&& self.bg == c.bg
        &&& self.modifier == c.modifier
    }

    /// Whether this run's modifiers carry the hydration marker.
    pub open spec fn hydrates(self) -> bool {
        self.modifier.spec_hydrates()
    }

    /// Valid palette indices and at least one character of text.
    pub open spec fn wf(self) -> bool {
        &&& self.text.len() > 0
        &&& color_ok(self.fg)
        &&& color_ok(self.bg)
    }
}

/// The maximal style-homogeneous runs of one row, in order: each cell
/// either extends the newest run (same style) or opens a new one.
pub open spec fn runs_of(row: Seq<CellData>) -> Seq<SpanData>
    decreases row.len(),
{
    if row.len() == 0 {
        Seq::empty()
    } else {
        let prev = runs_of(row.drop_last());
        let c = row.last();
        if prev.len() > 0 && prev.last().same_style(c) {
            prev.update(prev.len() - 1, prev.last().push_text(c.symbol))
        } else {
            prev.push(SpanData::of_cell(c))
        }
    }
}

/// The concatenated text of a row of cells.
pub open spec fn row_text(row: Seq<CellData>) -> Seq<char>
    decreases row.len(),
{
    if row.len() == 0 {
        Seq::empty()
    } else {
        row_text(row.drop_last()) + row.last().symbol
    }
}

/// The concatenated text of a sequence of runs.
pub open spec fn runs_text(rs: Seq<SpanData>) -> Seq<char>
    decreases rs.len(),
{
    if rs.len() == 0 {
        Seq::empty()
    } else {
        runs_text(rs.drop_last()) + rs.last().text
    }
}

/// The number of maximal style-homogeneous contiguous groups of a row.
pub open spec fn group_count(row: Seq<CellData>) -> nat
    decreases row.len(),
{
    if row.len() == 0 {
        0
    } else if row.len() == 1 {
        1
    } else {
        group_count(row.drop_last()) + if row[row.len() - 2].same_style(row.last()) {
            0nat
        } else {
            1nat
        }
    }
}

/// Compression is total and faithful: the concatenated text of the runs of
/// a row is exactly the row's text, there is one run per maximal
/// style-homogeneous group, and the newest run always carries the style of
/// the row's last cell.
pub proof fn lemma_runs_total(row: Seq<CellData>)
    ensures
        runs_text(runs_of(row)) == row_text(row),
        runs_of(row).len() == group_count(row),
        row.len() == 0 ==> runs_of(row).len() == 0,
        row.len() > 0 ==> runs_of(row).len() > 0 && runs_of(row).last().same_style(row.last()),
    decreases row.len(),
{
    if row.len() > 0 {
        let body = row.drop_last();
        let c = row.last();
        let prev = runs_of(body);
        lemma_runs_total(body);
        if prev.len() > 0 && prev.last().same_style(c) {
            let rs = runs_of(row);
            assert(rs.drop_last() =~= prev.drop_last());
            assert(runs_text(rs) =~= row_text(row));
        } else {
            let rs = runs_of(row);
            assert(rs.drop_last() =~= prev);
            assert(runs_text(rs) =~= row_text(row));
            if body.len() > 0 {
                assert(!row[row.len() - 2].same_style(row.last()));
            }
        }
    }
}

/// The runs of a row of well-formed cells are well-formed: each carries at
/// least one character of text and only valid palette indices.
pub proof fn lemma_runs_wf(row: Seq<CellData>)
    requires
        forall|i: int| 0 <= i < row.len() ==> (#[trigger] row[i]).wf(),
    ensures
        forall|k: int| 0 <= k < runs_of(row).len() ==> (#[trigger] runs_of(row)[k]).wf(),
    decreases row.len(),
{
    if row.len() > 0 {
        let body = row.drop_last();
        let c = row.last();
        assert(forall|i: int| 0 <= i < body.len() ==> (#[trigger] body[i]).wf());
        lemma_runs_wf(body);
        assert(c.wf());
        let prev = runs_of(body);
        if prev.len() > 0 && prev.last().same_style(c) {
            assert(forall|k: int|
                0 <= k < runs_of(row).len() - 1 ==> runs_of(row)[k] == prev[k]);
        }
    }
}

/// A row whose cells all share one style compresses to exactly one run,
/// carrying that style and the whole row's text.
pub proof fn lemma_runs_uniform(row: Seq<CellData>)
    requires
        row.len() > 0,
        forall|i: int| 0 <= i < row.len() ==> (#[trigger] row[i]).same_style(row[0]),
    ensures
        runs_of(row).len() == 1,
        runs_of(row)[0] == (SpanData {
            fg: row[0].fg,
            bg: row[0].bg,
            modifier: row[0].modifier,
            text: row_text(row),
        }),
    decreases row.len(),
{
    if row.len() == 1 {
        assert(runs_of(Seq::<CellData>::empty()) == Seq::<SpanData>::empty());
        assert(runs_of(row) == Seq::<SpanData>::empty().push(SpanData::of_cell(row.last())));
        assert(row_text(row) =~= row[0].symbol);
    } else {
        let body = row.drop_last();
        assert(forall|i: int| 0 <= i < body.len() ==> (#[trigger] body[i]).same_style(body[0]));
        lemma_runs_uniform(body);
        let c = row.last();
        assert(runs_of(body).last().same_style(c));
        assert(runs_of(row)[0].text =~= row_text(row));
    }
}

/// A row where every adjacent pair of cells differs in style compresses
/// to one run per cell, each the run of that single cell.
#[verifier::rlimit(30)]
pub proof fn lemma_runs_alternating(row: Seq<CellData>)
    requires
        row.len() > 0,
        forall|i: int| 0 < i < row.len() ==> !(#[trigger] row[i]).same_style(row[i - 1]),
    ensures
        runs_of(row).len() == row.len(),
        forall|k: int|
            0 <= k < row.len() ==> #[trigger] runs_of(row)[k] == SpanData::of_cell(row[k]),
    decreases row.len(),
{
    if row.len() == 1 {
        assert(runs_of(Seq::<CellData>::empty()) == Seq::<SpanData>::empty());
        assert(runs_of(row) == Seq::<SpanData>::empty().push(SpanData::of_cell(row.last())));
    } else {
        let body = row.drop_last();
        assert(forall|i: int|
            0 < i < body.len() ==> !(#[trigger] body[i]).same_style(body[i - 1]));
        lemma_runs_alternating(body);
        let c = row.last();
        assert(runs_of(body).last() == SpanData::of_cell(body.last()));
        assert(!runs_of(body).last().same_style(c));
        assert(runs_of(row) == runs_of(body).push(SpanData::of_cell(c)));
    }
}

/// Compression is minimal: one run for a row of one style, one run per
/// cell for a row that changes style at every cell.
pub proof fn lemma_runs_minimal(row: Seq<CellData>)
    requires
        row.len() > 0,
    ensures
        (forall|i: int| 0 <= i < row.len() ==> (#[trigger] row[i]).same_style(row[0]))
            ==> runs_of(row).len() == 1,
        (forall|i: int| 0 < i < row.len() ==> !(#[trigger] row[i]).same_style(row[i - 1]))
            ==> runs_of(row).len() == row.len(),
{
    if forall|i: int| 0 <= i < row.len() ==> (#[trigger] row[i]).same_style(row[0]) {
        lemma_runs_uniform(row);
    }
    if forall|i: int| 0 < i < row.len() ==> !(#[trigger] row[i]).same_style(row[i - 1]) {
        lemma_runs_alternating(row);
    }
}

/// A compressed row whose cells all shared one style holds exactly one
/// span, and its text is the whole row's text.
pub proof fn lemma_uniform_row_single_span<C>(spans: Seq<TermSpan<C>>, row: Seq<CellData>)
    requires
        spans_match_runs(spans, runs_of(row)),
        row.len() > 0,
        forall|i: int| 0 <= i < row.len() ==> (#[trigger] row[i]).same_style(row[0]),
    ensures
        spans.len() == 1,
        spans[0].data().text == row_text(row),
{
    lemma_runs_uniform(row);
}

/// A compressed row whose every adjacent pair of cells differed in style
/// holds one span per cell, each carrying that single cell's grapheme.
pub proof fn lemma_alternating_row_spans<C>(spans: Seq<TermSpan<C>>, row: Seq<CellData>)
    requires
        spans_match_runs(spans, runs_of(row)),
        row.len() > 0,
        forall|i: int| 0 < i < row.len() ==> !(#[trigger] row[i]).same_style(row[i - 1]),
    ensures
        spans.len() == row.len(),
        forall|k: int|
            0 <= k < row.len() ==> (#[trigger] spans[k]).data().text == row[k].symbol,
{
    lemma_runs_alternating(row);
}

/// A container for the ways a resolved span can be interacted with: an
/// optional activation callback and an optional hyperlink target.
#[derive(Debug)]
pub(crate) struct Interaction<C> {
    pub(crate) on_click: Option<C>,
    pub(crate) hyperlink: Option<String>,
}

/// A span that may need additional data, such as a callback or hyperlink,
/// before it can be rendered. Its style and text are fixed at compression
/// time; only the interaction record is settable, through [`Self::on_click`]
/// and [`Self::hyperlink`].
#[derive(Debug)]
pub struct DehydratedSpan<C> {
    pub(crate) style: (Color, Color),
    pub(crate) mods: Modifier,
    pub(crate) text: String,
    pub(crate) interaction: Interaction<C>,
}

/// The view of a deferred span: its run data plus its interaction record.
pub ghost struct DehydratedView<C> {
    pub fg: Color,
    pub bg: Color,
    pub modifier: Modifier,
    pub text: Seq<char>,
    pub on_click: Option<C>,
    pub hyperlink: Option<Seq<char>>,
}

impl<C> DehydratedView<C> {
    /// The style and text of the span, without its interaction record.
    pub open spec fn data(self) -> SpanData {
        SpanData { fg: self.fg, bg: self.bg, modifier: self.modifier, text: self.text }
    }

    /// Whether no interaction data has been attached yet.
    pub open spec fn fresh(self) -> bool {
        self.on_click is None && self.hyperlink is None
    }
}

impl<C> View for DehydratedSpan<C> {
    type V = DehydratedView<C>;

    closed spec fn view(&self) -> DehydratedView<C> {
        DehydratedView {
            fg: self.style.0,
            bg: self.style.1,
            modifier: self.mods,
            text: self.text@,
            on_click: self.interaction.on_click,
            hyperlink: match self.interaction.hyperlink {
                Some(l) => Some(l@),
                None => None,
            },
        }
    }
}

impl<C> DehydratedSpan<C> {
    pub(crate) fn new(fg: Color, bg: Color, mods: Modifier, text: String) -> (r: Self)
        ensures
            r@ == (DehydratedView {
                fg,
                bg,
                modifier: mods,
                text: text@,
                on_click: None::<C>,
                hyperlink: None::<Seq<char>>,
            }),
    {
        Self { style: (fg, bg), mods, text, interaction: Interaction { on_click: None, hyperlink: None } }
    }

    /// The foreground and background colors of the span.
    pub fn style(&self) -> (r: &(Color, Color))
        ensures
            r.0 == self@.fg,
            r.1 == self@.bg,
    {
        &self.style
    }

    /// The modifiers of the span.
    pub fn modifiers(&self) -> (r: &Modifier)
        ensures
            *r == self@.modifier,
    {
        &self.mods
    }

    /// The text of the span.
    pub fn text(&self) -> (r: &str)
        ensures
            r@ == self@.text,
    {
        self.text.as_str()
    }

    /// Sets the activation callback of the span.
    pub fn on_click(&mut self, on_click: C)
        ensures
            final(self)@ == (DehydratedView { on_click: Some(on_click), ..old(self)@ }),
    {
        self.interaction.on_click = Some(on_click);
    }

    /// Sets the hyperlink target of the span.
    pub fn hyperlink(&mut self, link: String)
        ensures
            final(self)@ == (DehydratedView { hyperlink: Some(link@), ..old(self)@ }),
    {
        self.interaction.hyperlink = Some(link);
    }

    /// Takes the span apart: colors, modifiers, text, and the interaction
    /// record.
    pub(crate) fn into_parts(self) -> (r: (
        (Color, Color),
        Modifier,
        String,
        Option<C>,
        Option<String>,
    ))
        ensures
            r.0.0 == self@.fg,
            r.0.1 == self@.bg,
            r.1 == self@.modifier,
            r.2@ == self@.text,
            r.3 == self@.on_click,
            match r.4 {
                Some(l) => self@.hyperlink == Some(l@),
                None => self@.hyperlink is None,
            },
    {
        let DehydratedSpan { style, mods, text, interaction } = self;
        let Interaction { on_click, hyperlink } = interaction;
        (style, mods, text, on_click, hyperlink)
    }
}

/// The intermediate representation of one run between compression and
/// rendering: fully resolved plain data, or a deferred span awaiting
/// hydration.
#[derive(Debug)]
pub enum TermSpan<C> {
    /// Plain data that will be rendered into a styled node directly.
    Plain((Color, Color), Modifier, String),
    /// A span that is yielded to the application for hydration before
    /// being rendered.
    Dehydrated(DehydratedSpan<C>),
}

impl<C> TermSpan<C> {
    /// The style and text of the run.
    pub open spec fn data(self) -> SpanData {
        match self {
            TermSpan::Plain(st, m, t) => SpanData { fg: st.0, bg: st.1, modifier: m, text: t@ },
            TermSpan::Dehydrated(d) => d@.data(),
        }
    }

    /// Whether this run awaits hydration.
    pub open spec fn is_deferred(self) -> bool {
        self is Dehydrated
    }

    /// A span as compression produces it: deferred exactly when its
    /// modifiers carry the hydration marker, with no interaction data yet.
    pub open spec fn fresh(self) -> bool {
        match self {
            TermSpan::Plain(st, m, t) => !m.spec_hydrates(),
            TermSpan::Dehydrated(d) => d@.data().hydrates() && d@.fresh(),
        }
    }
}

/// Whether `row` is exactly the compressed form of the runs `rs`: same
/// length, matching data in order, and each span fresh.
pub open spec fn spans_match_runs<C>(row: Seq<TermSpan<C>>, rs: Seq<SpanData>) -> bool {
    &&& row.len() == rs.len()
    &&& forall|k: int|
        0 <= k < rs.len() ==> (#[trigger] row[k]).data() == rs[k] && row[k].fresh()
}

/// The data of the deferred runs of one compressed row, in order.
pub open spec fn deferred_data<C>(row: Seq<TermSpan<C>>) -> Seq<SpanData>
    decreases row.len(),
{
    if row.len() == 0 {
        Seq::empty()
    } else {
        deferred_data(row.drop_last()) + if row.last().is_deferred() {
            seq![row.last().data()]
        } else {
            Seq::empty()
        }
    }
}

/// The data of the deferred runs of a compressed run grid, top to bottom
/// then left to right.
pub open spec fn deferred_data_all<C>(rows: Seq<Vec<TermSpan<C>>>) -> Seq<SpanData>
    decreases rows.len(),
{
    if rows.len() == 0 {
        Seq::empty()
    } else {
        deferred_data_all(rows.drop_last()) + deferred_data(rows.last()@)
    }
}

} // verus!
