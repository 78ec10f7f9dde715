//! Bar display state: a bounded rolling history of pressure samples and its
//! quantization into a fixed-height chart of partial-block glyph cells.
//!
//! Five severity levels are packed into three terminal rows by splitting
//! each row into two vertical half-units: a cell is fully filled, filled in
//! its lower half, or blank, depending on how high the sample's bar reaches.

use vstd::prelude::*;

use crate::thermal::{ordinal, ThermalPressure};

verus! {

/// Number of terminal rows the chart occupies.
pub const CHART_ROWS: u16 = 3;

/// The fill of one chart cell.
#[derive(Clone, Copy, Debug, PartialEq, Eq, Structural)]
pub enum Glyph {
    Full,
    LowerHalf,
    Blank,
}

impl Glyph {
    /// The character drawn for this fill.
    pub fn symbol(self) -> (c: char)
        ensures
            c == symbol_of(self),
    {
        match self {
            Glyph::Full => '█',
            Glyph::LowerHalf => '▄',
            Glyph::Blank => ' ',
        }
    }
}

/// The character owed for each fill.
pub open spec fn symbol_of(g: Glyph) -> char {
    match g {
        Glyph::Full => '█',
        Glyph::LowerHalf => '▄',
        Glyph::Blank => ' ',
    }
}

/// The color a chart column takes from its sample's severity.
#[derive(Clone, Copy, Debug, PartialEq, Eq, Structural)]
pub enum ChartColor {
    White,
    Yellow,
    Red,
    Magenta,
}

/// The chart color owed for each level.
pub open spec fn color_of(p: ThermalPressure) -> ChartColor {
    match p {
        ThermalPressure::Nominal => ChartColor::White,
        ThermalPressure::Moderate => ChartColor::Yellow,
        ThermalPressure::Heavy => ChartColor::Red,
        ThermalPressure::Trapping => ChartColor::Red,
        ThermalPressure::Sleeping => ChartColor::Magenta,
        ThermalPressure::Unknown(_) => ChartColor::White,
    }
}

/// The chart color for a sample's severity.
pub fn pressure_color(p: ThermalPressure) -> (c: ChartColor)
    ensures
        c == color_of(p),
{
    match p {
        ThermalPressure::Nominal => ChartColor::White,
        ThermalPressure::Moderate => ChartColor::Yellow,
        ThermalPressure::Heavy => ChartColor::Red,
        ThermalPressure::Trapping => ChartColor::Red,
        ThermalPressure::Sleeping => ChartColor::Magenta,
        ThermalPressure::Unknown(_) => ChartColor::White,
    }
}

/// The fill of the cell at terminal row `row` (0 is the top) for a sample
/// of severity ordinal `o`. The bar's height in half-units is `o + 1`; the
/// row's lower half-unit is `(CHART_ROWS - 1 - row) * 2 + 1` counted from
/// the bottom, its upper half-unit one more.
pub open spec fn glyph_at(o: u64, row: int) -> Glyph
    recommends
        0 <= row < CHART_ROWS,
{
    let bottom_unit = (CHART_ROWS - 1 - row) * 2 + 1;
    let top_unit = bottom_unit + 1;
    if o + 1 >= top_unit {
        Glyph::Full
    } else if o + 1 >= bottom_unit {
        Glyph::LowerHalf
    } else {
        Glyph::Blank
    }
}

/// Computes the fill of one chart cell for a severity ordinal.
pub fn glyph_cell(o: u64, row: u16) -> (g: Glyph)
    requires
        row < CHART_ROWS,
    ensures
        g == glyph_at(o, row as int),
{
    let bottom_unit: u64 = ((CHART_ROWS - 1 - row) * 2 + 1) as u64;
    let top_unit: u64 = bottom_unit + 1;
    if o >= top_unit - 1 {
        Glyph::Full
    } else if o >= bottom_unit - 1 {
        Glyph::LowerHalf
    } else {
        Glyph::Blank
    }
}

/// One rendered chart cell: a fill and the column's color.
#[derive(Clone, Copy, Debug, PartialEq, Eq, Structural)]
pub struct Cell {
    pub glyph: Glyph,
    pub color: ChartColor,
}

/// The capacity the history runs at for a terminal of `width` columns:
/// the width itself, clamped to at least one column.
pub open spec fn clamped_capacity(width: nat) -> nat {
    if width == 0 {
        1
    } else {
        width
    }
}

/// The history after one push: the sample is appended, and if the buffer
/// were to exceed `cap` elements, the oldest are evicted first.
pub open spec fn pushed(h: Seq<ThermalPressure>, p: ThermalPressure, cap: nat) -> Seq<
    ThermalPressure,
>
    recommends
        cap >= 1,
{
    if h.len() < cap {
        h.push(p)
    } else {
        h.skip(h.len() - cap + 1).push(p)
    }
}

/// The verified state of the bar display: the rolling history of classified
/// samples, oldest first. The terminal surface it is drawn on lives with
/// the binary.
pub struct BarDisplay {
    pub history: Vec<ThermalPressure>,
}

impl BarDisplay {
    /// An empty history.
    pub fn new() -> (d: Self)
        ensures
            d.history@ == Seq::<ThermalPressure>::empty(),
    {
        BarDisplay { history: Vec::new() }
    }

    /// Appends a sample, evicting the oldest entries first so that the
    /// buffer never exceeds the capacity for the given terminal width.
    pub fn push(&mut self, pressure: ThermalPressure, width: usize)
        ensures
            final(self).history@ == pushed(
                old(self).history@,
                pressure,
                clamped_capacity(width as nat),
            ),
            final(self).history@.len() <= clamped_capacity(width as nat),
    {
        let cap: usize = if width == 0 {
            1
        } else {
            width
        };
        let ghost orig = self.history@;
        while self.history.len() >= cap
            invariant
                cap >= 1,
                cap == clamped_capacity(width as nat),
                self.history@ == orig.skip(orig.len() - self.history@.len()),
                self.history@.len() <= orig.len(),
                self.history@.len() == orig.len() || self.history@.len() + 1 >= cap,
            decreases self.history@.len(),
        {
            self.history.remove(0);
            proof {
                assert(self.history@ =~= orig.skip(orig.len() - self.history@.len()));
            }
        }
        self.history.push(pressure);
        proof {
            assert(self.history@ =~= pushed(orig, pressure, cap as nat));
        }
    }

    /// Renders the history into `CHART_ROWS` rows of cells, one column per
    /// retained sample in chronological order, clipped to the terminal
    /// width. Each cell's fill follows the half-unit quantization of its
    /// column's severity, and each column carries its sample's color.
    pub fn render_cells(&self, width: u16) -> (rows: Vec<Vec<Cell>>)
        ensures
            rows@.len() == CHART_ROWS as nat,
            forall|r: int|
                0 <= r < CHART_ROWS ==> #[trigger] rows@[r]@.len() == chart_columns(
                    self.history@.len(),
                    width as nat,
                ),
            forall|r: int, c: int|
                0 <= r < CHART_ROWS && 0 <= c < chart_columns(self.history@.len(), width as nat)
                    ==> #[trigger] rows@[r]@[c] == (Cell {
                    glyph: glyph_at(ordinal(self.history@[c]), r),
                    color: color_of(self.history@[c]),
                }),
    {
        let cols: usize = if self.history.len() < width as usize {
            self.history.len()
        } else {
            width as usize
        };
        let mut rows: Vec<Vec<Cell>> = Vec::new();
        let mut r: u16 = 0;
        while r < CHART_ROWS
            invariant
                r <= CHART_ROWS,
                rows@.len() == r as nat,
                cols == chart_columns(self.history@.len(), width as nat),
                cols <= self.history@.len(),
                forall|i: int|
                    0 <= i < r ==> #[trigger] rows@[i]@.len() == chart_columns(
                        self.history@.len(),
                        width as nat,
                    ),
                forall|i: int, c: int|
                    0 <= i < r && 0 <= c < cols ==> #[trigger] rows@[i]@[c] == (Cell {
                        glyph: glyph_at(ordinal(self.history@[c]), i),
                        color: color_of(self.history@[c]),
                    }),
            decreases CHART_ROWS - r,
        {
            let mut row: Vec<Cell> = Vec::new();
            let mut c: usize = 0;
            while c < cols
                invariant
                    r < CHART_ROWS,
                    c <= cols,
                    cols <= self.history@.len(),
                    row@.len() == c as nat,
                    forall|j: int|
                        0 <= j < c ==> #[trigger] row@[j] == (Cell {
                            glyph: glyph_at(ordinal(self.history@[j]), r as int),
                            color: color_of(self.history@[j]),
                        }),
                decreases cols - c,
            {
                let p = self.history[c];
                let cell = Cell { glyph: glyph_cell(p.level(), r), color: pressure_color(p) };
                row.push(cell);
                c += 1;
            }
            rows.push(row);
            r += 1;
        }
        rows
    }
}

/// How many chart columns are drawn: one per retained sample, at most the
/// terminal width.
pub open spec fn chart_columns(len: nat, width: nat) -> nat {
    if len < width {
        len
    } else {
        width
    }
}

/// The history after pushing each of `samples` in order into a buffer that
/// starts as `h`, at capacity `cap`.
pub open spec fn pushed_all(
    h: Seq<ThermalPressure>,
    samples: Seq<ThermalPressure>,
    cap: nat,
) -> Seq<ThermalPressure>
    decreases samples.len(),
{
    if samples.len() == 0 {
        h
    } else {
        pushed_all(pushed(h, samples[0], cap), samples.skip(1), cap)
    }
}

proof fn lemma_pushed_all_no_evict(h: Seq<ThermalPressure>, samples: Seq<ThermalPressure>, cap: nat)
    requires
        cap >= 1,
        h.len() + samples.len() <= cap,
    ensures
        pushed_all(h, samples, cap) == h + samples,
    decreases samples.len(),
{
    if samples.len() == 0 {
        assert(pushed_all(h, samples, cap) =~= h + samples);
    } else {
        lemma_pushed_all_no_evict(h.push(samples[0]), samples.skip(1), cap);
        assert(h.push(samples[0]) + samples.skip(1) =~= h + samples);
    }
}

proof fn lemma_pushed_all_snoc(h: Seq<ThermalPressure>, samples: Seq<ThermalPressure>, cap: nat)
    requires
        cap >= 1,
        samples.len() >= 1,
    ensures
        pushed_all(h, samples, cap) == pushed(
            pushed_all(h, samples.drop_last(), cap),
            samples.last(),
            cap,
        ),
    decreases samples.len(),
{
    if samples.len() == 1 {
        assert(samples.skip(1) =~= Seq::<ThermalPressure>::empty());
        assert(samples.drop_last() =~= Seq::<ThermalPressure>::empty());
        assert(pushed_all(h, samples, cap) == pushed_all(
            pushed(h, samples[0], cap),
            samples.skip(1),
            cap,
        ));
        assert(pushed_all(pushed(h, samples[0], cap), Seq::<ThermalPressure>::empty(), cap)
            == pushed(h, samples[0], cap));
        assert(pushed_all(h, Seq::<ThermalPressure>::empty(), cap) == h);
        assert(samples.last() == samples[0]);
    } else {
        let h1 = pushed(h, samples[0], cap);
        lemma_pushed_all_snoc(h1, samples.skip(1), cap);
        assert(samples.skip(1).drop_last() =~= samples.drop_last().skip(1));
        assert(samples.skip(1).last() == samples.last());
        assert(pushed_all(h, samples, cap) == pushed_all(h1, samples.skip(1), cap));
        assert(pushed_all(h1, samples.skip(1), cap) == pushed(
            pushed_all(h1, samples.drop_last().skip(1), cap),
            samples.last(),
            cap,
        ));
        assert(samples.drop_last()[0] == samples[0]);
        assert(samples.drop_last().len() >= 1);
        assert(pushed_all(h, samples.drop_last(), cap) == pushed_all(
            h1,
            samples.drop_last().skip(1),
            cap,
        ));
    }
}

/// Law: pushing `k` samples into an empty history at capacity `cap` with
/// `k <= cap` retains all `k` samples, in push order.
pub proof fn lemma_history_keeps_all_under_capacity(samples: Seq<ThermalPressure>, cap: nat)
    requires
        cap >= 1,
        samples.len() <= cap,
    ensures
        pushed_all(Seq::<ThermalPressure>::empty(), samples, cap) == samples,
{
    lemma_pushed_all_no_evict(Seq::<ThermalPressure>::empty(), samples, cap);
    assert(Seq::<ThermalPressure>::empty() + samples =~= samples);
}

/// Law: pushing `cap + 1` samples into an empty history at capacity `cap`
/// evicts exactly the oldest sample once: the result is the last `cap`
/// samples in order, so its length is `cap` and its first element is the
/// second sample pushed.
pub proof fn lemma_history_evicts_oldest(samples: Seq<ThermalPressure>, cap: nat)
    requires
        cap >= 1,
        samples.len() == cap + 1,
    ensures
        pushed_all(Seq::<ThermalPressure>::empty(), samples, cap) == samples.skip(1),
        pushed_all(Seq::<ThermalPressure>::empty(), samples, cap).len() == cap,
        pushed_all(Seq::<ThermalPressure>::empty(), samples, cap)[0] == samples[1],
{
    lemma_pushed_all_snoc(Seq::<ThermalPressure>::empty(), samples, cap);
    lemma_history_keeps_all_under_capacity(samples.drop_last(), cap);
    assert(samples.drop_last().skip(1).push(samples.last()) =~= samples.skip(1));
}

} // verus!
