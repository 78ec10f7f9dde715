//! Mode dispatch: one uniform event interface over the plain single-line
//! renderer and the bar-chart renderer. The mode is chosen once at startup
//! and never changes; each event handler computes what the active renderer
//! must show, and the binary performs the terminal writes.

use vstd::prelude::*;

use crate::bar::{clamped_capacity, pushed, BarDisplay, Cell, chart_columns, color_of, glyph_at};
use crate::term::{colored_label, display_name_of, style_of, timestamp, LabelStyle};
use crate::thermal::{description_of, ordinal, ThermalPressure};

verus! {

/// One persistent status line recording an observed level: a wall-clock
/// time, the level's styled display name, and its description.
pub struct StatusLine {
    pub time: String,
    pub label: String,
    pub style: LabelStyle,
    pub description: String,
}

/// What a tick must draw: the plain mode shows only the countdown caption,
/// the bar mode redraws the full chart (the caption goes beneath it).
pub enum TickRender {
    Caption,
    Chart(Vec<Vec<Cell>>),
}

/// The active renderer: stateless plain output, or the bar display with
/// its rolling history.
pub enum Mode {
    Plain,
    Bar(BarDisplay),
}

impl Mode {
    /// Chooses the mode once at startup: the bar display starts with an
    /// empty history.
    pub fn try_new(bar: bool) -> (m: Self)
        ensures
            bar == (m is Bar),
            m matches Mode::Bar(d) ==> d.history@ == Seq::<ThermalPressure>::empty(),
    {
        if bar {
            Mode::Bar(BarDisplay::new())
        } else {
            Mode::Plain
        }
    }

    /// A new reading: the bar mode appends it to the history at the
    /// capacity of the given terminal width; the plain mode keeps no state.
    pub fn on_reading(&mut self, pressure: ThermalPressure, width: usize)
        ensures
            *old(self) is Plain ==> *final(self) == *old(self),
            *old(self) matches Mode::Bar(d) ==> *final(self) matches Mode::Bar(e) && e.history@
                == pushed(d.history@, pressure, clamped_capacity(width as nat)),
    {
        if let Mode::Bar(display) = self {
            display.push(pressure, width);
        }
    }

    /// A changed reading: both modes record one status line holding the
    /// current time, the level's styled name and its description. The
    /// plain mode prints it; the bar mode inserts it above the chart.
    pub fn on_change(&self, pressure: ThermalPressure) -> (line: StatusLine)
        ensures
            line.time@.len() == 8,
            line.label@ == display_name_of(pressure),
            line.style == style_of(pressure),
            line.description@ == description_of(pressure),
    {
        let label = colored_label(pressure);
        StatusLine {
            time: timestamp(),
            label: label.text,
            style: label.style,
            description: String::from_str(pressure.description()),
        }
    }

    /// A countdown tick: the plain mode rewrites only the caption; the bar
    /// mode redraws the chart for the given terminal width.
    pub fn on_tick(&self, width: u16) -> (r: TickRender)
        ensures
            self is Plain ==> r is Caption,
            self matches Mode::Bar(d) ==> r matches TickRender::Chart(rows) && rows@.len() == 3
                && (forall|row: int|
                0 <= row < 3 ==> #[trigger] rows@[row]@.len() == chart_columns(
                    d.history@.len(),
                    width as nat,
                )) && (forall|row: int, c: int|
                0 <= row < 3 && 0 <= c < chart_columns(d.history@.len(), width as nat)
                    ==> #[trigger] rows@[row]@[c] == (Cell {
                    glyph: glyph_at(ordinal(d.history@[c]), row),
                    color: color_of(d.history@[c]),
                })),
    {
        match self {
            Mode::Plain => TickRender::Caption,
            Mode::Bar(display) => TickRender::Chart(display.render_cells(width)),
        }
    }

    /// The end of a poll cycle: the plain mode clears its transient
    /// caption line; the bar mode leaves its caption to be overwritten by
    /// the next draw.
    pub fn on_cycle_end(&self) -> (clear: bool)
        ensures
            clear == (self is Plain),
    {
        matches!(self, Mode::Plain)
    }
}

} // verus!
