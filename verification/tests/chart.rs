use toast::bar::{BarDisplay, Cell, ChartColor, Glyph, pressure_color};
use toast::thermal::ThermalPressure;

fn column(rows: &[Vec<Cell>], col: usize) -> Vec<Glyph> {
    rows.iter().map(|row| row[col].glyph).collect()
}

#[test]
fn history_keeps_push_order_under_capacity() {
    let mut d = BarDisplay::new();
    let samples = [
        ThermalPressure::Nominal,
        ThermalPressure::Heavy,
        ThermalPressure::Moderate,
    ];
    for s in samples {
        d.push(s, 10);
    }
    assert_eq!(d.history, samples.to_vec());
}

#[test]
fn history_evicts_oldest_on_overflow() {
    let mut d = BarDisplay::new();
    let samples = [
        ThermalPressure::Nominal,
        ThermalPressure::Moderate,
        ThermalPressure::Heavy,
        ThermalPressure::Trapping,
        ThermalPressure::Sleeping,
    ];
    // capacity 4, five pushes: the first sample is evicted exactly once
    for s in samples {
        d.push(s, 4);
    }
    assert_eq!(d.history.len(), 4);
    assert_eq!(d.history[0], ThermalPressure::Moderate);
    assert_eq!(d.history, samples[1..].to_vec());
}

#[test]
fn history_capacity_clamps_to_one_column() {
    let mut d = BarDisplay::new();
    d.push(ThermalPressure::Nominal, 0);
    d.push(ThermalPressure::Heavy, 0);
    assert_eq!(d.history, vec![ThermalPressure::Heavy]);
}

#[test]
fn history_shrinking_width_evicts_down_to_capacity() {
    let mut d = BarDisplay::new();
    for _ in 0..6 {
        d.push(ThermalPressure::Nominal, 10);
    }
    d.push(ThermalPressure::Heavy, 3);
    assert_eq!(d.history.len(), 3);
    assert_eq!(d.history[2], ThermalPressure::Heavy);
}

#[test]
fn quantization_height_one_fills_only_bottom_half_unit() {
    let mut d = BarDisplay::new();
    d.push(ThermalPressure::Nominal, 80);
    let rows = d.render_cells(80);
    assert_eq!(rows.len(), 3);
    assert_eq!(
        column(&rows, 0),
        vec![Glyph::Blank, Glyph::Blank, Glyph::LowerHalf]
    );
}

#[test]
fn quantization_height_three_fills_bottom_row_and_half_of_middle() {
    let mut d = BarDisplay::new();
    d.push(ThermalPressure::Heavy, 80);
    let rows = d.render_cells(80);
    assert_eq!(
        column(&rows, 0),
        vec![Glyph::Blank, Glyph::LowerHalf, Glyph::Full]
    );
}

#[test]
fn quantization_height_five_reaches_into_the_top_row() {
    let mut d = BarDisplay::new();
    d.push(ThermalPressure::Sleeping, 80);
    let rows = d.render_cells(80);
    assert_eq!(
        column(&rows, 0),
        vec![Glyph::LowerHalf, Glyph::Full, Glyph::Full]
    );
}

#[test]
fn quantization_clips_large_unknown_at_full() {
    let mut d = BarDisplay::new();
    d.push(ThermalPressure::Unknown(u64::MAX), 80);
    let rows = d.render_cells(80);
    assert_eq!(column(&rows, 0), vec![Glyph::Full, Glyph::Full, Glyph::Full]);
}

#[test]
fn chart_draws_one_column_per_sample_in_order() {
    let mut d = BarDisplay::new();
    d.push(ThermalPressure::Nominal, 80);
    d.push(ThermalPressure::Sleeping, 80);
    let rows = d.render_cells(80);
    for row in &rows {
        assert_eq!(row.len(), 2);
    }
    assert_eq!(rows[2][0].glyph, Glyph::LowerHalf);
    assert_eq!(rows[2][1].glyph, Glyph::Full);
    assert_eq!(rows[0][1].glyph, Glyph::LowerHalf);
}

#[test]
fn chart_clips_columns_at_terminal_width() {
    let mut d = BarDisplay::new();
    for _ in 0..5 {
        d.push(ThermalPressure::Nominal, 100);
    }
    let rows = d.render_cells(2);
    for row in &rows {
        assert_eq!(row.len(), 2);
    }
}

#[test]
fn column_colors_follow_severity() {
    assert_eq!(pressure_color(ThermalPressure::Nominal), ChartColor::White);
    assert_eq!(pressure_color(ThermalPressure::Moderate), ChartColor::Yellow);
    assert_eq!(pressure_color(ThermalPressure::Heavy), ChartColor::Red);
    assert_eq!(pressure_color(ThermalPressure::Trapping), ChartColor::Red);
    assert_eq!(pressure_color(ThermalPressure::Sleeping), ChartColor::Magenta);
    assert_eq!(pressure_color(ThermalPressure::Unknown(8)), ChartColor::White);
}

#[test]
fn glyph_symbols() {
    assert_eq!(Glyph::Full.symbol(), '█');
    assert_eq!(Glyph::LowerHalf.symbol(), '▄');
    assert_eq!(Glyph::Blank.symbol(), ' ');
}
