use toast::mode::{Mode, TickRender};
use toast::term::LabelColor;
use toast::thermal::ThermalPressure;

#[test]
fn try_new_picks_the_mode_once() {
    assert!(matches!(Mode::try_new(false), Mode::Plain));
    match Mode::try_new(true) {
        Mode::Bar(d) => assert!(d.history.is_empty()),
        Mode::Plain => panic!("expected bar mode"),
    }
}

#[test]
fn on_reading_appends_only_in_bar_mode() {
    let mut plain = Mode::try_new(false);
    plain.on_reading(ThermalPressure::Heavy, 80);
    assert!(matches!(plain, Mode::Plain));

    let mut bar = Mode::try_new(true);
    bar.on_reading(ThermalPressure::Heavy, 80);
    bar.on_reading(ThermalPressure::Nominal, 80);
    match bar {
        Mode::Bar(d) => {
            assert_eq!(
                d.history,
                vec![ThermalPressure::Heavy, ThermalPressure::Nominal]
            );
        }
        Mode::Plain => panic!("expected bar mode"),
    }
}

#[test]
fn on_change_composes_the_status_line() {
    let mode = Mode::try_new(false);
    let line = mode.on_change(ThermalPressure::Trapping);
    assert_eq!(line.label, "Trapping");
    assert_eq!(
        line.description,
        "Critical thermal pressure, system is severely throttled"
    );
    assert_eq!(line.style.color, LabelColor::Red);
    assert!(line.style.bold);
    assert!(line.style.underline);
    assert!(!line.style.dim);
    let time: Vec<char> = line.time.chars().collect();
    assert_eq!(time.len(), 8);
    assert_eq!(time[2], ':');
    assert_eq!(time[5], ':');
}

#[test]
fn on_change_dims_unknown_levels() {
    let mode = Mode::try_new(true);
    let line = mode.on_change(ThermalPressure::Unknown(11));
    assert_eq!(line.label, "Unknown(11)");
    assert_eq!(line.style.color, LabelColor::Neutral);
    assert!(line.style.dim);
}

#[test]
fn on_tick_redraws_the_caption_or_the_chart() {
    let plain = Mode::try_new(false);
    assert!(matches!(plain.on_tick(80), TickRender::Caption));

    let mut bar = Mode::try_new(true);
    bar.on_reading(ThermalPressure::Moderate, 80);
    match bar.on_tick(80) {
        TickRender::Chart(rows) => {
            assert_eq!(rows.len(), 3);
            for row in &rows {
                assert_eq!(row.len(), 1);
            }
        }
        TickRender::Caption => panic!("expected a chart"),
    }
}

#[test]
fn on_cycle_end_clears_only_in_plain_mode() {
    let plain = Mode::try_new(false);
    assert!(plain.on_cycle_end());
    let bar = Mode::try_new(true);
    assert!(!bar.on_cycle_end());
}
