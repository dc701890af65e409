//! Tests of series construction, sample decoding, and the event-step
//! controller.

use pulse_view::chart::AxisRole;
use pulse_view::controller::{
    update, Action, Channel, ViewerEvent, ViewerState, RECORD_FIELDS,
};
use pulse_view::errors::ViewError;
use pulse_view::rational::Rat;
use pulse_view::series::{samples_from_bytes, Color, LineSeries, PlotPoint};

fn rat(n: i64, d: i64) -> Rat {
    Rat::new(n, d).unwrap()
}

fn black() -> Color {
    Color { red: 0, green: 0, blue: 0, alpha: 255 }
}

/// Encodes records of 7 fields each as the little-endian bytes of
/// their values.
fn record_bytes(records: &[[f64; 7]]) -> Vec<u8> {
    let mut bytes = Vec::new();
    for rec in records {
        for v in rec {
            bytes.extend_from_slice(&v.to_bits().to_le_bytes());
        }
    }
    bytes
}

#[test]
fn samples_decode_little_endian_words() {
    let bytes = vec![1, 2, 3, 4, 5, 6, 7, 8];
    let samples = samples_from_bytes(&bytes).unwrap();
    assert_eq!(samples, vec![0x0807_0605_0403_0201]);
    assert_eq!(
        samples_from_bytes(&vec![0; 7]),
        Err(ViewError::FormatError)
    );
}

#[test]
fn from_buffer_partitions_records_and_picks_fields() {
    // Two 4-field records; x from field 0, y from field 1.
    let t0 = 0.5f64.to_bits();
    let gx0 = 1.5f64.to_bits();
    let gy0 = 2.5f64.to_bits();
    let gz0 = 3.5f64.to_bits();
    let t1 = 4.5f64.to_bits();
    let gx1 = 5.5f64.to_bits();
    let gy1 = 6.5f64.to_bits();
    let gz1 = 7.5f64.to_bits();
    let buffer = vec![t0, gx0, gy0, gz0, t1, gx1, gy1, gz1];
    let ls = LineSeries::from_buffer(&buffer, 4, 0, 1, black()).unwrap();
    assert_eq!(ls.points.len(), 2);
    assert_eq!(ls.points[0], PlotPoint { x_bits: t0, y_bits: gx0 });
    assert_eq!(ls.points[1], PlotPoint { x_bits: t1, y_bits: gx1 });
}

#[test]
fn from_buffer_drops_a_trailing_partial_record() {
    let buffer: Vec<u64> = (0..9).collect();
    let ls = LineSeries::from_buffer(&buffer, 4, 0, 2, black()).unwrap();
    assert_eq!(ls.points.len(), 2);
    assert_eq!(ls.points[1], PlotPoint { x_bits: 4, y_bits: 6 });
}

#[test]
fn from_buffer_rejects_bad_strides_and_offsets() {
    let buffer: Vec<u64> = vec![1, 2, 3];
    assert!(matches!(
        LineSeries::from_buffer(&buffer, 0, 0, 0, black()),
        Err(ViewError::FormatError)
    ));
    assert!(matches!(
        LineSeries::from_buffer(&buffer, 3, 3, 0, black()),
        Err(ViewError::FormatError)
    ));
    assert!(matches!(
        LineSeries::from_buffer(&buffer, 3, 0, 5, black()),
        Err(ViewError::FormatError)
    ));
}

#[test]
fn visibility_toggle_leaves_points_identical() {
    let buffer: Vec<u64> = (0..8).collect();
    let mut ls = LineSeries::from_buffer(&buffer, 4, 0, 1, black()).unwrap();
    let before = ls.points.clone();
    ls.set_visibility(false);
    ls.set_visibility(true);
    assert_eq!(ls.points, before);
    assert!(ls.visible);
}

#[test]
fn hidden_series_draw_no_segments() {
    let buffer: Vec<u64> = (0..12).collect();
    let mut ls = LineSeries::from_buffer(&buffer, 4, 0, 1, black()).unwrap();
    assert_eq!(ls.segments().len(), 2);
    assert_eq!(
        ls.segments()[0],
        (
            PlotPoint { x_bits: 0, y_bits: 1 },
            PlotPoint { x_bits: 4, y_bits: 5 }
        )
    );
    ls.set_visibility(false);
    assert_eq!(ls.segments().len(), 0);
}

#[test]
fn y_bounds_follow_numeric_order_of_finite_values() {
    let ys = [-1.0f64, 2.0, 0.5, -0.25];
    let mut buffer = Vec::new();
    for (i, y) in ys.iter().enumerate() {
        buffer.push((i as f64).to_bits());
        buffer.push(y.to_bits());
    }
    let ls = LineSeries::from_buffer(&buffer, 2, 0, 1, black()).unwrap();
    let (mn, mx) = ls.y_min_max().unwrap();
    assert_eq!(f64::from_bits(mn), -1.0);
    assert_eq!(f64::from_bits(mx), 2.0);
    let (xmn, xmx) = ls.x_min_max().unwrap();
    assert_eq!(f64::from_bits(xmn), 0.0);
    assert_eq!(f64::from_bits(xmx), 3.0);
}

#[test]
fn bounds_of_an_empty_series_are_an_error() {
    let ls = LineSeries::new();
    assert_eq!(ls.y_min_max(), Err(ViewError::EmptyDataError));
    assert_eq!(ls.x_min_max(), Err(ViewError::EmptyDataError));
}

#[test]
fn default_state_registers_the_three_axes() {
    let st = ViewerState::default();
    assert!(st.chart_state.axis(AxisRole::Time).lo().equiv(&rat(0, 1)));
    assert!(st.chart_state.axis(AxisRole::Time).hi().equiv(&rat(1, 1)));
    assert!(st.chart_state.axis(AxisRole::Rf).hi().equiv(&rat(10, 1)));
    assert_eq!(st.pulse_seq_file.as_deref(), Some("dti_fse.pshdr"));
    assert!(st.grad_x_visible && st.rf_visible);
    assert!(st.hover_readout.is_none());
}

#[test]
fn load_with_misaligned_length_fails_and_keeps_state() {
    let mut st = ViewerState::default();
    let r = update(&mut st, ViewerEvent::FileLoaded(vec![0u8; 55]));
    assert_eq!(r, Err(ViewError::FormatError));
    assert!(st.sample_buffer.is_empty());
    assert_eq!(st.grad_x_series.points.len(), 0);
}

#[test]
fn load_with_no_complete_record_reports_empty_data() {
    let mut st = ViewerState::default();
    let r = update(&mut st, ViewerEvent::FileLoaded(Vec::new()));
    assert_eq!(r, Err(ViewError::EmptyDataError));
    assert!(st.sample_buffer.is_empty());
}

#[test]
fn load_builds_series_and_reports_bounds() {
    let mut st = ViewerState::default();
    let records = [
        [0.0f64, 5.0, 2.0, 0.25, 0.125, -0.5, 9.0],
        [1.0f64, -3.0, 2.5, 0.0, 0.25, 0.5, 9.0],
    ];
    let bytes = record_bytes(&records);
    let action = update(&mut st, ViewerEvent::FileLoaded(bytes)).unwrap();
    assert_eq!(st.sample_buffer.len(), 2 * RECORD_FIELDS);
    assert_eq!(st.grad_x_series.points.len(), 2);
    assert_eq!(
        st.grad_x_series.points[1],
        PlotPoint { x_bits: 1.0f64.to_bits(), y_bits: (-3.0f64).to_bits() }
    );
    assert_eq!(
        st.rf_b_series.points[0],
        PlotPoint { x_bits: 0.0f64.to_bits(), y_bits: (-0.5f64).to_bits() }
    );
    match action {
        Action::ConvertBounds { t_min_bits, t_max_bits, y_min_bits, y_max_bits } => {
            assert_eq!(f64::from_bits(t_min_bits), 0.0);
            assert_eq!(f64::from_bits(t_max_bits), 1.0);
            assert_eq!(f64::from_bits(y_min_bits), -3.0);
            assert_eq!(f64::from_bits(y_max_bits), 5.0);
        },
        other => panic!("expected ConvertBounds, got {:?}", other),
    }
}

#[test]
fn bounds_ready_applies_domains_with_the_rf_quirk() {
    // The RF axis deliberately receives the gradient bounds.
    let mut st = ViewerState::default();
    let action = update(
        &mut st,
        ViewerEvent::BoundsReady {
            t_lo: rat(0, 1),
            t_hi: rat(100, 1),
            y_lo: rat(-3, 1),
            y_hi: rat(5, 1),
        },
    )
    .unwrap();
    assert_eq!(action, Action::Nothing);
    assert!(st.chart_state.axis(AxisRole::Time).hi().equiv(&rat(100, 1)));
    assert!(st.chart_state.axis(AxisRole::Gradient).lo().equiv(&rat(-3, 1)));
    assert!(st.chart_state.axis(AxisRole::Rf).lo().equiv(&rat(-3, 1)));
    assert!(st.chart_state.axis(AxisRole::Rf).hi().equiv(&rat(5, 1)));
}

#[test]
fn reset_view_restores_default_bounds() {
    let mut st = ViewerState::default();
    update(
        &mut st,
        ViewerEvent::ChartDrag { dx: rat(1, 10), dy: rat(1, 10) },
    )
    .unwrap();
    update(&mut st, ViewerEvent::ResetView).unwrap();
    assert!(st.chart_state.axis(AxisRole::Time).lo().equiv(&rat(0, 1)));
    assert!(st.chart_state.axis(AxisRole::Time).hi().equiv(&rat(1, 1)));
    assert!(st.chart_state.axis(AxisRole::Gradient).lo().equiv(&rat(-1, 1)));
}

#[test]
fn drag_pans_each_linked_axis_once() {
    // One drag applies the same raw delta once to every linked axis:
    // the time axis shifts once by dx, each amplitude axis once by dy.
    let mut st = ViewerState::default();
    update(
        &mut st,
        ViewerEvent::ChartDrag { dx: rat(1, 10), dy: rat(0, 1) },
    )
    .unwrap();
    assert!(st.chart_state.axis(AxisRole::Time).lo().equiv(&rat(1, 10)));
    assert!(st.chart_state.axis(AxisRole::Time).hi().equiv(&rat(11, 10)));
    assert!(st.chart_state.axis(AxisRole::Gradient).lo().equiv(&rat(0, 1)));
    assert!(st.chart_state.axis(AxisRole::Rf).lo().equiv(&rat(0, 1)));
}

#[test]
fn scroll_without_modifiers_zooms_only_the_time_axis() {
    let mut st = ViewerState::default();
    update(
        &mut st,
        ViewerEvent::ChartScroll {
            cursor_x: rat(1, 2),
            cursor_y: rat(1, 2),
            delta_x: rat(0, 1),
            delta_y: rat(1, 1),
        },
    )
    .unwrap();
    // Zoom out by 11/10 about the center of [0, 1].
    assert!(st.chart_state.axis(AxisRole::Time).lo().equiv(&rat(-1, 20)));
    assert!(st.chart_state.axis(AxisRole::Time).hi().equiv(&rat(21, 20)));
    assert!(st.chart_state.axis(AxisRole::Gradient).lo().equiv(&rat(0, 1)));
    assert!(st.chart_state.axis(AxisRole::Gradient).hi().equiv(&rat(1, 1)));
}

#[test]
fn scroll_with_shift_zooms_only_the_amplitude_axes() {
    let mut st = ViewerState::default();
    update(
        &mut st,
        ViewerEvent::ModifiersChanged { command: false, shift: true },
    )
    .unwrap();
    update(
        &mut st,
        ViewerEvent::ChartScroll {
            cursor_x: rat(1, 2),
            cursor_y: rat(1, 2),
            delta_x: rat(0, 1),
            delta_y: rat(-1, 1),
        },
    )
    .unwrap();
    // Zoom in by 9/10 about the center: time untouched.
    assert!(st.chart_state.axis(AxisRole::Time).lo().equiv(&rat(0, 1)));
    assert!(st.chart_state.axis(AxisRole::Gradient).lo().equiv(&rat(1, 20)));
    assert!(st.chart_state.axis(AxisRole::Gradient).hi().equiv(&rat(19, 20)));
    assert!(st.chart_state.axis(AxisRole::Rf).lo().equiv(&rat(1, 2)));
}

#[test]
fn scroll_with_command_zooms_both_axes() {
    let mut st = ViewerState::default();
    update(
        &mut st,
        ViewerEvent::ModifiersChanged { command: true, shift: false },
    )
    .unwrap();
    update(
        &mut st,
        ViewerEvent::ChartScroll {
            cursor_x: rat(0, 1),
            cursor_y: rat(0, 1),
            delta_x: rat(1, 1),
            delta_y: rat(0, 1),
        },
    )
    .unwrap();
    // Horizontal delta is dominant when the vertical one is zero.
    assert!(st.chart_state.axis(AxisRole::Time).lo().equiv(&rat(0, 1)));
    assert!(st.chart_state.axis(AxisRole::Time).hi().equiv(&rat(11, 10)));
    assert!(st.chart_state.axis(AxisRole::Gradient).hi().equiv(&rat(11, 10)));
}

#[test]
fn hover_reports_domain_values_with_scaled_time() {
    let mut st = ViewerState::default();
    update(
        &mut st,
        ViewerEvent::PlotHover { x: rat(1, 2), y: rat(1, 2) },
    )
    .unwrap();
    let (t, y) = st.hover_readout.unwrap();
    // Time 1/2 scaled by 1/10000; gradient midpoint of [-1, 1] is 0.
    assert!(t.equiv(&rat(1, 20000)));
    assert!(y.equiv(&rat(0, 1)));
}

#[test]
fn toggles_update_flags_and_series_visibility() {
    let mut st = ViewerState::default();
    update(&mut st, ViewerEvent::ViewToggle(false, Channel::GY)).unwrap();
    assert!(st.grad_x_visible && !st.grad_y_visible);
    assert!(!st.grad_y_series.visible);
    update(&mut st, ViewerEvent::ViewToggle(false, Channel::RfRe)).unwrap();
    assert!(!st.rf_visible && !st.rf_a_series.visible && !st.rf_b_series.visible);
    // Channels without a toggle are ignored.
    update(&mut st, ViewerEvent::ViewToggle(true, Channel::Acq)).unwrap();
    assert!(!st.rf_visible);
    update(&mut st, ViewerEvent::ViewToggle(true, Channel::RfRe)).unwrap();
    assert!(st.rf_a_series.visible && st.rf_b_series.visible);
}

#[test]
fn file_selection_round_trip() {
    let mut st = ViewerState::default();
    let a = update(&mut st, ViewerEvent::PickFileClicked).unwrap();
    assert_eq!(a, Action::OpenFileDialog);
    let a = update(
        &mut st,
        ViewerEvent::FilePicked(Some("scan.pshdr".to_owned())),
    )
    .unwrap();
    assert_eq!(a, Action::Nothing);
    assert_eq!(st.pulse_seq_file.as_deref(), Some("scan.pshdr"));
    let a = update(&mut st, ViewerEvent::LoadFileClicked).unwrap();
    assert_eq!(a, Action::ReadFile);
    st.pulse_seq_file = None;
    let a = update(&mut st, ViewerEvent::LoadFileClicked).unwrap();
    assert_eq!(a, Action::Nothing);
}
