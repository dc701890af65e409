//! The interaction controller: one event-step over the viewer state.
//!
//! The viewer is single-threaded and event-driven: each input event is
//! applied synchronously by [`update`], which mutates the state and
//! hands back the one outside action the caller should perform (open a
//! dialog, read a file, convert data-derived bounds). File selection
//! and reading, and the conversion of raw sample encodings into exact
//! domain bounds, are performed by the surrounding application, which
//! feeds the results back in as further events. A failed load leaves
//! the previously displayed data intact and reports the failure kind.

use vstd::prelude::*;

use crate::axis::{
    anchor_of, pan_fits, spec_pan_axis, spec_zoom_axis, value_at, value_fits, zoom_fits, Axis,
    AxisPosition,
};
use crate::chart::{AxisRole, ChartState};
use crate::errors::ViewError;
use crate::rational::{feq, fits, fmul, fzero, Frac, Rat};
use crate::series::{f64_key, gathered, le64_at, samples_from_bytes, Color, LineSeries};

verus! {

/// One displayable channel of the waveform viewer.
#[derive(Clone, Copy, Debug, PartialEq, Eq, Structural)]
pub enum Channel {
    GX,
    GY,
    GZ,
    RfMag,
    RfRe,
    RfIm,
    RfPhase,
    Acq,
}

/// One input event, already reduced to plain values by the surrounding
/// application.
#[derive(Debug)]
pub enum ViewerEvent {
    /// The user asked to choose a file.
    PickFileClicked,
    /// The file dialog closed, with the chosen path if any.
    FilePicked(Option<String>),
    /// The user asked to load the selected file.
    LoadFileClicked,
    /// The selected file was read to completion.
    FileLoaded(Vec<u8>),
    /// The application converted the last data-derived bound encodings
    /// into exact values.
    BoundsReady { t_lo: Rat, t_hi: Rat, y_lo: Rat, y_hi: Rat },
    /// The pointer hovered the plot at a normalized position.
    PlotHover { x: Rat, y: Rat },
    /// The plot was dragged by a normalized delta.
    ChartDrag { dx: Rat, dy: Rat },
    /// The plot was scrolled at a normalized cursor position.
    ChartScroll { cursor_x: Rat, cursor_y: Rat, delta_x: Rat, delta_y: Rat },
    /// The plot was clicked.
    ChartClicked,
    /// The keyboard modifiers changed.
    ModifiersChanged { command: bool, shift: bool },
    /// The user asked to reset the view to the data-derived bounds.
    ResetView,
    /// A channel's visibility toggle changed.
    ViewToggle(bool, Channel),
}

/// The one outside action the application should perform after an
/// event step.
#[derive(Clone, Copy, Debug, PartialEq, Eq, Structural)]
pub enum Action {
    /// Nothing to do.
    Nothing,
    /// Open the file dialog and come back with `FilePicked`.
    OpenFileDialog,
    /// Read the selected file and come back with `FileLoaded`.
    ReadFile,
    /// Convert these bound encodings to exact values and come back
    /// with `BoundsReady`.
    ConvertBounds { t_min_bits: u64, t_max_bits: u64, y_min_bits: u64, y_max_bits: u64 },
}

/// The whole viewer state: only the model entities, no process-wide
/// singletons.
#[derive(Debug)]
pub struct ViewerState {
    /// The selected waveform file, if any.
    pub pulse_seq_file: Option<String>,
    /// The decoded flat sample buffer, 7-field records.
    pub sample_buffer: Vec<u64>,
    /// The chart axes.
    pub chart_state: ChartState,
    /// The x-gradient series (fields 0 and 1 of each record).
    pub grad_x_series: LineSeries,
    /// The y-gradient series (fields 0 and 2).
    pub grad_y_series: LineSeries,
    /// The z-gradient series (fields 0 and 3).
    pub grad_z_series: LineSeries,
    /// The first RF channel series (fields 0 and 4).
    pub rf_a_series: LineSeries,
    /// The second RF channel series (fields 0 and 5).
    pub rf_b_series: LineSeries,
    /// The hover readout in domain space, time already in display
    /// units.
    pub hover_readout: Option<(Rat, Rat)>,
    /// The data-derived time bounds.
    pub default_plot_bounds_t: (Rat, Rat),
    /// The data-derived gradient bounds.
    pub default_plot_bounds_grad: (Rat, Rat),
    /// The RF bounds; never data-derived in the current design.
    pub default_plot_bounds_rf: (Rat, Rat),
    /// Whether the command (or control) modifier is held.
    pub command_held: bool,
    /// Whether the shift modifier is held.
    pub shift_held: bool,
    /// Visibility toggle of the x-gradient channel.
    pub grad_x_visible: bool,
    /// Visibility toggle of the y-gradient channel.
    pub grad_y_visible: bool,
    /// Visibility toggle of the z-gradient channel.
    pub grad_z_visible: bool,
    /// Visibility toggle of the RF channels.
    pub rf_visible: bool,
}

/// The record stride of the waveform sample file, in fields.
pub const RECORD_FIELDS: usize = 7;

/// The record stride of the waveform sample file, in bytes.
pub const RECORD_BYTES: usize = 56;

/// The decoded sample sequence of a waveform byte buffer.
pub open spec fn wave_samples(b: Seq<u8>) -> Seq<u64> {
    Seq::new((b.len() / 8) as nat, |k: int| le64_at(b, 8 * k) as u64)
}

/// Whether `s` is exactly the series gathered from `buf` with the
/// given offsets and color, visible.
pub open spec fn series_gathered(s: LineSeries, buf: Seq<u64>, xo: int, yo: int, col: Color) -> bool {
    &&& s.visible
    &&& s.color == col
    &&& s.points@.len() == buf.len() as int / (RECORD_FIELDS as int)
    &&& forall|k: int|
        0 <= k < s.points@.len() ==> #[trigger] s.points@[k] == gathered(
            buf,
            RECORD_FIELDS as int,
            xo,
            yo,
            k,
        )
}

/// Whether `b` orders at or below every x-coordinate of `s`.
pub open spec fn x_lower_bound(b: u64, s: LineSeries) -> bool {
    forall|k: int|
        0 <= k < s.points@.len() ==> f64_key(b) <= f64_key((#[trigger] s.points@[k]).x_bits)
}

/// Whether `b` orders at or above every x-coordinate of `s`.
pub open spec fn x_upper_bound(b: u64, s: LineSeries) -> bool {
    forall|k: int|
        0 <= k < s.points@.len() ==> f64_key((#[trigger] s.points@[k]).x_bits) <= f64_key(b)
}

/// Whether `b` is one of the x-coordinates of `s`.
pub open spec fn x_attained(b: u64, s: LineSeries) -> bool {
    exists|k: int| 0 <= k < s.points@.len() && (#[trigger] s.points@[k]).x_bits == b
}

/// Whether `b` orders at or below every y-coordinate of `s`.
pub open spec fn y_lower_bound(b: u64, s: LineSeries) -> bool {
    forall|k: int|
        0 <= k < s.points@.len() ==> f64_key(b) <= f64_key((#[trigger] s.points@[k]).y_bits)
}

/// Whether `b` orders at or above every y-coordinate of `s`.
pub open spec fn y_upper_bound(b: u64, s: LineSeries) -> bool {
    forall|k: int|
        0 <= k < s.points@.len() ==> f64_key((#[trigger] s.points@[k]).y_bits) <= f64_key(b)
}

/// Whether `b` is one of the y-coordinates of `s`.
pub open spec fn y_attained(b: u64, s: LineSeries) -> bool {
    exists|k: int| 0 <= k < s.points@.len() && (#[trigger] s.points@[k]).y_bits == b
}

/// The zoom factor a scroll event selects: scrolling up (a positive
/// dominant delta) widens by one tenth, anything else shrinks by one
/// tenth. The dominant delta is the vertical one unless it is zero.
pub open spec fn scroll_factor(delta_y: Frac, delta_x: Frac) -> Frac {
    let dominant = if !feq(delta_y, fzero()) {
        delta_y
    } else {
        delta_x
    };
    if dominant.n > 0 {
        Frac { n: 11, d: 10 }
    } else {
        Frac { n: 9, d: 10 }
    }
}

/// The display scale applied to a hover time value: one ten-thousandth.
pub open spec fn hover_time_scale() -> Frac {
    Frac { n: 1, d: 10000 }
}

/// Whether every representative of a hover computation stays in
/// bounds.
pub open spec fn hover_fits(t0: Frac, t1: Frac, g0: Frac, g1: Frac, x: Frac, y: Frac) -> bool {
    &&& value_fits(t0, t1, x)
    &&& fits(fmul(value_at(t0, t1, x), hover_time_scale()))
    &&& value_fits(g0, g1, y)
}

/// Whether the rationals an event carries are well formed.
pub open spec fn event_wf(event: ViewerEvent) -> bool {
    match event {
        ViewerEvent::BoundsReady { t_lo, t_hi, y_lo, y_hi } => t_lo.wf() && t_hi.wf() && y_lo.wf()
            && y_hi.wf(),
        ViewerEvent::PlotHover { x, y } => x.wf() && y.wf(),
        ViewerEvent::ChartDrag { dx, dy } => dx.wf() && dy.wf(),
        ViewerEvent::ChartScroll { cursor_x, cursor_y, delta_x, delta_y } => cursor_x.wf()
            && cursor_y.wf() && delta_x.wf() && delta_y.wf(),
        _ => true,
    }
}

impl ViewerState {
    /// Well-formedness: the chart and every stored bound are well
    /// formed.
    pub open spec fn wf(self) -> bool {
        &&& self.chart_state.wf()
        &&& self.default_plot_bounds_t.0.wf()
        &&& self.default_plot_bounds_t.1.wf()
        &&& self.default_plot_bounds_grad.0.wf()
        &&& self.default_plot_bounds_grad.1.wf()
        &&& self.default_plot_bounds_rf.0.wf()
        &&& self.default_plot_bounds_rf.1.wf()
    }
}

/// The domain value at normalized position `t` between two bounds, or
/// `None` when a representative leaves the bounds.
fn value_between(lo: Rat, hi: Rat, t: Rat) -> (r: Option<Rat>)
    requires
        lo.wf(),
        hi.wf(),
        t.wf(),
    ensures
        r matches Some(q) ==> q@ == value_at(lo@, hi@, t@) && q.wf(),
        r is Some <==> value_fits(lo@, hi@, t@),
{
    let w = match hi.checked_sub(lo) {
        Some(v) => v,
        None => {
            return None;
        },
    };
    let tw = match t.checked_mul(w) {
        Some(v) => v,
        None => {
            return None;
        },
    };
    lo.checked_add(tw)
}

/// Applies the data-derived bounds to the chart: the time axis gets the
/// time bounds, and both amplitude axes get the gradient bounds.
fn apply_chart_bounds(state: &mut ViewerState)
    requires
        old(state).wf(),
    ensures
        final(state).chart_state.spec_axis(AxisRole::Time)@.lo == old(state).default_plot_bounds_t.0@,
        final(state).chart_state.spec_axis(AxisRole::Time)@.hi == old(state).default_plot_bounds_t.1@,
        final(state).chart_state.spec_axis(AxisRole::Gradient)@.lo == old(state).default_plot_bounds_grad.0@,
        final(state).chart_state.spec_axis(AxisRole::Gradient)@.hi == old(state).default_plot_bounds_grad.1@,
        final(state).chart_state.spec_axis(AxisRole::Rf)@.lo == old(state).default_plot_bounds_grad.0@,
        final(state).chart_state.spec_axis(AxisRole::Rf)@.hi == old(state).default_plot_bounds_grad.1@,
        final(state).chart_state.spec_axis(AxisRole::Time)@.position == old(state).chart_state.spec_axis(AxisRole::Time)@.position,
        final(state).chart_state.spec_axis(AxisRole::Gradient)@.position == old(state).chart_state.spec_axis(AxisRole::Gradient)@.position,
        final(state).chart_state.spec_axis(AxisRole::Rf)@.position == old(state).chart_state.spec_axis(AxisRole::Rf)@.position,
        final(state).chart_state.wf(),
        *final(state) == (ViewerState { chart_state: final(state).chart_state, ..*old(state) }),
{
    let t0 = state.default_plot_bounds_t.0;
    let t1 = state.default_plot_bounds_t.1;
    let g0 = state.default_plot_bounds_grad.0;
    let g1 = state.default_plot_bounds_grad.1;
    state.chart_state.set_domain(AxisRole::Time, t0, t1);
    state.chart_state.set_domain(AxisRole::Gradient, g0, g1);
    state.chart_state.set_domain(AxisRole::Rf, g0, g1);
}

impl Default for ViewerState {
    /// The initial state: axes registered with their display
    /// positions, unit default bounds (time 0..1, gradient -1..1, RF
    /// 0..1, RF axis domain 0..10), every channel visible, no samples
    /// loaded, and the development default file selected.
    fn default() -> (r: ViewerState)
        ensures
            r.wf(),
            r.pulse_seq_file matches Some(p) && p@ == "dti_fse.pshdr"@,
            r.sample_buffer@.len() == 0,
            r.chart_state.spec_axis(AxisRole::Time)@.lo == (Frac { n: 0, d: 1 }),
            r.chart_state.spec_axis(AxisRole::Time)@.hi == (Frac { n: 1, d: 1 }),
            r.chart_state.spec_axis(AxisRole::Time)@.position == AxisPosition::Bottom,
            r.chart_state.spec_axis(AxisRole::Gradient)@.lo == (Frac { n: 0, d: 1 }),
            r.chart_state.spec_axis(AxisRole::Gradient)@.hi == (Frac { n: 1, d: 1 }),
            r.chart_state.spec_axis(AxisRole::Gradient)@.position == AxisPosition::Left,
            r.chart_state.spec_axis(AxisRole::Rf)@.lo == (Frac { n: 0, d: 1 }),
            r.chart_state.spec_axis(AxisRole::Rf)@.hi == (Frac { n: 10, d: 1 }),
            r.chart_state.spec_axis(AxisRole::Rf)@.position == AxisPosition::Right,
            r.default_plot_bounds_t.0@ == (Frac { n: 0, d: 1 }),
            r.default_plot_bounds_t.1@ == (Frac { n: 1, d: 1 }),
            r.default_plot_bounds_grad.0@ == (Frac { n: -1, d: 1 }),
            r.default_plot_bounds_grad.1@ == (Frac { n: 1, d: 1 }),
            r.default_plot_bounds_rf.0@ == (Frac { n: 0, d: 1 }),
            r.default_plot_bounds_rf.1@ == (Frac { n: 1, d: 1 }),
            r.grad_x_series.points@.len() == 0 && r.grad_x_series.visible,
            r.grad_y_series.points@.len() == 0 && r.grad_y_series.visible,
            r.grad_z_series.points@.len() == 0 && r.grad_z_series.visible,
            r.rf_a_series.points@.len() == 0 && r.rf_a_series.visible,
            r.rf_b_series.points@.len() == 0 && r.rf_b_series.visible,
            r.hover_readout is None,
            !r.command_held && !r.shift_held,
            r.grad_x_visible && r.grad_y_visible && r.grad_z_visible && r.rf_visible,
    {
        let mut chart_state = ChartState::new();
        chart_state.set_axis(
            AxisRole::Time,
            Axis::new(Rat::zero(), Rat::one(), AxisPosition::Bottom),
        );
        chart_state.set_axis(
            AxisRole::Gradient,
            Axis::new(Rat::zero(), Rat::one(), AxisPosition::Left),
        );
        chart_state.set_axis(
            AxisRole::Rf,
            Axis::new(Rat::zero(), Rat::exact(10, 1), AxisPosition::Right),
        );
        ViewerState {
            pulse_seq_file: Some("dti_fse.pshdr".to_owned()),
            sample_buffer: Vec::new(),
            chart_state,
            grad_x_series: LineSeries::new(),
            grad_y_series: LineSeries::new(),
            grad_z_series: LineSeries::new(),
            rf_a_series: LineSeries::new(),
            rf_b_series: LineSeries::new(),
            hover_readout: None,
            default_plot_bounds_t: (Rat::zero(), Rat::one()),
            default_plot_bounds_grad: (Rat::exact(-1, 1), Rat::one()),
            default_plot_bounds_rf: (Rat::zero(), Rat::one()),
            command_held: false,
            shift_held: false,
            grad_x_visible: true,
            grad_y_visible: true,
            grad_z_visible: true,
            rf_visible: true,
        }
    }
}

/// Handles a completed file read: validates the record framing,
/// decodes the samples, rebuilds all five series, and asks the caller
/// to convert the data-derived bound encodings. On failure the state
/// is left untouched.
fn handle_file_loaded(state: &mut ViewerState, bytes: Vec<u8>) -> (r: Result<Action, ViewError>)
    requires
        old(state).wf(),
    ensures
        final(state).wf(),
        r is Err ==> *final(state) == *old(state),
        bytes@.len() as int % (RECORD_BYTES as int) != 0 ==> r == Err::<Action, ViewError>(
            ViewError::FormatError,
        ),
        (bytes@.len() as int % (RECORD_BYTES as int) == 0 && bytes@.len() < RECORD_BYTES as int)
            ==> r == Err::<Action, ViewError>(ViewError::EmptyDataError),
        (bytes@.len() as int % (RECORD_BYTES as int) == 0 && bytes@.len() >= RECORD_BYTES as int)
            ==> ({
            let buf = wave_samples(bytes@);
            &&& final(state).sample_buffer@ == buf
            &&& series_gathered(
                final(state).grad_x_series,
                buf,
                0,
                1,
                Color { red: 0, green: 255, blue: 0, alpha: 255 },
            )
            &&& series_gathered(
                final(state).grad_y_series,
                buf,
                0,
                2,
                Color { red: 0, green: 0, blue: 255, alpha: 255 },
            )
            &&& series_gathered(
                final(state).grad_z_series,
                buf,
                0,
                3,
                Color { red: 255, green: 0, blue: 0, alpha: 255 },
            )
            &&& series_gathered(
                final(state).rf_a_series,
                buf,
                0,
                4,
                Color { red: 255, green: 0, blue: 0, alpha: 255 },
            )
            &&& series_gathered(
                final(state).rf_b_series,
                buf,
                0,
                5,
                Color { red: 0, green: 0, blue: 255, alpha: 255 },
            )
            &&& r matches Ok(a) && (a matches Action::ConvertBounds {
                t_min_bits,
                t_max_bits,
                y_min_bits,
                y_max_bits,
            } ==> {
                &&& x_attained(t_min_bits, final(state).grad_x_series)
                &&& x_lower_bound(t_min_bits, final(state).grad_x_series)
                &&& x_attained(t_max_bits, final(state).grad_x_series)
                &&& x_upper_bound(t_max_bits, final(state).grad_x_series)
                &&& y_lower_bound(y_min_bits, final(state).grad_x_series)
                &&& y_lower_bound(y_min_bits, final(state).grad_y_series)
                &&& y_lower_bound(y_min_bits, final(state).grad_z_series)
                &&& (y_attained(y_min_bits, final(state).grad_x_series) || y_attained(
                    y_min_bits,
                    final(state).grad_y_series,
                ) || y_attained(y_min_bits, final(state).grad_z_series))
                &&& y_upper_bound(y_max_bits, final(state).grad_x_series)
                &&& y_upper_bound(y_max_bits, final(state).grad_y_series)
                &&& y_upper_bound(y_max_bits, final(state).grad_z_series)
                &&& (y_attained(y_max_bits, final(state).grad_x_series) || y_attained(
                    y_max_bits,
                    final(state).grad_y_series,
                ) || y_attained(y_max_bits, final(state).grad_z_series))
            })
            &&& r matches Ok(a) && a is ConvertBounds
            &&& *final(state) == (ViewerState {
                sample_buffer: final(state).sample_buffer,
                grad_x_series: final(state).grad_x_series,
                grad_y_series: final(state).grad_y_series,
                grad_z_series: final(state).grad_z_series,
                rf_a_series: final(state).rf_a_series,
                rf_b_series: final(state).rf_b_series,
                ..*old(state)
            })
        }),
{
    if bytes.len() % RECORD_BYTES != 0 {
        return Err(ViewError::FormatError);
    }
    proof {
        let n: int = bytes@.len() as int;
        vstd::arithmetic::div_mod::lemma_fundamental_div_mod(n, 56);
        vstd::arithmetic::div_mod::lemma_mod_multiples_vanish(7 * (n / 56), 0, 8);
        assert(8 * (7 * (n / 56)) == 56 * (n / 56)) by (nonlinear_arith);
    }
    let samples = match samples_from_bytes(&bytes) {
        Ok(v) => v,
        Err(_) => {
            proof {
                assert(false);
            }
            return Err(ViewError::FormatError);
        },
    };
    proof {
        assert(samples@ =~= wave_samples(bytes@));
        let n: int = bytes@.len() as int;
        vstd::arithmetic::div_mod::lemma_div_denominator(n, 8, 7);
        vstd::arithmetic::div_mod::lemma_fundamental_div_mod(n, 56);
    }
    let green = Color { red: 0, green: 255, blue: 0, alpha: 255 };
    let blue = Color { red: 0, green: 0, blue: 255, alpha: 255 };
    let red = Color { red: 255, green: 0, blue: 0, alpha: 255 };
    let gx = match LineSeries::from_buffer(&samples, RECORD_FIELDS, 0, 1, green) {
        Ok(s) => s,
        Err(_) => {
            proof {
                assert(false);
            }
            return Err(ViewError::FormatError);
        },
    };
    let gy = match LineSeries::from_buffer(&samples, RECORD_FIELDS, 0, 2, blue) {
        Ok(s) => s,
        Err(_) => {
            proof {
                assert(false);
            }
            return Err(ViewError::FormatError);
        },
    };
    let gz = match LineSeries::from_buffer(&samples, RECORD_FIELDS, 0, 3, red) {
        Ok(s) => s,
        Err(_) => {
            proof {
                assert(false);
            }
            return Err(ViewError::FormatError);
        },
    };
    let ra = match LineSeries::from_buffer(&samples, RECORD_FIELDS, 0, 4, red) {
        Ok(s) => s,
        Err(_) => {
            proof {
                assert(false);
            }
            return Err(ViewError::FormatError);
        },
    };
    let rb = match LineSeries::from_buffer(&samples, RECORD_FIELDS, 0, 5, blue) {
        Ok(s) => s,
        Err(_) => {
            proof {
                assert(false);
            }
            return Err(ViewError::FormatError);
        },
    };
    let (t_min_bits, t_max_bits) = match gx.x_min_max() {
        Ok(p) => p,
        Err(_) => {
            return Err(ViewError::EmptyDataError);
        },
    };
    let (mn1, mx1) = match gx.y_min_max() {
        Ok(p) => p,
        Err(_) => {
            proof {
                assert(false);
            }
            return Err(ViewError::EmptyDataError);
        },
    };
    let (mn2, mx2) = match gy.y_min_max() {
        Ok(p) => p,
        Err(_) => {
            proof {
                assert(false);
            }
            return Err(ViewError::EmptyDataError);
        },
    };
    let (mn3, mx3) = match gz.y_min_max() {
        Ok(p) => p,
        Err(_) => {
            proof {
                assert(false);
            }
            return Err(ViewError::EmptyDataError);
        },
    };
    let mut y_min_bits = mn1;
    if !crate::series::key_le(y_min_bits, mn2) {
        y_min_bits = mn2;
    }
    if !crate::series::key_le(y_min_bits, mn3) {
        y_min_bits = mn3;
    }
    let mut y_max_bits = mx1;
    if !crate::series::key_le(mx2, y_max_bits) {
        y_max_bits = mx2;
    }
    if !crate::series::key_le(mx3, y_max_bits) {
        y_max_bits = mx3;
    }
    state.sample_buffer = samples;
    state.grad_x_series = gx;
    state.grad_y_series = gy;
    state.grad_z_series = gz;
    state.rf_a_series = ra;
    state.rf_b_series = rb;
    Ok(Action::ConvertBounds { t_min_bits, t_max_bits, y_min_bits, y_max_bits })
}

/// Applies one input event to the viewer state and returns the outside
/// action the caller should perform. Every failure is returned with
/// the state left exactly as it was.
#[verifier::rlimit(100)]
#[verifier::spinoff_prover]
pub fn update(state: &mut ViewerState, event: ViewerEvent) -> (r: Result<Action, ViewError>)
    requires
        old(state).wf(),
        event_wf(event),
    ensures
        final(state).wf(),
        r is Err ==> *final(state) == *old(state),
        event matches ViewerEvent::ModifiersChanged { command, shift } ==> r == Ok::<
            Action,
            ViewError,
        >(Action::Nothing) && *final(state) == (ViewerState {
            command_held: command,
            shift_held: shift,
            ..*old(state)
        }),
        event is PickFileClicked ==> r == Ok::<Action, ViewError>(Action::OpenFileDialog)
            && *final(state) == *old(state),
        event matches ViewerEvent::FilePicked(p) ==> r == Ok::<Action, ViewError>(Action::Nothing)
            && (p matches Some(path) ==> *final(state) == (ViewerState {
            pulse_seq_file: Some(path),
            ..*old(state)
        })) && (p is None ==> *final(state) == *old(state)),
        event is LoadFileClicked ==> *final(state) == *old(state) && (old(state).pulse_seq_file is Some ==> r == Ok::<Action, ViewError>(Action::ReadFile)) && (old(state).pulse_seq_file is None ==> r == Ok::<Action, ViewError>(Action::Nothing)),
        event matches ViewerEvent::FileLoaded(bytes) ==> {
            &&& bytes@.len() as int % (RECORD_BYTES as int) != 0 ==> r == Err::<
                Action,
                ViewError,
            >(ViewError::FormatError)
            &&& (bytes@.len() as int % (RECORD_BYTES as int) == 0 && bytes@.len() < RECORD_BYTES
                as int) ==> r == Err::<Action, ViewError>(ViewError::EmptyDataError)
            &&& (bytes@.len() as int % (RECORD_BYTES as int) == 0 && bytes@.len() >= RECORD_BYTES
                as int) ==> ({
                let buf = wave_samples(bytes@);
                &&& final(state).sample_buffer@ == buf
                &&& series_gathered(
                    final(state).grad_x_series,
                    buf,
                    0,
                    1,
                    Color { red: 0, green: 255, blue: 0, alpha: 255 },
                )
                &&& series_gathered(
                    final(state).grad_y_series,
                    buf,
                    0,
                    2,
                    Color { red: 0, green: 0, blue: 255, alpha: 255 },
                )
                &&& series_gathered(
                    final(state).grad_z_series,
                    buf,
                    0,
                    3,
                    Color { red: 255, green: 0, blue: 0, alpha: 255 },
                )
                &&& series_gathered(
                    final(state).rf_a_series,
                    buf,
                    0,
                    4,
                    Color { red: 255, green: 0, blue: 0, alpha: 255 },
                )
                &&& series_gathered(
                    final(state).rf_b_series,
                    buf,
                    0,
                    5,
                    Color { red: 0, green: 0, blue: 255, alpha: 255 },
                )
                &&& r matches Ok(a) && a is ConvertBounds
                &&& r matches Ok(a) && (a matches Action::ConvertBounds {
                    t_min_bits,
                    t_max_bits,
                    y_min_bits,
                    y_max_bits,
                } ==> {
                    &&& x_attained(t_min_bits, final(state).grad_x_series)
                    &&& x_lower_bound(t_min_bits, final(state).grad_x_series)
                    &&& x_attained(t_max_bits, final(state).grad_x_series)
                    &&& x_upper_bound(t_max_bits, final(state).grad_x_series)
                    &&& y_lower_bound(y_min_bits, final(state).grad_x_series)
                    &&& y_lower_bound(y_min_bits, final(state).grad_y_series)
                    &&& y_lower_bound(y_min_bits, final(state).grad_z_series)
                    &&& (y_attained(y_min_bits, final(state).grad_x_series) || y_attained(
                        y_min_bits,
                        final(state).grad_y_series,
                    ) || y_attained(y_min_bits, final(state).grad_z_series))
                    &&& y_upper_bound(y_max_bits, final(state).grad_x_series)
                    &&& y_upper_bound(y_max_bits, final(state).grad_y_series)
                    &&& y_upper_bound(y_max_bits, final(state).grad_z_series)
                    &&& (y_attained(y_max_bits, final(state).grad_x_series) || y_attained(
                        y_max_bits,
                        final(state).grad_y_series,
                    ) || y_attained(y_max_bits, final(state).grad_z_series))
                })
                &&& *final(state) == (ViewerState {
                    sample_buffer: final(state).sample_buffer,
                    grad_x_series: final(state).grad_x_series,
                    grad_y_series: final(state).grad_y_series,
                    grad_z_series: final(state).grad_z_series,
                    rf_a_series: final(state).rf_a_series,
                    rf_b_series: final(state).rf_b_series,
                    ..*old(state)
                })
            })
        },
        event matches ViewerEvent::BoundsReady { t_lo, t_hi, y_lo, y_hi } ==> r == Ok::<
            Action,
            ViewError,
        >(Action::Nothing) && final(state).default_plot_bounds_t == (t_lo, t_hi) && final(state).default_plot_bounds_grad == (y_lo, y_hi) && final(state).chart_state.spec_axis(
            AxisRole::Time,
        )@.lo == t_lo@ && final(state).chart_state.spec_axis(AxisRole::Time)@.hi == t_hi@ && final(state).chart_state.spec_axis(AxisRole::Gradient)@.lo == y_lo@ && final(state).chart_state.spec_axis(AxisRole::Gradient)@.hi == y_hi@ && final(state).chart_state.spec_axis(AxisRole::Rf)@.lo == y_lo@ && final(state).chart_state.spec_axis(
            AxisRole::Rf,
        )@.hi == y_hi@ && *final(state) == (ViewerState {
            default_plot_bounds_t: (t_lo, t_hi),
            default_plot_bounds_grad: (y_lo, y_hi),
            chart_state: final(state).chart_state,
            ..*old(state)
        }),
        event matches ViewerEvent::PlotHover { x, y } ==> ({
            let t0 = old(state).default_plot_bounds_t.0@;
            let t1 = old(state).default_plot_bounds_t.1@;
            let g0 = old(state).default_plot_bounds_grad.0@;
            let g1 = old(state).default_plot_bounds_grad.1@;
            &&& (r is Ok <==> hover_fits(t0, t1, g0, g1, x@, y@))
            &&& r is Err ==> r == Err::<Action, ViewError>(ViewError::Overflow)
            &&& r is Ok ==> r == Ok::<Action, ViewError>(Action::Nothing) && (final(state).hover_readout matches Some(p) && p.0@ == fmul(value_at(t0, t1, x@), hover_time_scale())
                && p.1@ == value_at(g0, g1, y@)) && *final(state) == (ViewerState {
                hover_readout: final(state).hover_readout,
                ..*old(state)
            })
        }),
        event matches ViewerEvent::ChartDrag { dx, dy } ==> ({
            let tv = old(state).chart_state.spec_axis(AxisRole::Time)@;
            let gv = old(state).chart_state.spec_axis(AxisRole::Gradient)@;
            let rv = old(state).chart_state.spec_axis(AxisRole::Rf)@;
            &&& (r is Ok <==> pan_fits(tv.lo, tv.hi, dx@) && pan_fits(gv.lo, gv.hi, dy@)
                && pan_fits(rv.lo, rv.hi, dy@))
            &&& r is Err ==> r == Err::<Action, ViewError>(ViewError::Overflow)
            &&& r is Ok ==> r == Ok::<Action, ViewError>(Action::Nothing) && final(state).chart_state.spec_axis(AxisRole::Time)@ == spec_pan_axis(tv, dx@) && final(state).chart_state.spec_axis(AxisRole::Gradient)@ == spec_pan_axis(gv, dy@) && final(state).chart_state.spec_axis(AxisRole::Rf)@ == spec_pan_axis(rv, dy@) && *final(state)
                == (ViewerState { chart_state: final(state).chart_state, ..*old(state) })
        }),
        event matches ViewerEvent::ChartScroll { cursor_x, cursor_y, delta_x, delta_y } ==> ({
            let f = scroll_factor(delta_y@, delta_x@);
            let tv = old(state).chart_state.spec_axis(AxisRole::Time)@;
            let gv = old(state).chart_state.spec_axis(AxisRole::Gradient)@;
            let rv = old(state).chart_state.spec_axis(AxisRole::Rf)@;
            let zx = old(state).command_held || !old(state).shift_held;
            let zy = old(state).command_held || old(state).shift_held;
            &&& r == Ok::<Action, ViewError>(Action::Nothing)
            &&& (zx && zoom_fits(tv.lo, tv.hi, f, cursor_x@) ==> final(state).chart_state.spec_axis(
                AxisRole::Time,
            )@ == spec_zoom_axis(tv, f, cursor_x@))
            &&& (!(zx && zoom_fits(tv.lo, tv.hi, f, cursor_x@)) ==> final(state).chart_state.spec_axis(AxisRole::Time) == old(state).chart_state.spec_axis(
                AxisRole::Time,
            ))
            &&& (zy && zoom_fits(gv.lo, gv.hi, f, cursor_y@) ==> final(state).chart_state.spec_axis(
                AxisRole::Gradient,
            )@ == spec_zoom_axis(gv, f, cursor_y@))
            &&& (!(zy && zoom_fits(gv.lo, gv.hi, f, cursor_y@)) ==> final(state).chart_state.spec_axis(AxisRole::Gradient) == old(state).chart_state.spec_axis(
                AxisRole::Gradient,
            ))
            &&& (zy && zoom_fits(rv.lo, rv.hi, f, cursor_y@) ==> final(state).chart_state.spec_axis(
                AxisRole::Rf,
            )@ == spec_zoom_axis(rv, f, cursor_y@))
            &&& (!(zy && zoom_fits(rv.lo, rv.hi, f, cursor_y@)) ==> final(state).chart_state.spec_axis(AxisRole::Rf) == old(state).chart_state.spec_axis(AxisRole::Rf))
            &&& *final(state) == (ViewerState {
                chart_state: final(state).chart_state,
                ..*old(state)
            })
        }),
        event is ChartClicked ==> r == Ok::<Action, ViewError>(Action::Nothing) && *final(state)
            == *old(state),
        event is ResetView ==> r == Ok::<Action, ViewError>(Action::Nothing) && final(state).chart_state.spec_axis(AxisRole::Time)@.lo == old(state).default_plot_bounds_t.0@ && final(state).chart_state.spec_axis(AxisRole::Time)@.hi == old(state).default_plot_bounds_t.1@ && final(state).chart_state.spec_axis(AxisRole::Gradient)@.lo == old(state).default_plot_bounds_grad.0@
            && final(state).chart_state.spec_axis(AxisRole::Gradient)@.hi == old(state).default_plot_bounds_grad.1@ && final(state).chart_state.spec_axis(AxisRole::Rf)@.lo
            == old(state).default_plot_bounds_grad.0@ && final(state).chart_state.spec_axis(
            AxisRole::Rf,
        )@.hi == old(state).default_plot_bounds_grad.1@ && *final(state) == (ViewerState {
            chart_state: final(state).chart_state,
            ..*old(state)
        }),
        event matches ViewerEvent::ViewToggle(visible, channel) ==> ({
            let gxv = if channel == Channel::GX {
                visible
            } else {
                old(state).grad_x_visible
            };
            let gyv = if channel == Channel::GY {
                visible
            } else {
                old(state).grad_y_visible
            };
            let gzv = if channel == Channel::GZ {
                visible
            } else {
                old(state).grad_z_visible
            };
            let rfv = if channel == Channel::RfRe {
                visible
            } else {
                old(state).rf_visible
            };
            &&& r == Ok::<Action, ViewError>(Action::Nothing)
            &&& final(state).grad_x_visible == gxv
            &&& final(state).grad_y_visible == gyv
            &&& final(state).grad_z_visible == gzv
            &&& final(state).rf_visible == rfv
            &&& final(state).grad_x_series == (LineSeries {
                visible: gxv,
                ..old(state).grad_x_series
            })
            &&& final(state).grad_y_series == (LineSeries {
                visible: gyv,
                ..old(state).grad_y_series
            })
            &&& final(state).grad_z_series == (LineSeries {
                visible: gzv,
                ..old(state).grad_z_series
            })
            &&& final(state).rf_a_series == (LineSeries { visible: rfv, ..old(state).rf_a_series })
            &&& final(state).rf_b_series == (LineSeries { visible: rfv, ..old(state).rf_b_series })
            &&& *final(state) == (ViewerState {
                grad_x_visible: gxv,
                grad_y_visible: gyv,
                grad_z_visible: gzv,
                rf_visible: rfv,
                grad_x_series: final(state).grad_x_series,
                grad_y_series: final(state).grad_y_series,
                grad_z_series: final(state).grad_z_series,
                rf_a_series: final(state).rf_a_series,
                rf_b_series: final(state).rf_b_series,
                ..*old(state)
            })
        }),
{
    match event {
        ViewerEvent::ModifiersChanged { command, shift } => {
            state.command_held = command;
            state.shift_held = shift;
            Ok(Action::Nothing)
        },
        ViewerEvent::PickFileClicked => Ok(Action::OpenFileDialog),
        ViewerEvent::FilePicked(p) => {
            match p {
                Some(path) => {
                    state.pulse_seq_file = Some(path);
                },
                None => {},
            }
            Ok(Action::Nothing)
        },
        ViewerEvent::LoadFileClicked => {
            if state.pulse_seq_file.is_some() {
                Ok(Action::ReadFile)
            } else {
                Ok(Action::Nothing)
            }
        },
        ViewerEvent::FileLoaded(bytes) => handle_file_loaded(state, bytes),
        ViewerEvent::BoundsReady { t_lo, t_hi, y_lo, y_hi } => {
            state.default_plot_bounds_t = (t_lo, t_hi);
            state.default_plot_bounds_grad = (y_lo, y_hi);
            apply_chart_bounds(state);
            Ok(Action::Nothing)
        },
        ViewerEvent::PlotHover { x, y } => {
            let t = match value_between(
                state.default_plot_bounds_t.0,
                state.default_plot_bounds_t.1,
                x,
            ) {
                Some(v) => v,
                None => {
                    return Err(ViewError::Overflow);
                },
            };
            let t_scaled = match t.checked_mul(Rat::exact(1, 10000)) {
                Some(v) => v,
                None => {
                    return Err(ViewError::Overflow);
                },
            };
            let yv = match value_between(
                state.default_plot_bounds_grad.0,
                state.default_plot_bounds_grad.1,
                y,
            ) {
                Some(v) => v,
                None => {
                    return Err(ViewError::Overflow);
                },
            };
            state.hover_readout = Some((t_scaled, yv));
            Ok(Action::Nothing)
        },
        ViewerEvent::ChartDrag { dx, dy } => {
            let mut staged = state.chart_state;
            match staged.pan_axes(AxisRole::Time, AxisRole::Gradient, dx, dy) {
                Ok(()) => {},
                Err(_) => {
                    return Err(ViewError::Overflow);
                },
            }
            match staged.pan_axis(AxisRole::Rf, dy) {
                Ok(()) => {},
                Err(_) => {
                    return Err(ViewError::Overflow);
                },
            }
            state.chart_state = staged;
            Ok(Action::Nothing)
        },
        ViewerEvent::ChartScroll { cursor_x, cursor_y, delta_x, delta_y } => {
            let dominant_pos = if !delta_y.is_zero() {
                delta_y.is_pos()
            } else {
                delta_x.is_pos()
            };
            let factor = if dominant_pos {
                Rat::exact(11, 10)
            } else {
                Rat::exact(9, 10)
            };
            let zoom_x = state.command_held || !state.shift_held;
            let zoom_y = state.command_held || state.shift_held;
            if zoom_x {
                match state.chart_state.zoom_axis(AxisRole::Time, factor, Some(cursor_x)) {
                    Ok(()) => {},
                    Err(_) => {},
                }
            }
            if zoom_y {
                match state.chart_state.zoom_axis(AxisRole::Gradient, factor, Some(cursor_y)) {
                    Ok(()) => {},
                    Err(_) => {},
                }
            }
            if zoom_y {
                match state.chart_state.zoom_axis(AxisRole::Rf, factor, Some(cursor_y)) {
                    Ok(()) => {},
                    Err(_) => {},
                }
            }
            Ok(Action::Nothing)
        },
        ViewerEvent::ChartClicked => Ok(Action::Nothing),
        ViewerEvent::ResetView => {
            apply_chart_bounds(state);
            Ok(Action::Nothing)
        },
        ViewerEvent::ViewToggle(visible, channel) => {
            match channel {
                Channel::GX => {
                    state.grad_x_visible = visible;
                },
                Channel::GY => {
                    state.grad_y_visible = visible;
                },
                Channel::GZ => {
                    state.grad_z_visible = visible;
                },
                Channel::RfRe => {
                    state.rf_visible = visible;
                },
                _ => {},
            }
            let gxv = state.grad_x_visible;
            let gyv = state.grad_y_visible;
            let gzv = state.grad_z_visible;
            let rfv = state.rf_visible;
            state.grad_x_series.set_visibility(gxv);
            state.grad_y_series.set_visibility(gyv);
            state.grad_z_series.set_visibility(gzv);
            state.rf_a_series.set_visibility(rfv);
            state.rf_b_series.set_visibility(rfv);
            Ok(Action::Nothing)
        },
    }
}

} // verus!
