//! Tests of the shape calculator, the volume buffer and slice
//! extraction.

use pulse_view::colormap::{grayscale_rgba, ScaleHandler, ViewMode};
use pulse_view::viewpanel::{ViewPanel, ViewPanelMessage};
use pulse_view::dims::ArrayDim;
use pulse_view::errors::ViewError;
use pulse_view::slice::SliceHandler;
use pulse_view::volume::{CflBuffer, Complex};

fn volume_2_3_4() -> CflBuffer {
    // A 2 x 3 x 4 volume whose sample at flat address a has real
    // encoding a and imaginary encoding 0.
    let dims = ArrayDim::from_shape(&vec![2, 3, 4]).unwrap();
    let mut data = Vec::new();
    for a in 0..24u32 {
        data.push(Complex { re_bits: a, im_bits: 0 });
    }
    CflBuffer::from_parts(data, dims).unwrap()
}

#[test]
fn strides_and_numel_follow_the_shape() {
    let dims = ArrayDim::from_shape(&vec![2, 3, 4]).unwrap();
    assert_eq!(dims.strides(), &vec![1, 2, 6]);
    assert_eq!(dims.numel(), 24);
    assert_eq!(dims.shape(), &vec![2, 3, 4]);
}

#[test]
fn from_shape_rejects_zero_and_excessive_dimensions() {
    assert!(matches!(
        ArrayDim::from_shape(&vec![2, 0, 4]),
        Err(ViewError::DimensionError)
    ));
    let too_many = vec![1; 17];
    assert!(matches!(
        ArrayDim::from_shape(&too_many),
        Err(ViewError::DimensionError)
    ));
    assert!(matches!(
        ArrayDim::from_shape(&vec![usize::MAX, 2]),
        Err(ViewError::DimensionError)
    ));
}

#[test]
fn calc_addr_is_the_stride_weighted_sum() {
    let dims = ArrayDim::from_shape(&vec![2, 3, 4]).unwrap();
    assert_eq!(dims.calc_addr(&vec![1, 2, 0]), Ok(5));
    assert_eq!(dims.calc_addr(&vec![1, 2, 3]), Ok(23));
    assert_eq!(dims.calc_addr(&vec![0, 0, 0]), Ok(0));
}

#[test]
fn calc_addr_rejects_out_of_bounds_and_short_indices() {
    let dims = ArrayDim::from_shape(&vec![2, 3, 4]).unwrap();
    assert_eq!(dims.calc_addr(&vec![2, 0, 0]), Err(ViewError::IndexError));
    assert_eq!(dims.calc_addr(&vec![0, 3, 0]), Err(ViewError::IndexError));
    assert_eq!(dims.calc_addr(&vec![0, 0]), Err(ViewError::IndexError));
}

#[test]
fn volume_from_bytes_decodes_little_endian_samples() {
    // One sample: real encoding 0x04030201, imaginary 0x08070605.
    let bytes = vec![1, 2, 3, 4, 5, 6, 7, 8];
    let vol = CflBuffer::from_bytes(&vec![1], &bytes).unwrap();
    assert_eq!(vol.data.len(), 1);
    assert_eq!(vol.data[0].re_bits, 0x0403_0201);
    assert_eq!(vol.data[0].im_bits, 0x0807_0605);
}

#[test]
fn volume_from_bytes_rejects_wrong_lengths() {
    assert!(matches!(
        CflBuffer::from_bytes(&vec![2], &vec![0; 15]),
        Err(ViewError::FormatError)
    ));
    assert!(matches!(
        CflBuffer::from_bytes(&vec![2], &vec![0; 24]),
        Err(ViewError::FormatError)
    ));
    assert!(matches!(
        CflBuffer::from_bytes(&vec![0], &vec![]),
        Err(ViewError::DimensionError)
    ));
}

#[test]
fn volume_from_parts_checks_the_length() {
    let dims = ArrayDim::from_shape(&vec![2, 2]).unwrap();
    let r = CflBuffer::from_parts(vec![Complex { re_bits: 0, im_bits: 0 }; 3], dims);
    assert!(matches!(r, Err(ViewError::FormatError)));
}

#[test]
fn default_volume_is_a_blank_square() {
    let vol = CflBuffer::default();
    assert_eq!(vol.dims.shape(), &vec![128, 128]);
    assert_eq!(vol.data.len(), 128 * 128);
    assert!(vol
        .data
        .iter()
        .all(|c| c.re_bits == 0 && c.im_bits == 0));
}

#[test]
fn handler_centers_slice_indices_on_creation() {
    let vol = volume_2_3_4();
    let sh = SliceHandler::from_dims(&vol.dims).unwrap();
    assert_eq!(sh.view_slices, [0, 1, 2]);
    assert_eq!(sh.slice_indices, [1, 1, 2]);
    assert_eq!(sh.dims_1.shape(), &vec![2, 3]);
    assert_eq!(sh.dims_2.shape(), &vec![3, 4]);
    assert_eq!(sh.dims_3.shape(), &vec![4, 2]);
}

#[test]
fn handler_rejects_volumes_with_fewer_than_three_dimensions() {
    let dims = ArrayDim::from_shape(&vec![4, 4]).unwrap();
    assert!(matches!(
        SliceHandler::from_dims(&dims),
        Err(ViewError::DimensionError)
    ));
}

#[test]
fn xy_slice_at_centered_z_reproduces_expected_addresses() {
    // With the z role held at its centered index 2, the x-y projection
    // of the address-valued volume is out[y*2 + x] = x + 2*y + 12.
    let vol = volume_2_3_4();
    let mut sh = SliceHandler::from_dims(&vol.dims).unwrap();
    sh.update_slice_1(&vol).unwrap();
    let expected: Vec<u32> = vec![12, 13, 14, 15, 16, 17];
    let got: Vec<u32> = sh.slice_view_1.iter().map(|c| c.re_bits).collect();
    assert_eq!(got, expected);
}

#[test]
fn yz_slice_holds_the_x_role_fixed() {
    // With the x role held at its centered index 1, out[z*3 + y] =
    // 1 + 2*y + 6*z.
    let vol = volume_2_3_4();
    let mut sh = SliceHandler::from_dims(&vol.dims).unwrap();
    sh.update_slice_2(&vol).unwrap();
    let got: Vec<u32> = sh.slice_view_2.iter().map(|c| c.re_bits).collect();
    let mut expected = Vec::new();
    for z in 0..4u32 {
        for y in 0..3u32 {
            expected.push(1 + 2 * y + 6 * z);
        }
    }
    assert_eq!(got, expected);
}

#[test]
fn zx_slice_holds_the_y_role_fixed() {
    // With the y role held at its centered index 1, out[x*4 + z] =
    // x + 2 + 6*z.
    let vol = volume_2_3_4();
    let mut sh = SliceHandler::from_dims(&vol.dims).unwrap();
    sh.update_slice_3(&vol).unwrap();
    let got: Vec<u32> = sh.slice_view_3.iter().map(|c| c.re_bits).collect();
    let mut expected = Vec::new();
    for x in 0..2u32 {
        for z in 0..4u32 {
            expected.push(x + 2 + 6 * z);
        }
    }
    assert_eq!(got, expected);
}

#[test]
fn update_resizes_stale_outputs_after_a_reload() {
    let vol = volume_2_3_4();
    let mut sh = SliceHandler::default();
    assert_eq!(sh.slice_view_1.len(), 128 * 128);
    sh.slice_indices = [1, 1, 2];
    sh.update_slice_1(&vol).unwrap();
    assert_eq!(sh.slice_view_1.len(), 6);
    assert_eq!(sh.dims_1.shape(), &vec![2, 3]);
}

#[test]
fn update_rejects_an_out_of_bounds_held_index() {
    let vol = volume_2_3_4();
    let mut sh = SliceHandler::from_dims(&vol.dims).unwrap();
    sh.slice_indices = [1, 1, 4];
    let before = sh.slice_view_1.clone();
    assert_eq!(sh.update_slice_1(&vol), Err(ViewError::IndexError));
    assert_eq!(sh.slice_view_1, before);
}

#[test]
fn set_view_axes_recenters_and_reallocates() {
    let vol = volume_2_3_4();
    let mut sh = SliceHandler::from_dims(&vol.dims).unwrap();
    sh.set_view_axes([2, 1, 0], &vol.dims).unwrap();
    assert_eq!(sh.view_slices, [2, 1, 0]);
    assert_eq!(sh.slice_indices, [2, 1, 1]);
    assert_eq!(sh.dims_1.shape(), &vec![4, 3]);
}

#[test]
fn set_view_axes_rejects_duplicates_and_missing_dimensions() {
    let vol = volume_2_3_4();
    let mut sh = SliceHandler::from_dims(&vol.dims).unwrap();
    assert_eq!(
        sh.set_view_axes([0, 0, 1], &vol.dims),
        Err(ViewError::IndexError)
    );
    assert_eq!(
        sh.set_view_axes([0, 1, 3], &vol.dims),
        Err(ViewError::IndexError)
    );
}

#[test]
fn grayscale_expansion_of_a_magnitude_five_sample() {
    // A sample (3, 4) has magnitude 5; with unit scaling its pixel is
    // [5, 5, 5, 255].
    let re = 3.0f32;
    let im = 4.0f32;
    let scaling = 1.0f32;
    let level = (re * re + im * im).sqrt() * scaling;
    let clamped = level.clamp(0.0, 255.0) as u8;
    let bytes = grayscale_rgba(&vec![clamped]);
    assert_eq!(bytes, vec![5, 5, 5, 255]);
}

#[test]
fn grayscale_expansion_keeps_input_order() {
    let bytes = grayscale_rgba(&vec![0, 7, 255]);
    assert_eq!(bytes, vec![0, 0, 0, 255, 7, 7, 7, 255, 255, 255, 255, 255]);
}

#[test]
fn view_panel_defaults_and_messages() {
    let mut panel = ViewPanel::default();
    assert_eq!(panel.pane_count(), 3);
    assert_eq!(panel.n_panes, 3);
    assert_eq!(panel.pane_dims, [512, 512]);
    assert_eq!(panel.scaling.num(), 128);
    panel.update(ViewPanelMessage::Increment);
    assert_eq!(panel.pane_count(), 3);
}

#[test]
fn scale_handler_defaults_to_full_range_magnitude() {
    let sh = ScaleHandler::default();
    assert!(matches!(sh.view_mode, ViewMode::Mag));
    assert_eq!(sh.scaling.num(), 255);
    assert_eq!(sh.scaling.den(), 1);
}
