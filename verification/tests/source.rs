use dowser_rf::error::FdtdError;
use dowser_rf::fixed::Fixed;
use dowser_rf::source::{
    electric_sample_point, is_stable, magnetic_sample_point, SamplePoint, SourceState, Waveform,
};

const ONE: i64 = 1 << 32;

fn raw(v: i64) -> Fixed {
    Fixed::from_raw(v)
}

#[test]
fn courant_numbers_above_zero_and_up_to_one_are_stable() {
    assert!(is_stable(raw(ONE)));
    assert!(is_stable(raw(ONE / 2)));
    assert!(is_stable(raw(1)));
}

#[test]
fn courant_numbers_outside_that_range_are_not() {
    assert!(!is_stable(raw(0)));
    assert!(!is_stable(raw(-1)));
    assert!(!is_stable(raw(-ONE)));
    assert!(!is_stable(raw(ONE + 1)));
    assert!(!is_stable(raw(2 * ONE)));
}

#[test]
fn a_source_inside_the_grid_is_accepted() {
    let source = SourceState::new(50, raw(ONE), Waveform::GaussianPulse, 200).unwrap();
    assert_eq!(source.tfsf_boundary, 50);
    assert_eq!(source.courant, raw(ONE));
    assert!(matches!(source.waveform, Waveform::GaussianPulse));
    assert!(source.check_suits(200));
    assert!(source.check_suits(52));
    assert!(!source.check_suits(51));
}

#[test]
fn the_last_boundary_that_fits_is_two_below_the_grid_size() {
    assert!(SourceState::new(198, raw(ONE), Waveform::GaussianPulse, 200).is_ok());
    assert_eq!(
        SourceState::new(199, raw(ONE), Waveform::GaussianPulse, 200).err(),
        Some(FdtdError::ConfigurationError)
    );
    assert_eq!(
        SourceState::new(200, raw(ONE), Waveform::GaussianPulse, 200).err(),
        Some(FdtdError::ConfigurationError)
    );
    assert_eq!(
        SourceState::new(usize::MAX, raw(ONE), Waveform::GaussianPulse, 200).err(),
        Some(FdtdError::ConfigurationError)
    );
}

#[test]
fn an_unstable_courant_number_is_a_configuration_error() {
    assert_eq!(
        SourceState::new(50, raw(0), Waveform::GaussianPulse, 200).err(),
        Some(FdtdError::ConfigurationError)
    );
    assert_eq!(
        SourceState::new(50, raw(ONE + 1), Waveform::GaussianPulse, 200).err(),
        Some(FdtdError::ConfigurationError)
    );
}

#[test]
fn a_harmonic_source_keeps_its_points_per_wavelength() {
    let source =
        SourceState::new(50, raw(ONE), Waveform::Harmonic { ppw: raw(40 * ONE) }, 200).unwrap();
    match source.waveform {
        Waveform::Harmonic { ppw } => assert_eq!(ppw, raw(40 * ONE)),
        Waveform::GaussianPulse => panic!("the waveform changed"),
    }
}

#[test]
fn the_magnetic_side_is_sampled_on_the_step_and_on_the_boundary() {
    assert_eq!(
        magnetic_sample_point(7),
        SamplePoint { step: 7, half_step_later: false, half_cell_before: false }
    );
}

#[test]
fn the_electric_side_is_sampled_half_a_step_later_and_half_a_cell_before() {
    assert_eq!(
        electric_sample_point(7),
        SamplePoint { step: 7, half_step_later: true, half_cell_before: true }
    );
}
