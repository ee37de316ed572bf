use dowser_rf::error::FdtdError;
use dowser_rf::field::OneDField;
use dowser_rf::fixed::Fixed;
use dowser_rf::material::{MaterialConfig, MaterialProfile};
use dowser_rf::scalar::Scalar;
use dowser_rf::simulator::{
    next_value, update_electric, update_magnetic, SimulationRequest, Simulator,
};
use dowser_rf::source::{SourceState, Waveform};

const ONE: i64 = 1 << 32;
const HALF: i64 = 1 << 31;
const QUARTER: i64 = 1 << 30;

fn fx(n: i32) -> Fixed {
    Fixed::from_integer(n)
}

fn field(values: &[i32]) -> OneDField<Fixed> {
    let cells: Vec<Fixed> = values.iter().map(|v| fx(*v)).collect();
    OneDField::from_initial_state(&cells)
}

fn constant(n: usize, value: i32) -> OneDField<Fixed> {
    let cells: Vec<Fixed> = vec![fx(value); n];
    OneDField::from_initial_state(&cells)
}

fn raws(field: &OneDField<Fixed>) -> Vec<i64> {
    (0..field.length()).map(|i| field.index(i).raw).collect()
}

/// Unit self-coefficients and couplings of three on both grids, so that
/// both reflection coefficients are one half.
fn profile(n: usize) -> MaterialProfile<Fixed> {
    MaterialProfile::from_fields(
        constant(n, 1),
        constant(n, 3),
        constant(n - 1, 1),
        constant(n - 1, 3),
    )
}

fn source(tfsf_boundary: usize) -> SourceState<Fixed> {
    SourceState { tfsf_boundary, courant: fx(1), waveform: Waveform::GaussianPulse }
}

fn small_run(max_time: usize, record_h: bool) -> Simulator<Fixed> {
    Simulator::new(
        field(&[1, 2, 3, 4, 5]),
        field(&[10, 20, 30, 40]),
        profile(5),
        source(1),
        max_time,
        record_h,
    )
    .unwrap()
}

fn request(grid_size: usize) -> SimulationRequest<Fixed> {
    SimulationRequest {
        material: MaterialConfig {
            grid_size,
            cell_spacing: fx(1),
            impedance: fx(377),
            dielectric_boundary: grid_size / 2,
            relative_permittivity: fx(9),
            loss_layer: None,
        },
        courant: fx(1),
        max_time: 10,
        tfsf_boundary: 1,
        waveform: Waveform::GaussianPulse,
        initial_e: None,
        initial_h: None,
        record_h: false,
    }
}

#[test]
fn next_value_is_own_share_plus_coupled_difference() {
    // 2 * 10 + 3 * (7 - 4) = 29
    assert_eq!(next_value(fx(2), fx(10), fx(3), fx(7), fx(4)), fx(29));
    // 1 * (-5) + 3 * (33 - 30) = 4
    assert_eq!(next_value(fx(1), fx(-5), fx(3), fx(33), fx(30)), fx(4));
}

#[test]
fn update_magnetic_sweeps_all_but_the_last_cell() {
    let mut h = field(&[10, 20, 30, 40]);
    let e = field(&[1, 2, 4, 8, 16]);
    update_magnetic(&mut h, &e, &constant(4, 2), &constant(4, 3));
    assert_eq!(raws(&h), vec![23 * ONE, 46 * ONE, 72 * ONE, 40 * ONE]);
    assert_eq!(raws(&e), vec![ONE, 2 * ONE, 4 * ONE, 8 * ONE, 16 * ONE]);
}

#[test]
fn update_electric_sweeps_the_interior_only() {
    let mut e = field(&[1, 2, 4, 8, 16]);
    let h = field(&[10, 20, 30, 40]);
    update_electric(&mut e, &h, &constant(5, 2), &constant(5, 3));
    assert_eq!(raws(&e), vec![ONE, 34 * ONE, 38 * ONE, 46 * ONE, 16 * ONE]);
    assert_eq!(raws(&h), vec![10 * ONE, 20 * ONE, 30 * ONE, 40 * ONE]);
}

#[test]
fn a_new_run_starts_at_step_zero_with_the_given_fields() {
    let sim = small_run(3, false);
    assert_eq!(sim.step_index(), 0);
    assert_eq!(sim.max_time(), 3);
    assert!(!sim.is_complete());
    assert_eq!(raws(sim.e_field()), vec![ONE, 2 * ONE, 3 * ONE, 4 * ONE, 5 * ONE]);
    assert_eq!(raws(sim.h_field()), vec![10 * ONE, 20 * ONE, 30 * ONE, 40 * ONE]);
    assert_eq!(sim.boundary().abc_left.raw, HALF);
    assert_eq!(sim.boundary().abc_right.raw, HALF);
    assert_eq!(sim.boundary().old_left.raw, 0);
    assert_eq!(sim.boundary().old_right.raw, 0);
    assert_eq!(sim.source().tfsf_boundary, 1);
    assert_eq!(raws(&sim.profile().cezh), vec![3 * ONE; 5]);
}

#[test]
fn one_step_follows_the_fixed_order() {
    let mut sim = small_run(3, false);
    let record = sim.advance(fx(5), fx(7)).unwrap();
    assert_eq!(record.step_index, 0);
    assert_eq!(
        raws(sim.e_field()),
        vec![7 * ONE + HALF, 17 * ONE, 55 * ONE, -5 * ONE, -5 * ONE]
    );
    assert_eq!(raws(sim.h_field()), vec![13 * ONE, 18 * ONE, 33 * ONE, 30 * ONE]);
    assert_eq!(sim.boundary().old_left, fx(17));
    assert_eq!(sim.boundary().old_right, fx(-5));
    assert_eq!(sim.step_index(), 1);
}

#[test]
fn the_second_step_uses_what_the_boundary_remembered() {
    let mut sim = small_run(3, false);
    sim.advance(fx(5), fx(7)).unwrap();
    let record = sim.advance(fx(-1), fx(2)).unwrap();
    assert_eq!(record.step_index, 1);
    assert_eq!(
        raws(sim.e_field()),
        vec![154 * ONE + QUARTER, 291 * ONE + HALF, -783 * ONE, 535 * ONE, 265 * ONE]
    );
    assert_eq!(
        raws(sim.h_field()),
        vec![41 * ONE + HALF, 133 * ONE, -147 * ONE, 33 * ONE]
    );
    assert_eq!(sim.boundary().old_left.raw, 291 * ONE + HALF);
    assert_eq!(sim.boundary().old_right, fx(535));
    assert_eq!(sim.step_index(), 2);
}

#[test]
fn a_step_leaves_coefficients_and_source_alone() {
    let mut sim = small_run(3, false);
    sim.advance(fx(5), fx(7)).unwrap();
    assert_eq!(raws(&sim.profile().ceze), vec![ONE; 5]);
    assert_eq!(raws(&sim.profile().cezh), vec![3 * ONE; 5]);
    assert_eq!(raws(&sim.profile().chyh), vec![ONE; 4]);
    assert_eq!(raws(&sim.profile().chye), vec![3 * ONE; 4]);
    assert_eq!(sim.boundary().abc_left.raw, HALF);
    assert_eq!(sim.boundary().abc_right.raw, HALF);
    assert_eq!(sim.source().tfsf_boundary, 1);
    assert_eq!(sim.max_time(), 3);
}

#[test]
fn the_smallest_grid_has_two_electric_cells() {
    let mut sim =
        Simulator::new(field(&[1, 2]), field(&[10]), profile(2), source(0), 1, false).unwrap();
    sim.advance(fx(5), fx(7)).unwrap();
    assert_eq!(raws(sim.e_field()), vec![3 * ONE + HALF, -3 * ONE + QUARTER]);
    assert_eq!(raws(sim.h_field()), vec![5 * ONE]);
    assert_eq!(sim.boundary().old_left, fx(9));
    assert_eq!(sim.boundary().old_right.raw, 3 * ONE + HALF);
}

#[test]
fn the_record_holds_one_row_per_electric_cell_in_order() {
    let mut sim = small_run(3, false);
    sim.advance(fx(5), fx(7)).unwrap();
    let record = sim.advance(fx(-1), fx(2)).unwrap();
    assert_eq!(record.step_index, 1);
    assert_eq!(record.e_rows.len(), 5);
    let expected = raws(sim.e_field());
    for i in 0..5 {
        assert_eq!(record.e_rows[i].step_index, 1);
        assert_eq!(record.e_rows[i].cell_index, i);
        assert_eq!(record.e_rows[i].value.raw, expected[i]);
    }
    assert_eq!(record.h_rows.len(), 0);
}

#[test]
fn the_record_holds_the_magnetic_field_where_the_run_records_it() {
    let mut sim = small_run(3, true);
    let record = sim.advance(fx(5), fx(7)).unwrap();
    assert_eq!(record.e_rows.len(), 5);
    assert_eq!(record.h_rows.len(), 4);
    let expected = [13 * ONE, 18 * ONE, 33 * ONE, 30 * ONE];
    for i in 0..4 {
        assert_eq!(record.h_rows[i].step_index, 0);
        assert_eq!(record.h_rows[i].cell_index, i);
        assert_eq!(record.h_rows[i].value.raw, expected[i]);
    }
}

#[test]
fn the_step_counter_equals_the_number_of_steps_taken() {
    let mut sim = small_run(6, false);
    for k in 0..6 {
        assert_eq!(sim.step_index(), k);
        assert!(!sim.is_complete());
        let record = sim.advance(fx(0), fx(0)).unwrap();
        assert_eq!(record.step_index, k);
    }
    assert_eq!(sim.step_index(), 6);
    assert!(sim.is_complete());
}

#[test]
fn advancing_a_complete_run_fails_and_changes_nothing() {
    let mut sim = small_run(2, false);
    sim.advance(fx(5), fx(7)).unwrap();
    sim.advance(fx(-1), fx(2)).unwrap();
    assert!(sim.is_complete());
    let e = raws(sim.e_field());
    let h = raws(sim.h_field());
    for _ in 0..3 {
        assert_eq!(sim.advance(fx(1), fx(1)).err(), Some(FdtdError::OutOfRange));
        assert_eq!(sim.step_index(), 2);
        assert_eq!(raws(sim.e_field()), e);
        assert_eq!(raws(sim.h_field()), h);
        assert_eq!(sim.boundary().old_left.raw, 291 * ONE + HALF);
        assert_eq!(sim.boundary().old_right, fx(535));
    }
}

#[test]
fn a_run_of_no_steps_is_complete_at_once() {
    let mut sim = small_run(0, false);
    assert!(sim.is_complete());
    assert_eq!(sim.advance(fx(0), fx(0)).err(), Some(FdtdError::OutOfRange));
    assert_eq!(sim.step_index(), 0);
}

#[test]
fn zero_fields_and_a_zero_waveform_stay_exactly_zero() {
    let mut sim = Simulator::configure(request(20)).unwrap();
    for _ in 0..10 {
        sim.advance(Fixed::zero(), Fixed::zero()).unwrap();
        assert_eq!(raws(sim.e_field()), vec![0; 20]);
        assert_eq!(raws(sim.h_field()), vec![0; 19]);
        assert_eq!(sim.boundary().old_left.raw, 0);
        assert_eq!(sim.boundary().old_right.raw, 0);
    }
}

#[test]
fn new_refuses_each_length_mismatch() {
    let build = |e: usize, h: usize, ceze: usize, cezh: usize, chyh: usize, chye: usize| {
        Simulator::new(
            constant(e, 0),
            constant(h, 0),
            MaterialProfile::from_fields(
                constant(ceze, 1),
                constant(cezh, 3),
                constant(chyh, 1),
                constant(chye, 3),
            ),
            source(1),
            10,
            false,
        )
    };
    assert!(build(5, 4, 5, 5, 4, 4).is_ok());
    assert_eq!(build(5, 5, 5, 5, 4, 4).err(), Some(FdtdError::ConfigurationError));
    assert_eq!(build(5, 3, 5, 5, 4, 4).err(), Some(FdtdError::ConfigurationError));
    assert_eq!(build(5, 4, 4, 5, 4, 4).err(), Some(FdtdError::ConfigurationError));
    assert_eq!(build(5, 4, 5, 6, 4, 4).err(), Some(FdtdError::ConfigurationError));
    assert_eq!(build(5, 4, 5, 5, 5, 4).err(), Some(FdtdError::ConfigurationError));
    assert_eq!(build(5, 4, 5, 5, 4, 3).err(), Some(FdtdError::ConfigurationError));
    assert_eq!(build(6, 5, 5, 5, 4, 4).err(), Some(FdtdError::ConfigurationError));
    assert_eq!(build(0, 0, 0, 0, 0, 0).err(), Some(FdtdError::ConfigurationError));
}

#[test]
fn new_refuses_a_source_outside_the_grid() {
    let build = |tfsf: usize| {
        Simulator::new(constant(5, 0), constant(4, 0), profile(5), source(tfsf), 10, false)
    };
    assert!(build(0).is_ok());
    assert!(build(3).is_ok());
    assert_eq!(build(4).err(), Some(FdtdError::ConfigurationError));
    assert_eq!(build(5).err(), Some(FdtdError::ConfigurationError));
    assert_eq!(build(usize::MAX).err(), Some(FdtdError::ConfigurationError));
}

#[test]
fn new_refuses_an_unstable_courant_number() {
    let build = |courant: Fixed| {
        Simulator::new(
            constant(5, 0),
            constant(4, 0),
            profile(5),
            SourceState { tfsf_boundary: 1, courant, waveform: Waveform::GaussianPulse },
            10,
            false,
        )
    };
    assert!(build(Fixed::from_raw(ONE)).is_ok());
    assert!(build(Fixed::from_raw(HALF)).is_ok());
    assert_eq!(build(Fixed::from_raw(0)).err(), Some(FdtdError::ConfigurationError));
    assert_eq!(build(Fixed::from_raw(-ONE)).err(), Some(FdtdError::ConfigurationError));
    assert_eq!(build(Fixed::from_raw(ONE + 1)).err(), Some(FdtdError::ConfigurationError));
}

#[test]
fn configure_derives_profile_fields_and_boundary() {
    let sim = Simulator::configure(request(8)).unwrap();
    assert_eq!(sim.step_index(), 0);
    assert_eq!(sim.max_time(), 10);
    assert_eq!(raws(sim.e_field()), vec![0; 8]);
    assert_eq!(raws(sim.h_field()), vec![0; 7]);
    assert_eq!(raws(&sim.profile().ceze), vec![ONE; 8]);
    assert_eq!(
        raws(&sim.profile().cezh),
        vec![
            377 * ONE,
            377 * ONE,
            377 * ONE,
            377 * ONE,
            179911407843,
            179911407843,
            179911407843,
            179911407843
        ]
    );
    assert_eq!(raws(&sim.profile().chyh), vec![ONE; 7]);
    assert_eq!(raws(&sim.profile().chye), vec![11392486; 7]);
    assert_eq!(sim.boundary().abc_left.raw, -19);
    assert_eq!(sim.boundary().abc_right.raw, -2147483663);
    assert_eq!(sim.source().tfsf_boundary, 1);
}

#[test]
fn configure_takes_a_given_initial_state() {
    let mut asked = request(4);
    asked.initial_e = Some(vec![fx(1), fx(2), fx(3), fx(4)]);
    asked.initial_h = Some(vec![fx(5), fx(6), fx(7)]);
    let sim = Simulator::configure(asked).unwrap();
    assert_eq!(raws(sim.e_field()), vec![ONE, 2 * ONE, 3 * ONE, 4 * ONE]);
    assert_eq!(raws(sim.h_field()), vec![5 * ONE, 6 * ONE, 7 * ONE]);
}

#[test]
fn configure_refuses_what_is_not_a_run() {
    assert_eq!(
        Simulator::configure(request(0)).err(),
        Some(FdtdError::ConfigurationError)
    );
    assert_eq!(
        Simulator::configure(request(1)).err(),
        Some(FdtdError::ConfigurationError)
    );
    assert_eq!(
        Simulator::configure(request(2)).err(),
        Some(FdtdError::ConfigurationError)
    );
    assert!(Simulator::configure(request(3)).is_ok());

    let mut asked = request(8);
    asked.tfsf_boundary = 7;
    assert_eq!(Simulator::configure(asked).err(), Some(FdtdError::ConfigurationError));

    let mut asked = request(8);
    asked.courant = fx(2);
    assert_eq!(Simulator::configure(asked).err(), Some(FdtdError::ConfigurationError));

    let mut asked = request(8);
    asked.courant = fx(0);
    assert_eq!(Simulator::configure(asked).err(), Some(FdtdError::ConfigurationError));

    let mut asked = request(8);
    asked.initial_e = Some(vec![fx(0); 7]);
    assert_eq!(Simulator::configure(asked).err(), Some(FdtdError::ConfigurationError));

    let mut asked = request(8);
    asked.initial_h = Some(vec![fx(0); 8]);
    assert_eq!(Simulator::configure(asked).err(), Some(FdtdError::ConfigurationError));
}
