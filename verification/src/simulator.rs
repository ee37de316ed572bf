use vstd::prelude::*;
use crate::boundary::{mur_coefficient, BoundaryState};
use crate::error::FdtdError;
use crate::field::{OneDField, SnapshotRow};
use crate::material::{MaterialConfig, MaterialProfile};
use crate::model::{
    extrapolate_far, extrapolate_near, leapfrog, sweep_e, sweep_h, Drive, RunState, Setup,
};
use crate::scalar::Scalar;
use crate::source::{SourceState, Waveform};

verus! {

/// What one completed step hands to the snapshot sink.
pub struct StepRecord<T> {
    /// The index of the step that was just taken.
    pub step_index: usize,
    /// One row per electric cell, in increasing cell order.
    pub e_rows: Vec<SnapshotRow<T>>,
    /// One row per magnetic cell where the run records that field, else none.
    pub h_rows: Vec<SnapshotRow<T>>,
}

/// All that a run is asked to do.
pub struct SimulationRequest<T> {
    pub material: MaterialConfig<T>,
    pub courant: T,
    pub max_time: usize,
    pub tfsf_boundary: usize,
    pub waveform: Waveform<T>,
    /// The electric field at the start; all zero where none is given.
    pub initial_e: Option<Vec<T>>,
    /// The magnetic field at the start; all zero where none is given.
    pub initial_h: Option<Vec<T>>,
    pub record_h: bool,
}

/// A field of `n` cells that all hold zero.
pub open spec fn zeros<T: Scalar>(n: nat) -> Seq<T> {
    Seq::new(n, |i: int| T::zero_value())
}

impl<T: Scalar> SimulationRequest<T> {
    /// The source that the request asks for.
    pub open spec fn source(self) -> SourceState<T> {
        SourceState {
            tfsf_boundary: self.tfsf_boundary,
            courant: self.courant,
            waveform: self.waveform,
        }
    }

    /// The electric field at the start of the run.
    pub open spec fn starting_e(self) -> Seq<T> {
        match self.initial_e {
            Some(cells) => cells@,
            None => zeros(self.material.grid_size as nat),
        }
    }

    /// The magnetic field at the start of the run.
    pub open spec fn starting_h(self) -> Seq<T> {
        match self.initial_h {
            Some(cells) => cells@,
            None => zeros((self.material.grid_size - 1) as nat),
        }
    }

    /// The request describes a run: the grid is not empty, the source suits
    /// it, and a given initial field has the length of its grid.
    pub open spec fn valid(self) -> bool {
        &&& self.material.grid_size >= 1
        &&& self.source().suits(self.material.grid_size as int)
        &&& self.starting_e().len() == self.material.grid_size
        &&& self.starting_h().len() == self.material.grid_size - 1
    }
}

/// One run of the simulation: both fields, the coefficients that drive them
/// and the count of the steps taken.
pub struct Simulator<T> {
    e: OneDField<T>,
    h: OneDField<T>,
    profile: MaterialProfile<T>,
    boundary: BoundaryState<T>,
    source: SourceState<T>,
    q: usize,
    max_time: usize,
    record_h: bool,
}

/// The next value of one cell, computed without touching any storage.
pub fn next_value<T: Scalar>(c_own: T, own: T, c_other: T, ahead: T, behind: T) -> (value: T)
    ensures
        value == leapfrog(c_own, own, c_other, ahead, behind),
{
    c_own.times(own).plus(c_other.times(ahead.minus(behind)))
}

/// The bulk update of the magnetic field, in place: every cell but the last
/// advances from its own value and the two electric cells around it.
pub fn update_magnetic<T: Scalar>(
    h: &mut OneDField<T>,
    e: &OneDField<T>,
    chyh: &OneDField<T>,
    chye: &OneDField<T>,
)
    requires
        e@.len() == old(h)@.len() + 1,
        chyh@.len() == old(h)@.len(),
        chye@.len() == old(h)@.len(),
    ensures
        final(h)@ == sweep_h(old(h)@, e@, chyh@, chye@),
{
    let n: usize = h.length();
    let mut m: usize = 0;
    while m + 1 < n
        invariant
            m + 1 <= n || m == 0,
            h@.len() == n,
            n == old(h)@.len(),
            e@.len() == n + 1,
            chyh@.len() == n,
            chye@.len() == n,
            forall|k: int|
                0 <= k < m ==> h@[k] == leapfrog(
                    chyh@[k],
                    old(h)@[k],
                    chye@[k],
                    e@[k + 1],
                    e@[k],
                ),
            forall|k: int| m <= k < n ==> h@[k] == old(h)@[k],
        decreases n - m,
    {
        let value: T = next_value(
            chyh.index(m),
            h.index(m),
            chye.index(m),
            e.index(m + 1),
            e.index(m),
        );
        h.put(m, value);
        m += 1;
    }
    assert(h@ =~= sweep_h(old(h)@, e@, chyh@, chye@));
}

/// The bulk update of the electric field, in place: every interior cell
/// advances from its own value and the two magnetic cells around it.
pub fn update_electric<T: Scalar>(
    e: &mut OneDField<T>,
    h: &OneDField<T>,
    ceze: &OneDField<T>,
    cezh: &OneDField<T>,
)
    requires
        old(e)@.len() == h@.len() + 1,
        ceze@.len() == old(e)@.len(),
        cezh@.len() == old(e)@.len(),
    ensures
        final(e)@ == sweep_e(old(e)@, h@, ceze@, cezh@),
{
    let n: usize = e.length();
    let mut m: usize = 1;
    while m < n - 1
        invariant
            1 <= m,
            m <= n - 1 || m == 1,
            n >= 1,
            e@.len() == n,
            n == old(e)@.len(),
            h@.len() == n - 1,
            ceze@.len() == n,
            cezh@.len() == n,
            forall|k: int|
                0 < k < m && k < n - 1 ==> e@[k] == leapfrog(
                    ceze@[k],
                    old(e)@[k],
                    cezh@[k],
                    h@[k],
                    h@[k - 1],
                ),
            forall|k: int| 0 <= k < n && (k == 0 || k >= m) ==> e@[k] == old(e)@[k],
        decreases n - m,
    {
        let value: T = next_value(
            ceze.index(m),
            e.index(m),
            cezh.index(m),
            h.index(m),
            h.index(m - 1),
        );
        e.put(m, value);
        m += 1;
    }
    assert(e@ =~= sweep_e(old(e)@, h@, ceze@, cezh@));
}

/// The rows of `cells` for step `step`, as the sink receives them.
pub open spec fn rows_of<T>(step: usize, cells: Seq<T>) -> Seq<SnapshotRow<T>> {
    Seq::new(
        cells.len(),
        |i: int| SnapshotRow { step_index: step, cell_index: i as usize, value: cells[i] },
    )
}

impl<T: Scalar> Simulator<T> {
    /// The electric field as it stands.
    pub closed spec fn e_cells(self) -> Seq<T> {
        self.e@
    }

    /// The magnetic field as it stands.
    pub closed spec fn h_cells(self) -> Seq<T> {
        self.h@
    }

    /// The coefficient arrays of the run.
    pub closed spec fn material(self) -> MaterialProfile<T> {
        self.profile
    }

    /// The boundary coefficients and remembered values.
    pub closed spec fn boundary_state(self) -> BoundaryState<T> {
        self.boundary
    }

    /// The source of the run.
    pub closed spec fn source_state(self) -> SourceState<T> {
        self.source
    }

    /// The number of steps taken so far.
    pub closed spec fn steps_taken(self) -> nat {
        self.q as nat
    }

    /// The number of steps after which the run is complete.
    pub closed spec fn step_limit(self) -> nat {
        self.max_time as nat
    }

    /// Whether the magnetic field is reported to the sink as well.
    pub closed spec fn records_h(self) -> bool {
        self.record_h
    }

    /// The part of the run that no step changes.
    pub open spec fn setup(self) -> Setup<T> {
        Setup {
            ceze: self.material().ceze@,
            cezh: self.material().cezh@,
            chyh: self.material().chyh@,
            chye: self.material().chye@,
            abc_left: self.boundary_state().abc_left,
            abc_right: self.boundary_state().abc_right,
            tfsf: self.source_state().tfsf_boundary as int,
            max_time: self.step_limit(),
            record_h: self.records_h(),
        }
    }

    /// The part of the run that a step changes.
    pub open spec fn state(self) -> RunState<T> {
        RunState {
            e: self.e_cells(),
            h: self.h_cells(),
            old_left: self.boundary_state().old_left,
            old_right: self.boundary_state().old_right,
            q: self.steps_taken(),
        }
    }

    /// What holds of every run from its construction on: the arrays have the
    /// lengths the grid asks for, the reflection coefficients are those of
    /// the edge cells, the source suits the grid, and the step counter has
    /// not passed the end of the run.
    pub open spec fn well_formed(self) -> bool {
        &&& self.setup().shapes(self.state())
        &&& self.setup().abc_left == mur_coefficient(self.setup().cezh[0], self.setup().chye[0])
        &&& self.setup().abc_right == mur_coefficient(
            self.setup().cezh.last(),
            self.setup().chye.last(),
        )
        &&& self.source_state().suits(self.state().e.len() as int)
        &&& self.state().q <= self.setup().max_time
    }

    /// No further step is permitted.
    pub open spec fn complete(self) -> bool {
        self.state().q == self.setup().max_time
    }

    /// Whether fields, profile and source can make a run together.
    pub open spec fn accepts(
        e: OneDField<T>,
        h: OneDField<T>,
        profile: MaterialProfile<T>,
        source: SourceState<T>,
    ) -> bool {
        &&& profile.fits(e@.len() as int)
        &&& h@.len() == e@.len() - 1
        &&& source.suits(e@.len() as int)
    }

    /// Sets up a run over the given fields. Refused with
    /// `ConfigurationError` unless the grid is not empty, the magnetic field
    /// is one cell shorter than the electric field, each coefficient array
    /// has the length of the field it updates, the source boundary lies
    /// inside the grid and the Courant number is stable.
    pub fn new(
        e: OneDField<T>,
        h: OneDField<T>,
        profile: MaterialProfile<T>,
        source: SourceState<T>,
        max_time: usize,
        record_h: bool,
    ) -> (r: Result<Self, FdtdError>)
        ensures
            !Self::accepts(e, h, profile, source) ==> r is Err && r->Err_0
                == FdtdError::ConfigurationError,
            Self::accepts(e, h, profile, source) ==> r is Ok && r->Ok_0.well_formed()
                && r->Ok_0.material() == profile && r->Ok_0.source_state() == source
                && r->Ok_0.setup().max_time == max_time && r->Ok_0.setup().record_h == record_h
                && r->Ok_0.state() == (RunState {
                e: e@,
                h: h@,
                old_left: T::zero_value(),
                old_right: T::zero_value(),
                q: 0,
            }),
    {
        let n: usize = e.length();
        if !profile.check_fits(n) || h.length() != n - 1 || !source.check_suits(n) {
            return Err(FdtdError::ConfigurationError);
        }
        match BoundaryState::derive(&profile) {
            Ok(boundary) => Ok(
                Simulator { e, h, profile, boundary, source, q: 0, max_time, record_h },
            ),
            Err(error) => Err(error),
        }
    }

    /// Sets up the run that `request` asks for: derives the coefficient
    /// arrays, zero-fills each field for which no initial state is given, and
    /// starts the step counter at zero. A request that is not valid is
    /// refused with `ConfigurationError`.
    pub fn configure(request: SimulationRequest<T>) -> (r: Result<Self, FdtdError>)
        ensures
            !request.valid() ==> r is Err && r->Err_0 == FdtdError::ConfigurationError,
            request.valid() ==> r is Ok && r->Ok_0.well_formed() && request.material.describes(
                r->Ok_0.material(),
            ) && r->Ok_0.source_state() == request.source() && r->Ok_0.setup().max_time
                == request.max_time && r->Ok_0.setup().record_h == request.record_h
                && r->Ok_0.state() == (RunState {
                e: request.starting_e(),
                h: request.starting_h(),
                old_left: T::zero_value(),
                old_right: T::zero_value(),
                q: 0,
            }),
    {
        let SimulationRequest {
            material,
            courant,
            max_time,
            tfsf_boundary,
            waveform,
            initial_e,
            initial_h,
            record_h,
        } = request;
        let n: usize = material.grid_size;
        let profile: MaterialProfile<T> = match MaterialProfile::derive(&material) {
            Ok(profile) => profile,
            Err(error) => {
                return Err(error);
            },
        };
        let e: OneDField<T> = match initial_e {
            Some(cells) => OneDField::from_initial_state(cells.as_slice()),
            None => OneDField::new_zeroed(n),
        };
        let h: OneDField<T> = match initial_h {
            Some(cells) => OneDField::from_initial_state(cells.as_slice()),
            None => OneDField::new_zeroed(n - 1),
        };
        proof {
            assert(e@ =~= request.starting_e());
            assert(h@ =~= request.starting_h());
        }
        let source = SourceState { tfsf_boundary, courant, waveform };
        Simulator::new(e, h, profile, source, max_time, record_h)
    }

    /// Takes one step, feeding it the two samples of the waveform that it
    /// consumes: `h_amplitude` is taken from the magnetic cell at the source
    /// boundary, `e_amplitude` is given to the electric cell after it. The
    /// result holds what the sink is owed for the step. Once the run is
    /// complete nothing changes and `OutOfRange` is returned: the step index
    /// has left the run.
    pub fn advance(&mut self, h_amplitude: T, e_amplitude: T) -> (r: Result<StepRecord<T>, FdtdError>)
        requires
            old(self).well_formed(),
        ensures
            final(self).well_formed(),
            final(self).setup() == old(self).setup(),
            final(self).material() == old(self).material(),
            final(self).source_state() == old(self).source_state(),
            old(self).complete() ==> r is Err && r->Err_0 == FdtdError::OutOfRange && *final(self)
                == *old(self),
            !old(self).complete() ==> final(self).steps_taken() == old(self).steps_taken() + 1,
            !old(self).complete() ==> r is Ok && final(self).state() == old(self).setup().step(
                old(self).state(),
                Drive { h_amplitude, e_amplitude },
            ) && r->Ok_0.step_index == old(self).state().q && r->Ok_0.e_rows@ == rows_of(
                r->Ok_0.step_index,
                final(self).state().e,
            ) && r->Ok_0.h_rows@ == (if old(self).setup().record_h {
                rows_of(r->Ok_0.step_index, final(self).state().h)
            } else {
                Seq::empty()
            }),
    {
        if self.q >= self.max_time {
            return Err(FdtdError::OutOfRange);
        }
        let n: usize = self.e.length();
        let nh: usize = self.h.length();
        let at: usize = self.source.tfsf_boundary;
        let ghost before = self.state();
        let ghost setup = self.setup();
        let ghost drive = Drive { h_amplitude, e_amplitude };

        if nh >= 2 {
            let neighbor: T = self.h.index(nh - 2);
            self.h.put(nh - 1, neighbor);
        }
        assert(self.h@ == extrapolate_far(before.h));
        update_magnetic(&mut self.h, &self.e, &self.profile.chyh, &self.profile.chye);
        let fed: T = self.h.index(at).minus(h_amplitude);
        self.h.put(at, fed);
        assert(self.h@ == setup.h_phase(before, drive));

        let neighbor: T = self.e.index(1);
        self.e.put(0, neighbor);
        assert(self.e@ == extrapolate_near(before.e));
        update_electric(&mut self.e, &self.h, &self.profile.ceze, &self.profile.cezh);
        let fed: T = self.e.index(at + 1).plus(e_amplitude);
        self.e.put(at + 1, fed);
        assert(self.e@ == setup.e_phase(before, drive));

        let inner: T = self.e.index(1);
        let left: T = self.boundary.correct_left(self.e.index(0), inner);
        self.e.put(0, left);
        let inner: T = self.e.index(n - 2);
        let right: T = self.boundary.correct_right(self.e.index(n - 1), inner);
        self.e.put(n - 1, right);

        let step_index: usize = self.q;
        self.q = self.q + 1;
        let e_rows: Vec<SnapshotRow<T>> = OneDField::snapshot(&self.e, step_index);
        let h_rows: Vec<SnapshotRow<T>> = if self.record_h {
            OneDField::snapshot(&self.h, step_index)
        } else {
            Vec::new()
        };
        proof {
            assert(e_rows@ =~= rows_of(step_index, self.e@));
            if self.record_h {
                assert(h_rows@ =~= rows_of(step_index, self.h@));
            }
        }
        Ok(StepRecord { step_index, e_rows, h_rows })
    }

    /// The number of steps taken so far.
    pub fn step_index(&self) -> (q: usize)
        ensures
            q == self.state().q,
    {
        self.q
    }

    /// The number of steps after which the run is complete.
    pub fn max_time(&self) -> (t: usize)
        ensures
            t == self.setup().max_time,
    {
        self.max_time
    }

    /// Whether the run has taken its last step.
    pub fn is_complete(&self) -> (done: bool)
        ensures
            done == self.complete(),
    {
        self.q == self.max_time
    }

    /// The electric field as it stands.
    pub fn e_field(&self) -> (field: &OneDField<T>)
        ensures
            field@ == self.state().e,
    {
        &self.e
    }

    /// The magnetic field as it stands.
    pub fn h_field(&self) -> (field: &OneDField<T>)
        ensures
            field@ == self.state().h,
    {
        &self.h
    }

    /// The coefficient arrays.
    pub fn profile(&self) -> (profile: &MaterialProfile<T>)
        ensures
            *profile == self.material(),
    {
        &self.profile
    }

    /// The boundary coefficients and remembered values.
    pub fn boundary(&self) -> (boundary: &BoundaryState<T>)
        ensures
            *boundary == self.boundary_state(),
    {
        &self.boundary
    }

    /// The source.
    pub fn source(&self) -> (source: &SourceState<T>)
        ensures
            *source == self.source_state(),
    {
        &self.source
    }
}

/// Coefficient partition: in every run `ceze` and `cezh` have the length of
/// the electric field, `chyh` and `chye` that of the magnetic field, and the
/// magnetic field is one cell shorter than the electric field.
pub proof fn lemma_coefficient_partition<T: Scalar>(sim: Simulator<T>)
    requires
        sim.well_formed(),
    ensures
        sim.material().ceze@.len() == sim.e_cells().len(),
        sim.material().cezh@.len() == sim.e_cells().len(),
        sim.material().chyh@.len() == sim.h_cells().len(),
        sim.material().chye@.len() == sim.h_cells().len(),
        sim.h_cells().len() == sim.e_cells().len() - 1,
        sim.material().fits(sim.e_cells().len() as int),
{
}

} // verus!
