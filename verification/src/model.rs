use vstd::prelude::*;
use crate::boundary::mur_value;
use crate::scalar::Scalar;

verus! {

/// Everything about a run that never changes once it is set up.
pub struct Setup<T> {
    pub ceze: Seq<T>,
    pub cezh: Seq<T>,
    pub chyh: Seq<T>,
    pub chye: Seq<T>,
    pub abc_left: T,
    pub abc_right: T,
    /// The magnetic cell at the total-field/scattered-field boundary.
    pub tfsf: int,
    /// The number of steps after which the run is complete.
    pub max_time: nat,
    /// Whether the magnetic field is reported to the sink as well.
    pub record_h: bool,
}

/// Everything about a run that a step changes.
pub struct RunState<T> {
    pub e: Seq<T>,
    pub h: Seq<T>,
    pub old_left: T,
    pub old_right: T,
    /// The number of steps taken so far.
    pub q: nat,
}

/// The two samples of the waveform that one step consumes.
pub struct Drive<T> {
    /// The amplitude taken from the magnetic boundary cell.
    pub h_amplitude: T,
    /// The amplitude given to the electric cell after the boundary.
    pub e_amplitude: T,
}

/// The next value of one cell:
/// `c_own * own + c_other * (ahead - behind)`, where `ahead` and `behind`
/// are the two neighbouring samples of the other field.
pub open spec fn leapfrog<T: Scalar>(c_own: T, own: T, c_other: T, ahead: T, behind: T) -> T {
    c_own.product(own).sum(c_other.product(ahead.difference(behind)))
}

/// The last magnetic cell takes the value of the cell before it.
pub open spec fn extrapolate_far<T>(h: Seq<T>) -> Seq<T> {
    if h.len() >= 2 {
        h.update(h.len() - 1, h[h.len() - 2])
    } else {
        h
    }
}

/// Every magnetic cell but the last advances from its own value and the two
/// electric cells around it; the last cell, which the extrapolation has
/// set, is left alone.
pub open spec fn sweep_h<T: Scalar>(h: Seq<T>, e: Seq<T>, chyh: Seq<T>, chye: Seq<T>) -> Seq<T> {
    Seq::new(
        h.len(),
        |m: int|
            if m < h.len() - 1 {
                leapfrog(chyh[m], h[m], chye[m], e[m + 1], e[m])
            } else {
                h[m]
            },
    )
}

/// The source amplitude is taken from the magnetic cell at the boundary.
pub open spec fn inject_h<T: Scalar>(h: Seq<T>, tfsf: int, amplitude: T) -> Seq<T> {
    h.update(tfsf, h[tfsf].difference(amplitude))
}

/// The first electric cell takes the value of the cell after it.
pub open spec fn extrapolate_near<T>(e: Seq<T>) -> Seq<T> {
    if e.len() >= 2 {
        e.update(0, e[1])
    } else {
        e
    }
}

/// Every interior electric cell advances from its own value and the two
/// magnetic cells around it; the two edge cells are left alone.
pub open spec fn sweep_e<T: Scalar>(e: Seq<T>, h: Seq<T>, ceze: Seq<T>, cezh: Seq<T>) -> Seq<T> {
    Seq::new(
        e.len(),
        |m: int|
            if 0 < m < e.len() - 1 {
                leapfrog(ceze[m], e[m], cezh[m], h[m], h[m - 1])
            } else {
                e[m]
            },
    )
}

/// The source amplitude is added to the electric cell after the boundary.
pub open spec fn inject_e<T: Scalar>(e: Seq<T>, tfsf: int, amplitude: T) -> Seq<T> {
    e.update(tfsf + 1, e[tfsf + 1].sum(amplitude))
}

/// The left edge after its absorbing correction.
pub open spec fn correct_left<T: Scalar>(e: Seq<T>, remembered: T, abc: T) -> Seq<T> {
    e.update(0, mur_value(remembered, abc, e[1], e[0]))
}

/// The right edge after its absorbing correction.
pub open spec fn correct_right<T: Scalar>(e: Seq<T>, remembered: T, abc: T) -> Seq<T> {
    e.update(e.len() - 1, mur_value(remembered, abc, e[e.len() - 2], e[e.len() - 1]))
}

impl<T: Scalar> Setup<T> {
    /// The grid has at least two electric cells and one magnetic cell fewer,
    /// the coefficient arrays have the lengths of the fields they update,
    /// and the source boundary lies inside the grid.
    pub open spec fn shapes(self, s: RunState<T>) -> bool {
        &&& s.e.len() >= 2
        &&& s.h.len() == s.e.len() - 1
        &&& self.ceze.len() == s.e.len()
        &&& self.cezh.len() == s.e.len()
        &&& self.chyh.len() == s.h.len()
        &&& self.chye.len() == s.h.len()
        &&& 0 <= self.tfsf
        &&& self.tfsf + 1 < s.e.len()
    }

    /// The magnetic field after the magnetic half of a step.
    pub open spec fn h_phase(self, s: RunState<T>, drive: Drive<T>) -> Seq<T> {
        inject_h(
            sweep_h(extrapolate_far(s.h), s.e, self.chyh, self.chye),
            self.tfsf,
            drive.h_amplitude,
        )
    }

    /// The electric field after the bulk update and the source, before the
    /// edges are corrected.
    pub open spec fn e_phase(self, s: RunState<T>, drive: Drive<T>) -> Seq<T> {
        inject_e(
            sweep_e(extrapolate_near(s.e), self.h_phase(s, drive), self.ceze, self.cezh),
            self.tfsf,
            drive.e_amplitude,
        )
    }

    /// The state after one whole step.
    pub open spec fn step(self, s: RunState<T>, drive: Drive<T>) -> RunState<T> {
        let uncorrected = self.e_phase(s, drive);
        let left_done = correct_left(uncorrected, s.old_left, self.abc_left);
        RunState {
            e: correct_right(left_done, s.old_right, self.abc_right),
            h: self.h_phase(s, drive),
            old_left: uncorrected[1],
            old_right: left_done[left_done.len() - 2],
            q: s.q + 1,
        }
    }

    /// The state after one step for each entry of `drives`, in order.
    pub open spec fn run(self, s: RunState<T>, drives: Seq<Drive<T>>) -> RunState<T>
        decreases drives.len(),
    {
        if drives.len() == 0 {
            s
        } else {
            self.step(self.run(s, drives.drop_last()), drives.last())
        }
    }
}

impl<T: Scalar> RunState<T> {
    /// Every cell of both fields and both remembered values are zero.
    pub open spec fn is_quiet(self) -> bool {
        &&& forall|m: int| 0 <= m < self.e.len() ==> self.e[m] == T::zero_value()
        &&& forall|m: int| 0 <= m < self.h.len() ==> self.h[m] == T::zero_value()
        &&& self.old_left == T::zero_value()
        &&& self.old_right == T::zero_value()
    }
}

impl<T: Scalar> Drive<T> {
    /// The drive of a waveform that returns zero.
    pub open spec fn silent() -> Self {
        Drive { h_amplitude: T::zero_value(), e_amplitude: T::zero_value() }
    }
}

/// A step keeps the lengths of both fields.
pub proof fn lemma_step_keeps_shapes<T: Scalar>(setup: Setup<T>, s: RunState<T>, drive: Drive<T>)
    requires
        setup.shapes(s),
    ensures
        setup.shapes(setup.step(s, drive)),
        setup.step(s, drive).e.len() == s.e.len(),
        setup.step(s, drive).h.len() == s.h.len(),
{
}

/// With nothing in the fields and nothing from the source, a step leaves
/// every cell of both fields exactly zero.
pub proof fn lemma_quiet_step<T: Scalar>(setup: Setup<T>, s: RunState<T>)
    requires
        setup.shapes(s),
        s.is_quiet(),
    ensures
        setup.step(s, Drive::silent()).is_quiet(),
{
    let zero = T::zero_value();
    let drive = Drive::<T>::silent();
    T::law_zero_sum();
    T::law_zero_difference();
    assert forall|c: T| #[trigger] c.product(zero) == zero by {
        T::law_zero_product(c);
    }
    assert forall|a: T, b: T| #[trigger] leapfrog(a, zero, b, zero, zero) == zero by {
        T::law_zero_product(a);
        T::law_zero_product(b);
    }
    assert forall|r: T| #[trigger] mur_value(zero, r, zero, zero) == zero by {
        T::law_zero_product(r);
    }
    let h1 = extrapolate_far(s.h);
    assert forall|m: int| 0 <= m < h1.len() implies h1[m] == zero by {}
    let h2 = sweep_h(h1, s.e, setup.chyh, setup.chye);
    assert forall|m: int| 0 <= m < h2.len() implies h2[m] == zero by {}
    let h3 = setup.h_phase(s, drive);
    assert forall|m: int| 0 <= m < h3.len() implies h3[m] == zero by {}
    let e1 = extrapolate_near(s.e);
    assert forall|m: int| 0 <= m < e1.len() implies e1[m] == zero by {}
    let e2 = sweep_e(e1, h3, setup.ceze, setup.cezh);
    assert forall|m: int| 0 <= m < e2.len() implies e2[m] == zero by {}
    let e3 = setup.e_phase(s, drive);
    assert forall|m: int| 0 <= m < e3.len() implies e3[m] == zero by {}
    let e4 = correct_left(e3, s.old_left, setup.abc_left);
    assert forall|m: int| 0 <= m < e4.len() implies e4[m] == zero by {}
    let e5 = correct_right(e4, s.old_right, setup.abc_right);
    assert forall|m: int| 0 <= m < e5.len() implies e5[m] == zero by {}
}

/// Zero-input stability: from zero fields, under a waveform that always
/// returns zero, every cell of both fields is exactly zero after any number
/// of steps.
pub proof fn lemma_zero_input_stability<T: Scalar>(
    setup: Setup<T>,
    s: RunState<T>,
    drives: Seq<Drive<T>>,
)
    requires
        setup.shapes(s),
        s.is_quiet(),
        forall|k: int| 0 <= k < drives.len() ==> drives[k] == Drive::<T>::silent(),
    ensures
        setup.shapes(setup.run(s, drives)),
        setup.run(s, drives).is_quiet(),
    decreases drives.len(),
{
    if drives.len() > 0 {
        lemma_zero_input_stability(setup, s, drives.drop_last());
        let before = setup.run(s, drives.drop_last());
        lemma_step_keeps_shapes(setup, before, drives.last());
        lemma_quiet_step(setup, before);
    }
}

/// Step monotonicity: every step adds exactly one to the step counter, so
/// after `k` steps it has grown by `k`.
pub proof fn lemma_step_count<T: Scalar>(setup: Setup<T>, s: RunState<T>, drives: Seq<Drive<T>>)
    ensures
        setup.run(s, drives).q == s.q + drives.len(),
    decreases drives.len(),
{
    if drives.len() > 0 {
        lemma_step_count(setup, s, drives.drop_last());
    }
}

} // verus!
