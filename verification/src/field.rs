use vstd::prelude::*;
use crate::error::FdtdError;
use crate::scalar::Scalar;

verus! {

/// One record for a snapshot sink: the step it belongs to, the cell, and the
/// value held there.
#[derive(Debug)]
pub struct SnapshotRow<T> {
    pub step_index: usize,
    pub cell_index: usize,
    pub value: T,
}

/// A fixed-length sequence of samples of one quantity along the axis.
pub struct OneDField<T> {
    cells: Vec<T>,
}

impl<T> View for OneDField<T> {
    type V = Seq<T>;

    closed spec fn view(&self) -> Seq<T> {
        self.cells@
    }
}

impl<T: Scalar> OneDField<T> {
    /// A field of `size` cells, each holding zero.
    pub fn new_zeroed(size: usize) -> (field: Self)
        ensures
            field@.len() == size,
            forall|i: int| 0 <= i < size ==> field@[i] == T::zero_value(),
    {
        let mut cells: Vec<T> = Vec::new();
        let mut i: usize = 0;
        while i < size
            invariant
                i <= size,
                cells@.len() == i,
                forall|k: int| 0 <= k < i ==> cells@[k] == T::zero_value(),
            decreases size - i,
        {
            cells.push(T::zero());
            i += 1;
        }
        OneDField { cells }
    }

    /// A field whose length and contents are those of `initial`.
    pub fn from_initial_state(initial: &[T]) -> (field: Self)
        ensures
            field@ == initial@,
    {
        let mut cells: Vec<T> = Vec::new();
        let mut i: usize = 0;
        while i < initial.len()
            invariant
                i <= initial@.len(),
                cells@ == initial@.take(i as int),
            decreases initial@.len() - i,
        {
            cells.push(initial[i]);
            i += 1;
        }
        OneDField { cells }
    }

    /// The fixed number of cells.
    pub fn length(&self) -> (n: usize)
        ensures
            n == self@.len(),
    {
        self.cells.len()
    }

    /// The largest index that names a cell.
    pub fn max_index(&self) -> (m: usize)
        requires
            self@.len() > 0,
        ensures
            m == self@.len() - 1,
    {
        self.cells.len() - 1
    }

    /// The value in cell `idx`, or `OutOfRange` when there is no such cell.
    pub fn get(&self, idx: usize) -> (r: Result<T, FdtdError>)
        ensures
            idx < self@.len() ==> r == Ok::<T, FdtdError>(self@[idx as int]),
            idx >= self@.len() ==> r == Err::<T, FdtdError>(FdtdError::OutOfRange),
    {
        if idx < self.cells.len() {
            Ok(self.cells[idx])
        } else {
            Err(FdtdError::OutOfRange)
        }
    }

    /// Stores `value` in cell `idx`; with no such cell the field is left as
    /// it was and `OutOfRange` is returned.
    pub fn set(&mut self, idx: usize, value: T) -> (r: Result<(), FdtdError>)
        ensures
            idx < old(self)@.len() ==> r == Ok::<(), FdtdError>(()) && final(self)@ == old(self)@.update(
                idx as int,
                value,
            ),
            idx >= old(self)@.len() ==> r == Err::<(), FdtdError>(FdtdError::OutOfRange) && final(self)@
                == old(self)@,
    {
        if idx < self.cells.len() {
            self.cells.set(idx, value);
            Ok(())
        } else {
            Err(FdtdError::OutOfRange)
        }
    }

    /// The value in cell `idx`, which must exist.
    pub fn index(&self, idx: usize) -> (value: T)
        requires
            idx < self@.len(),
        ensures
            value == self@[idx as int],
    {
        self.cells[idx]
    }

    /// Cell `idx` itself, which must exist, to be written through.
    pub fn index_mut(&mut self, idx: usize) -> (cell: &mut T)
        requires
            idx < old(self)@.len(),
        ensures
            *cell == old(self)@[idx as int],
            final(self)@ == old(self)@.update(idx as int, *final(cell)),
    {
        &mut self.cells[idx]
    }

    /// Stores `value` in cell `idx`, which must exist.
    pub fn put(&mut self, idx: usize, value: T)
        requires
            idx < old(self)@.len(),
        ensures
            final(self)@ == old(self)@.update(idx as int, value),
    {
        self.cells.set(idx, value);
    }

    /// The rows a sink receives for this field at step `snapshot_idx`: one per
    /// cell, in increasing cell order.
    pub fn snapshot(field: &OneDField<T>, snapshot_idx: usize) -> (rows: Vec<SnapshotRow<T>>)
        ensures
            rows@.len() == field@.len(),
            forall|i: int|
                0 <= i < field@.len() ==> rows@[i] == (SnapshotRow {
                    step_index: snapshot_idx,
                    cell_index: i as usize,
                    value: field@[i],
                }),
    {
        let mut rows: Vec<SnapshotRow<T>> = Vec::new();
        let mut i: usize = 0;
        while i < field.cells.len()
            invariant
                i <= field@.len(),
                rows@.len() == i,
                forall|k: int|
                    0 <= k < i ==> rows@[k] == (SnapshotRow {
                        step_index: snapshot_idx,
                        cell_index: k as usize,
                        value: field@[k],
                    }),
            decreases field@.len() - i,
        {
            rows.push(SnapshotRow { step_index: snapshot_idx, cell_index: i, value: field.cells[i] });
            i += 1;
        }
        rows
    }
}

} // verus!
