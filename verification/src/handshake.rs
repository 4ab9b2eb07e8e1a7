//! The handshake cell: a write-once cell that hands the window's data from the thread
//! that makes the window to the threads that wait for it.
//!
//! The cell starts empty and is filled at most once; there is no way back to empty. Any
//! number of handles may refer to one cell. A read blocks until the data are there. A
//! handle remembers that it has tried to write, so a second write through it is refused
//! without asking the cell; a write through another handle is refused by the cell.

use std::sync::Arc;
use vstd::prelude::*;

use crate::shared::share;

verus! {

/// `once_cell::sync::OnceCell`, a thread-safe cell that can be written only once, as an
/// opaque type.
#[verifier::external_type_specification]
#[verifier::external_body]
#[verifier::reject_recursive_types(T)]
pub struct ExOnceCell<T>(once_cell::sync::OnceCell<T>);

/// `winit::window::Window`, the platform window, as an opaque type. The core carries it
/// from one thread to the other and never looks inside.
#[verifier::external_type_specification]
#[verifier::external_body]
pub struct ExWindow(winit::window::Window);

/// What the event-pump thread tells the render thread about the window it has made.
#[derive(Debug)]
pub struct EarlyWindowData {
    /// The size the window was created with, in physical pixels.
    pub window_size: (u32, u32),
    /// The platform window, shared with the thread that owns it.
    pub winit_window: Option<Arc<winit::window::Window>>,
}

/// A write was refused because the cell already holds a value. Carries the value that
/// was refused.
#[derive(Debug)]
pub struct AlreadySet(pub EarlyWindowData);

/// A handle to a handshake cell.
pub struct HandshakeCell {
    cell: Arc<once_cell::sync::OnceCell<EarlyWindowData>>,
    written: bool,
}

/// What `cell` holds from the moment it has been written. A `OnceCell` is written at
/// most once and cannot be emptied or overwritten through a shared reference, so this is
/// one value for the whole life of the cell; of a cell that is never written it says
/// nothing.
pub uninterp spec fn handed_over(cell: once_cell::sync::OnceCell<EarlyWindowData>) -> EarlyWindowData;

/// Calls `once_cell::sync::OnceCell::new`, which makes an empty cell. Nothing is claimed
/// of it.
#[verifier::external_body]
fn new_cell() -> (cell: once_cell::sync::OnceCell<EarlyWindowData>) {
    once_cell::sync::OnceCell::new()
}

/// Calls `once_cell::sync::OnceCell::set`, which stores `value` if the cell is empty and
/// hands it back as the error if the cell is full. Whether the cell is full may depend
/// on other threads, so success is not promised. Claimed is what each answer means: on
/// success the cell holds `value` from now on, and a refused value comes back unchanged.
#[verifier::external_body]
fn set(cell: &once_cell::sync::OnceCell<EarlyWindowData>, value: EarlyWindowData) -> (stored:
    Result<(), EarlyWindowData>)
    ensures
        stored is Ok ==> handed_over(*cell) == value,
        stored matches Err(refused) ==> refused == value,
{
    cell.set(value)
}

/// Calls `once_cell::sync::OnceCell::wait`, which blocks until the cell is full and then
/// lends out what it holds.
#[verifier::external_body]
fn wait(cell: &once_cell::sync::OnceCell<EarlyWindowData>) -> (value: &EarlyWindowData)
    ensures
        *value == handed_over(*cell),
{
    cell.wait()
}

/// What a writer is told when the cell has answered `stored`: a refusal by the cell
/// means that it was full already.
pub open spec fn write_outcome(stored: Result<(), EarlyWindowData>) -> Result<(), AlreadySet> {
    match stored {
        Ok(()) => Ok(()),
        Err(refused) => Err(AlreadySet(refused)),
    }
}

/// Reports the cell's answer to a write.
pub fn report_write(stored: Result<(), EarlyWindowData>) -> (outcome: Result<(), AlreadySet>)
    ensures
        outcome == write_outcome(stored),
{
    match stored {
        Ok(()) => Ok(()),
        Err(refused) => Err(AlreadySet(refused)),
    }
}

impl HandshakeCell {
    /// A handle to a new, empty cell.
    pub fn new() -> (handle: Self)
        ensures
            !handle.has_written(),
    {
        HandshakeCell { cell: Arc::new(new_cell()), written: false }
    }

    /// Whether a write through this handle, or through the handle it was shared from
    /// before the sharing, has been attempted. Once true, it stays true.
    pub closed spec fn has_written(&self) -> bool {
        self.written
    }

    /// The cell that this handle refers to.
    pub closed spec fn cell(&self) -> once_cell::sync::OnceCell<EarlyWindowData> {
        *self.cell
    }

    /// The data that every read of the cell returns: what the one successful write
    /// stored. It is the same for all handles to one cell and never changes.
    pub open spec fn value(&self) -> EarlyWindowData {
        handed_over(self.cell())
    }

    /// Executable form of [`Self::has_written`].
    pub fn is_spent(&self) -> (spent: bool)
        ensures
            spent == self.has_written(),
    {
        self.written
    }

    /// Another handle to the same cell.
    pub fn share(&self) -> (handle: Self)
        ensures
            handle.cell() == self.cell(),
            handle.has_written() == self.has_written(),
    {
        HandshakeCell { cell: share(&self.cell), written: self.written }
    }

    /// Stores `value` in the cell. Succeeds at most once: every write through this
    /// handle after the first fails with `AlreadySet` and gives the value back without
    /// touching the cell. The first write fails, in the same way, only if the cell
    /// itself reports that it is full. After a success, `value` is what every read of
    /// the cell returns.
    pub fn write(&mut self, value: EarlyWindowData) -> (outcome: Result<(), AlreadySet>)
        ensures
            final(self).has_written(),
            final(self).cell() == old(self).cell(),
            old(self).has_written() ==> outcome == Err::<(), AlreadySet>(AlreadySet(value)),
            outcome matches Err(refused) ==> refused.0 == value,
            outcome is Ok ==> final(self).value() == value,
    {
        if self.written {
            return Err(AlreadySet(value));
        }
        self.written = true;
        report_write(set(&self.cell, value))
    }

    /// Blocks until the cell has been written, then lends out its data. Never times
    /// out.
    pub fn wait_and_read(&self) -> (value: &EarlyWindowData)
        ensures
            *value == self.value(),
    {
        wait(&self.cell)
    }
}

/// All handles to one cell read the same data, whatever was written or refused through
/// any of them in between: what a read returns depends on the cell alone. So once a
/// write has succeeded, no later write changes what is read.
pub proof fn lemma_reads_agree(one: HandshakeCell, other: HandshakeCell)
    requires
        one.cell() == other.cell(),
    ensures
        one.value() == other.value(),
{
}

} // verus!
