//! The shared cell that guards the greeting prefix.
//!
//! The cell is a reader/writer lock around a [`Printer`]. Any number of
//! readers hold it together; a writer holds it alone. A writer that is lost
//! while it holds the lock leaves the cell unusable for good: from then on
//! every access is refused, since nothing tells how far the lost writer got.
//!
//! The lock is std's, which Verus does not look into. What it is taken to do
//! is written down here as the spec functions on [`CellState`]: every access
//! takes effect at one instant between its call and its return, and the state
//! at that instant decides what the access gives. `StateCell::new` says in
//! which state the cell begins. The functions that touch the lock later
//! promise only what holds of every state; `crate::history` proves what
//! follows for sequences of accesses.

use crate::printer::Printer;
use std::sync::Arc;
use std::sync::RwLock;
use std::sync::RwLockReadGuard;
use std::sync::RwLockWriteGuard;
use vstd::prelude::*;

verus! {

/// `std::sync::RwLock`, of which Verus sees nothing but the name.
#[verifier::external_type_specification]
#[verifier::external_body]
#[verifier::reject_recursive_types(T)]
pub struct StdRwLock<T: ?Sized>(RwLock<T>);

/// `std::sync::RwLockReadGuard`, of which Verus sees nothing but the name.
#[verifier::external_type_specification]
#[verifier::external_body]
#[verifier::reject_recursive_types(T)]
pub struct StdRwLockReadGuard<'a, T: ?Sized>(RwLockReadGuard<'a, T>);

/// `std::sync::RwLockWriteGuard`, of which Verus sees nothing but the name.
#[verifier::external_type_specification]
#[verifier::external_body]
#[verifier::reject_recursive_types(T)]
pub struct StdRwLockWriteGuard<'a, T: ?Sized + 'a>(RwLockWriteGuard<'a, T>);

/// The prefix of the printer that a lock was made to guard. It is a fact of
/// the lock's making and stays what it is: it says nothing of what the lock
/// guards at any later instant.
pub uninterp spec fn made_with(lock: RwLock<Printer>) -> Seq<char>;

/// Calls `RwLock::new`, which makes an unlocked lock around the value it is
/// given. The claim is that the lock was made with this printer; nothing is
/// claimed of what it guards later.
#[verifier::external_body]
fn lock_new(printer: Printer) -> (lock: RwLock<Printer>)
    ensures
        made_with(lock) == printer@,
{
    RwLock::new(printer)
}

/// Calls `RwLock::read`, which waits until no writer holds the lock. It
/// gives the guard, or `None` where std reports the lock as poisoned. Nothing
/// is claimed of which of the two comes back. std may panic where the calling
/// thread already holds the lock: this module hands no guard out and lets go
/// of each before it returns, so the caller holds none.
#[verifier::external_body]
fn lock_read<'a>(lock: &'a RwLock<Printer>) -> (access: Option<RwLockReadGuard<'a, Printer>>) {
    match lock.read() {
        Ok(guard) => Some(guard),
        Err(_) => None,
    }
}

/// Calls `RwLock::write`, which waits until nobody else holds the lock. It
/// gives the guard, or `None` where std reports the lock as poisoned. Nothing
/// is claimed of which of the two comes back. std may panic where the calling
/// thread already holds the lock: this module hands no guard out and lets go
/// of each before it returns, so the caller holds none.
#[verifier::external_body]
fn lock_write<'a>(lock: &'a RwLock<Printer>) -> (access: Option<RwLockWriteGuard<'a, Printer>>) {
    match lock.write() {
        Ok(guard) => Some(guard),
        Err(_) => None,
    }
}

/// Calls `Deref::deref` of the read guard: the printer behind the lock, for
/// reading. Nothing is claimed of the printer's value.
#[verifier::external_body]
fn guarded<'a, 'b>(guard: &'a RwLockReadGuard<'b, Printer>) -> (printer: &'a Printer) {
    &**guard
}

/// Calls `DerefMut::deref_mut` of the write guard: the printer behind the
/// lock, for writing. Nothing is claimed of the printer's value.
#[verifier::external_body]
fn guarded_mut<'a, 'b>(guard: &'a mut RwLockWriteGuard<'b, Printer>) -> (printer:
    &'a mut Printer) {
    &mut **guard
}

/// The one error of the cell: a writer was lost while it held exclusive
/// access, so the prefix can no longer be trusted.
#[derive(Clone, Copy, Debug, PartialEq, Eq, Structural)]
pub struct Unavailable;

/// Whether the cell can still be used.
#[derive(Clone, Copy, Debug, PartialEq, Eq, Structural)]
pub enum HealthStatus {
    Healthy,
    Unavailable,
}

/// The cell at one instant: the prefix it guards, or nothing that could be
/// trusted any more.
pub enum CellState {
    Healthy(Seq<char>),
    Unavailable,
}

/// The cell as it is created: healthy, with the given prefix.
pub open spec fn created(prefix: Seq<char>) -> CellState {
    CellState::Healthy(prefix)
}

/// What a read gives in this state.
pub open spec fn read_outcome(state: CellState) -> Result<Seq<char>, Unavailable> {
    match state {
        CellState::Healthy(prefix) => Ok(prefix),
        CellState::Unavailable => Err(Unavailable),
    }
}

/// What a write gives when it is tried in this state.
pub open spec fn write_outcome(state: CellState) -> Result<(), Unavailable> {
    match state {
        CellState::Healthy(_) => Ok(()),
        CellState::Unavailable => Err(Unavailable),
    }
}

/// What a health check gives in this state.
pub open spec fn health_outcome(state: CellState) -> HealthStatus {
    match state {
        CellState::Healthy(_) => HealthStatus::Healthy,
        CellState::Unavailable => HealthStatus::Unavailable,
    }
}

/// The state a try to write `new_value` leaves: the new prefix where the
/// cell could be used, the state unchanged where it could not.
pub open spec fn after_write(state: CellState, new_value: Seq<char>) -> CellState {
    match state {
        CellState::Healthy(_) => CellState::Healthy(new_value),
        CellState::Unavailable => CellState::Unavailable,
    }
}

/// The characters of what a read gave.
pub open spec fn read_view(read: Result<String, Unavailable>) -> Result<Seq<char>, Unavailable> {
    match read {
        Ok(prefix) => Ok(prefix@),
        Err(unavailable) => Err(unavailable),
    }
}

/// What the lock handed out, as a state of the cell: the printer's prefix,
/// or nothing where the access was refused.
pub open spec fn state_of(access: Option<&Printer>) -> CellState {
    match access {
        Some(printer) => CellState::Healthy(printer@),
        None => CellState::Unavailable,
    }
}

/// What the lock handed out to a writer, as the state of the cell before
/// the writer touches it.
pub open spec fn state_before(access: Option<&mut Printer>) -> CellState {
    match access {
        Some(printer) => CellState::Healthy(printer@),
        None => CellState::Unavailable,
    }
}

/// What a read gives, from what the lock handed out: a copy of the prefix,
/// or `Unavailable` where the access was refused.
pub fn snapshot(access: Option<&Printer>) -> (outcome: Result<String, Unavailable>)
    ensures
        read_view(outcome) == read_outcome(state_of(access)),
{
    match access {
        Some(printer) => Ok(printer.say().to_owned()),
        None => Err(Unavailable),
    }
}

/// What a write does with what the lock handed out: it makes `new_value` the
/// prefix, or gives `Unavailable` where the access was refused.
pub fn overwrite(access: Option<&mut Printer>, new_value: String) -> (outcome: Result<
    (),
    Unavailable,
>)
    ensures
        outcome == write_outcome(state_before(access)),
        access matches Some(printer) ==> CellState::Healthy(final(printer)@) == after_write(
            state_before(access),
            new_value@,
        ),
{
    match access {
        Some(printer) => {
            printer.change_say(new_value);
            Ok(())
        },
        None => Err(Unavailable),
    }
}

/// What a health check gives, from what the lock handed out. The prefix is
/// not looked at.
pub fn probe(access: Option<&Printer>) -> (status: HealthStatus)
    ensures
        status == health_outcome(state_of(access)),
{
    match access {
        Some(_) => HealthStatus::Healthy,
        None => HealthStatus::Unavailable,
    }
}

/// A handle to the one cell that guards the greeting prefix. Clones of a
/// handle share the cell.
pub struct StateCell {
    lock: Arc<RwLock<Printer>>,
}

impl Clone for StateCell {
    /// Another handle to the same cell.
    fn clone(&self) -> (handle: StateCell)
        ensures
            handle.began_as() == self.began_as(),
    {
        StateCell { lock: self.lock.clone() }
    }
}

impl StateCell {
    /// The state in which the cell began: healthy, with the prefix of the
    /// printer it was made to guard. Every history of the cell starts here.
    /// It is no word on what the cell holds now.
    pub closed spec fn began_as(&self) -> CellState {
        created(made_with(*self.lock))
    }

    /// A new cell that guards `printer`: it begins healthy, with the
    /// printer's prefix.
    pub fn new(printer: Printer) -> (cell: StateCell)
        ensures
            cell.began_as() == created(printer@),
    {
        StateCell { lock: Arc::new(lock_new(printer)) }
    }

    /// Reads the prefix under shared access. What comes back is what a
    /// read gives in some state of the cell: the state at the instant of the
    /// read, which [`snapshot`] is handed.
    pub fn read(&self) -> (outcome: Result<String, Unavailable>)
        ensures
            exists|state: CellState| read_view(outcome) == #[trigger] read_outcome(state),
    {
        match lock_read(&self.lock) {
            Some(guard) => {
                let printer = guarded(&guard);
                let outcome = snapshot(Some(printer));
                assert(read_view(outcome) == read_outcome(state_of(Some(printer))));
                outcome
            },
            None => {
                let outcome = snapshot(None);
                assert(read_view(outcome) == read_outcome(CellState::Unavailable));
                outcome
            },
        }
    }

    /// Replaces the prefix under exclusive access. What comes back is what
    /// a write gives in some state of the cell: the state at the instant of
    /// the write, which [`overwrite`] is handed together with `new_value`.
    pub fn write(&self, new_value: String) -> (outcome: Result<(), Unavailable>)
        ensures
            exists|state: CellState| outcome == #[trigger] write_outcome(state),
    {
        match lock_write(&self.lock) {
            Some(mut guard) => {
                let printer = guarded_mut(&mut guard);
                let ghost before = CellState::Healthy(printer@);
                let outcome = overwrite(Some(printer), new_value);
                assert(outcome == write_outcome(before));
                outcome
            },
            None => {
                let outcome = overwrite(None, new_value);
                assert(outcome == write_outcome(CellState::Unavailable));
                outcome
            },
        }
    }

    /// Tries shared access and reports whether it was given. What comes
    /// back is what a health check gives in some state of the cell: the
    /// state at the instant of the check, which [`probe`] is handed.
    pub fn health(&self) -> (status: HealthStatus)
        ensures
            exists|state: CellState| status == #[trigger] health_outcome(state),
    {
        match lock_read(&self.lock) {
            Some(guard) => {
                let printer = guarded(&guard);
                let status = probe(Some(printer));
                assert(status == health_outcome(state_of(Some(printer))));
                status
            },
            None => {
                let status = probe(None);
                assert(status == health_outcome(CellState::Unavailable));
                status
            },
        }
    }
}

} // verus!
