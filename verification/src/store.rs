//! The bot's state behind a reader-writer lock: any number of readers at a
//! time, or one writer.

use vstd::prelude::*;
use parking_lot::{RwLock, RwLockReadGuard, RwLockWriteGuard};
use crate::action::{outcome_of, Access, Action, Outcome};
use crate::dispatch::{plan, plan_of};
use crate::line::ChatLine;
use crate::registry::Registry;
use crate::state::{BotState, BotStateView};

verus! {

/// `parking_lot::RawRwLock`, the lock itself. Opaque.
#[verifier::external_type_specification]
#[verifier::external_body]
pub struct ExRawRwLock<const RECURSIVE: bool>(parking_lot::RawRwLock<RECURSIVE>);

/// `lock_api::RwLock`, a value behind a lock. Opaque.
#[verifier::external_type_specification]
#[verifier::external_body]
#[verifier::reject_recursive_types(R)]
#[verifier::reject_recursive_types(T)]
pub struct ExRwLock<R, T: ?Sized>(parking_lot::lock_api::RwLock<R, T>);

/// Shared access to the state, for as long as the view lives. Opaque: it
/// holds a `parking_lot::RwLockReadGuard`, whose type cannot be declared.
#[verifier::external_body]
struct ReadView<'a> {
    guard: RwLockReadGuard<'a, BotState>,
}

/// Exclusive access to the state, for as long as the view lives. Opaque:
/// it holds a `parking_lot::RwLockWriteGuard`, whose type cannot be declared.
#[verifier::external_body]
struct WriteView<'a> {
    guard: RwLockWriteGuard<'a, BotState>,
}

/// The bot's state, shared between those who handle chat lines.
pub struct StateStore {
    lock: RwLock<BotState>,
}

/// Calls `RwLock::new`. Trusted: the state handed over is the one that
/// the new lock is made with; nothing is claimed of what it holds later.
#[verifier::external_body]
fn lock_new(state: BotState) -> (lock: RwLock<BotState>)
    ensures
        made_with(lock) == state@,
{
    RwLock::new(state)
}

/// Calls `RwLock::read`, which waits until no writer holds the lock.
/// Nothing is claimed of the state that the view then shows: another
/// thread may have changed it. Trusted beyond the contract: the call
/// returns. It would not if the calling thread held the write view, which
/// cannot be, since no view leaves `handle`; and it panics where the count
/// of readers overflows, which takes more readers than a machine has threads.
#[verifier::external_body]
fn lock_read<'a>(lock: &'a RwLock<BotState>) -> ReadView<'a> {
    ReadView { guard: lock.read() }
}

/// Calls `RwLock::write`, which waits until nobody else holds the lock.
/// Nothing is claimed of the state that the view then shows. Trusted
/// beyond the contract: the call returns. It would not if the calling
/// thread held a view already, which cannot be, since no view leaves
/// `handle`.
#[verifier::external_body]
fn lock_write<'a>(lock: &'a RwLock<BotState>) -> WriteView<'a> {
    WriteView { guard: lock.write() }
}

/// The state behind a read guard, through the guard's `Deref::deref`.
/// Nothing is claimed of it.
#[verifier::external_body]
fn shared<'a, 'b>(view: &'a ReadView<'b>) -> &'a BotState {
    &view.guard
}

/// The state behind a write guard, through the guard's
/// `DerefMut::deref_mut`. Nothing is claimed of it.
#[verifier::external_body]
fn exclusive<'a, 'b>(view: &'a mut WriteView<'b>) -> &'a mut BotState {
    &mut view.guard
}

impl StateStore {
    /// A store that holds the state of startup: no arena, no custom
    /// command.
    pub fn new() -> (store: StateStore)
        ensures
            store.initial_state().session_id is None,
            store.initial_state().custom_commands == Map::<Seq<char>, Seq<char>>::empty(),
    {
        StateStore { lock: lock_new(BotState::new()) }
    }

    /// The state that the store held when it was made. The lines handled
    /// since then may have changed what it holds.
    pub closed spec fn initial_state(&self) -> BotStateView {
        made_with(self.lock)
    }

    /// Handles one chat line. The lock is taken only where the line needs
    /// the state: shared to read, exclusive to change. The outcome is the
    /// one that the line has in the state that the lock held at that
    /// moment.
    pub fn handle(&self, line: &ChatLine, registry: &Registry) -> (outcome: Outcome)
        ensures
            exists|state: BotStateView|
                outcome@ == #[trigger] outcome_of(
                    state,
                    plan_of(line.raw_text@, line.sender.privileged(), registry@),
                ),
    {
        let action = plan(line, registry);
        match action.access() {
            Access::Nothing => {
                let outcome = action.settle();
                assert(outcome@ == outcome_of(
                    BotStateView { session_id: None, custom_commands: Map::empty() },
                    action@,
                ));
                outcome
            },
            Access::Shared => {
                let guard = lock_read(&self.lock);
                let state = shared(&guard);
                let outcome = state.answer(action);
                assert(outcome@ == outcome_of(state@, action@));
                outcome
            },
            Access::Exclusive => {
                let mut guard = lock_write(&self.lock);
                let state = exclusive(&mut guard);
                let ghost before = state@;
                let outcome = state.apply(action);
                assert(outcome@ == outcome_of(before, action@));
                outcome
            },
        }
    }
}

/// The state that `RwLock::new` was handed when it made the lock: what
/// the lock held at first, whatever it holds now.
pub uninterp spec fn made_with(lock: RwLock<BotState>) -> BotStateView;

} // verus!
