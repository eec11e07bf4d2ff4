//! The one-slot notification cell.

use std::sync::Arc;
use std::sync::Condvar;
use std::sync::Mutex;
use std::sync::MutexGuard;
use std::task::Wake;
use vstd::prelude::*;

verus! {

/// The mode of a [`Signal`].
#[derive(Clone, Copy, PartialEq, Eq, Debug, Structural)]
pub enum SignalState {
    /// No notification is pending and no thread waits.
    Empty,
    /// Exactly one thread is blocked until the next notification.
    Waiting,
    /// A notification arrived and has not been consumed yet.
    Notified,
}

/// The error of a wait that began while another wait was still blocked
/// on the same signal.
#[derive(Clone, Copy, PartialEq, Eq, Debug, Structural)]
pub struct MultipleWaiters;

impl MultipleWaiters {
    /// The message to abort with.
    pub fn message(&self) -> (text: &'static str)
        ensures
            text@ == "Multiple threads waiting on the same signal"@,
    {
        "Multiple threads waiting on the same signal"
    }
}

impl SignalState {
    /// The mode that a notification leaves behind: a waiter is released,
    /// otherwise the notification is banked, once.
    pub open spec fn after_notify(self) -> SignalState {
        match self {
            SignalState::Waiting => SignalState::Empty,
            SignalState::Empty => SignalState::Notified,
            SignalState::Notified => SignalState::Notified,
        }
    }

    /// Whether a notification has a blocked thread to release.
    pub open spec fn notify_releases(self) -> bool {
        self == SignalState::Waiting
    }

    /// Whether a wait that begins in this mode is refused: another thread
    /// is blocked already.
    pub open spec fn wait_refused(self) -> bool {
        self == SignalState::Waiting
    }

    /// The mode that the beginning of a wait leaves behind: a banked
    /// notification is consumed, an empty cell records the waiter, and a
    /// refused wait changes nothing.
    pub open spec fn after_wait(self) -> SignalState {
        match self {
            SignalState::Notified => SignalState::Empty,
            SignalState::Empty => SignalState::Waiting,
            SignalState::Waiting => SignalState::Waiting,
        }
    }

    /// Whether a wait that begins in this mode has to block.
    pub open spec fn wait_blocks(self) -> bool {
        self == SignalState::Empty
    }

    /// Whether a thread is blocked in this mode.
    pub fn is_waiting(&self) -> (waiting: bool)
        ensures
            waiting == (*self == SignalState::Waiting),
    {
        match self {
            SignalState::Waiting => true,
            _ => false,
        }
    }

    /// Records a notification. Returns the next mode, and whether the
    /// blocked thread has to be released.
    pub fn notify(self) -> (next: (SignalState, bool))
        ensures
            next.0 == self.after_notify(),
            next.1 == self.notify_releases(),
    {
        match self {
            SignalState::Notified => (SignalState::Notified, false),
            SignalState::Empty => (SignalState::Notified, false),
            SignalState::Waiting => (SignalState::Empty, true),
        }
    }

    /// Begins a wait. Returns the next mode, and whether the caller has to
    /// block until the mode is no longer `Waiting`; or the error, when
    /// another thread is blocked already.
    pub fn wait(self) -> (next: Result<(SignalState, bool), MultipleWaiters>)
        ensures
            next is Err <==> self.wait_refused(),
            next matches Ok(step) ==> step.0 == self.after_wait() && step.1 == self.wait_blocks(),
    {
        match self {
            SignalState::Notified => Ok((SignalState::Empty, false)),
            SignalState::Empty => Ok((SignalState::Waiting, true)),
            SignalState::Waiting => Err(MultipleWaiters),
        }
    }
}

/// What happens to a signal: a notification arrives, or the waiting
/// thread begins a wait.
pub enum Event {
    /// Some thread notifies the signal.
    Notify,
    /// The waiting thread begins a wait.
    Wait,
}

/// A signal as its one waiting thread and its notifiers use it: the
/// mode, and whether the waiting thread is blocked in a wait.
pub struct Session {
    /// The mode under the signal's lock.
    pub mode: SignalState,
    /// Whether the waiting thread is blocked.
    pub parked: bool,
}

impl Session {
    /// A fresh signal, its thread not waiting.
    pub open spec fn start() -> Session {
        Session { mode: SignalState::Empty, parked: false }
    }

    /// A notification arrives, from any thread.
    pub open spec fn notified(self) -> Session {
        Session {
            mode: self.mode.after_notify(),
            parked: self.parked && !self.mode.notify_releases(),
        }
    }

    /// The waiting thread begins a wait. A thread that is blocked begins
    /// none.
    pub open spec fn waits(self) -> Session {
        if self.parked {
            self
        } else {
            Session { mode: self.mode.after_wait(), parked: self.mode.wait_blocks() }
        }
    }

    /// The session after one event.
    pub open spec fn step(self, event: Event) -> Session {
        match event {
            Event::Notify => self.notified(),
            Event::Wait => self.waits(),
        }
    }

    /// The session after the events, in their order.
    pub open spec fn after(self, events: Seq<Event>) -> Session
        decreases events.len(),
    {
        if events.len() == 0 {
            self
        } else {
            self.after(events.drop_last()).step(events.last())
        }
    }

    /// The mode says that a thread waits exactly when the thread is
    /// blocked.
    pub open spec fn consistent(self) -> bool {
        self.parked <==> self.mode == SignalState::Waiting
    }
}

/// With one waiting thread, whatever the order of its waits and of the
/// notifications: the mode is `Waiting` exactly while the thread is
/// blocked, so no wait that it begins is refused.
pub proof fn lemma_sole_waiter_is_never_refused(events: Seq<Event>)
    ensures
        Session::start().after(events).consistent(),
        !Session::start().after(events).parked ==> !Session::start().after(
            events,
        ).mode.wait_refused(),
    decreases events.len(),
{
    if events.len() > 0 {
        lemma_sole_waiter_is_never_refused(events.drop_last());
    }
}

/// No notification is missed, whatever came before: one that arrives
/// while the thread is blocked releases it; one that arrives while it is
/// not lets its next wait return at once; and a wait that begins first
/// is over once the notification has arrived.
pub proof fn lemma_no_notification_is_missed(events: Seq<Event>)
    ensures
        !Session::start().after(events).notified().parked,
        !Session::start().after(events).parked ==> !Session::start().after(
            events,
        ).notified().waits().parked,
        !Session::start().after(events).parked ==> !Session::start().after(
            events,
        ).waits().notified().parked,
{
    lemma_sole_waiter_is_never_refused(events);
}

/// A notification that arrives while no thread waits is not lost: the
/// wait that begins after it is not refused and does not block, and it
/// consumes the notification.
pub proof fn lemma_notify_before_wait(state: SignalState)
    requires
        state != SignalState::Waiting,
    ensures
        !state.after_notify().wait_refused(),
        !state.after_notify().wait_blocks(),
        state.after_notify().after_wait() == SignalState::Empty,
{
}

/// Two notifications with no wait between them count as one: the first
/// wait after them returns at once, and the wait after that one blocks.
pub proof fn lemma_notify_twice(state: SignalState)
    ensures
        state.after_notify().after_notify() == SignalState::Notified,
        !state.after_notify().after_notify().wait_refused(),
        !state.after_notify().after_notify().wait_blocks(),
        state.after_notify().after_notify().after_wait() == SignalState::Empty,
        !state.after_notify().after_notify().after_wait().wait_refused(),
        state.after_notify().after_notify().after_wait().wait_blocks(),
{
}

/// While one wait is blocked, a second wait is refused and leaves the
/// mode as it is.
pub proof fn lemma_second_wait_refused(state: SignalState)
    requires
        state.wait_blocks(),
    ensures
        state.after_wait().wait_refused(),
        state.after_wait().after_wait() == state.after_wait(),
{
}

/// A notification that arrives while a wait is blocked releases it and
/// leaves nothing behind: the wait that follows blocks again.
pub proof fn lemma_notify_during_wait(state: SignalState)
    requires
        state.wait_blocks(),
    ensures
        state.after_wait().notify_releases(),
        state.after_wait().after_notify() == SignalState::Empty,
        !state.after_wait().after_notify().wait_refused(),
        state.after_wait().after_notify().wait_blocks(),
{
}

/// `std::sync::Mutex`, the lock around a signal's mode. Nothing is known
/// of a value of it but through the functions below.
#[verifier::external_type_specification]
#[verifier::external_body]
#[verifier::reject_recursive_types(T)]
pub struct ExMutex<T: ?Sized>(Mutex<T>);

/// `std::sync::MutexGuard`, the proof that the lock is held.
#[verifier::external_type_specification]
#[verifier::external_body]
#[verifier::reject_recursive_types(T)]
pub struct ExMutexGuard<'a, T: ?Sized + 'a>(MutexGuard<'a, T>);

/// `std::sync::Condvar`, on which a waiting thread blocks.
#[verifier::external_type_specification]
#[verifier::external_body]
pub struct ExCondvar(Condvar);

/// The mode that a lock was made around.
pub uninterp spec fn initial_state(lock: Mutex<SignalState>) -> SignalState;

/// The mode that a held lock gives access to.
pub uninterp spec fn guarded_state(guard: MutexGuard<'_, SignalState>) -> SignalState;

/// `Mutex::new`: a free lock around the given mode.
#[verifier::external_body]
fn lock_around(state: SignalState) -> (lock: Mutex<SignalState>)
    ensures
        initial_state(lock) == state,
{
    Mutex::new(state)
}

/// `Condvar::new`: a condition variable with no thread blocked on it.
/// The contract claims nothing of it.
pub assume_specification[ Condvar::new ]() -> (cond: Condvar);

/// `Condvar::notify_one`: wakes one thread blocked on the condition
/// variable, if there is one. The contract claims nothing of it.
pub assume_specification[ Condvar::notify_one ](cond: &Condvar);

/// `Mutex::lock`: blocks until the lock is free and takes it. A poisoned
/// lock is taken all the same. The contract claims nothing of the mode
/// found under the lock: any thread may have left it there.
#[verifier::external_body]
fn acquire(lock: &Mutex<SignalState>) -> (guard: MutexGuard<'_, SignalState>) {
    match lock.lock() {
        Ok(guard) => guard,
        Err(poisoned) => poisoned.into_inner(),
    }
}

/// Reading through `MutexGuard`'s `Deref`: the mode under the held lock.
#[verifier::external_body]
fn load(guard: &MutexGuard<'_, SignalState>) -> (state: SignalState)
    ensures
        state == guarded_state(*guard),
{
    **guard
}

/// Writing through `MutexGuard`'s `DerefMut`: afterwards the mode under
/// the held lock is the given one.
#[verifier::external_body]
fn store(guard: &mut MutexGuard<'_, SignalState>, state: SignalState)
    ensures
        guarded_state(*final(guard)) == state,
{
    **guard = state;
}

/// `Condvar::wait_while`: gives the lock up and blocks, and looks at the
/// mode again at each wakeup, until a thread is no longer recorded as
/// waiting; then returns with the lock held again. The contract claims
/// nothing of the mode found then.
#[verifier::external_body]
fn park<'a>(cond: &Condvar, guard: MutexGuard<'a, SignalState>) -> (held: MutexGuard<'a, SignalState>) {
    match cond.wait_while(guard, |state| state.is_waiting()) {
        Ok(held) => held,
        Err(poisoned) => poisoned.into_inner(),
    }
}

/// Records a notification under the held lock. Returns whether the
/// blocked thread has to be released.
fn deliver(guard: &mut MutexGuard<'_, SignalState>) -> (release: bool)
    ensures
        guarded_state(*final(guard)) == guarded_state(*old(guard)).after_notify(),
        release == guarded_state(*old(guard)).notify_releases(),
{
    let (next, release) = load(guard).notify();
    store(guard, next);
    release
}

/// Begins a wait under the held lock. Returns whether the caller has to
/// block, or the error when another thread is blocked already.
fn announce(guard: &mut MutexGuard<'_, SignalState>) -> (blocks: Result<bool, MultipleWaiters>)
    ensures
        guarded_state(*final(guard)) == guarded_state(*old(guard)).after_wait(),
        blocks is Err <==> guarded_state(*old(guard)).wait_refused(),
        blocks matches Ok(b) ==> b == guarded_state(*old(guard)).wait_blocks(),
{
    match load(guard).wait() {
        Ok((next, blocks)) => {
            store(guard, next);
            Ok(blocks)
        },
        Err(refused) => Err(refused),
    }
}

/// A one-slot notification cell: a [`SignalState`] under a lock, and the
/// condition variable on which the one waiting thread blocks.
pub struct Signal {
    state: Mutex<SignalState>,
    cond: Condvar,
}

impl Signal {
    /// The mode that the signal was made in.
    pub closed spec fn initial(&self) -> SignalState {
        initial_state(self.state)
    }

    /// A signal with no notification pending and no thread waiting.
    pub fn new() -> (signal: Signal)
        ensures
            signal.initial() == SignalState::Empty,
    {
        Signal { state: lock_around(SignalState::Empty), cond: Condvar::new() }
    }

    /// Blocks the calling thread until a notification has arrived since
    /// the last wait. One that arrived before the call is consumed at
    /// once. Fails, and changes nothing, when another thread is blocked
    /// in a wait on this signal.
    ///
    /// Beside the answer stands the mode that the call found under the
    /// lock: the error comes exactly when that mode was `Waiting`.
    pub fn wait(&self) -> (done: (Result<(), MultipleWaiters>, Ghost<SignalState>))
        ensures
            done.0 is Err <==> done.1@.wait_refused(),
    {
        let mut guard = acquire(&self.state);
        let ghost found = guarded_state(guard);
        match announce(&mut guard) {
            Ok(blocks) => {
                if blocks {
                    let _held = park(&self.cond, guard);
                }
                (Ok(()), Ghost(found))
            },
            Err(refused) => (Err(refused), Ghost(found)),
        }
    }

    /// Records a notification: releases the thread blocked in a wait, or
    /// banks the notification for the next wait. Notifications that no
    /// wait has consumed count as one.
    ///
    /// Returns whether a blocked thread was released, and beside it the
    /// mode that the call found under the lock: a thread was released
    /// exactly when that mode was `Waiting`.
    pub fn notify(&self) -> (released: (bool, Ghost<SignalState>))
        ensures
            released.0 == released.1@.notify_releases(),
    {
        let mut guard = acquire(&self.state);
        let ghost found = guarded_state(guard);
        let release = deliver(&mut guard);
        if release {
            self.cond.notify_one();
        }
        (release, Ghost(found))
    }
}

impl Wake for Signal {
    fn wake(self: Arc<Self>) {
        let _ = self.notify();
    }
}

} // verus!
