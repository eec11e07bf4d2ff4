//! The driver: one future, advanced one turn at a time.

use crate::signal::MultipleWaiters;
use crate::signal::Signal;
use crate::signal::SignalState;
use std::future::Future;
use std::pin::Pin;
use std::sync::Arc;
use std::task::Context;
use std::task::Poll;
use std::task::Waker;
use vstd::prelude::*;

verus! {

/// Where a drive stands.
#[derive(Clone, Copy, PartialEq, Eq, Debug, Structural)]
pub enum DriverState {
    /// The future is to be polled next.
    Polling,
    /// The future was not ready; the driver waits for its waker.
    Blocked,
    /// The future has given its value. Nothing follows.
    Done,
}

/// The value that a poll reports, if it reports one.
pub open spec fn ready_value<T>(polled: Poll<T>) -> Option<T> {
    match polled {
        Poll::Ready(value) => Some(value),
        Poll::Pending => None,
    }
}

impl DriverState {
    /// The state after a poll: a ready future ends the drive, a pending
    /// one blocks it. Only a driver that is polling polls.
    pub open spec fn polled(self, ready: bool) -> DriverState {
        if self != DriverState::Polling {
            self
        } else if ready {
            DriverState::Done
        } else {
            DriverState::Blocked
        }
    }

    /// The state after a wait has returned: the driver polls again,
    /// unless the wait was refused. Only a blocked driver waits.
    pub open spec fn waited(self, notified: bool) -> DriverState {
        if self == DriverState::Blocked && notified {
            DriverState::Polling
        } else {
            self
        }
    }

    /// Takes what a poll reported. Returns the next state, and the value
    /// to hand to the caller when the future was ready.
    pub fn after_poll<T>(self, polled: Poll<T>) -> (next: (DriverState, Option<T>))
        requires
            self == DriverState::Polling,
        ensures
            next.0 == self.polled(polled is Ready),
            next.1 == ready_value(polled),
    {
        match polled {
            Poll::Ready(value) => (DriverState::Done, Some(value)),
            Poll::Pending => (DriverState::Blocked, None),
        }
    }

    /// Takes what a wait on the signal returned. Returns the next state.
    pub fn after_wait(self, waited: Result<(), MultipleWaiters>) -> (next: DriverState)
        requires
            self == DriverState::Blocked,
        ensures
            next == self.waited(waited is Ok),
    {
        match waited {
            Ok(()) => DriverState::Polling,
            Err(_) => DriverState::Blocked,
        }
    }
}

/// The position of a drive, with the number of polls and of waits that
/// it has made.
pub struct Progress {
    /// Where the drive stands.
    pub state: DriverState,
    /// How often the future has been polled.
    pub polls: nat,
    /// How often the driver has waited on its signal.
    pub waits: nat,
}

impl Progress {
    /// A drive that has done nothing yet.
    pub open spec fn start() -> Progress {
        Progress { state: DriverState::Polling, polls: 0, waits: 0 }
    }

    /// One poll more, where the driver is polling.
    pub open spec fn polled(self, ready: bool) -> Progress {
        if self.state == DriverState::Polling {
            Progress { state: self.state.polled(ready), polls: self.polls + 1, waits: self.waits }
        } else {
            self
        }
    }

    /// One wait more, where the driver is blocked.
    pub open spec fn waited(self, notified: bool) -> Progress {
        if self.state == DriverState::Blocked {
            Progress { state: self.state.waited(notified), polls: self.polls, waits: self.waits + 1 }
        } else {
            self
        }
    }

    /// A drive to the end: each report in `polls` is what the next poll
    /// finds, and each wait is answered by a notification. Gives the
    /// position reached and the value returned, if the drive got that
    /// far.
    pub open spec fn drive<T>(self, polls: Seq<Poll<T>>) -> (Progress, Option<T>)
        decreases polls.len(),
    {
        if self.state != DriverState::Polling || polls.len() == 0 {
            (self, None)
        } else if polls[0] is Ready {
            (self.polled(true), ready_value(polls[0]))
        } else {
            self.polled(false).waited(true).drive(polls.skip(1))
        }
    }
}

/// `std::task::Poll`, what one poll of a future reports.
#[verifier::external_type_specification]
#[verifier::reject_recursive_types(T)]
pub struct ExPoll<T>(Poll<T>);

/// `std::task::Waker`, the handle through which a future asks to be
/// polled again.
#[verifier::external_type_specification]
#[verifier::external_body]
pub struct ExWaker(Waker);

/// `std::task::Context`, the form in which a waker is lent to a poll.
#[verifier::external_type_specification]
#[verifier::external_body]
pub struct ExContext<'a>(Context<'a>);

/// `std::pin::Pin`, a pointer whose target does not move.
#[verifier::external_type_specification]
#[verifier::external_body]
#[verifier::reject_recursive_types(Ptr)]
pub struct ExPin<Ptr>(Pin<Ptr>);

/// `Box::pin`: moves the value to the heap, where it stays. The contract
/// claims nothing of it.
pub assume_specification<T>[ Box::<T>::pin ](x: T) -> (pinned: Pin<Box<T>>);

/// `Context::from_waker`: a context that lends out the given waker. The
/// contract claims nothing of it.
pub assume_specification<'a>[ Context::<'a>::from_waker ](waker: &'a Waker) -> (cx: Context<'a>);

/// The signal that a waker notifies.
pub uninterp spec fn signal_of(waker: Waker) -> Signal;

/// `Arc::clone`: one more owner of the same signal.
#[verifier::external_body]
fn share(signal: &Arc<Signal>) -> (shared: Arc<Signal>)
    ensures
        *shared == **signal,
{
    Arc::clone(signal)
}

/// `Waker::from` on a shared signal: a waker whose `wake` runs the
/// `Wake` impl of that very signal, which notifies it.
#[verifier::external_body]
fn waker_of(signal: Arc<Signal>) -> (waker: Waker)
    ensures
        signal_of(waker) == *signal,
{
    Waker::from(signal)
}

/// `Pin::as_mut`: the pinned target, borrowed for one poll. The contract
/// claims nothing of it.
pub assume_specification<Ptr: std::ops::DerefMut>[ Pin::<Ptr>::as_mut ](
    pin: &mut Pin<Ptr>,
) -> (target: Pin<&mut Ptr::Target>) where Ptr: std::ops::DerefMut;

/// `Future::poll` on the pinned future. The contract claims nothing of
/// what the future reports.
#[verifier::external_body]
fn poll<F: Future>(future: Pin<&mut F>, cx: &mut Context<'_>) -> (polled: Poll<F::Output>) {
    future.poll(cx)
}

/// What one turn hands to its caller: the value of a future that was
/// ready; else the error of the wait, or `None` once the wait is over.
/// No wait is made for a ready future, and its place is `None`.
pub open spec fn turn_of<T>(value: Option<T>, waited: Option<Result<(), MultipleWaiters>>) -> Result<
    Option<T>,
    MultipleWaiters,
> {
    match (value, waited) {
        (Some(value), _) => Ok(Some(value)),
        (None, Some(Err(refused))) => Err(refused),
        (None, _) => Ok(None),
    }
}

/// Forms the answer of a turn from the value that the poll gave, if
/// any, and from what the wait returned, if one was made.
pub fn conclude<T>(value: Option<T>, waited: Option<Result<(), MultipleWaiters>>) -> (turn: Result<
    Option<T>,
    MultipleWaiters,
>)
    ensures
        turn == turn_of(value, waited),
{
    match value {
        Some(value) => Ok(Some(value)),
        None => match waited {
            Some(Err(refused)) => Err(refused),
            _ => Ok(None),
        },
    }
}

/// What the wait of a turn returns on a signal found in the given mode.
pub open spec fn wait_answer(found: SignalState) -> Result<(), MultipleWaiters> {
    if found.wait_refused() {
        Err(MultipleWaiters)
    } else {
        Ok(())
    }
}

/// One future, pinned, with the signal that its waker notifies.
#[verifier::reject_recursive_types(F)]
pub struct Driver<F: Future> {
    future: Pin<Box<F>>,
    signal: Arc<Signal>,
    waker: Waker,
    state: DriverState,
    reports: Ghost<Seq<Poll<F::Output>>>,
    found: Ghost<Seq<SignalState>>,
}

impl<F: Future> Driver<F> {
    /// What each poll of the future has reported, in order.
    pub closed spec fn reports(&self) -> Seq<Poll<F::Output>> {
        self.reports@
    }

    /// The mode in which each wait has found the signal, in order.
    pub closed spec fn found(&self) -> Seq<SignalState> {
        self.found@
    }

    /// How far the drive has come: where it stands, and how many polls
    /// and waits it has made.
    pub closed spec fn progress(&self) -> Progress {
        Progress { state: self.state, polls: self.reports@.len(), waits: self.found@.len() }
    }

    /// The waker that is lent to each poll notifies the signal on which
    /// the driver waits.
    pub closed spec fn wakes_own_signal(&self) -> bool {
        signal_of(self.waker) == *self.signal
    }

    /// A driver for the given future, with a fresh signal of its own and
    /// a waker that notifies that signal. Nothing has been polled yet.
    pub fn new(future: F) -> (driver: Driver<F>)
        ensures
            driver.progress() == Progress::start(),
            driver.reports() == Seq::<Poll<F::Output>>::empty(),
            driver.found() == Seq::<SignalState>::empty(),
            driver.wakes_own_signal(),
    {
        let signal = Arc::new(Signal::new());
        let waker = waker_of(share(&signal));
        Driver {
            future: Box::pin(future),
            signal,
            waker,
            state: DriverState::Polling,
            reports: Ghost(Seq::empty()),
            found: Ghost(Seq::empty()),
        }
    }

    /// Where the drive stands.
    pub fn state(&self) -> (state: DriverState)
        ensures
            state == self.progress().state,
    {
        self.state
    }

    /// One turn: polls the future once, lending it the driver's waker. A
    /// ready future ends the drive and its value is returned. Otherwise
    /// the calling thread waits on the driver's signal until the waker
    /// has notified it, and `None` says that the future is to be polled
    /// again. The error is that of the wait, and leaves the driver
    /// blocked.
    ///
    /// The turn adds the poll's report to `reports()`, and the mode in
    /// which its wait found the signal to `found()`; the answer is
    /// stated over the two.
    pub fn step(&mut self) -> (turn: Result<Option<F::Output>, MultipleWaiters>)
        requires
            old(self).progress().state == DriverState::Polling,
            old(self).wakes_own_signal(),
        ensures
            final(self).wakes_own_signal(),
            final(self).progress().polls == final(self).reports().len(),
            final(self).progress().waits == final(self).found().len(),
            final(self).reports() == old(self).reports().push(final(self).reports().last()),
            final(self).reports().last() is Ready ==> {
                &&& final(self).found() == old(self).found()
                &&& turn == turn_of(ready_value(final(self).reports().last()), None)
                &&& final(self).progress() == old(self).progress().polled(true)
            },
            final(self).reports().last() is Pending ==> {
                &&& final(self).found() == old(self).found().push(final(self).found().last())
                &&& turn == turn_of::<F::Output>(
                    None,
                    Some(wait_answer(final(self).found().last())),
                )
                &&& final(self).progress() == old(self).progress().polled(false).waited(
                    !final(self).found().last().wait_refused(),
                )
            },
            turn matches Ok(Some(_)) ==> final(self).progress() == old(self).progress().polled(true),
            turn matches Ok(None) ==> final(self).progress() == old(self).progress().polled(
                false,
            ).waited(true),
            turn is Err ==> final(self).progress() == old(self).progress().polled(false).waited(
                false,
            ),
    {
        let mut cx = Context::from_waker(&self.waker);
        let polled = poll(self.future.as_mut(), &mut cx);
        let ghost report = polled;
        let (polled_state, value) = self.state.after_poll(polled);
        self.state = polled_state;
        self.reports = Ghost(self.reports@.push(report));
        match value {
            Some(value) => conclude(Some(value), None),
            None => {
                let (waited, Ghost(mode)) = self.signal.wait();
                self.state = self.state.after_wait(waited);
                self.found = Ghost(self.found@.push(mode));
                conclude(None, Some(waited))
            },
        }
    }
}

/// Every future can be handed to a driver of its own.
pub trait FutureExt: Future {
    /// A driver for this future; see [`Driver::new`].
    fn driver(self) -> (driver: Driver<Self>) where Self: Sized
        ensures
            driver.progress() == Progress::start(),
            driver.reports() == Seq::<Poll<Self::Output>>::empty(),
            driver.found() == Seq::<SignalState>::empty(),
            driver.wakes_own_signal(),
    {
        Driver::new(self)
    }
}

impl<F: Future> FutureExt for F {
}

/// From any position in which the driver polls: when the first
/// `pending` polls find the future pending and the next finds it ready,
/// the drive returns that value after `pending + 1` more polls and
/// `pending` more waits.
pub proof fn lemma_drive_from<T>(from: Progress, polls: Seq<Poll<T>>, pending: nat, value: T)
    requires
        from.state == DriverState::Polling,
        pending < polls.len(),
        forall|i: int| 0 <= i < pending ==> polls[i] is Pending,
        polls[pending as int] == Poll::Ready(value),
    ensures
        from.drive(polls) == (
            Progress {
                state: DriverState::Done,
                polls: from.polls + pending + 1,
                waits: from.waits + pending,
            },
            Some(value),
        ),
    decreases pending,
{
    if pending > 0 {
        let rest = polls.skip(1);
        assert(polls[0] is Pending);
        assert forall|i: int| 0 <= i < pending - 1 implies rest[i] is Pending by {
            assert(rest[i] == polls[i + 1]);
        }
        assert(rest[pending - 1] == polls[pending as int]);
        lemma_drive_from(from.polled(false).waited(true), rest, (pending - 1) as nat, value);
    }
}

/// A drive polls once for each wait that it has made, and once more when
/// it has come to its end: from a position in which the driver polls, it
/// never ends blocked, it ends with a value exactly when it is done, and
/// otherwise every report was a pending one.
pub proof fn lemma_one_poll_per_wait<T>(from: Progress, polls: Seq<Poll<T>>)
    requires
        from.state == DriverState::Polling,
    ensures
        ({
            let (end, value) = from.drive(polls);
            &&& end.state != DriverState::Blocked
            &&& end.state == DriverState::Done <==> value is Some
            &&& end.state == DriverState::Done ==> end.polls - from.polls == end.waits - from.waits
                + 1
            &&& end.state == DriverState::Polling ==> end.polls - from.polls == polls.len()
                && end.waits - from.waits == polls.len()
        }),
    decreases polls.len(),
{
    if polls.len() > 0 && !(polls[0] is Ready) {
        lemma_one_poll_per_wait(from.polled(false).waited(true), polls.skip(1));
    }
}

/// A future that is ready at its first poll is driven to its value with
/// that one poll and without any wait.
pub proof fn lemma_ready_at_first_poll<T>(polls: Seq<Poll<T>>, value: T)
    requires
        polls.len() > 0,
        polls[0] == Poll::Ready(value),
    ensures
        Progress::start().drive(polls) == (
            Progress { state: DriverState::Done, polls: 1, waits: 0 },
            Some(value),
        ),
{
    lemma_drive_from(Progress::start(), polls, 0, value);
}

/// A future that is pending at exactly `pending` polls, each answered by
/// one notification, and ready at the next, is driven to its value with
/// `pending + 1` polls and `pending` waits.
pub proof fn lemma_ready_after_pending<T>(polls: Seq<Poll<T>>, pending: nat, value: T)
    requires
        pending < polls.len(),
        forall|i: int| 0 <= i < pending ==> polls[i] is Pending,
        polls[pending as int] == Poll::Ready(value),
    ensures
        Progress::start().drive(polls) == (
            Progress { state: DriverState::Done, polls: pending + 1, waits: pending },
            Some(value),
        ),
{
    lemma_drive_from(Progress::start(), polls, pending, value);
}

} // verus!
