//! Driving one computation to completion.
//!
//! A drive session has two actors. The foreground polls the computation;
//! whenever it is not ready the foreground invokes the wake signal, lets the
//! background worker take a step and polls again. The background worker
//! keeps the kernel queue draining: it waits on the proactor for one event
//! at a time, without a timeout, for as long as the session lasts.
//!
//! The session decides; the host polls, wakes, and runs the worker. The
//! host asks the session for its directive, carries it out and reports what
//! came of it; `drive` answers with the next state. The value of the
//! computation passes through the session, which releases it only when the
//! host has reported the worker stopped.

use crate::proactor::{Proactor, Request};
use vstd::prelude::*;

verus! {

/// What the host is to do next.
#[derive(Clone, Copy, Debug, PartialEq, Eq)]
pub enum Directive {
    /// Start the background worker.
    Launch,
    /// Poll the computation once, with the wake signal as its waker.
    Poll,
    /// Invoke the wake signal.
    Wake,
    /// Let the background worker take one step.
    Advance,
    /// Stop the background worker and wait until it has stopped.
    Stop,
}

/// What the host reports after it has carried out a directive.
#[derive(Debug, PartialEq, Eq)]
pub enum Event<T> {
    /// The background worker is running.
    Launched,
    /// The poll found the computation not ready.
    Pending,
    /// The poll found the computation ready, with this value.
    Ready(T),
    /// The wake signal was invoked.
    Woken,
    /// The background worker was given its step.
    Advanced,
    /// The background worker has stopped.
    Stopped,
}

/// A drive session, named by the directive that is outstanding.
#[derive(Debug, PartialEq, Eq)]
pub enum DriveSession<T> {
    /// The worker is to be launched.
    Launching,
    /// The computation is to be polled.
    Polling,
    /// The last poll found the computation not ready: the wake signal is to
    /// be invoked.
    Waking,
    /// The wake signal was invoked: the worker is to take a step.
    Advancing,
    /// The computation is ready with this value: the worker is to be
    /// stopped.
    Stopping(T),
}

/// Where a session stands after an event.
#[derive(Debug, PartialEq, Eq)]
pub enum Progress<T> {
    /// The session goes on in this state.
    Continue(DriveSession<T>),
    /// The session is over and this is the value of the computation.
    Complete(T),
}

/// The reports of `unready` rounds: a poll that found the computation not
/// ready, the wake, and the worker's step.
pub open spec fn unready_rounds<T>(unready: nat) -> Seq<Event<T>>
    decreases unready,
{
    if unready == 0 {
        Seq::empty()
    } else {
        seq![Event::Pending, Event::Woken, Event::Advanced] + unready_rounds(
            (unready - 1) as nat,
        )
    }
}

/// The reports of a host that follows every directive, in order, when the
/// computation is not ready for `unready` polls and then ready with `value`.
pub open spec fn faithful_events<T>(unready: nat, value: T) -> Seq<Event<T>> {
    seq![Event::Launched] + unready_rounds(unready) + seq![Event::Ready(value), Event::Stopped]
}

impl<T> DriveSession<T> {
    /// The directive that is outstanding in this state.
    pub open spec fn spec_directive(self) -> Directive {
        match self {
            DriveSession::Launching => Directive::Launch,
            DriveSession::Polling => Directive::Poll,
            DriveSession::Waking => Directive::Wake,
            DriveSession::Advancing => Directive::Advance,
            DriveSession::Stopping(_) => Directive::Stop,
        }
    }

    /// The transition on one event. An event that does not answer the
    /// outstanding directive changes nothing.
    pub open spec fn spec_step(self, event: Event<T>) -> Progress<T> {
        match (self, event) {
            (DriveSession::Launching, Event::Launched) => Progress::Continue(
                DriveSession::Polling,
            ),
            (DriveSession::Polling, Event::Pending) => Progress::Continue(DriveSession::Waking),
            (DriveSession::Polling, Event::Ready(value)) => Progress::Continue(
                DriveSession::Stopping(value),
            ),
            (DriveSession::Waking, Event::Woken) => Progress::Continue(DriveSession::Advancing),
            (DriveSession::Advancing, Event::Advanced) => Progress::Continue(
                DriveSession::Polling,
            ),
            (DriveSession::Stopping(value), Event::Stopped) => Progress::Complete(value),
            (unanswered, _) => Progress::Continue(unanswered),
        }
    }

    /// Where the session stands after `events`, in order. Events after the
    /// session is over are not looked at.
    pub open spec fn run(self, events: Seq<Event<T>>) -> Progress<T>
        decreases events.len(),
    {
        if events.len() == 0 {
            Progress::Continue(self)
        } else {
            match self.spec_step(events.first()) {
                Progress::Continue(next) => next.run(events.drop_first()),
                Progress::Complete(value) => Progress::Complete(value),
            }
        }
    }

    /// How often `events` leave the session asking for a poll.
    pub open spec fn polls(self, events: Seq<Event<T>>) -> nat
        decreases events.len(),
    {
        if events.len() == 0 {
            0
        } else {
            match self.spec_step(events.first()) {
                Progress::Continue(next) => {
                    let asked: nat = if next is Polling {
                        1
                    } else {
                        0
                    };
                    asked + next.polls(events.drop_first())
                },
                Progress::Complete(_) => 0,
            }
        }
    }

    /// How often `events` leave the session asking for a wake.
    pub open spec fn wakes(self, events: Seq<Event<T>>) -> nat
        decreases events.len(),
    {
        if events.len() == 0 {
            0
        } else {
            match self.spec_step(events.first()) {
                Progress::Continue(next) => {
                    let asked: nat = if next is Waking {
                        1
                    } else {
                        0
                    };
                    asked + next.wakes(events.drop_first())
                },
                Progress::Complete(_) => 0,
            }
        }
    }

    /// How many of `events` the session takes before it is over: all of
    /// them if it is not over by then.
    pub open spec fn taken(self, events: Seq<Event<T>>) -> nat
        decreases events.len(),
    {
        if events.len() == 0 {
            0
        } else {
            match self.spec_step(events.first()) {
                Progress::Continue(next) => 1 + next.taken(events.drop_first()),
                Progress::Complete(_) => 1,
            }
        }
    }

    /// The session of a drive that has just been called: the worker is yet
    /// to be launched.
    pub fn new() -> (session: Self)
        ensures
            session == DriveSession::<T>::Launching,
    {
        DriveSession::Launching
    }

    /// The directive that is outstanding.
    pub fn directive(&self) -> (directive: Directive)
        ensures
            directive == self.spec_directive(),
    {
        match self {
            DriveSession::Launching => Directive::Launch,
            DriveSession::Polling => Directive::Poll,
            DriveSession::Waking => Directive::Wake,
            DriveSession::Advancing => Directive::Advance,
            DriveSession::Stopping(_) => Directive::Stop,
        }
    }
}

/// Drives `session` by one report of the host: the session after `event`,
/// or the value of the computation when the session is over. It is over,
/// and the value released, only on the report that the worker has stopped.
pub fn drive<T>(session: DriveSession<T>, event: Event<T>) -> (progress: Progress<T>)
    ensures
        progress == session.spec_step(event),
{
    match session {
        DriveSession::Launching => match event {
            Event::Launched => Progress::Continue(DriveSession::Polling),
            _ => Progress::Continue(DriveSession::Launching),
        },
        DriveSession::Polling => match event {
            Event::Pending => Progress::Continue(DriveSession::Waking),
            Event::Ready(value) => Progress::Continue(DriveSession::Stopping(value)),
            _ => Progress::Continue(DriveSession::Polling),
        },
        DriveSession::Waking => match event {
            Event::Woken => Progress::Continue(DriveSession::Advancing),
            _ => Progress::Continue(DriveSession::Waking),
        },
        DriveSession::Advancing => match event {
            Event::Advanced => Progress::Continue(DriveSession::Polling),
            _ => Progress::Continue(DriveSession::Advancing),
        },
        DriveSession::Stopping(value) => match event {
            Event::Stopped => Progress::Complete(value),
            _ => Progress::Continue(DriveSession::Stopping(value)),
        },
    }
}

/// What the background worker asks of the backend, first and after every
/// reply: to wait on the proactor for one event, without a timeout. A
/// failed wait is passed over; the request after it is the same.
pub fn worker_request<E>(proactor: &Proactor, previous: Option<Result<usize, E>>) -> (request:
    Request)
    ensures
        request == (Request::Wait { max_events: 1, timeout: None }),
{
    proactor.wait(1, None)
}

/// Running over `event` and then `rest` is one step and then a run.
proof fn lemma_run_first<T>(session: DriveSession<T>, event: Event<T>, rest: Seq<Event<T>>)
    ensures
        session.run(seq![event] + rest) == match session.spec_step(event) {
            Progress::Continue(next) => next.run(rest),
            Progress::Complete(value) => Progress::Complete(value),
        },
        session.polls(seq![event] + rest) == match session.spec_step(event) {
            Progress::Continue(next) => (if next is Polling {
                1nat
            } else {
                0nat
            }) + next.polls(rest),
            Progress::Complete(_) => 0nat,
        },
        session.wakes(seq![event] + rest) == match session.spec_step(event) {
            Progress::Continue(next) => (if next is Waking {
                1nat
            } else {
                0nat
            }) + next.wakes(rest),
            Progress::Complete(_) => 0nat,
        },
        session.taken(seq![event] + rest) == match session.spec_step(event) {
            Progress::Continue(next) => 1 + next.taken(rest),
            Progress::Complete(_) => 1nat,
        },
{
    let events = seq![event] + rest;
    assert(events.first() == event);
    assert(events.drop_first() =~= rest);
}

/// A polling session that is fed `unready` rounds is polling again, having
/// asked for `unready` more polls.
proof fn lemma_unready_rounds<T>(unready: nat, rest: Seq<Event<T>>)
    ensures
        DriveSession::<T>::Polling.run(unready_rounds(unready) + rest)
            == DriveSession::<T>::Polling.run(rest),
        DriveSession::<T>::Polling.polls(unready_rounds(unready) + rest) == unready
            + DriveSession::<T>::Polling.polls(rest),
        DriveSession::<T>::Polling.wakes(unready_rounds(unready) + rest) == unready
            + DriveSession::<T>::Polling.wakes(rest),
        DriveSession::<T>::Polling.taken(unready_rounds(unready) + rest) == 3 * unready
            + DriveSession::<T>::Polling.taken(rest),
        unready_rounds::<T>(unready).len() == 3 * unready,
    decreases unready,
{
    if unready == 0 {
        assert(unready_rounds::<T>(0) + rest =~= rest);
    } else {
        let tail = unready_rounds::<T>((unready - 1) as nat) + rest;
        let after_wake = seq![Event::<T>::Advanced] + tail;
        let after_poll = seq![Event::<T>::Woken] + after_wake;
        assert(unready_rounds::<T>(unready) + rest =~= seq![Event::<T>::Pending] + after_poll);
        lemma_run_first(DriveSession::<T>::Polling, Event::Pending, after_poll);
        lemma_run_first(DriveSession::<T>::Waking, Event::Woken, after_wake);
        lemma_run_first(DriveSession::<T>::Advancing, Event::Advanced, tail);
        lemma_unready_rounds::<T>((unready - 1) as nat, rest);
    }
}

/// Drive termination: when the host follows every directive and the
/// computation is ready at poll number `unready + 1`, the session ends with
/// the value of the computation. It has then asked for `unready + 1` polls
/// and for `unready` wakes, one after each poll that found the computation
/// not ready, and taken `3 * unready + 3` reports, which are all there are;
/// the last one is the report that the worker has stopped.
pub proof fn law_drive_terminates<T>(unready: nat, value: T)
    ensures
        DriveSession::<T>::Launching.run(faithful_events(unready, value)) == Progress::Complete(
            value,
        ),
        DriveSession::<T>::Launching.polls(faithful_events(unready, value)) == unready + 1,
        DriveSession::<T>::Launching.wakes(faithful_events(unready, value)) == unready,
        DriveSession::<T>::Launching.taken(faithful_events(unready, value)) == 3 * unready + 3,
        faithful_events(unready, value).len() == 3 * unready + 3,
        faithful_events(unready, value).last() == Event::<T>::Stopped,
{
    let ending = seq![Event::Ready(value), Event::Stopped];
    let stopped = seq![Event::<T>::Stopped];
    let polling = unready_rounds(unready) + ending;
    assert(faithful_events(unready, value) =~= seq![Event::Launched] + polling);
    assert(ending =~= seq![Event::Ready(value)] + stopped);
    assert(stopped =~= seq![Event::<T>::Stopped] + Seq::empty());
    lemma_run_first(DriveSession::<T>::Launching, Event::Launched, polling);
    lemma_unready_rounds(unready, ending);
    lemma_run_first(DriveSession::<T>::Polling, Event::Ready(value), stopped);
    lemma_run_first(DriveSession::Stopping(value), Event::Stopped, Seq::empty());
}

/// A poll follows every wake: once the wake and the worker's step are
/// reported, the outstanding directive is to poll the computation again.
pub proof fn law_poll_follows_wake<T>()
    ensures
        DriveSession::<T>::Waking.run(seq![Event::Woken, Event::Advanced]) == Progress::Continue(
            DriveSession::<T>::Polling,
        ),
        DriveSession::<T>::Polling.spec_directive() == Directive::Poll,
{
    let advanced = seq![Event::<T>::Advanced];
    assert(seq![Event::<T>::Woken, Event::Advanced] =~= seq![Event::<T>::Woken] + advanced);
    assert(advanced =~= seq![Event::<T>::Advanced] + Seq::empty());
    lemma_run_first(DriveSession::<T>::Waking, Event::Woken, advanced);
    lemma_run_first(DriveSession::<T>::Advancing, Event::Advanced, Seq::empty());
}

/// No leaked worker: a step ends the session only when the outstanding
/// directive was to stop the worker and the host reports it stopped; the
/// value released is the one the session held.
pub proof fn law_worker_stopped_before_return<T>(session: DriveSession<T>, event: Event<T>)
    ensures
        session.spec_step(event) matches Progress::Complete(value) ==> {
            &&& session == DriveSession::Stopping(value)
            &&& session.spec_directive() == Directive::Stop
            &&& event == Event::<T>::Stopped
        },
{
}

/// Only the computation's own result is returned: a session that ends with
/// `value` held it from the start or was told by a poll that the
/// computation is ready with `value`.
pub proof fn law_returns_computation_value<T>(
    session: DriveSession<T>,
    events: Seq<Event<T>>,
    value: T,
)
    requires
        session.run(events) == Progress::Complete(value),
    ensures
        session == DriveSession::Stopping(value) || exists|i: int|
            0 <= i < events.len() && #[trigger] events[i] == Event::Ready(value),
    decreases events.len(),
{
    if events.len() > 0 {
        match session.spec_step(events.first()) {
            Progress::Continue(next) => {
                law_returns_computation_value(next, events.drop_first(), value);
                if next == DriveSession::Stopping(value) {
                    if session != DriveSession::Stopping(value) {
                        assert(events[0] == Event::Ready(value));
                    }
                } else {
                    let i = choose|i: int|
                        0 <= i < events.drop_first().len() && #[trigger] events.drop_first()[i]
                            == Event::Ready(value);
                    assert(events[i + 1] == Event::Ready(value));
                }
            },
            Progress::Complete(_) => {},
        }
    }
}

} // verus!
