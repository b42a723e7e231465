//! Scheduler: the order and the timing of the steps of one source's loop.
//!
//! The loop alternates outside work and decisions. The decisions are made
//! here: [`Monitor::step`] takes what the last piece of outside work came back
//! with, and the time on the caller's clock, and names the next piece. The
//! caller does the work. Times are milliseconds on a clock that does not run
//! backwards; where it starts does not matter.

use vstd::prelude::*;

use crate::dispatch::Outgoing;

verus! {

/// Where the loop of a source stands.
#[derive(Debug, Clone, Copy, PartialEq, Eq, Structural)]
pub enum Phase {
    /// The durable snapshot is being read.
    Loading,
    /// A check of the remote source is under way.
    Checking,
    /// A message is being delivered.
    Delivering,
    /// The pause after a delivery is being kept.
    Pacing,
    /// The durable snapshot is being written.
    Saving,
    /// The next tick is awaited.
    Waiting,
}

/// The next piece of outside work.
#[derive(Debug, PartialEq, Eq)]
pub enum Action {
    /// Read the durable snapshot and hand it to the source.
    LoadState,
    /// Fetch from the remote source and turn the outcome into messages.
    Check,
    /// Send this message.
    Deliver(Outgoing),
    /// Wait this many milliseconds.
    Pace(u64),
    /// Write the durable snapshot of the source.
    SaveState,
    /// Wait this many milliseconds for the tick of the check interval.
    AwaitTick(u64),
}

/// The pause after each delivery, in milliseconds.
pub const PACE_MILLIS: u64 = 1000;

/// What a piece of outside work came back with.
#[derive(Debug)]
pub enum Event {
    /// The snapshot was handed to the source, with or without success.
    StateLoaded(bool),
    /// The check ended: with the messages of this cycle, or with `None` where
    /// the fetch failed.
    Checked(Option<Vec<Outgoing>>),
    /// The message was sent, with or without success.
    Delivered(bool),
    /// The pause is over.
    Paced,
    /// The snapshot was written, with or without success.
    StateSaved(bool),
    /// The tick came.
    Ticked,
}

/// The sum of two times, held at the largest time where it would pass it.
pub open spec fn capped_sum(a: u64, b: u64) -> u64 {
    if a + b > u64::MAX {
        u64::MAX
    } else {
        (a + b) as u64
    }
}

/// The check interval in milliseconds, held at the largest time where it
/// would pass it.
pub open spec fn period_of(interval_secs: u64) -> u64 {
    if interval_secs * 1000 > u64::MAX {
        u64::MAX
    } else {
        (interval_secs * 1000) as u64
    }
}

/// The state of a loop: its phase, the messages of the current cycle and the
/// place of the message in hand, the check interval and the time of the next
/// tick.
pub struct MonitorState {
    pub phase: Phase,
    pub queue: Seq<Outgoing>,
    pub next: nat,
    pub period: u64,
    pub deadline: u64,
}

impl MonitorState {
    /// This state moved to `phase`, with no message in hand.
    pub open spec fn at(self, phase: Phase) -> MonitorState {
        MonitorState {
            phase,
            queue: Seq::<Outgoing>::empty(),
            next: 0,
            period: self.period,
            deadline: self.deadline,
        }
    }

    /// A message is in hand exactly while one is delivered or paced after.
    pub open spec fn wf(self) -> bool {
        if self.phase == Phase::Delivering || self.phase == Phase::Pacing {
            self.next < self.queue.len()
        } else {
            self.queue.len() == 0 && self.next == 0
        }
    }

    /// The time at which the awaited tick comes when the wait begins at `now`:
    /// the time of the next tick, or `now` where that time has passed.
    pub open spec fn tick_time(self, now: u64) -> u64 {
        if now > self.deadline {
            now
        } else {
            self.deadline
        }
    }

    /// The end of a cycle at `now`: the wait until the tick comes, and the tick
    /// after it one interval later. A tick that was missed is not made up for:
    /// the ticks that follow are counted from `now`.
    pub open spec fn wait(self, now: u64) -> (MonitorState, Action) {
        (
            MonitorState {
                phase: Phase::Waiting,
                queue: Seq::<Outgoing>::empty(),
                next: 0,
                period: self.period,
                deadline: capped_sum(self.tick_time(now), self.period),
            },
            Action::AwaitTick((self.tick_time(now) - now) as u64),
        )
    }
}

/// The state of a loop that starts at `now` with the given check interval: the
/// snapshot is to be loaded, and the first tick comes one interval after the
/// start.
pub open spec fn started(interval_secs: u64, now: u64) -> MonitorState {
    MonitorState {
        phase: Phase::Loading,
        queue: Seq::<Outgoing>::empty(),
        next: 0,
        period: period_of(interval_secs),
        deadline: capped_sum(now, period_of(interval_secs)),
    }
}

/// The step of the loop: the state after `event` at the time `now` and the
/// work to do next, or `None` where `event` is not what the phase waits for.
///
/// After loading comes the first check, whether the load succeeded or not. A
/// failed check, or one without messages, ends the cycle: the next tick is
/// awaited. Otherwise each message is delivered in order, each followed by a
/// pause, whether the delivery succeeded or not; then the snapshot is written,
/// and the next tick awaited whether the write succeeded or not.
pub open spec fn transition(s: MonitorState, event: Event, now: u64) -> Option<
    (MonitorState, Action),
> {
    match (s.phase, event) {
        (Phase::Loading, Event::StateLoaded(_)) => Some((s.at(Phase::Checking), Action::Check)),
        (Phase::Checking, Event::Checked(None)) => Some(s.wait(now)),
        (Phase::Checking, Event::Checked(Some(batch))) => if batch@.len() == 0 {
            Some(s.wait(now))
        } else {
            Some(
                (
                    MonitorState {
                        phase: Phase::Delivering,
                        queue: batch@,
                        next: 0,
                        period: s.period,
                        deadline: s.deadline,
                    },
                    Action::Deliver(batch@[0]),
                ),
            )
        },
        (Phase::Delivering, Event::Delivered(_)) => Some(
            (
                MonitorState {
                    phase: Phase::Pacing,
                    queue: s.queue,
                    next: s.next,
                    period: s.period,
                    deadline: s.deadline,
                },
                Action::Pace(PACE_MILLIS),
            ),
        ),
        (Phase::Pacing, Event::Paced) => if s.next + 1 < s.queue.len() {
            Some(
                (
                    MonitorState {
                        phase: Phase::Delivering,
                        queue: s.queue,
                        next: s.next + 1,
                        period: s.period,
                        deadline: s.deadline,
                    },
                    Action::Deliver(s.queue[s.next as int + 1]),
                ),
            )
        } else {
            Some((s.at(Phase::Saving), Action::SaveState))
        },
        (Phase::Saving, Event::StateSaved(_)) => Some(s.wait(now)),
        (Phase::Waiting, Event::Ticked) => Some((s.at(Phase::Checking), Action::Check)),
        _ => None,
    }
}

/// The loop of one source.
pub struct Monitor {
    phase: Phase,
    queue: Vec<Outgoing>,
    next: usize,
    period: u64,
    deadline: u64,
}

impl View for Monitor {
    type V = MonitorState;

    closed spec fn view(&self) -> MonitorState {
        MonitorState {
            phase: self.phase,
            queue: self.queue@,
            next: self.next as nat,
            period: self.period,
            deadline: self.deadline,
        }
    }
}

fn add_capped(a: u64, b: u64) -> (r: u64)
    ensures
        r == capped_sum(a, b),
{
    if a > u64::MAX - b {
        u64::MAX
    } else {
        a + b
    }
}

impl Monitor {
    #[verifier::type_invariant]
    closed spec fn inv(self) -> bool {
        self@.wf()
    }

    /// A loop that starts at `now`, for a source that is checked every
    /// `interval_secs` seconds, and its first piece of work: loading the
    /// state.
    pub fn start(interval_secs: u64, now: u64) -> (r: (Monitor, Action))
        ensures
            r.0@ == started(interval_secs, now),
            r.1 == Action::LoadState,
    {
        let period = if interval_secs > u64::MAX / 1000 {
            u64::MAX
        } else {
            interval_secs * 1000
        };
        (
            Monitor {
                phase: Phase::Loading,
                queue: Vec::new(),
                next: 0,
                period,
                deadline: add_capped(now, period),
            },
            Action::LoadState,
        )
    }

    /// The phase of the loop.
    pub fn phase(&self) -> (r: Phase)
        ensures
            r == self@.phase,
    {
        self.phase
    }

    fn rest(&mut self, now: u64) -> (r: Action)
        requires
            old(self).phase == Phase::Checking || old(self).phase == Phase::Saving,
        ensures
            (final(self)@, r) == old(self)@.wait(now),
    {
        proof {
            use_type_invariant(&*self);
        }
        let tick = if now > self.deadline {
            now
        } else {
            self.deadline
        };
        *self = Monitor {
            phase: Phase::Waiting,
            queue: Vec::new(),
            next: 0,
            period: self.period,
            deadline: add_capped(tick, self.period),
        };
        Action::AwaitTick(tick - now)
    }

    fn enter(&mut self, phase: Phase)
        requires
            phase != Phase::Delivering && phase != Phase::Pacing,
        ensures
            final(self)@ == old(self)@.at(phase),
    {
        *self = Monitor {
            phase,
            queue: Vec::new(),
            next: 0,
            period: self.period,
            deadline: self.deadline,
        };
    }

    /// Takes in what the last piece of work came back with, at the time `now`,
    /// and names the next one. An event that the phase does not wait for
    /// changes nothing and gives `None`.
    pub fn step(&mut self, event: Event, now: u64) -> (r: Option<Action>)
        ensures
            old(self)@.wf(),
            final(self)@.wf(),
            match r {
                Some(action) => transition(old(self)@, event, now) == Some((final(self)@, action)),
                None => transition(old(self)@, event, now) is None && final(self)@ == old(self)@,
            },
    {
        proof {
            use_type_invariant(&*self);
        }
        match (self.phase, event) {
            (Phase::Loading, Event::StateLoaded(_)) => {
                self.enter(Phase::Checking);
                Some(Action::Check)
            },
            (Phase::Checking, Event::Checked(None)) => Some(self.rest(now)),
            (Phase::Checking, Event::Checked(Some(batch))) => {
                if batch.len() == 0 {
                    Some(self.rest(now))
                } else {
                    let first = batch[0].clone();
                    *self = Monitor {
                        phase: Phase::Delivering,
                        queue: batch,
                        next: 0,
                        period: self.period,
                        deadline: self.deadline,
                    };
                    Some(Action::Deliver(first))
                }
            },
            (Phase::Delivering, Event::Delivered(_)) => {
                self.phase = Phase::Pacing;
                Some(Action::Pace(PACE_MILLIS))
            },
            (Phase::Pacing, Event::Paced) => {
                let len = self.queue.len();
                if self.next + 1 < len {
                    let item = self.queue[self.next + 1].clone();
                    self.next = self.next + 1;
                    self.phase = Phase::Delivering;
                    Some(Action::Deliver(item))
                } else {
                    self.enter(Phase::Saving);
                    Some(Action::SaveState)
                }
            },
            (Phase::Saving, Event::StateSaved(_)) => Some(self.rest(now)),
            (Phase::Waiting, Event::Ticked) => {
                self.enter(Phase::Checking);
                Some(Action::Check)
            },
            _ => None,
        }
    }
}

/// The state after a run of events, each with its time, and the work named on
/// the way, or `None` where one of the events is not what its phase waits for.
pub open spec fn run(s: MonitorState, events: Seq<(Event, u64)>) -> Option<
    (MonitorState, Seq<Action>),
>
    decreases events.len(),
{
    if events.len() == 0 {
        Some((s, Seq::<Action>::empty()))
    } else {
        match run(s, events.drop_last()) {
            Some((mid, actions)) => match transition(mid, events.last().0, events.last().1) {
                Some((end, action)) => Some((end, actions.push(action))),
                None => None,
            },
            None => None,
        }
    }
}

/// The events of a run of deliveries with the given outcomes: each delivery
/// followed by its pause. `clock` gives each event its time.
pub open spec fn delivery_events(outcomes: Seq<bool>, clock: spec_fn(int) -> u64) -> Seq<
    (Event, u64),
>
    decreases outcomes.len(),
{
    if outcomes.len() == 0 {
        Seq::<(Event, u64)>::empty()
    } else {
        delivery_events(outcomes.drop_last(), clock).push(
            (Event::Delivered(outcomes.last()), clock(2 * outcomes.len() - 2)),
        ).push((Event::Paced, clock(2 * outcomes.len() - 1)))
    }
}

/// The work that follows the first `done` deliveries of `queue`: after each a
/// pause and then the next message, or the writing of the snapshot after the
/// last.
pub open spec fn delivery_actions(queue: Seq<Outgoing>, done: nat) -> Seq<Action>
    decreases done,
{
    if done == 0 {
        Seq::<Action>::empty()
    } else {
        delivery_actions(queue, (done - 1) as nat).push(Action::Pace(PACE_MILLIS)).push(
            if done < queue.len() {
                Action::Deliver(queue[done as int])
            } else {
                Action::SaveState
            },
        )
    }
}

/// Every step leads from a well-formed state to a well-formed state and keeps
/// the check interval.
pub proof fn lemma_transition_keeps_wf(s: MonitorState, event: Event, now: u64)
    requires
        s.wf(),
    ensures
        transition(s, event, now) matches Some((end, _)) ==> end.wf() && end.period == s.period,
{
}

/// The first cycle begins at once, and the tick that lets the second cycle
/// begin comes no earlier than one check interval after the start.
pub proof fn lemma_second_cycle_waits_one_interval(
    interval_secs: u64,
    start: u64,
    loaded: bool,
    now: u64,
)
    requires
        start <= now,
    ensures
        transition(started(interval_secs, start), Event::StateLoaded(loaded), start) == Some(
            (started(interval_secs, start).at(Phase::Checking), Action::Check),
        ),
        started(interval_secs, start).at(Phase::Checking).wait(now).1 matches Action::AwaitTick(
            millis,
        ) && now + millis >= capped_sum(start, period_of(interval_secs)),
{
}

/// The wait at the end of a cycle lasts until the time of the next tick and
/// no longer; where that time has passed, the wait is nothing, and the ticks
/// that follow are counted from now, so that no tick is made up for.
pub proof fn lemma_wait_reaches_the_tick(s: MonitorState, now: u64)
    ensures
        s.wait(now).1 matches Action::AwaitTick(millis) && {
            &&& now <= s.deadline ==> now + millis == s.deadline
            &&& now > s.deadline ==> millis == 0
            &&& s.wait(now).0.deadline == capped_sum((now + millis) as u64, s.period)
        },
        s.wait(now).0.phase == Phase::Waiting,
        s.wait(now).0.period == s.period,
{
}

/// A failed check ends the cycle without a write of the snapshot: the next
/// tick is awaited, and the only work that follows the tick is the next check.
pub proof fn lemma_failed_check_skips_save(s: MonitorState, now: u64, later: Event, then: u64)
    requires
        s.phase == Phase::Checking,
    ensures
        transition(s, Event::Checked(None), now) == Some(s.wait(now)),
        s.wait(now).1 is AwaitTick,
        transition(s.wait(now).0, later, then) matches Some((_, action)) ==> action
            == Action::Check,
{
}

/// A check without messages ends the cycle without a write of the snapshot.
pub proof fn lemma_empty_check_skips_save(s: MonitorState, batch: Vec<Outgoing>, now: u64)
    requires
        s.phase == Phase::Checking,
        batch@.len() == 0,
    ensures
        transition(s, Event::Checked(Some(batch)), now) == Some(s.wait(now)),
        s.wait(now).1 is AwaitTick,
{
}

/// Whether a delivery succeeds or fails, and when it ends, makes no
/// difference to what follows.
pub proof fn lemma_delivery_outcome_is_ignored(s: MonitorState, now: u64, then: u64)
    ensures
        transition(s, Event::Delivered(true), now) == transition(
            s,
            Event::Delivered(false),
            then,
        ),
{
}

/// Whatever the outcomes of the deliveries, the messages of a cycle are
/// delivered one by one in their order, each followed by a pause, and after
/// the last pause the snapshot is written.
pub proof fn lemma_cycle_delivers_all(
    start: MonitorState,
    outcomes: Seq<bool>,
    clock: spec_fn(int) -> u64,
)
    requires
        start.phase == Phase::Delivering,
        start.next == 0,
        0 < start.queue.len(),
        outcomes.len() <= start.queue.len(),
    ensures
        run(start, delivery_events(outcomes, clock)) == Some(
            (
                if outcomes.len() < start.queue.len() {
                    MonitorState {
                        phase: Phase::Delivering,
                        queue: start.queue,
                        next: outcomes.len(),
                        period: start.period,
                        deadline: start.deadline,
                    }
                } else {
                    start.at(Phase::Saving)
                },
                delivery_actions(start.queue, outcomes.len()),
            ),
        ),
    decreases outcomes.len(),
{
    if outcomes.len() > 0 {
        let earlier = outcomes.drop_last();
        lemma_cycle_delivers_all(start, earlier, clock);
        let events = delivery_events(outcomes, clock);
        let sent = delivery_events(earlier, clock).push(
            (Event::Delivered(outcomes.last()), clock(2 * outcomes.len() - 2)),
        );
        assert(events.drop_last() == sent);
        assert(sent.drop_last() == delivery_events(earlier, clock));
        let at = MonitorState {
            phase: Phase::Delivering,
            queue: start.queue,
            next: earlier.len(),
            period: start.period,
            deadline: start.deadline,
        };
        assert(run(start, delivery_events(earlier, clock)) == Some(
            (at, delivery_actions(start.queue, earlier.len())),
        ));
        assert(sent.last().0 == Event::Delivered(outcomes.last()));
        assert(run(start, sent) == Some(
            (
                MonitorState {
                    phase: Phase::Pacing,
                    queue: start.queue,
                    next: earlier.len(),
                    period: start.period,
                    deadline: start.deadline,
                },
                delivery_actions(start.queue, earlier.len()).push(Action::Pace(PACE_MILLIS)),
            ),
        ));
        assert(events.last().0 == Event::Paced);
    } else {
        assert(start == MonitorState {
            phase: Phase::Delivering,
            queue: start.queue,
            next: 0,
            period: start.period,
            deadline: start.deadline,
        });
    }
}

/// A run of events can be taken in two parts.
pub proof fn lemma_run_in_parts(
    s: MonitorState,
    first: Seq<(Event, u64)>,
    second: Seq<(Event, u64)>,
)
    ensures
        run(s, first + second) == match run(s, first) {
            Some((mid, actions)) => match run(mid, second) {
                Some((end, more)) => Some((end, actions + more)),
                None => None,
            },
            None => None,
        },
    decreases second.len(),
{
    if second.len() == 0 {
        assert(first + second == first);
        if let Some((mid, actions)) = run(s, first) {
            assert(actions + Seq::<Action>::empty() == actions);
        }
    } else {
        lemma_run_in_parts(s, first, second.drop_last());
        assert((first + second).drop_last() == first + second.drop_last());
        assert((first + second).last() == second.last());
        if let Some((mid, actions)) = run(s, first) {
            if let Some((near, more)) = run(mid, second.drop_last()) {
                if let Some((end, action)) = transition(near, second.last().0, second.last().1) {
                    assert((actions + more).push(action) == actions + more.push(action));
                }
            }
        }
    }
}

/// A whole cycle: a check that brings messages is followed by the delivery of
/// each message in order, each with its pause, whatever the outcomes of the
/// deliveries; then the snapshot is written, and whether or not that
/// succeeds, the next tick is awaited.
pub proof fn lemma_whole_cycle(
    s: MonitorState,
    batch: Vec<Outgoing>,
    checked_at: u64,
    outcomes: Seq<bool>,
    clock: spec_fn(int) -> u64,
    saved: bool,
    saved_at: u64,
)
    requires
        s.phase == Phase::Checking,
        0 < batch@.len(),
        outcomes.len() == batch@.len(),
    ensures
        run(
            s,
            seq![(Event::Checked(Some(batch)), checked_at)] + delivery_events(outcomes, clock)
                + seq![(Event::StateSaved(saved), saved_at)],
        ) == Some(
            (
                s.wait(saved_at).0,
                seq![Action::Deliver(batch@[0])] + delivery_actions(batch@, batch@.len()) + seq![
                    s.wait(saved_at).1,
                ],
            ),
        ),
{
    let delivering = MonitorState {
        phase: Phase::Delivering,
        queue: batch@,
        next: 0,
        period: s.period,
        deadline: s.deadline,
    };
    let saving = delivering.at(Phase::Saving);
    let check = seq![(Event::Checked(Some(batch)), checked_at)];
    let save = seq![(Event::StateSaved(saved), saved_at)];
    assert(check.drop_last() == Seq::<(Event, u64)>::empty());
    assert(run(s, check) == Some((delivering, seq![Action::Deliver(batch@[0])]))) by {
        assert(run(s, check.drop_last()) == Some((s, Seq::<Action>::empty())));
        assert(check.last() == (Event::Checked(Some(batch)), checked_at));
        assert(Seq::<Action>::empty().push(Action::Deliver(batch@[0])) == seq![
            Action::Deliver(batch@[0]),
        ]);
    }
    lemma_cycle_delivers_all(delivering, outcomes, clock);
    lemma_run_in_parts(s, check, delivery_events(outcomes, clock));
    assert(save.drop_last() == Seq::<(Event, u64)>::empty());
    assert(saving.wait(saved_at) == s.wait(saved_at));
    assert(run(saving, save) == Some((s.wait(saved_at).0, seq![s.wait(saved_at).1]))) by {
        assert(run(saving, save.drop_last()) == Some((saving, Seq::<Action>::empty())));
        assert(save.last() == (Event::StateSaved(saved), saved_at));
        assert(Seq::<Action>::empty().push(s.wait(saved_at).1) == seq![s.wait(saved_at).1]);
    }
    lemma_run_in_parts(s, check + delivery_events(outcomes, clock), save);
}

} // verus!
