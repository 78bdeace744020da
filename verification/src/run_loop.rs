use crate::edges::{edge_events, held_only_in, EdgeDetector, KeyEvent};
use crate::keys::{HostKey, Key};
use crate::pacer::{budget_met, CyclePacer};
use crate::snapshot::{first_occurrences, logical_keys, KeySnapshot};
use crate::throttle::FrameThrottle;
use vstd::prelude::*;

verus! {

/// Where the interactive loop stands: what it waits to hear from the host.
#[derive(Clone, Copy, Debug, PartialEq, Eq, Structural)]
pub enum Phase {
    /// At the top of a pass: whether the display surface is open, and the
    /// clock.
    Surface,
    /// A frame was due: how presenting it went.
    Presenting,
    /// What the poll of the keyboard brought.
    Polling,
    /// The cycles that one step of the engine took.
    Stepping,
    /// The clock, while the pacer waits out a step of `cycles` cycles.
    Pacing { cycles: u32 },
    /// The surface has closed; the loop is over.
    Closed,
    /// Presenting a frame failed; the loop is over.
    Failed,
}

/// What the host reports back after doing what the loop asked for.
#[derive(Debug)]
pub enum HostEvent {
    /// Whether the display surface is open, and the clock mark of the check.
    Surface { open: bool, now: u64 },
    /// Whether the frame was presented.
    Presented { ok: bool },
    /// The keys that the poll found held, or `None` where there was no new
    /// poll to be had.
    Polled { keys: Option<Vec<HostKey>> },
    /// The cycles that the engine's step took.
    Stepped { cycles: u32 },
    /// The clock mark just read.
    Clock { now: u64 },
}

/// What the loop asks the host to do next.
#[derive(Debug, PartialEq, Eq)]
pub enum HostAction {
    /// Ask the display surface whether it is open, read the clock, and
    /// report both.
    CheckSurface,
    /// Present the engine's frame buffer and report how it went.
    Present,
    /// Poll the keyboard without blocking and report what it brought.
    PollKeys,
    /// Hand `events` to the input device in order, then step the engine once
    /// and report its cycles.
    Step { events: Vec<KeyEvent> },
    /// Read the clock and report it.
    ReadClock,
    /// Leave the loop: the surface has closed.
    Exit,
    /// Leave the loop and fail: a frame could not be presented.
    Abort,
}

/// Why the loop did not take a report.
#[derive(Clone, Copy, Debug, PartialEq, Eq, Structural)]
pub enum LoopError {
    /// The loop is over and takes no more reports.
    Over,
    /// The report does not answer what the loop last asked for.
    Unexpected,
}

/// Whether the loop is over in `phase`.
pub open spec fn is_over(phase: Phase) -> bool {
    phase is Closed || phase is Failed
}

/// Whether `event` answers what the loop waits for in `phase`.
pub open spec fn answers(phase: Phase, event: HostEvent) -> bool {
    match (phase, event) {
        (Phase::Surface, HostEvent::Surface { .. }) => true,
        (Phase::Presenting, HostEvent::Presented { .. }) => true,
        (Phase::Polling, HostEvent::Polled { .. }) => true,
        (Phase::Stepping, HostEvent::Stepped { .. }) => true,
        (Phase::Pacing { .. }, HostEvent::Clock { .. }) => true,
        _ => false,
    }
}

/// Whether `event` is a report on what `action` asks for.
pub open spec fn replies_to(event: HostEvent, action: HostAction) -> bool {
    match (action, event) {
        (HostAction::CheckSurface, HostEvent::Surface { .. }) => true,
        (HostAction::Present, HostEvent::Presented { .. }) => true,
        (HostAction::PollKeys, HostEvent::Polled { .. }) => true,
        (HostAction::Step { .. }, HostEvent::Stepped { .. }) => true,
        (HostAction::ReadClock, HostEvent::Clock { .. }) => true,
        _ => false,
    }
}

/// The held keys that a poll leaves behind, where `held` were held before it.
pub open spec fn held_after_poll(held: Seq<Key>, keys: Option<Vec<HostKey>>) -> Seq<Key> {
    match keys {
        Some(list) => first_occurrences(logical_keys(list@)),
        None => held,
    }
}

/// The events that a poll gives rise to, where `held` were held before it.
pub open spec fn events_of_poll(held: Seq<Key>, keys: Option<Vec<HostKey>>) -> Seq<KeyEvent> {
    match keys {
        Some(list) => {
            let current = first_occurrences(logical_keys(list@));
            edge_events(held_only_in(current, held), held_only_in(held, current))
        },
        None => Seq::empty(),
    }
}

/// The interactive loop of the emulator's host, as the decisions it takes.
///
/// The host does the work: it asks the surface, presents frames, polls the
/// keyboard, steps the engine and reads the clock. After each piece of work
/// it reports the outcome, and is told what to do next. One pass of the loop
/// goes, in this order: check the surface and present a frame if one is due;
/// poll the keyboard and pass on the key events; step the engine once; wait
/// until the wall clock has caught up with the cycles of that step.
#[derive(Debug)]
pub struct InteractiveLoop {
    phase: Phase,
    throttle: FrameThrottle,
    detector: EdgeDetector,
    pacer: CyclePacer,
}

impl InteractiveLoop {
    /// What the loop waits for.
    pub closed spec fn spec_phase(&self) -> Phase {
        self.phase
    }

    /// The frame throttle as it stands.
    pub closed spec fn throttle(&self) -> FrameThrottle {
        self.throttle
    }

    /// The keys held at the last poll, in its order.
    pub closed spec fn held_order(&self) -> Seq<Key> {
        self.detector.held_order()
    }

    /// The clock mark at which the pacer last let the loop go on.
    pub closed spec fn last_step(&self) -> u64 {
        self.pacer.last_step()
    }

    /// The emulated clock rate, in cycles per second.
    pub closed spec fn target_hz(&self) -> u64 {
        self.pacer.target_hz()
    }

    /// Whether the two loops hold the same keys and the same pace.
    pub open spec fn same_input_and_pace(&self, other: &InteractiveLoop) -> bool {
        &&& self.held_order() == other.held_order()
        &&& self.last_step() == other.last_step()
        &&& self.target_hz() == other.target_hz()
    }

    /// Whether the two loops differ in nothing.
    pub open spec fn same_as(&self, other: &InteractiveLoop) -> bool {
        &&& self.phase() == other.phase()
        &&& self.throttle() == other.throttle()
        &&& self.same_input_and_pace(other)
    }

    /// Whether taking `event` in the state `self` leads to the state `next`
    /// and the request `action`.
    pub open spec fn leads_to(
        &self,
        event: HostEvent,
        next: &InteractiveLoop,
        action: HostAction,
    ) -> bool {
        match (self.phase(), event) {
            (Phase::Surface, HostEvent::Surface { open, now }) => {
                &&& next.same_input_and_pace(self)
                &&& if !open {
                    &&& next.phase() == Phase::Closed
                    &&& next.throttle() == self.throttle()
                    &&& action == HostAction::Exit
                } else if self.throttle().due(now) {
                    &&& next.phase() == Phase::Presenting
                    &&& next.throttle() == self.throttle().after_poll(now)
                    &&& action == HostAction::Present
                } else {
                    &&& next.phase() == Phase::Polling
                    &&& next.throttle() == self.throttle()
                    &&& action == HostAction::PollKeys
                }
            },
            (Phase::Presenting, HostEvent::Presented { ok }) => {
                &&& next.same_input_and_pace(self)
                &&& next.throttle() == self.throttle()
                &&& if ok {
                    next.phase() == Phase::Polling && action == HostAction::PollKeys
                } else {
                    next.phase() == Phase::Failed && action == HostAction::Abort
                }
            },
            (Phase::Polling, HostEvent::Polled { keys }) => {
                &&& next.phase() == Phase::Stepping
                &&& next.throttle() == self.throttle()
                &&& next.last_step() == self.last_step()
                &&& next.target_hz() == self.target_hz()
                &&& next.held_order() == held_after_poll(self.held_order(), keys)
                &&& action matches HostAction::Step { events }
                &&& events@ == events_of_poll(self.held_order(), keys)
            },
            (Phase::Stepping, HostEvent::Stepped { cycles }) => {
                &&& next.phase() == Phase::Pacing { cycles }
                &&& next.throttle() == self.throttle()
                &&& next.same_input_and_pace(self)
                &&& action == HostAction::ReadClock
            },
            (Phase::Pacing { cycles }, HostEvent::Clock { now }) => {
                &&& next.throttle() == self.throttle()
                &&& next.held_order() == self.held_order()
                &&& next.target_hz() == self.target_hz()
                &&& if budget_met(self.last_step(), self.target_hz(), cycles, now) {
                    &&& next.phase() == Phase::Surface
                    &&& next.last_step() == now
                    &&& action == HostAction::CheckSurface
                } else {
                    &&& next.phase() == self.phase()
                    &&& next.last_step() == self.last_step()
                    &&& action == HostAction::ReadClock
                }
            },
            _ => false,
        }
    }

    /// The loop always waits for the report on what it last asked for: a host
    /// that does what it is asked and reports on it is never turned down.
    /// And the loop is over exactly when it has asked the host to leave.
    pub proof fn lemma_reply_is_taken(
        &self,
        event: HostEvent,
        next: &InteractiveLoop,
        action: HostAction,
        reply: HostEvent,
    )
        requires
            self.leads_to(event, next, action),
        ensures
            replies_to(reply, action) ==> answers(next.phase(), reply),
            is_over(next.phase()) <==> (action is Exit || action is Abort),
            answers(self.phase(), event),
    {
    }

    /// A loop about to make its first pass, for a clock that reads `now`:
    /// both the frame interval and the first cycle budget count from there,
    /// and no key counts as held. Its first request is
    /// `HostAction::CheckSurface`.
    pub fn new(frame_interval: u64, target_hz: u64, now: u64) -> (machine: InteractiveLoop)
        requires
            target_hz > 0,
        ensures
            machine.phase() == Phase::Surface,
            machine.throttle() == (FrameThrottle { interval: frame_interval, last_render: now }),
            machine.held_order() == Seq::<Key>::empty(),
            machine.last_step() == now,
            machine.target_hz() == target_hz,
    {
        InteractiveLoop {
            phase: Phase::Surface,
            throttle: FrameThrottle::new(frame_interval, now),
            detector: EdgeDetector::new(),
            pacer: CyclePacer::new(target_hz, now),
        }
    }

    /// What the loop waits for.
    #[verifier::when_used_as_spec(spec_phase)]
    pub fn phase(&self) -> (phase: Phase)
        ensures
            phase == self.phase(),
    {
        self.phase
    }

    /// The keys held at the last poll.
    pub fn held_keys(&self) -> (snapshot: &KeySnapshot)
        ensures
            snapshot.order() == self.held_order(),
    {
        self.detector.previous()
    }

    /// Takes the host's report and says what the host is to do next.
    ///
    /// A report that answers what the loop waits for moves the loop on. Any
    /// other report is turned down and changes nothing: with
    /// `LoopError::Over` once the loop is over, with `LoopError::Unexpected`
    /// before that.
    pub fn advance(&mut self, event: HostEvent) -> (result: Result<HostAction, LoopError>)
        ensures
            match result {
                Ok(action) => old(self).leads_to(event, final(self), action),
                Err(LoopError::Over) => is_over(old(self).phase()) && final(self).same_as(old(self)),
                Err(LoopError::Unexpected) => {
                    &&& !is_over(old(self).phase())
                    &&& !answers(old(self).phase(), event)
                    &&& final(self).same_as(old(self))
                },
            },
            result is Ok <==> answers(old(self).phase(), event),
    {
        match self.phase {
            Phase::Closed => Err(LoopError::Over),
            Phase::Failed => Err(LoopError::Over),
            Phase::Surface => match event {
                HostEvent::Surface { open, now } => {
                    if !open {
                        self.phase = Phase::Closed;
                        Ok(HostAction::Exit)
                    } else if self.throttle.poll(now) {
                        self.phase = Phase::Presenting;
                        Ok(HostAction::Present)
                    } else {
                        self.phase = Phase::Polling;
                        Ok(HostAction::PollKeys)
                    }
                },
                _ => Err(LoopError::Unexpected),
            },
            Phase::Presenting => match event {
                HostEvent::Presented { ok } => {
                    if ok {
                        self.phase = Phase::Polling;
                        Ok(HostAction::PollKeys)
                    } else {
                        self.phase = Phase::Failed;
                        Ok(HostAction::Abort)
                    }
                },
                _ => Err(LoopError::Unexpected),
            },
            Phase::Polling => match event {
                HostEvent::Polled { keys } => {
                    let polled = match keys {
                        Some(list) => Some(KeySnapshot::from_host_keys(&list)),
                        None => None,
                    };
                    let edges = self.detector.observe(polled);
                    self.phase = Phase::Stepping;
                    let events = edges.events();
                    assert(events@ == events_of_poll(old(self).held_order(), keys));
                    Ok(HostAction::Step { events })
                },
                _ => Err(LoopError::Unexpected),
            },
            Phase::Stepping => match event {
                HostEvent::Stepped { cycles } => {
                    self.phase = Phase::Pacing { cycles };
                    Ok(HostAction::ReadClock)
                },
                _ => Err(LoopError::Unexpected),
            },
            Phase::Pacing { cycles } => match event {
                HostEvent::Clock { now } => {
                    if self.pacer.poll(cycles, now) {
                        self.phase = Phase::Surface;
                        Ok(HostAction::CheckSurface)
                    } else {
                        Ok(HostAction::ReadClock)
                    }
                },
                _ => Err(LoopError::Unexpected),
            },
        }
    }
}

} // verus!
