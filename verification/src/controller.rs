//! The click loop as a state machine.
//!
//! The machine never sleeps, blocks or reads the cancellation flag itself. It
//! is told what happened (the anchor was chosen, the notification channel
//! closed, the flag was read) and answers with what to do next.

use vstd::prelude::*;

verus! {

/// Where the click loop stands.
#[derive(Clone, Copy, Debug, PartialEq, Eq, Structural)]
pub enum Phase {
    /// No anchor point has been chosen yet.
    WaitingForAnchor,
    /// The anchor point is `(x, y)`; `remaining` one-second waits are left
    /// before the next click cycle is due.
    Clicking { x: i32, y: i32, remaining: u64 },
    /// The loop has ended for good.
    Stopped,
}

/// What the driver of the loop has to do next.
#[derive(Clone, Copy, Debug, PartialEq, Eq, Structural)]
pub enum Command {
    /// Block until the anchor notification arrives or its channel closes.
    AwaitAnchor,
    /// Move to `(x, y)` and click there, then read the flag again at once.
    Click { x: i32, y: i32 },
    /// Sleep for one second, then read the flag again.
    Sleep,
    /// Leave the loop.
    Finish,
}

/// What can happen to the click loop.
#[derive(Clone, Copy, Debug, PartialEq, Eq, Structural)]
pub enum Event {
    /// The anchor notification arrived while the pointer was at `(x, y)`.
    Anchor { x: i32, y: i32 },
    /// The notification channel closed without delivering anything.
    ChannelClosed,
    /// The cancellation flag was read; `running` is what it held.
    Poll { running: bool },
}

/// The state of the click loop: the configured interval, in seconds, and
/// the phase.
#[derive(Clone, Copy, Debug, PartialEq, Eq, Structural)]
pub struct Controller {
    pub interval: u64,
    pub phase: Phase,
}

impl Controller {
    /// The state before anything has happened.
    pub open spec fn initial(interval: u64) -> Controller {
        Controller { interval, phase: Phase::WaitingForAnchor }
    }

    /// A wait never has more seconds left than the interval has.
    pub open spec fn wf(self) -> bool {
        match self.phase {
            Phase::Clicking { remaining, .. } => remaining <= self.interval,
            _ => true,
        }
    }

    /// The state after the anchor notification: the first one fixes the
    /// anchor and makes a cycle due at once, a later one changes nothing.
    pub open spec fn anchor_chosen(self, x: i32, y: i32) -> Controller {
        match self.phase {
            Phase::WaitingForAnchor => Controller {
                interval: self.interval,
                phase: Phase::Clicking { x, y, remaining: 0 },
            },
            _ => self,
        }
    }

    /// The state after the notification channel has closed: waiting for
    /// the anchor ends, and with it the loop.
    pub open spec fn channel_closed(self) -> Controller {
        match self.phase {
            Phase::WaitingForAnchor => Controller {
                interval: self.interval,
                phase: Phase::Stopped,
            },
            _ => self,
        }
    }

    /// The answer to one reading of the cancellation flag.
    pub open spec fn command(self, running: bool) -> Command {
        match self.phase {
            Phase::WaitingForAnchor => Command::AwaitAnchor,
            Phase::Stopped => Command::Finish,
            Phase::Clicking { x, y, remaining } => if !running {
                Command::Finish
            } else if remaining == 0 {
                Command::Click { x, y }
            } else {
                Command::Sleep
            },
        }
    }

    /// The state after one reading of the cancellation flag.
    pub open spec fn polled(self, running: bool) -> Controller {
        match self.phase {
            Phase::Clicking { x, y, remaining } => if !running {
                Controller { interval: self.interval, phase: Phase::Stopped }
            } else if remaining == 0 {
                Controller {
                    interval: self.interval,
                    phase: Phase::Clicking { x, y, remaining: self.interval },
                }
            } else {
                Controller {
                    interval: self.interval,
                    phase: Phase::Clicking { x, y, remaining: (remaining - 1) as u64 },
                }
            },
            _ => self,
        }
    }

    /// The state after `event`.
    pub open spec fn after(self, event: Event) -> Controller {
        match event {
            Event::Anchor { x, y } => self.anchor_chosen(x, y),
            Event::ChannelClosed => self.channel_closed(),
            Event::Poll { running } => self.polled(running),
        }
    }

    /// The answer to `event`, where it is a reading of the flag.
    pub open spec fn answer(self, event: Event) -> Option<Command> {
        match event {
            Event::Poll { running } => Some(self.command(running)),
            _ => None,
        }
    }

    /// The state after all of `events`, in order.
    pub open spec fn run(self, events: Seq<Event>) -> Controller
        decreases events.len(),
    {
        if events.len() == 0 {
            self
        } else {
            self.after(events[0]).run(events.drop_first())
        }
    }

    /// The points of the click cycles commanded along `events`, in order.
    pub open spec fn clicks(self, events: Seq<Event>) -> Seq<(i32, i32)>
        decreases events.len(),
    {
        if events.len() == 0 {
            Seq::empty()
        } else {
            let rest = self.after(events[0]).clicks(events.drop_first());
            match self.answer(events[0]) {
                Some(Command::Click { x, y }) => seq![(x, y)] + rest,
                _ => rest,
            }
        }
    }

    /// The number of one-second sleeps commanded along `events`.
    pub open spec fn sleeps(self, events: Seq<Event>) -> nat
        decreases events.len(),
    {
        if events.len() == 0 {
            0
        } else {
            let rest = self.after(events[0]).sleeps(events.drop_first());
            match self.answer(events[0]) {
                Some(Command::Sleep) => 1 + rest,
                _ => rest,
            }
        }
    }

    /// A controller for the given interval, waiting for the anchor.
    pub fn new(interval: u64) -> (c: Controller)
        ensures
            c == Controller::initial(interval),
    {
        Controller { interval, phase: Phase::WaitingForAnchor }
    }

    /// Takes the anchor notification, with the pointer's location at that
    /// moment. Returns whether this fixed the anchor.
    pub fn on_anchor(&mut self, x: i32, y: i32) -> (fixed: bool)
        ensures
            *final(self) == old(self).anchor_chosen(x, y),
            fixed == (old(self).phase == Phase::WaitingForAnchor),
    {
        match self.phase {
            Phase::WaitingForAnchor => {
                self.phase = Phase::Clicking { x, y, remaining: 0 };
                true
            },
            _ => false,
        }
    }

    /// Takes the closing of the notification channel. Returns whether this
    /// ended the loop.
    pub fn on_channel_closed(&mut self) -> (ended: bool)
        ensures
            *final(self) == old(self).channel_closed(),
            ended == (old(self).phase == Phase::WaitingForAnchor),
    {
        match self.phase {
            Phase::WaitingForAnchor => {
                self.phase = Phase::Stopped;
                true
            },
            _ => false,
        }
    }

    /// Takes one reading of the cancellation flag and says what to do next.
    pub fn on_poll(&mut self, running: bool) -> (command: Command)
        ensures
            command == old(self).command(running),
            *final(self) == old(self).polled(running),
    {
        match self.phase {
            Phase::WaitingForAnchor => Command::AwaitAnchor,
            Phase::Stopped => Command::Finish,
            Phase::Clicking { x, y, remaining } => {
                if !running {
                    self.phase = Phase::Stopped;
                    Command::Finish
                } else if remaining == 0 {
                    self.phase = Phase::Clicking { x, y, remaining: self.interval };
                    Command::Click { x, y }
                } else {
                    self.phase = Phase::Clicking { x, y, remaining: remaining - 1 };
                    Command::Sleep
                }
            },
        }
    }

    /// Takes any event. The answer is the command, where the event is a
    /// reading of the flag, and `None` where it is not.
    pub fn handle(&mut self, event: Event) -> (answer: Option<Command>)
        ensures
            answer == old(self).answer(event),
            *final(self) == old(self).after(event),
    {
        match event {
            Event::Anchor { x, y } => {
                self.on_anchor(x, y);
                None
            },
            Event::ChannelClosed => {
                self.on_channel_closed();
                None
            },
            Event::Poll { running } => Some(self.on_poll(running)),
        }
    }
}

/// `count` readings of the flag in a row, each of them `running`.
pub open spec fn readings(count: nat, running: bool) -> Seq<Event> {
    Seq::new(count, |i: int| Event::Poll { running })
}

/// No event changes the interval or leaves a wait with more seconds than
/// the interval has.
proof fn lemma_events_keep_wf(c: Controller, events: Seq<Event>)
    requires
        c.wf(),
    ensures
        c.run(events).wf(),
        c.run(events).interval == c.interval,
    decreases events.len(),
{
    if events.len() > 0 {
        lemma_events_keep_wf(c.after(events[0]), events.drop_first());
    }
}

/// Whatever happens to a click loop from its start on, its interval stays
/// what it was configured to be, and a wait never has more seconds left
/// than the interval has.
pub proof fn law_interval_is_kept(interval: u64, events: Seq<Event>)
    ensures
        Controller::initial(interval).run(events).wf(),
        Controller::initial(interval).run(events).interval == interval,
{
    lemma_events_keep_wf(Controller::initial(interval), events);
}

/// Until the anchor notification arrives, no click cycle and no sleep is
/// commanded, whatever the flag reads and however often it is read.
pub proof fn law_no_click_before_anchor(c: Controller, events: Seq<Event>)
    requires
        !(c.phase is Clicking),
        forall|i: int| 0 <= i < events.len() ==> !(#[trigger] events[i] is Anchor),
    ensures
        c.clicks(events) == Seq::<(i32, i32)>::empty(),
        c.sleeps(events) == 0,
        !(c.run(events).phase is Clicking),
    decreases events.len(),
{
    if events.len() > 0 {
        let rest = events.drop_first();
        assert forall|i: int| 0 <= i < rest.len() implies !(#[trigger] rest[i] is Anchor) by {
            assert(rest[i] == events[i + 1]);
        }
        law_no_click_before_anchor(c.after(events[0]), rest);
    }
}

/// Once the anchor is fixed it stays: every click cycle commanded from
/// then on goes to that point, whatever is notified later, and the loop is
/// either still clicking there or stopped.
pub proof fn law_anchor_is_fixed(c: Controller, events: Seq<Event>)
    requires
        c.phase is Clicking,
    ensures
        forall|i: int|
            0 <= i < c.clicks(events).len() ==> #[trigger] c.clicks(events)[i] == (
                c.phase->x,
                c.phase->y,
            ),
        match c.run(events).phase {
            Phase::Clicking { x, y, .. } => x == c.phase->x && y == c.phase->y,
            Phase::Stopped => true,
            Phase::WaitingForAnchor => false,
        },
    decreases events.len(),
{
    if events.len() > 0 {
        let next = c.after(events[0]);
        let rest = events.drop_first();
        if next.phase is Clicking {
            law_anchor_is_fixed(next, rest);
        } else {
            law_stopped_is_terminal(next, rest);
        }
        let all = c.clicks(events);
        let later = next.clicks(rest);
        assert forall|i: int| 0 <= i < all.len() implies #[trigger] all[i] == (
            c.phase->x,
            c.phase->y,
        ) by {
            if all.len() == later.len() {
                assert(all == later);
            } else {
                assert(all == seq![(c.phase->x, c.phase->y)] + later);
                if i > 0 {
                    assert(all[i] == later[i - 1]);
                }
            }
        }
    }
}

/// The first anchor notification decides: the point it brings is the one
/// that the next reading of a running flag sends a click cycle to, and so
/// does every later cycle go there.
pub proof fn law_first_anchor_decides(c: Controller, x: i32, y: i32, events: Seq<Event>)
    requires
        c.phase is WaitingForAnchor,
    ensures
        c.anchor_chosen(x, y).command(true) == (Command::Click { x, y }),
        forall|i: int|
            0 <= i < c.anchor_chosen(x, y).clicks(events).len() ==> #[trigger] c.anchor_chosen(
                x,
                y,
            ).clicks(events)[i] == (x, y),
{
    law_anchor_is_fixed(c.anchor_chosen(x, y), events);
}

/// Stopped is terminal: no event leads out of it, and nothing is commanded
/// there but to finish.
pub proof fn law_stopped_is_terminal(c: Controller, events: Seq<Event>)
    requires
        c.phase is Stopped,
    ensures
        c.run(events) == c,
        c.clicks(events) == Seq::<(i32, i32)>::empty(),
        c.sleeps(events) == 0,
        forall|running: bool| c.command(running) == Command::Finish,
    decreases events.len(),
{
    if events.len() > 0 {
        law_stopped_is_terminal(c.after(events[0]), events.drop_first());
    }
}

/// Once the flag reads stopped and goes on reading so, no new click cycle
/// starts and no further sleep is commanded, in whatever phase the loop is
/// and whatever else happens.
pub proof fn law_cancelled_does_nothing(c: Controller, events: Seq<Event>)
    requires
        forall|i: int|
            0 <= i < events.len() && #[trigger] events[i] is Poll ==> !events[i]->running,
    ensures
        c.clicks(events) == Seq::<(i32, i32)>::empty(),
        c.sleeps(events) == 0,
    decreases events.len(),
{
    if events.len() > 0 {
        let rest = events.drop_first();
        assert forall|i: int|
            0 <= i < rest.len() && #[trigger] rest[i] is Poll implies !rest[i]->running by {
            assert(rest[i] == events[i + 1]);
        }
        law_cancelled_does_nothing(c.after(events[0]), rest);
    }
}

/// A reading of stopped while the loop is clicking, be a cycle due or a
/// wait under way, ends the loop at that reading.
pub proof fn law_cancel_ends_wait(c: Controller)
    requires
        c.phase is Clicking,
    ensures
        c.command(false) == Command::Finish,
        c.polled(false).phase is Stopped,
{
}

/// While the flag reads running, a wait with `remaining` seconds left is
/// that many sleeps long, and a click cycle is due right after it.
pub proof fn law_wait_runs_down(c: Controller, count: nat)
    requires
        c.phase is Clicking,
        count <= c.phase->remaining,
    ensures
        c.sleeps(readings(count, true)) == count,
        c.clicks(readings(count, true)) == Seq::<(i32, i32)>::empty(),
        c.run(readings(count, true)) == (Controller {
            interval: c.interval,
            phase: Phase::Clicking {
                x: c.phase->x,
                y: c.phase->y,
                remaining: (c.phase->remaining - count) as u64,
            },
        }),
    decreases count,
{
    let events = readings(count, true);
    if count > 0 {
        assert(events.drop_first() =~= readings((count - 1) as nat, true));
        law_wait_runs_down(c.after(events[0]), (count - 1) as nat);
    }
}

/// While the flag reads running, the loop is periodic: from a cycle that
/// is due, one more reading than the interval has seconds brings exactly
/// one click cycle, at the anchor, and as many sleeps as the interval has
/// seconds, and leaves the next cycle due.
pub proof fn law_one_click_per_interval(c: Controller)
    requires
        c.phase is Clicking,
        c.phase->remaining == 0,
    ensures
        c.clicks(readings(c.interval as nat + 1, true)) == seq![(c.phase->x, c.phase->y)],
        c.sleeps(readings(c.interval as nat + 1, true)) == c.interval,
        c.run(readings(c.interval as nat + 1, true)) == c,
{
    let events = readings(c.interval as nat + 1, true);
    let rest = readings(c.interval as nat, true);
    assert(events.drop_first() =~= rest);
    law_wait_runs_down(c.after(events[0]), c.interval as nat);
    assert(c.clicks(events) =~= seq![(c.phase->x, c.phase->y)]);
}

} // verus!
