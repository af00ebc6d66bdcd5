//! The auto-clicker: a pointer, the cancellation flag and the click loop's
//! state machine, put together.

use crate::controller::Command;
use crate::controller::Controller;
use crate::controller::Phase;
use crate::mousecontroller::Exchange;
use crate::mousecontroller::MouseController;
use crate::mousecontroller::RecordedMouse;
use std::sync::atomic::AtomicBool;
use std::sync::atomic::Ordering;
use std::sync::Arc;
use vstd::prelude::*;

verus! {

/// Why a click cycle did not complete.
#[derive(Debug, PartialEq, Eq)]
pub enum CycleError {
    /// The pointer could not be moved; no click was attempted.
    Move(String),
    /// The pointer was moved, but the click failed.
    Click(String),
}

/// What one step of the click loop did, and what its driver has to do next.
#[derive(Debug, PartialEq, Eq)]
pub enum Step {
    /// Nothing was done: the anchor is still to be chosen.
    AwaitAnchor,
    /// A click cycle at `(x, y)` was run, with this outcome. The flag is
    /// to be read again at once.
    Cycle { x: i32, y: i32, outcome: Result<(), CycleError> },
    /// Nothing was done: sleep for one second, then read the flag again.
    Sleep,
    /// The loop has ended.
    Finished,
}

/// What passes between the auto-clicker and its pointer in one click cycle
/// at `(x, y)` that ends in `outcome`: the move, and after a move that
/// succeeded the click.
pub open spec fn cycle_exchanges(x: i32, y: i32, outcome: Result<(), CycleError>) -> Seq<Exchange> {
    match outcome {
        Ok(()) => seq![
            Exchange::Move { x, y, answer: Ok(()) },
            Exchange::Click { answer: Ok(()) },
        ],
        Err(CycleError::Move(error)) => seq![Exchange::Move { x, y, answer: Err(error) }],
        Err(CycleError::Click(error)) => seq![
            Exchange::Move { x, y, answer: Ok(()) },
            Exchange::Click { answer: Err(error) },
        ],
    }
}

/// An auto-clicker: the pointer it clicks with, the flag that cancels it,
/// and the state of its click loop.
pub struct AutoClicker<M: MouseController> {
    mouse: RecordedMouse<M>,
    running: Arc<AtomicBool>,
    controller: Controller,
}

impl<M: MouseController> AutoClicker<M> {
    /// The pointer that the clicks go to.
    pub closed spec fn mouse(&self) -> M {
        self.mouse.mouse()
    }

    /// The cancellation flag.
    pub closed spec fn flag(&self) -> Arc<AtomicBool> {
        self.running
    }

    /// The state of the click loop.
    pub closed spec fn controller(&self) -> Controller {
        self.controller
    }

    /// Everything that this auto-clicker has asked of its pointer so far,
    /// and what the pointer answered, in order: the record that
    /// [`RecordedMouse`] keeps.
    pub closed spec fn transcript(&self) -> Seq<Exchange> {
        self.mouse.record()
    }

    /// An auto-clicker that waits for its anchor, has asked nothing of the
    /// pointer yet, and will click every `click_interval_secs` seconds.
    pub fn new(mouse: M, click_interval_secs: u64) -> (clicker: Self)
        ensures
            clicker.mouse() == mouse,
            clicker.controller() == Controller::initial(click_interval_secs),
            clicker.transcript() == Seq::<Exchange>::empty(),
    {
        AutoClicker {
            mouse: RecordedMouse::new(mouse),
            running: Arc::new(AtomicBool::new(true)),
            controller: Controller::new(click_interval_secs),
        }
    }

    /// The seconds between two click cycles.
    pub fn get_click_interval_secs(&self) -> (secs: u64)
        ensures
            secs == self.controller().interval,
    {
        self.controller.interval
    }

    /// The phase that the click loop is in.
    pub fn get_phase(&self) -> (phase: Phase)
        ensures
            phase == self.controller().phase,
    {
        self.controller.phase
    }

    /// One click cycle at `(x, y)`: the pointer is asked to move there and
    /// then to click. If the move fails the click is not attempted. The
    /// outcome is `Ok` where both succeeded and else the error of the one
    /// that failed. The state of the click loop is not touched.
    pub fn do_one_click(&mut self, x: i32, y: i32) -> (outcome: Result<(), CycleError>)
        ensures
            final(self).transcript() == old(self).transcript() + cycle_exchanges(x, y, outcome),
            final(self).controller() == old(self).controller(),
            final(self).flag() == old(self).flag(),
    {
        let moved = self.mouse.move_mouse(x, y);
        match moved {
            Err(error) => {
                assert(self.transcript() =~= old(self).transcript() + seq![
                    Exchange::Move { x, y, answer: Err(error) },
                ]);
                Err(CycleError::Move(error))
            },
            Ok(()) => {
                let clicked = self.mouse.click();
                assert(moved->Ok_0 == ());
                assert(self.transcript() =~= old(self).transcript() + seq![
                    Exchange::Move { x, y, answer: Ok(()) },
                    Exchange::Click { answer: clicked },
                ]);
                match clicked {
                    Err(error) => Err(CycleError::Click(error)),
                    Ok(()) => {
                        assert(clicked->Ok_0 == ());
                        Ok(())
                    },
                }
            },
        }
    }

    /// A handle on the cancellation flag, for whoever is to raise it. The
    /// flag starts out as running; storing `false` in it stops the loop at
    /// its next reading.
    pub fn get_running(&self) -> (flag: Arc<AtomicBool>)
        ensures
            flag == self.flag(),
    {
        self.running.clone()
    }

    /// Takes the anchor notification. While the loop waits for its anchor,
    /// the pointer is asked where it is, once: the point it answers
    /// becomes the anchor and is returned; if it answers with an error,
    /// that is returned and the loop goes on waiting. In any other phase
    /// the notification is ignored and the pointer is not asked.
    pub fn anchor_chosen(&mut self) -> (fixed: Result<Option<(i32, i32)>, String>)
        ensures
            final(self).flag() == old(self).flag(),
            old(self).controller().phase is WaitingForAnchor ==> match fixed {
                Ok(Some((x, y))) => {
                    &&& final(self).transcript() == old(self).transcript().push(
                        Exchange::Location { found: Ok((x, y)) },
                    )
                    &&& final(self).controller() == old(self).controller().anchor_chosen(x, y)
                },
                Ok(None) => false,
                Err(error) => {
                    &&& final(self).transcript() == old(self).transcript().push(
                        Exchange::Location { found: Err(error) },
                    )
                    &&& final(self).controller() == old(self).controller()
                },
            },
            !(old(self).controller().phase is WaitingForAnchor) ==> {
                &&& fixed == Ok::<Option<(i32, i32)>, String>(None)
                &&& final(self).transcript() == old(self).transcript()
                &&& final(self).controller() == old(self).controller()
            },
    {
        match self.controller.phase {
            Phase::WaitingForAnchor => {
                match self.mouse.location() {
                    Ok((x, y)) => {
                        self.controller.on_anchor(x, y);
                        Ok(Some((x, y)))
                    },
                    Err(error) => Err(error),
                }
            },
            _ => Ok(None),
        }
    }

    /// Takes the closing of the notification channel: a loop that waits
    /// for its anchor is stopped, and `true` returned.
    pub fn channel_closed(&mut self) -> (ended: bool)
        ensures
            ended == (old(self).controller().phase is WaitingForAnchor),
            final(self).controller() == old(self).controller().channel_closed(),
            final(self).transcript() == old(self).transcript(),
            final(self).flag() == old(self).flag(),
    {
        self.controller.on_channel_closed()
    }

    /// What a step of the click loop does when the flag reads `running`:
    /// the state machine moves on as [`Controller::polled`] says, the step
    /// returned is the one that [`Controller::command`] asks for, and the
    /// pointer is asked for nothing but the one click cycle, at the
    /// anchor, where a cycle is commanded.
    pub open spec fn stepped(before: &Self, after: &Self, running: bool, step: Step) -> bool {
        &&& after.controller() == before.controller().polled(running)
        &&& after.flag() == before.flag()
        &&& match before.controller().command(running) {
            Command::AwaitAnchor => step == Step::AwaitAnchor && after.transcript()
                == before.transcript(),
            Command::Sleep => step == Step::Sleep && after.transcript() == before.transcript(),
            Command::Finish => step == Step::Finished && after.transcript()
                == before.transcript(),
            Command::Click { x, y } => match step {
                Step::Cycle { x: at_x, y: at_y, outcome } => {
                    &&& at_x == x
                    &&& at_y == y
                    &&& after.transcript() == before.transcript() + cycle_exchanges(x, y, outcome)
                },
                _ => false,
            },
        }
    }

    /// One step of the click loop, given what the cancellation flag read.
    pub fn advance(&mut self, running: bool) -> (step: Step)
        ensures
            Self::stepped(old(self), final(self), running, step),
    {
        match self.controller.on_poll(running) {
            Command::AwaitAnchor => Step::AwaitAnchor,
            Command::Sleep => Step::Sleep,
            Command::Finish => Step::Finished,
            Command::Click { x, y } => {
                let outcome = self.do_one_click(x, y);
                Step::Cycle { x, y, outcome }
            },
        }
    }

    /// One step of the click loop: reads the cancellation flag and
    /// advances by what it held. What the flag holds is for another
    /// thread to decide, so the step is that of one of the two readings.
    pub fn poll(&mut self) -> (step: Step)
        ensures
            Self::stepped(old(self), final(self), true, step) || Self::stepped(
                old(self),
                final(self),
                false,
                step,
            ),
    {
        let running = self.running.load(Ordering::SeqCst);
        self.advance(running)
    }

    /// `states` are the auto-clicker before and after each of a number of
    /// steps in a row, `readings` what the flag read at each of them and
    /// `steps` what each returned.
    pub open spec fn is_run(states: Seq<Self>, readings: Seq<bool>, steps: Seq<Step>) -> bool {
        &&& states.len() == readings.len() + 1
        &&& steps.len() == readings.len()
        &&& forall|i: int|
            0 <= i < readings.len() ==> Self::stepped(
                &#[trigger] states[i],
                &states[i + 1],
                readings[i],
                steps[i],
            )
    }

    /// While the loop waits for its anchor, steps ask nothing of the
    /// pointer and change nothing, however many are taken and whatever
    /// the flag reads.
    pub proof fn law_nothing_is_asked_before_anchor(
        states: Seq<Self>,
        readings: Seq<bool>,
        steps: Seq<Step>,
        i: int,
    )
        requires
            Self::is_run(states, readings, steps),
            states[0].controller().phase is WaitingForAnchor,
            0 <= i < states.len(),
        ensures
            states[i].transcript() == states[0].transcript(),
            states[i].controller() == states[0].controller(),
            i > 0 ==> steps[i - 1] == Step::AwaitAnchor,
        decreases i,
    {
        if i > 0 {
            Self::law_nothing_is_asked_before_anchor(states, readings, steps, i - 1);
            assert(Self::stepped(&states[i - 1], &states[i], readings[i - 1], steps[i - 1]));
        }
    }

    /// Under readings of stopped a loop that is not waiting for its anchor
    /// stays so, and a loop that is, stays as it is.
    proof fn lemma_phase_after_cancelled(
        states: Seq<Self>,
        readings: Seq<bool>,
        steps: Seq<Step>,
        i: int,
    )
        requires
            Self::is_run(states, readings, steps),
            forall|k: int| 0 <= k < readings.len() ==> !readings[k],
            0 <= i < states.len(),
        ensures
            states[0].controller().phase is WaitingForAnchor ==> states[i].controller()
                == states[0].controller(),
            !(states[0].controller().phase is WaitingForAnchor) ==> !(states[i].controller().phase
                is WaitingForAnchor),
        decreases i,
    {
        if i > 0 {
            Self::lemma_phase_after_cancelled(states, readings, steps, i - 1);
            assert(Self::stepped(&states[i - 1], &states[i], readings[i - 1], steps[i - 1]));
        }
    }

    /// Once the flag reads stopped and goes on reading so, steps ask
    /// nothing more of the pointer: no new click cycle starts.
    pub proof fn law_nothing_is_asked_once_cancelled(
        states: Seq<Self>,
        readings: Seq<bool>,
        steps: Seq<Step>,
        i: int,
    )
        requires
            Self::is_run(states, readings, steps),
            forall|k: int| 0 <= k < readings.len() ==> !readings[k],
            0 <= i < states.len(),
        ensures
            states[i].transcript() == states[0].transcript(),
            i > 0 ==> !(steps[i - 1] is Cycle) && !(steps[i - 1] is Sleep),
            i > 0 && !(states[0].controller().phase is WaitingForAnchor) ==> steps[i - 1]
                == Step::Finished,
        decreases i,
    {
        if i > 0 {
            Self::law_nothing_is_asked_once_cancelled(states, readings, steps, i - 1);
            Self::lemma_phase_after_cancelled(states, readings, steps, i - 1);
            assert(Self::stepped(&states[i - 1], &states[i], readings[i - 1], steps[i - 1]));
        }
    }

    /// Once the anchor is fixed, every click cycle goes to it: a step
    /// either asks nothing of the pointer or runs one cycle at the anchor,
    /// and the loop is still clicking there afterwards, or stopped.
    pub proof fn law_every_cycle_goes_to_the_anchor(
        states: Seq<Self>,
        readings: Seq<bool>,
        steps: Seq<Step>,
        i: int,
    )
        requires
            Self::is_run(states, readings, steps),
            states[0].controller().phase is Clicking,
            0 <= i < readings.len(),
        ensures
            match steps[i] {
                Step::Cycle { x, y, outcome } => {
                    &&& x == states[0].controller().phase->x
                    &&& y == states[0].controller().phase->y
                    &&& states[i + 1].transcript() == states[i].transcript() + cycle_exchanges(
                        x,
                        y,
                        outcome,
                    )
                },
                _ => states[i + 1].transcript() == states[i].transcript(),
            },
            match states[i + 1].controller().phase {
                Phase::Clicking { x, y, .. } => x == states[0].controller().phase->x && y
                    == states[0].controller().phase->y,
                Phase::Stopped => true,
                Phase::WaitingForAnchor => false,
            },
        decreases i,
    {
        if i > 0 {
            Self::law_every_cycle_goes_to_the_anchor(states, readings, steps, i - 1);
        }
        assert(Self::stepped(&states[i], &states[i + 1], readings[i], steps[i]));
    }
}

} // verus!
