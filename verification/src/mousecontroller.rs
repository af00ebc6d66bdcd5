//! The pointer as the click loop sees it.

use vstd::prelude::*;

verus! {

/// What the click loop needs of a pointer: where it is, to put it somewhere,
/// and to click where it is. Each operation may fail with a message.
///
/// Nothing is promised of an implementation: the loop is written for
/// whatever these calls return.
pub trait MouseController {
    /// The pointer's position.
    fn location(&self) -> Result<(i32, i32), String>;

    /// Puts the pointer at the absolute position `(x, y)`.
    fn move_mouse(&mut self, x: i32, y: i32) -> Result<(), String>;

    /// Presses and releases the primary button where the pointer is.
    fn click(&mut self) -> Result<(), String>;
}

/// One request made of a [`MouseController`], with the answer it gave.
pub enum Exchange {
    Location { found: Result<(i32, i32), String> },
    Move { x: i32, y: i32, answer: Result<(), String> },
    Click { answer: Result<(), String> },
}

/// A pointer together with the record of everything that was asked of it
/// and what it answered. The pointer can be reached through this type's
/// three operations only, and each of them adds to the record the request
/// it made and the answer it got, so nothing gets into the record but by a
/// call of the pointer.
pub struct RecordedMouse<M: MouseController> {
    mouse: M,
    record: Ghost<Seq<Exchange>>,
}

impl<M: MouseController> RecordedMouse<M> {
    /// The pointer.
    pub closed spec fn mouse(&self) -> M {
        self.mouse
    }

    /// Every request made of the pointer so far, with its answer, in
    /// order.
    pub closed spec fn record(&self) -> Seq<Exchange> {
        self.record@
    }

    /// `mouse`, with nothing asked of it yet.
    pub fn new(mouse: M) -> (recorded: Self)
        ensures
            recorded.mouse() == mouse,
            recorded.record() == Seq::<Exchange>::empty(),
    {
        RecordedMouse { mouse, record: Ghost(Seq::empty()) }
    }

    /// Asks the pointer where it is.
    pub fn location(&mut self) -> (found: Result<(i32, i32), String>)
        ensures
            final(self).record() == old(self).record().push(Exchange::Location { found }),
            final(self).mouse() == old(self).mouse(),
    {
        let found = self.mouse.location();
        self.record = Ghost(self.record@.push(Exchange::Location { found }));
        found
    }

    /// Asks the pointer to go to `(x, y)`.
    pub fn move_mouse(&mut self, x: i32, y: i32) -> (answer: Result<(), String>)
        ensures
            final(self).record() == old(self).record().push(Exchange::Move { x, y, answer }),
    {
        let answer = self.mouse.move_mouse(x, y);
        self.record = Ghost(self.record@.push(Exchange::Move { x, y, answer }));
        answer
    }

    /// Asks the pointer to click where it is.
    pub fn click(&mut self) -> (answer: Result<(), String>)
        ensures
            final(self).record() == old(self).record().push(Exchange::Click { answer }),
    {
        let answer = self.mouse.click();
        self.record = Ghost(self.record@.push(Exchange::Click { answer }));
        answer
    }
}

} // verus!
