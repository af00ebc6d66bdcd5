use std::sync::atomic::AtomicUsize;
use std::sync::atomic::Ordering;
use std::sync::Arc;
use std::sync::Mutex;

use auto_clicker::autoclicker::AutoClicker;
use auto_clicker::autoclicker::CycleError;
use auto_clicker::autoclicker::Step;
use auto_clicker::controller::Phase;
use auto_clicker::mousecontroller::MouseController;

#[derive(Clone)]
pub struct MockMouseController {
    pub location_calls: Arc<AtomicUsize>,
    pub move_calls: Arc<AtomicUsize>,
    pub click_calls: Arc<AtomicUsize>,
}

impl MockMouseController {
    pub fn new() -> Self {
        Self {
            location_calls: Arc::new(AtomicUsize::new(0)),
            move_calls: Arc::new(AtomicUsize::new(0)),
            click_calls: Arc::new(AtomicUsize::new(0)),
        }
    }
}

impl MouseController for MockMouseController {
    fn location(&self) -> Result<(i32, i32), String> {
        self.location_calls.fetch_add(1, Ordering::SeqCst);
        Ok((100, 200))
    }

    fn move_mouse(&mut self, _x: i32, _y: i32) -> Result<(), String> {
        self.move_calls.fetch_add(1, Ordering::SeqCst);
        Ok(())
    }

    fn click(&mut self) -> Result<(), String> {
        self.click_calls.fetch_add(1, Ordering::SeqCst);
        Ok(())
    }
}

/// A request made of the pointer.
#[derive(Clone, Copy, Debug, PartialEq, Eq)]
enum MouseCall {
    Location,
    Move { x: i32, y: i32 },
    Click,
}

/// A pointer that writes down what it is asked and fails where it is told to.
#[derive(Clone)]
struct ScriptedMouse {
    calls: Arc<Mutex<Vec<MouseCall>>>,
    /// The pointer is at `(100 + n, 200 + n)` when asked for the n-th time, from 0.
    drifting: bool,
    fail_location: bool,
    /// The moves that fail, counted from 1.
    failing_moves: Vec<usize>,
    /// The clicks that fail, counted from 1.
    failing_clicks: Vec<usize>,
}

impl ScriptedMouse {
    fn new() -> Self {
        ScriptedMouse {
            calls: Arc::new(Mutex::new(Vec::new())),
            drifting: false,
            fail_location: false,
            failing_moves: Vec::new(),
            failing_clicks: Vec::new(),
        }
    }

    fn calls(&self) -> Vec<MouseCall> {
        self.calls.lock().unwrap().clone()
    }

    fn count(&self, wanted: fn(&MouseCall) -> bool) -> usize {
        self.calls().iter().filter(|c| wanted(c)).count()
    }

    fn moves(&self) -> usize {
        self.count(|c| matches!(c, MouseCall::Move { .. }))
    }

    fn clicks(&self) -> usize {
        self.count(|c| matches!(c, MouseCall::Click))
    }

    fn locations(&self) -> usize {
        self.count(|c| matches!(c, MouseCall::Location))
    }
}

impl MouseController for ScriptedMouse {
    fn location(&self) -> Result<(i32, i32), String> {
        let asked = self.locations() as i32;
        self.calls.lock().unwrap().push(MouseCall::Location);
        if self.fail_location {
            Err("no display".to_string())
        } else if self.drifting {
            Ok((100 + asked, 200 + asked))
        } else {
            Ok((100, 200))
        }
    }

    fn move_mouse(&mut self, x: i32, y: i32) -> Result<(), String> {
        self.calls.lock().unwrap().push(MouseCall::Move { x, y });
        if self.failing_moves.contains(&self.moves()) {
            Err("move refused".to_string())
        } else {
            Ok(())
        }
    }

    fn click(&mut self) -> Result<(), String> {
        self.calls.lock().unwrap().push(MouseCall::Click);
        if self.failing_clicks.contains(&self.clicks()) {
            Err("click refused".to_string())
        } else {
            Ok(())
        }
    }
}

/// Drives the click loop as a program would, without sleeping. After
/// `cycles_before_stop` click cycles the flag is set to stopped. Returns the
/// steps taken.
fn drive(clicker: &mut AutoClicker<ScriptedMouse>, cycles_before_stop: usize) -> Vec<Step> {
    let flag = clicker.get_running();
    let mut steps = Vec::new();
    let mut cycles = 0;
    loop {
        let step = clicker.poll();
        let done = matches!(step, Step::Finished | Step::AwaitAnchor);
        if matches!(step, Step::Cycle { .. }) {
            cycles += 1;
            if cycles == cycles_before_stop {
                flag.store(false, Ordering::SeqCst);
            }
        }
        steps.push(step);
        if done {
            return steps;
        }
    }
}

#[test]
fn test_autoclicker_new() {
    let mouse = MockMouseController::new();
    let click_interval_secs = 1;
    let auto_clicker = AutoClicker::new(mouse, click_interval_secs);

    assert_eq!(auto_clicker.get_click_interval_secs(), 1);
    assert!(auto_clicker.get_running().load(Ordering::SeqCst));
}

#[test]
fn test_run_stops_after_escape() {
    let mouse = MockMouseController::new();
    let mut auto_clicker = AutoClicker::new(mouse.clone(), 1);
    let running_flag = auto_clicker.get_running();

    // the left click, and escape right after it
    let (x, y) = auto_clicker.anchor_chosen().unwrap().unwrap();
    running_flag.store(false, Ordering::SeqCst);

    for _ in 0..2 {
        if !auto_clicker.get_running().load(Ordering::SeqCst) {
            break;
        }
        auto_clicker.do_one_click(x, y).unwrap();
    }

    assert!(!auto_clicker.get_running().load(Ordering::SeqCst));
    assert_eq!(auto_clicker.poll(), Step::Finished);
    assert_eq!(mouse.move_calls.load(Ordering::SeqCst), 0);
    assert_eq!(mouse.click_calls.load(Ordering::SeqCst), 0);
}

#[test]
fn test_do_one_click_calls_mouse_methods() {
    let mouse = MockMouseController::new();
    let mut auto_clicker = AutoClicker::new(mouse.clone(), 1);
    auto_clicker.do_one_click(10, 10).unwrap();
    assert_eq!(mouse.move_calls.load(Ordering::SeqCst), 1);
    assert_eq!(mouse.click_calls.load(Ordering::SeqCst), 1);
}

#[test]
fn test_do_one_click_and_run_click_loop() {
    let mouse = MockMouseController::new();
    let mut auto_clicker = AutoClicker::new(mouse.clone(), 1);

    let (x, y) = (50, 60);

    auto_clicker.do_one_click(x, y).unwrap();
    assert_eq!(mouse.move_calls.load(Ordering::SeqCst), 1);
    assert_eq!(mouse.click_calls.load(Ordering::SeqCst), 1);

    auto_clicker.get_running().store(true, Ordering::SeqCst);
    let mut auto_clicker_clone = auto_clicker;

    for _ in 0..3 {
        auto_clicker_clone.do_one_click(x, y).unwrap();
    }
    auto_clicker_clone.get_running().store(false, Ordering::SeqCst);

    assert!(mouse.move_calls.load(Ordering::SeqCst) >= 3);
    assert!(mouse.click_calls.load(Ordering::SeqCst) >= 3);
    assert_eq!(mouse.move_calls.load(Ordering::SeqCst), 4);
    assert_eq!(mouse.click_calls.load(Ordering::SeqCst), 4);
    assert!(!auto_clicker_clone.get_running().load(Ordering::SeqCst));
}

#[test]
fn new_clicker_waits_and_has_asked_nothing() {
    let mouse = ScriptedMouse::new();
    let clicker = AutoClicker::new(mouse.clone(), 42);
    assert_eq!(clicker.get_click_interval_secs(), 42);
    assert_eq!(clicker.get_phase(), Phase::WaitingForAnchor);
    assert!(mouse.calls().is_empty());
}

#[test]
fn running_handle_is_the_clickers_own_flag() {
    let mut clicker = AutoClicker::new(ScriptedMouse::new(), 1);
    let first = clicker.get_running();
    let second = clicker.get_running();
    assert!(Arc::ptr_eq(&first, &second));
    clicker.anchor_chosen().unwrap();
    first.store(false, Ordering::SeqCst);
    assert!(!second.load(Ordering::SeqCst));
    assert_eq!(clicker.poll(), Step::Finished);
}

#[test]
fn one_cycle_moves_then_clicks() {
    let mouse = ScriptedMouse::new();
    let mut clicker = AutoClicker::new(mouse.clone(), 1);
    assert_eq!(clicker.do_one_click(10, -20), Ok(()));
    assert_eq!(
        mouse.calls(),
        vec![MouseCall::Move { x: 10, y: -20 }, MouseCall::Click]
    );
    assert_eq!(clicker.do_one_click(3, 4), Ok(()));
    assert_eq!(
        mouse.calls(),
        vec![
            MouseCall::Move { x: 10, y: -20 },
            MouseCall::Click,
            MouseCall::Move { x: 3, y: 4 },
            MouseCall::Click,
        ]
    );
    assert_eq!(clicker.get_phase(), Phase::WaitingForAnchor);
}

#[test]
fn failed_move_skips_the_click() {
    let mut mouse = ScriptedMouse::new();
    mouse.failing_moves = vec![1];
    let mut clicker = AutoClicker::new(mouse.clone(), 1);
    assert_eq!(
        clicker.do_one_click(1, 2),
        Err(CycleError::Move("move refused".to_string()))
    );
    assert_eq!(mouse.calls(), vec![MouseCall::Move { x: 1, y: 2 }]);
}

#[test]
fn failed_click_is_reported_after_the_move() {
    let mut mouse = ScriptedMouse::new();
    mouse.failing_clicks = vec![1];
    let mut clicker = AutoClicker::new(mouse.clone(), 1);
    assert_eq!(
        clicker.do_one_click(1, 2),
        Err(CycleError::Click("click refused".to_string()))
    );
    assert_eq!(
        mouse.calls(),
        vec![MouseCall::Move { x: 1, y: 2 }, MouseCall::Click]
    );
}

#[test]
fn nothing_is_asked_before_the_anchor() {
    let mouse = ScriptedMouse::new();
    let mut clicker = AutoClicker::new(mouse.clone(), 1);
    for running in [true, true, false, true] {
        assert_eq!(clicker.advance(running), Step::AwaitAnchor);
    }
    assert_eq!(clicker.poll(), Step::AwaitAnchor);
    clicker.get_running().store(false, Ordering::SeqCst);
    assert_eq!(clicker.poll(), Step::AwaitAnchor);
    assert_eq!(clicker.get_phase(), Phase::WaitingForAnchor);
    assert!(mouse.calls().is_empty());
}

#[test]
fn anchor_is_the_location_at_the_notification() {
    let mut mouse = ScriptedMouse::new();
    mouse.drifting = true;
    let mut clicker = AutoClicker::new(mouse.clone(), 1);
    assert_eq!(clicker.anchor_chosen(), Ok(Some((100, 200))));
    assert_eq!(
        clicker.get_phase(),
        Phase::Clicking { x: 100, y: 200, remaining: 0 }
    );
    assert_eq!(clicker.anchor_chosen(), Ok(None));
    for _ in 0..3 {
        assert_eq!(
            clicker.advance(true),
            Step::Cycle { x: 100, y: 200, outcome: Ok(()) }
        );
        assert_eq!(clicker.advance(true), Step::Sleep);
        assert_eq!(clicker.anchor_chosen(), Ok(None));
    }
    assert_eq!(mouse.locations(), 1);
    assert_eq!(
        mouse.calls(),
        vec![
            MouseCall::Location,
            MouseCall::Move { x: 100, y: 200 },
            MouseCall::Click,
            MouseCall::Move { x: 100, y: 200 },
            MouseCall::Click,
            MouseCall::Move { x: 100, y: 200 },
            MouseCall::Click,
        ]
    );
}

#[test]
fn failed_location_leaves_the_loop_waiting() {
    let mut mouse = ScriptedMouse::new();
    mouse.fail_location = true;
    let mut clicker = AutoClicker::new(mouse.clone(), 1);
    assert_eq!(clicker.anchor_chosen(), Err("no display".to_string()));
    assert_eq!(clicker.get_phase(), Phase::WaitingForAnchor);
    assert_eq!(clicker.poll(), Step::AwaitAnchor);
    assert_eq!(mouse.calls(), vec![MouseCall::Location]);
}

#[test]
fn closed_channel_ends_the_wait_for_good() {
    let mouse = ScriptedMouse::new();
    let mut clicker = AutoClicker::new(mouse.clone(), 1);
    assert!(clicker.channel_closed());
    assert_eq!(clicker.get_phase(), Phase::Stopped);
    assert_eq!(clicker.anchor_chosen(), Ok(None));
    assert_eq!(clicker.poll(), Step::Finished);
    assert!(!clicker.channel_closed());
    assert!(mouse.calls().is_empty());
    assert!(clicker.get_running().load(Ordering::SeqCst));
}

#[test]
fn three_cycles_then_stop() {
    let mouse = ScriptedMouse::new();
    let mut clicker = AutoClicker::new(mouse.clone(), 1);
    assert_eq!(clicker.anchor_chosen(), Ok(Some((100, 200))));
    let steps = drive(&mut clicker, 3);
    assert_eq!(
        steps,
        vec![
            Step::Cycle { x: 100, y: 200, outcome: Ok(()) },
            Step::Sleep,
            Step::Cycle { x: 100, y: 200, outcome: Ok(()) },
            Step::Sleep,
            Step::Cycle { x: 100, y: 200, outcome: Ok(()) },
            Step::Finished,
        ]
    );
    assert_eq!(mouse.moves(), 3);
    assert_eq!(mouse.clicks(), 3);
    let expected: Vec<MouseCall> = vec![
        MouseCall::Location,
        MouseCall::Move { x: 100, y: 200 },
        MouseCall::Click,
        MouseCall::Move { x: 100, y: 200 },
        MouseCall::Click,
        MouseCall::Move { x: 100, y: 200 },
        MouseCall::Click,
    ];
    assert_eq!(mouse.calls(), expected);
    assert_eq!(clicker.get_phase(), Phase::Stopped);
}

#[test]
fn failed_move_in_second_cycle_does_not_stop_the_loop() {
    let mut mouse = ScriptedMouse::new();
    mouse.failing_moves = vec![2];
    let mut clicker = AutoClicker::new(mouse.clone(), 1);
    clicker.anchor_chosen().unwrap();
    let steps = drive(&mut clicker, 3);
    assert_eq!(
        steps,
        vec![
            Step::Cycle { x: 100, y: 200, outcome: Ok(()) },
            Step::Sleep,
            Step::Cycle {
                x: 100,
                y: 200,
                outcome: Err(CycleError::Move("move refused".to_string())),
            },
            Step::Sleep,
            Step::Cycle { x: 100, y: 200, outcome: Ok(()) },
            Step::Finished,
        ]
    );
    assert_eq!(mouse.moves(), 3);
    assert_eq!(mouse.clicks(), 2);
    assert_eq!(
        mouse.calls(),
        vec![
            MouseCall::Location,
            MouseCall::Move { x: 100, y: 200 },
            MouseCall::Click,
            MouseCall::Move { x: 100, y: 200 },
            MouseCall::Move { x: 100, y: 200 },
            MouseCall::Click,
        ]
    );
}

#[test]
fn failed_cycle_leaves_the_flag_and_the_wait_alone() {
    let mut mouse = ScriptedMouse::new();
    mouse.failing_moves = vec![1];
    mouse.failing_clicks = vec![1];
    let mut clicker = AutoClicker::new(mouse.clone(), 2);
    clicker.anchor_chosen().unwrap();
    assert!(matches!(
        clicker.poll(),
        Step::Cycle { outcome: Err(CycleError::Move(_)), .. }
    ));
    assert!(clicker.get_running().load(Ordering::SeqCst));
    assert_eq!(
        clicker.get_phase(),
        Phase::Clicking { x: 100, y: 200, remaining: 2 }
    );
    assert_eq!(clicker.poll(), Step::Sleep);
    assert_eq!(clicker.poll(), Step::Sleep);
    assert!(matches!(
        clicker.poll(),
        Step::Cycle { outcome: Err(CycleError::Click(_)), .. }
    ));
    assert!(clicker.get_running().load(Ordering::SeqCst));
    assert_eq!(clicker.poll(), Step::Sleep);
}

#[test]
fn no_cycle_starts_once_stopped() {
    let mouse = ScriptedMouse::new();
    let mut clicker = AutoClicker::new(mouse.clone(), 1);
    clicker.anchor_chosen().unwrap();
    assert!(matches!(clicker.poll(), Step::Cycle { .. }));
    clicker.get_running().store(false, Ordering::SeqCst);
    let asked = mouse.calls();
    for _ in 0..5 {
        assert_eq!(clicker.poll(), Step::Finished);
    }
    // stopped stays stopped, whatever the flag reads later
    clicker.get_running().store(true, Ordering::SeqCst);
    assert_eq!(clicker.poll(), Step::Finished);
    assert_eq!(clicker.advance(true), Step::Finished);
    assert_eq!(mouse.calls(), asked);
    assert_eq!(clicker.get_phase(), Phase::Stopped);
}

#[test]
fn stop_during_a_wait_ends_it_at_the_next_poll() {
    let mouse = ScriptedMouse::new();
    let mut clicker = AutoClicker::new(mouse.clone(), 3600);
    clicker.anchor_chosen().unwrap();
    assert!(matches!(clicker.poll(), Step::Cycle { .. }));
    assert_eq!(clicker.poll(), Step::Sleep);
    assert_eq!(clicker.poll(), Step::Sleep);
    clicker.get_running().store(false, Ordering::SeqCst);
    assert_eq!(clicker.poll(), Step::Finished);
    assert_eq!(mouse.moves(), 1);
    assert_eq!(mouse.clicks(), 1);
}

#[test]
fn poll_reads_the_flag() {
    let mut clicker = AutoClicker::new(ScriptedMouse::new(), 5);
    clicker.anchor_chosen().unwrap();
    assert_eq!(
        clicker.poll(),
        Step::Cycle { x: 100, y: 200, outcome: Ok(()) }
    );
    assert_eq!(clicker.poll(), Step::Sleep);
    clicker.get_running().store(false, Ordering::SeqCst);
    assert_eq!(clicker.poll(), Step::Finished);
}
