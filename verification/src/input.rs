//! The two-click input protocol.
//!
//! The machine decides; the caller acts. Each event gives the next phase
//! and one action for the caller to perform on the rules model.

use vstd::prelude::*;
use vstd::string::*;
use crate::mapper::{forward, forward_spec};
use crate::promotion::{promotion_choice, promotion_choice_spec, ArrowKey, PromotionKind};
use crate::square::Square;

verus! {

/// Where the machine stands in the two-click protocol.
#[derive(Clone, Copy, Debug, PartialEq, Eq, Structural)]
pub enum Phase {
    /// No move has been started.
    Idle,
    /// The origin of a move has been picked; the next left press gives its
    /// destination.
    AwaitingDestination(Square),
}

/// An input event, as the event loop hands it over.
#[derive(Clone, Copy, Debug, PartialEq, Eq, Structural)]
pub enum InputEvent {
    /// The left mouse button went down with the pointer at (`x`, `y`).
    LeftPress { x: i64, y: i64 },
    /// The right mouse button went down.
    RightPress,
    /// An arrow key went down. `waiting_on_promotion` is what the model
    /// reported when asked at that moment.
    ArrowPress { key: ArrowKey, waiting_on_promotion: bool },
}

/// What the caller is to do after an event.
#[derive(Clone, Copy, Debug, PartialEq, Eq, Structural)]
pub enum Action {
    /// Nothing.
    Nothing,
    /// Ask the model for this move, once, and report how it went.
    MakeMove { origin: Square, destination: Square },
    /// Replace the model by a fresh one in the starting position.
    ResetGame,
    /// Tell the model the promotion kind, once.
    SetPromotion(PromotionKind),
}

/// The one holder of the input phase.
#[derive(Debug)]
pub struct InputStateMachine {
    phase: Phase,
}

/// Phase and action after a left press at pixel (`x`, `y`).
pub open spec fn left_press_spec(phase: Phase, x: int, y: int) -> (Phase, Action) {
    match phase {
        Phase::Idle => (Phase::AwaitingDestination(forward_spec(x, y)), Action::Nothing),
        Phase::AwaitingDestination(origin) => (
            Phase::Idle,
            Action::MakeMove { origin, destination: forward_spec(x, y) },
        ),
    }
}

/// Phase and action after a right press.
pub open spec fn right_press_spec(phase: Phase) -> (Phase, Action) {
    (Phase::Idle, Action::ResetGame)
}

/// Phase and action after a press of an arrow key.
pub open spec fn arrow_press_spec(phase: Phase, key: ArrowKey, waiting: bool) -> (Phase, Action) {
    match promotion_choice_spec(waiting, key) {
        Some(kind) => (phase, Action::SetPromotion(kind)),
        None => (phase, Action::Nothing),
    }
}

/// Phase and action after any event.
pub open spec fn step_spec(phase: Phase, event: InputEvent) -> (Phase, Action) {
    match event {
        InputEvent::LeftPress { x, y } => left_press_spec(phase, x as int, y as int),
        InputEvent::RightPress => right_press_spec(phase),
        InputEvent::ArrowPress { key, waiting_on_promotion } => arrow_press_spec(
            phase,
            key,
            waiting_on_promotion,
        ),
    }
}

/// Phase after a run of events, taken one after the other.
pub open spec fn run_spec(phase: Phase, events: Seq<InputEvent>) -> Phase
    decreases events.len(),
{
    if events.len() == 0 {
        phase
    } else {
        step_spec(run_spec(phase, events.drop_last()), events.last()).0
    }
}

/// The actions that a run of events asks for, in order.
pub open spec fn actions_spec(phase: Phase, events: Seq<InputEvent>) -> Seq<Action>
    decreases events.len(),
{
    if events.len() == 0 {
        Seq::empty()
    } else {
        actions_spec(phase, events.drop_last()).push(
            step_spec(run_spec(phase, events.drop_last()), events.last()).1,
        )
    }
}

impl View for InputStateMachine {
    type V = Phase;

    closed spec fn view(&self) -> Phase {
        self.phase
    }
}

impl InputStateMachine {
    /// A machine in its initial phase, `Idle`.
    pub fn new() -> (m: InputStateMachine)
        ensures
            m@ == Phase::Idle,
    {
        InputStateMachine { phase: Phase::Idle }
    }

    /// The current phase.
    pub fn phase(&self) -> (p: Phase)
        ensures
            p == self@,
    {
        self.phase
    }

    /// A left press at pixel (`x`, `y`). From `Idle` the square under the
    /// pointer becomes the pending origin and nothing is asked of the model.
    /// With an origin pending, the move from it to the square under the
    /// pointer is asked for and the machine is `Idle` again, however the
    /// move will fare.
    pub fn left_press(&mut self, x: i64, y: i64) -> (action: Action)
        ensures
            (final(self)@, action) == left_press_spec(old(self)@, x as int, y as int),
    {
        let target = forward(x, y);
        match self.phase {
            Phase::Idle => {
                self.phase = Phase::AwaitingDestination(target);
                Action::Nothing
            },
            Phase::AwaitingDestination(origin) => {
                self.phase = Phase::Idle;
                Action::MakeMove { origin, destination: target }
            },
        }
    }

    /// A right press: any pending origin is dropped and the whole game is
    /// to start afresh.
    pub fn right_press(&mut self) -> (action: Action)
        ensures
            (final(self)@, action) == right_press_spec(old(self)@),
    {
        self.phase = Phase::Idle;
        Action::ResetGame
    }

    /// A press of an arrow key. The phase stays; the model is told a
    /// promotion kind only if it waits for one.
    pub fn arrow_press(&mut self, key: ArrowKey, waiting_on_promotion: bool) -> (action: Action)
        ensures
            (final(self)@, action) == arrow_press_spec(old(self)@, key, waiting_on_promotion),
    {
        match promotion_choice(waiting_on_promotion, key) {
            Some(kind) => Action::SetPromotion(kind),
            None => Action::Nothing,
        }
    }

    /// Any event: the phase moves on and the result says what to do.
    pub fn handle_event(&mut self, event: InputEvent) -> (action: Action)
        ensures
            (final(self)@, action) == step_spec(old(self)@, event),
    {
        match event {
            InputEvent::LeftPress { x, y } => self.left_press(x, y),
            InputEvent::RightPress => self.right_press(),
            InputEvent::ArrowPress { key, waiting_on_promotion } => self.arrow_press(
                key,
                waiting_on_promotion,
            ),
        }
    }
}

/// The line that reports a move attempt.
pub open spec fn move_report_spec(
    origin: Square,
    destination: Square,
    error: Option<Seq<char>>,
) -> Seq<char> {
    let attempt = origin.name_spec() + "-"@ + destination.name_spec();
    match error {
        None => "OK: "@ + attempt,
        Some(message) => "Error: \""@ + message + "\" at attempted move `"@ + attempt + "`"@,
    }
}

/// What `error` says, as a sequence of characters.
pub open spec fn message_view(error: Option<&str>) -> Option<Seq<char>> {
    match error {
        Some(message) => Some(message@),
        None => None,
    }
}

/// The line that reports a move attempt: the two squares, and the model's
/// message if it refused the move (`error` is `None` if it did not).
pub fn move_report(origin: Square, destination: Square, error: Option<&str>) -> (line: String)
    ensures
        line@ == move_report_spec(origin, destination, message_view(error)),
{
    let from = origin.name();
    let to = destination.name();
    let mut line = match error {
        None => String::from_str("OK: "),
        Some(message) => {
            let mut head = String::from_str("Error: \"");
            head.append(message);
            head.append("\" at attempted move `");
            head
        },
    };
    line.append(from.as_str());
    line.append("-");
    line.append(to.as_str());
    match error {
        None => {},
        Some(_) => {
            line.append("`");
        },
    }
    assert(line@ =~= move_report_spec(origin, destination, message_view(error)));
    line
}

/// Three left presses in a row from `Idle`: the first picks the origin and
/// asks nothing; the second asks for exactly the move between the two
/// squares pressed and leaves the machine `Idle`; the third picks a new
/// origin.
pub proof fn two_click_protocol(first: (int, int), second: (int, int), third: (int, int))
    ensures
        left_press_spec(Phase::Idle, first.0, first.1) == (
            Phase::AwaitingDestination(forward_spec(first.0, first.1)),
            Action::Nothing,
        ),
        left_press_spec(
            Phase::AwaitingDestination(forward_spec(first.0, first.1)),
            second.0,
            second.1,
        ) == (
            Phase::Idle,
            Action::MakeMove {
                origin: forward_spec(first.0, first.1),
                destination: forward_spec(second.0, second.1),
            },
        ),
        left_press_spec(Phase::Idle, third.0, third.1) == (
            Phase::AwaitingDestination(forward_spec(third.0, third.1)),
            Action::Nothing,
        ),
{
}

/// The same, over a run of events: three left presses from `Idle` ask for
/// nothing, then one move, then nothing, and end with an origin pending.
pub proof fn three_presses_make_one_move(a: (i64, i64), b: (i64, i64), c: (i64, i64))
    ensures
        ({
            let events = seq![
                InputEvent::LeftPress { x: a.0, y: a.1 },
                InputEvent::LeftPress { x: b.0, y: b.1 },
                InputEvent::LeftPress { x: c.0, y: c.1 },
            ];
            &&& run_spec(Phase::Idle, events) == Phase::AwaitingDestination(
                forward_spec(c.0 as int, c.1 as int),
            )
            &&& actions_spec(Phase::Idle, events) == seq![
                Action::Nothing,
                Action::MakeMove {
                    origin: forward_spec(a.0 as int, a.1 as int),
                    destination: forward_spec(b.0 as int, b.1 as int),
                },
                Action::Nothing,
            ]
        }),
{
    let e1 = InputEvent::LeftPress { x: a.0, y: a.1 };
    let e2 = InputEvent::LeftPress { x: b.0, y: b.1 };
    let e3 = InputEvent::LeftPress { x: c.0, y: c.1 };
    let s0 = Seq::<InputEvent>::empty();
    let s1 = seq![e1];
    let s2 = seq![e1, e2];
    let s3 = seq![e1, e2, e3];
    assert(s1.drop_last() =~= s0);
    assert(s2.drop_last() =~= s1);
    assert(s3.drop_last() =~= s2);
    assert(run_spec(Phase::Idle, s0) == Phase::Idle);
    assert(actions_spec(Phase::Idle, s0) =~= Seq::<Action>::empty());
    assert(run_spec(Phase::Idle, s1) == Phase::AwaitingDestination(
        forward_spec(a.0 as int, a.1 as int),
    ));
    assert(actions_spec(Phase::Idle, s1) =~= seq![Action::Nothing]);
    assert(run_spec(Phase::Idle, s2) == Phase::Idle);
    assert(actions_spec(Phase::Idle, s2) =~= seq![
        Action::Nothing,
        Action::MakeMove {
            origin: forward_spec(a.0 as int, a.1 as int),
            destination: forward_spec(b.0 as int, b.1 as int),
        },
    ]);
    assert(actions_spec(Phase::Idle, s3) =~= seq![
        Action::Nothing,
        Action::MakeMove {
            origin: forward_spec(a.0 as int, a.1 as int),
            destination: forward_spec(b.0 as int, b.1 as int),
        },
        Action::Nothing,
    ]);
}

/// A right press ends in `Idle` and asks for a fresh game, whatever phase
/// the machine was in and whatever events came before; a second one
/// changes nothing more.
pub proof fn reset_from_any_phase(phase: Phase, events: Seq<InputEvent>)
    ensures
        right_press_spec(phase) == (Phase::Idle, Action::ResetGame),
        run_spec(phase, events.push(InputEvent::RightPress)) == Phase::Idle,
        actions_spec(phase, events.push(InputEvent::RightPress)).last() == Action::ResetGame,
        right_press_spec(right_press_spec(phase).0) == right_press_spec(phase),
{
    let all = events.push(InputEvent::RightPress);
    assert(all.drop_last() =~= events);
    assert(all.last() == InputEvent::RightPress);
}

/// An arrow key never moves the phase. While the model does not wait for a
/// promotion choice it asks for nothing; while it does, it asks for the
/// key's kind.
pub proof fn promotion_is_gated(phase: Phase, key: ArrowKey)
    ensures
        step_spec(phase, InputEvent::ArrowPress { key, waiting_on_promotion: false }) == (
            phase,
            Action::Nothing,
        ),
        step_spec(phase, InputEvent::ArrowPress { key, waiting_on_promotion: true }) == (
            phase,
            Action::SetPromotion(key.kind_spec()),
        ),
{
}

/// A pending origin is held only between the first and the second left
/// press: whenever a move is asked for or the game is reset, the machine
/// is `Idle` afterwards.
pub proof fn origin_is_dropped_after_use(phase: Phase, event: InputEvent)
    ensures
        step_spec(phase, event).1 is MakeMove ==> step_spec(phase, event).0 == Phase::Idle,
        step_spec(phase, event).1 is ResetGame ==> step_spec(phase, event).0 == Phase::Idle,
        step_spec(phase, event).1 is MakeMove ==> phase is AwaitingDestination,
{
}

} // verus!
