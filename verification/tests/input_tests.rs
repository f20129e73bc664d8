use chess_gui::input::{move_report, Action, InputEvent, InputStateMachine, Phase};
use chess_gui::promotion::{ArrowKey, PromotionKind};
use chess_gui::square::{File, Rank, Square};

const A8: Square = Square { file: File::A, rank: Rank::Eight };
const H1: Square = Square { file: File::H, rank: Rank::One };
const E4: Square = Square { file: File::E, rank: Rank::Four };

#[test]
fn machine_starts_idle() {
    assert_eq!(InputStateMachine::new().phase(), Phase::Idle);
}

#[test]
fn two_clicks_make_one_move_from_a8_to_h1() {
    let mut m = InputStateMachine::new();
    assert_eq!(m.left_press(650, 50), Action::Nothing);
    assert_eq!(m.phase(), Phase::AwaitingDestination(A8));
    assert_eq!(
        m.left_press(10, 650),
        Action::MakeMove { origin: A8, destination: H1 }
    );
    assert_eq!(m.phase(), Phase::Idle);
}

#[test]
fn third_click_starts_a_new_move() {
    let mut m = InputStateMachine::new();
    m.left_press(650, 50);
    m.left_press(10, 650);
    assert_eq!(m.left_press(315, 405), Action::Nothing);
    assert_eq!(m.phase(), Phase::AwaitingDestination(E4));
    assert_eq!(
        m.left_press(315, 405),
        Action::MakeMove { origin: E4, destination: E4 }
    );
    assert_eq!(m.phase(), Phase::Idle);
}

#[test]
fn right_press_resets_from_idle() {
    let mut m = InputStateMachine::new();
    assert_eq!(m.right_press(), Action::ResetGame);
    assert_eq!(m.phase(), Phase::Idle);
}

#[test]
fn right_press_drops_a_pending_origin() {
    let mut m = InputStateMachine::new();
    m.left_press(650, 50);
    assert_eq!(m.right_press(), Action::ResetGame);
    assert_eq!(m.phase(), Phase::Idle);
    assert_eq!(m.right_press(), Action::ResetGame);
    assert_eq!(m.phase(), Phase::Idle);
    assert_eq!(m.left_press(10, 650), Action::Nothing);
    assert_eq!(m.phase(), Phase::AwaitingDestination(H1));
}

#[test]
fn right_press_resets_after_any_number_of_left_presses() {
    for n in 0..7 {
        let mut m = InputStateMachine::new();
        for i in 0..n {
            m.left_press(100 * i, 50 * i);
        }
        assert_eq!(m.right_press(), Action::ResetGame);
        assert_eq!(m.phase(), Phase::Idle);
    }
}

#[test]
fn phase_persists_across_arrow_keys() {
    let mut m = InputStateMachine::new();
    m.left_press(650, 50);
    assert_eq!(m.arrow_press(ArrowKey::Up, false), Action::Nothing);
    assert_eq!(m.phase(), Phase::AwaitingDestination(A8));
    assert_eq!(
        m.arrow_press(ArrowKey::Up, true),
        Action::SetPromotion(PromotionKind::Rook)
    );
    assert_eq!(m.phase(), Phase::AwaitingDestination(A8));
}

#[test]
fn arrow_keys_are_ignored_unless_the_model_waits() {
    for key in [ArrowKey::Left, ArrowKey::Up, ArrowKey::Right, ArrowKey::Down] {
        let mut m = InputStateMachine::new();
        let event = InputEvent::ArrowPress { key, waiting_on_promotion: false };
        assert_eq!(m.handle_event(event), Action::Nothing);
        assert_eq!(m.phase(), Phase::Idle);
    }
}

#[test]
fn arrow_keys_set_the_promotion_while_the_model_waits() {
    let cases = [
        (ArrowKey::Left, PromotionKind::Queen),
        (ArrowKey::Up, PromotionKind::Rook),
        (ArrowKey::Right, PromotionKind::Bishop),
        (ArrowKey::Down, PromotionKind::Knight),
    ];
    for (key, kind) in cases {
        let mut m = InputStateMachine::new();
        let event = InputEvent::ArrowPress { key, waiting_on_promotion: true };
        assert_eq!(m.handle_event(event), Action::SetPromotion(kind));
        assert_eq!(m.phase(), Phase::Idle);
    }
}

#[test]
fn handle_event_follows_the_protocol() {
    let mut m = InputStateMachine::new();
    let events = [
        InputEvent::LeftPress { x: 650, y: 50 },
        InputEvent::ArrowPress { key: ArrowKey::Down, waiting_on_promotion: false },
        InputEvent::LeftPress { x: 10, y: 650 },
        InputEvent::ArrowPress { key: ArrowKey::Down, waiting_on_promotion: true },
        InputEvent::LeftPress { x: -4, y: 9000 },
        InputEvent::RightPress,
    ];
    let actions: Vec<Action> = events.iter().map(|e| m.handle_event(*e)).collect();
    assert_eq!(
        actions,
        vec![
            Action::Nothing,
            Action::Nothing,
            Action::MakeMove { origin: A8, destination: H1 },
            Action::SetPromotion(PromotionKind::Knight),
            Action::Nothing,
            Action::ResetGame,
        ]
    );
    assert_eq!(m.phase(), Phase::Idle);
}

#[test]
fn move_report_of_an_accepted_move() {
    assert_eq!(move_report(A8, H1, None), "OK: a8-h1");
}

#[test]
fn move_report_of_a_refused_move() {
    assert_eq!(
        move_report(E4, A8, Some("illegal move")),
        "Error: \"illegal move\" at attempted move `e4-a8`"
    );
    assert_eq!(
        move_report(E4, E4, Some("")),
        "Error: \"\" at attempted move `e4-e4`"
    );
}
