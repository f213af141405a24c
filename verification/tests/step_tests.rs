use jsm_form::web::step::{Checkpoint, Handling, StepController};

#[test]
fn disabled_controller_numbers_without_blocking() {
    let mut c = StepController::new(false, &[2]);
    assert!(!c.enabled());
    for expected in 1..=5usize {
        assert!(c.can_pause());
        assert_eq!(c.pause(), Checkpoint { number: expected, handling: Handling::Pass });
    }
    assert_eq!(c.steps_taken(), 5);
}

#[test]
fn numbering_is_the_same_enabled_or_not() {
    let mut off = StepController::new(false, &[]);
    let mut on = StepController::new(true, &[]);
    for _ in 0..7 {
        assert_eq!(off.pause().number, on.pause().number);
    }
    assert_eq!(off.steps_taken(), on.steps_taken());
}

#[test]
fn skip_set_skips_only_listed_numbers() {
    let mut c = StepController::new(true, &[2]);
    assert!(c.enabled());
    assert_eq!(c.pause(), Checkpoint { number: 1, handling: Handling::Block });
    assert_eq!(c.pause(), Checkpoint { number: 2, handling: Handling::Skip });
    assert_eq!(c.pause(), Checkpoint { number: 3, handling: Handling::Block });
}

#[test]
fn skip_list_may_repeat_and_be_unordered() {
    let mut c = StepController::new(true, &[3, 1, 3]);
    assert_eq!(c.pause().handling, Handling::Skip);
    assert_eq!(c.pause().handling, Handling::Block);
    assert_eq!(c.pause().handling, Handling::Skip);
    assert_eq!(c.pause().handling, Handling::Block);
}

#[test]
fn new_controller_has_taken_no_step() {
    let c = StepController::new(true, &[1]);
    assert_eq!(c.steps_taken(), 0);
    assert!(c.can_pause());
}

#[test]
fn try_pause_numbers_like_pause() {
    let mut a = StepController::new(true, &[2]);
    let mut b = StepController::new(true, &[2]);
    for _ in 0..4 {
        assert_eq!(a.try_pause(), Some(b.pause()));
    }
    assert_eq!(a.steps_taken(), 4);
}
