use futures::executor::block_on;
use walk_the_dog::{completion_pair, load_result, plan_image_draw, DrawCommand, LoadError};

#[test]
fn success_then_failure_resolves_with_success() {
    let (mut slot, receiver) = completion_pair();
    assert!(slot.is_pending());
    assert!(slot.succeed());
    assert!(!slot.is_pending());
    assert!(!slot.fail("late error".to_string()));
    let received = block_on(receiver);
    assert!(matches!(received, Ok(Ok(()))));
    assert!(load_result(received).is_ok());
}

#[test]
fn failure_then_success_resolves_with_failure() {
    let (mut slot, receiver) = completion_pair();
    assert!(slot.fail("decode failed".to_string()));
    assert!(!slot.succeed());
    let outcome = load_result(block_on(receiver));
    match &outcome {
        Err(LoadError::Failed(cause)) => assert_eq!(cause, "decode failed"),
        other => panic!("unexpected outcome {:?}", other),
    }
    assert!(plan_image_draw(outcome, 0, 0).is_err());
}

#[test]
fn repeated_fires_of_one_callback_count_once() {
    let (mut slot, receiver) = completion_pair();
    assert!(slot.fail("7".to_string()));
    assert!(!slot.fail("8".to_string()));
    assert!(!slot.fail("9".to_string()));
    let received = block_on(receiver);
    assert_eq!(received, Ok(Err("7".to_string())));
}

#[test]
fn completion_hands_over_the_first_message() {
    let (mut slot, receiver) = completion_pair();
    assert!(slot.complete(Err("first".to_string())));
    assert!(!slot.complete(Ok(())));
    assert_eq!(block_on(receiver), Ok(Err("first".to_string())));
}

#[test]
fn slot_is_paired_only_with_its_own_receiver() {
    let (mut slot, receiver) = completion_pair();
    let (_other_slot, other_receiver) = completion_pair();
    assert!(slot.is_paired_with(&receiver));
    assert!(!slot.is_paired_with(&other_receiver));
    assert!(slot.succeed());
    assert!(!slot.is_paired_with(&receiver));
}

#[test]
fn completion_before_anyone_waits_is_kept() {
    let (mut slot, mut receiver) = completion_pair();
    // The cached-resource path: the host fires while the trigger call runs,
    // before the waiter has polled even once.
    assert!(slot.succeed());
    drop(slot);
    assert!(matches!(receiver.try_recv(), Ok(Some(Ok(())))));
}

#[test]
fn completion_after_waiter_polled_is_delivered() {
    let (mut slot, mut receiver) = completion_pair();
    assert!(matches!(receiver.try_recv(), Ok(None)));
    assert!(slot.succeed());
    assert!(matches!(receiver.try_recv(), Ok(Some(Ok(())))));
}

#[test]
fn dropped_slot_gives_abandoned() {
    let (slot, receiver) = completion_pair();
    drop(slot);
    assert!(matches!(load_result(block_on(receiver)), Err(LoadError::Abandoned)));
}

#[test]
fn loaded_image_is_drawn_whole_at_origin() {
    let (mut slot, receiver) = completion_pair();
    assert!(slot.succeed());
    let loaded = load_result(block_on(receiver));
    let draws: Vec<DrawCommand> = plan_image_draw(loaded, 0, 0).into_iter().collect();
    assert_eq!(draws, vec![DrawCommand::Whole { x: 0, y: 0 }]);
}

#[test]
fn failed_image_load_draws_nothing() {
    let loaded: Result<(), LoadError> = Err(LoadError::Failed("404".to_string()));
    assert!(matches!(plan_image_draw(loaded, 0, 0), Err(LoadError::Failed(ref c)) if c == "404"));
}
