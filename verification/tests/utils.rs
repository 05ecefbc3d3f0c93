use std::time::Duration;
use steam_bridge::bridge::BridgeError;
use steam_bridge::notifier::{channel, classify, WaitOutcome};
use steam_bridge::socket::SendFailure;
use steam_bridge::utils::{
    floating_text_input_result, gamepad_text_input_outcome, FloatingGamepadTextInputMode,
    GamepadTextInputLineMode, GamepadTextInputMode,
};
use tokio::runtime::Builder;
use tokio::sync::oneshot::Receiver;

/// One time unit of these tests, in milliseconds.
const UNIT: u64 = 20;

fn wait<T>(receiver: Receiver<T>, units: u64) -> WaitOutcome<T> {
    let runtime = Builder::new_current_thread().enable_time().build().unwrap();
    classify(runtime.block_on(async {
        tokio::time::timeout(Duration::from_millis(units * UNIT), receiver).await
    }))
}

#[test]
fn dialog_that_did_not_open_yields_nothing() {
    assert_eq!(gamepad_text_input_outcome(false, None), Ok(None));
    assert_eq!(
        gamepad_text_input_outcome(false, Some(WaitOutcome::Delivered(Some(String::from("typed"))))),
        Ok(None)
    );
    assert_eq!(gamepad_text_input_outcome(false, Some(WaitOutcome::TimedOut)), Ok(None));
}

#[test]
fn submitted_text_is_returned() {
    assert_eq!(
        gamepad_text_input_outcome(true, Some(WaitOutcome::Delivered(Some(String::from("typed"))))),
        Ok(Some(String::from("typed")))
    );
    assert_eq!(
        gamepad_text_input_outcome(true, Some(WaitOutcome::Delivered(Some(String::new())))),
        Ok(Some(String::new()))
    );
}

#[test]
fn cancelled_dialog_yields_nothing() {
    assert_eq!(gamepad_text_input_outcome(true, Some(WaitOutcome::Delivered(None))), Ok(None));
}

#[test]
fn dialog_that_is_never_dismissed_times_out() {
    assert_eq!(
        gamepad_text_input_outcome(true, Some(WaitOutcome::TimedOut)),
        Err(BridgeError::RequestTimeout)
    );
    let (_producer, receiver) = channel::<Option<String>>();
    assert_eq!(
        gamepad_text_input_outcome(true, Some(wait(receiver, 1))),
        Err(BridgeError::RequestTimeout)
    );
}

#[test]
fn dialog_whose_notifier_broke_is_an_internal_error() {
    assert_eq!(
        gamepad_text_input_outcome(true, Some(WaitOutcome::ProducerDropped)),
        Err(BridgeError::BridgeInternalError)
    );
    assert_eq!(gamepad_text_input_outcome(true, None), Err(BridgeError::BridgeInternalError));
    let (producer, receiver) = channel::<Option<String>>();
    drop(producer);
    assert_eq!(
        gamepad_text_input_outcome(true, Some(wait(receiver, 10))),
        Err(BridgeError::BridgeInternalError)
    );
}

#[test]
fn dismissed_dialog_delivers_through_the_channel() {
    let (mut producer, receiver) = channel::<Option<String>>();
    producer.send(Some(String::from("hello")));
    assert_eq!(
        gamepad_text_input_outcome(true, Some(wait(receiver, 10))),
        Ok(Some(String::from("hello")))
    );
}

#[test]
fn floating_keyboard_result() {
    assert_eq!(floating_text_input_result(false, None), Ok(false));
    assert_eq!(floating_text_input_result(false, Some(WaitOutcome::Delivered(true))), Ok(false));
    assert_eq!(floating_text_input_result(true, Some(WaitOutcome::Delivered(true))), Ok(true));
    assert_eq!(floating_text_input_result(true, Some(WaitOutcome::Delivered(false))), Ok(false));
}

#[test]
fn floating_keyboard_whose_handler_was_dropped_is_an_internal_error() {
    let (producer, receiver) = channel::<bool>();
    drop(producer);
    assert_eq!(
        floating_text_input_result(true, Some(wait(receiver, 10))),
        Err(BridgeError::BridgeInternalError)
    );
    assert_eq!(floating_text_input_result(true, None), Err(BridgeError::BridgeInternalError));
}

#[test]
fn floating_keyboard_that_is_never_dismissed_times_out() {
    let (_producer, receiver) = channel::<bool>();
    assert_eq!(
        floating_text_input_result(true, Some(wait(receiver, 1))),
        Err(BridgeError::RequestTimeout)
    );
}

#[test]
fn text_input_modes_compare_by_variant() {
    assert_ne!(GamepadTextInputMode::Normal, GamepadTextInputMode::Password);
    assert_ne!(GamepadTextInputLineMode::SingleLine, GamepadTextInputLineMode::MultipleLines);
    assert_ne!(FloatingGamepadTextInputMode::Email, FloatingGamepadTextInputMode::Numeric);
}

#[test]
fn send_failures_have_their_reasons() {
    assert_eq!(SendFailure::MessageTooBig.reason(), "Message is too big");
    assert_eq!(
        SendFailure::InvalidState.reason(),
        "Connection is not in a valid state to send messages"
    );
    assert_eq!(SendFailure::NoConnection.reason(), "No connection exists");
    assert_eq!(
        SendFailure::Dropped.reason(),
        "NO_DELAY flag was set and the message was dropped because we were not ready to send it"
    );
    assert_eq!(SendFailure::QueueFull.reason(), "Too much data was in queue to be sent");
    assert_eq!(SendFailure::Unknown.reason(), "An unknown error occurred while sending message");
}
