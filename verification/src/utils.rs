//! The text-input dialogs: their modes, and what a dialog's caller gets once
//! the native layer has said whether the dialog opened and, if it did, the
//! dismissal has been waited for, with a deadline as for every request.

use crate::bridge::BridgeError;
use crate::notifier::WaitOutcome;
use vstd::prelude::*;

verus! {

/// How the full-screen gamepad text dialog shows what is typed.
#[derive(Clone, Copy, Debug, PartialEq, Eq, Structural)]
pub enum GamepadTextInputMode {
    Normal,
    Password,
}

/// How many lines the full-screen gamepad text dialog takes.
#[derive(Clone, Copy, Debug, PartialEq, Eq, Structural)]
pub enum GamepadTextInputLineMode {
    SingleLine,
    MultipleLines,
}

/// The layout of the floating keyboard.
#[derive(Clone, Copy, Debug, PartialEq, Eq, Structural)]
pub enum FloatingGamepadTextInputMode {
    SingleLine,
    MultipleLines,
    Email,
    Numeric,
}

/// What the caller of a dialog gets. A dialog that did not open yields
/// `unopened` at once. One that opened is waited for with a deadline, and
/// yields the value its dismissal sent, `RequestTimeout` where the deadline
/// passed first, and `BridgeInternalError` where the notifier broke: its
/// producer went away without sending, or no wait was made at all.
pub open spec fn dialog_outcome<T>(
    opened: bool,
    waited: Option<WaitOutcome<T>>,
    unopened: T,
) -> Result<T, BridgeError> {
    if !opened {
        Ok(unopened)
    } else {
        match waited {
            Some(WaitOutcome::Delivered(value)) => Ok(value),
            Some(WaitOutcome::TimedOut) => Err(BridgeError::RequestTimeout),
            Some(WaitOutcome::ProducerDropped) => Err(BridgeError::BridgeInternalError),
            None => Err(BridgeError::BridgeInternalError),
        }
    }
}

/// What `show_gamepad_text_input` returns. `opened` is the native layer's
/// answer to the request to show the dialog; `waited` is how the bounded wait
/// for its dismissal ended, and `None` where no wait was made. The text is
/// `None` where the dialog did not open or was dismissed without text.
pub fn gamepad_text_input_outcome(
    opened: bool,
    waited: Option<WaitOutcome<Option<String>>>,
) -> (text: Result<Option<String>, BridgeError>)
    ensures
        text == dialog_outcome(opened, waited, None::<String>),
{
    if !opened {
        Ok(None)
    } else {
        match waited {
            Some(WaitOutcome::Delivered(text)) => Ok(text),
            Some(WaitOutcome::TimedOut) => Err(BridgeError::RequestTimeout),
            Some(WaitOutcome::ProducerDropped) => Err(BridgeError::BridgeInternalError),
            None => Err(BridgeError::BridgeInternalError),
        }
    }
}

/// What `show_floating_gamepad_text_input` returns: `false` where the
/// keyboard did not open, the value that its dismissal sent where it did, and
/// the error where the wait for the dismissal ended without one.
pub fn floating_text_input_result(opened: bool, waited: Option<WaitOutcome<bool>>) -> (shown:
    Result<bool, BridgeError>)
    ensures
        shown == dialog_outcome(opened, waited, false),
{
    if !opened {
        Ok(false)
    } else {
        match waited {
            Some(WaitOutcome::Delivered(value)) => Ok(value),
            Some(WaitOutcome::TimedOut) => Err(BridgeError::RequestTimeout),
            Some(WaitOutcome::ProducerDropped) => Err(BridgeError::BridgeInternalError),
            None => Err(BridgeError::BridgeInternalError),
        }
    }
}

} // verus!
