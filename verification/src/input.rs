//! Controllers and the enumerations of the input interface.

pub use crate::origins::InputActionOrigins;
use crate::utils::FloatingGamepadTextInputMode;
use vstd::prelude::*;
use vstd::string::StringSliceAdditionalSpecFns;

verus! {

/// The kinds of controller the native layer tells apart.
#[derive(Clone, Copy, Debug, PartialEq, Eq, Structural)]
pub enum InputType {
    Unknown,
    SteamController,
    XBox360Controller,
    XBoxOneController,
    GenericGamepad,
    PS4Controller,
    AppleMFiController,
    AndroidController,
    SwitchJoyConPair,
    SwitchJoyConSingle,
    SwitchProController,
    MobileTouch,
    PS3Controller,
    PS5Controller,
    SteamDeckController,
}

/// The two motors of a controller.
#[derive(Clone, Copy, Debug, PartialEq, Eq, Structural)]
pub enum VibrateSide {
    Left,
    Right,
}

/// The kinds of on-screen keyboard.
#[derive(Clone, Copy, Debug, PartialEq, Eq, Hash, Structural)]
pub enum KeyboardInputKind {
    /// Closes when Enter is pressed.
    SingleLine,
    /// Closes when the user asks for it.
    MultiLine,
    /// Laid out for typing an e-mail address.
    Email,
    /// Laid out for typing numbers.
    Numeric,
}

impl KeyboardInputKind {
    /// The floating keyboard layout that stands for this kind.
    pub open spec fn spec_floating_mode(self) -> FloatingGamepadTextInputMode {
        match self {
            KeyboardInputKind::SingleLine => FloatingGamepadTextInputMode::SingleLine,
            KeyboardInputKind::MultiLine => FloatingGamepadTextInputMode::MultipleLines,
            KeyboardInputKind::Email => FloatingGamepadTextInputMode::Email,
            KeyboardInputKind::Numeric => FloatingGamepadTextInputMode::Numeric,
        }
    }

    /// The floating keyboard layout that stands for this kind.
    pub fn floating_mode(self) -> (mode: FloatingGamepadTextInputMode)
        ensures
            mode == self.spec_floating_mode(),
    {
        match self {
            KeyboardInputKind::SingleLine => FloatingGamepadTextInputMode::SingleLine,
            KeyboardInputKind::MultiLine => FloatingGamepadTextInputMode::MultipleLines,
            KeyboardInputKind::Email => FloatingGamepadTextInputMode::Email,
            KeyboardInputKind::Numeric => FloatingGamepadTextInputMode::Numeric,
        }
    }
}

/// A connected controller, named by the handle the native layer gave it.
#[derive(Debug)]
pub struct Controller {
    handle: u64,
}

impl View for Controller {
    type V = u64;

    closed spec fn view(&self) -> u64 {
        self.handle
    }
}

impl Controller {
    /// The controller's native handle.
    pub fn get_handle(&self) -> (handle: u64)
        ensures
            handle == self@,
    {
        self.handle
    }

    /// Whether a request to activate `action_set_handle` took effect, given
    /// the action set that the native layer reports as active afterwards.
    pub fn action_set_activated(current_action_set: u64, action_set_handle: u64) -> (activated:
        bool)
        ensures
            activated == (current_action_set == action_set_handle),
    {
        current_action_set == action_set_handle
    }
}

/// The handles that name a controller: the native list pads with zeroes,
/// which name none.
pub open spec fn connected(handles: Seq<u64>) -> Seq<u64> {
    handles.filter(|handle: u64| handle != 0)
}

/// The controllers behind the handles that the native layer lists, in the
/// order listed, the zero handles left out.
pub fn get_controllers(handles: Vec<u64>) -> (controllers: Vec<Controller>)
    ensures
        controllers@.map_values(|c: Controller| c@) == connected(handles@),
{
    let mut controllers: Vec<Controller> = Vec::new();
    let mut i: usize = 0;
    while i < handles.len()
        invariant
            i <= handles.len(),
            controllers@.map_values(|c: Controller| c@) == connected(handles@.take(i as int)),
        decreases handles.len() - i,
    {
        let handle = handles[i];
        proof {
            let seen = handles@.take(i as int);
            assert(handles@.take(i + 1) == seen.push(handle));
            seen.lemma_filter_push(handle, |handle: u64| handle != 0);
        }
        if handle != 0 {
            proof {
                let before = controllers@;
                assert(before.push(Controller { handle }).map_values(|c: Controller| c@)
                    == before.map_values(|c: Controller| c@).push(handle));
            }
            controllers.push(Controller { handle });
        }
        i += 1;
    }
    proof {
        assert(handles@.take(handles.len() as int) == handles@);
    }
    controllers
}

/// Whether `at` is the place of the first NUL byte of `bytes`: `Some(i)`
/// where byte `i` is NUL and none before it is, `None` where no byte is.
pub open spec fn is_first_nul(bytes: Seq<u8>, at: Option<usize>) -> bool {
    match at {
        Some(i) => {
            &&& i < bytes.len()
            &&& bytes[i as int] == 0
            &&& forall|j: int| 0 <= j < i ==> bytes[j] != 0
        },
        None => forall|j: int| 0 <= j < bytes.len() ==> bytes[j] != 0,
    }
}

/// The place of the first NUL byte in `path`, if it holds one. A path with a
/// NUL byte cannot be handed to the native layer, which reads it up to the
/// first NUL.
pub fn first_nul(path: &str) -> (at: Option<usize>)
    ensures
        is_first_nul(path.spec_bytes(), at),
{
    let bytes = path.as_bytes();
    let mut i: usize = 0;
    while i < bytes.len()
        invariant
            i <= bytes.len(),
            bytes@ == path.spec_bytes(),
            forall|j: int| 0 <= j < i ==> bytes@[j] != 0,
        decreases bytes.len() - i,
    {
        if bytes[i] == 0 {
            return Some(i);
        }
        i += 1;
    }
    None
}

} // verus!
