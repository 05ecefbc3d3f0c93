//! The origins of input actions: which control of which controller an action
//! is bound to, and the number the native layer knows each origin by.

use vstd::prelude::*;

verus! {

/// The number of the last origin that names a control.
pub const LAST_ORIGIN_CODE: i32 = 409;

/// The number of `Count`, which stands for every origin that names none.
pub const COUNT_CODE: i32 = 410;

/// The controls an action can be bound to. `Count` and
/// `MaximumPossibleValue` name no control.
#[derive(Clone, Copy, Debug, PartialEq, Eq, Hash, Structural)]
pub enum InputActionOrigins {
    /// No origin: the action is bound to nothing.
    NoOrigin,
    SteamControllerA,
    SteamControllerB,
    SteamControllerX,
    SteamControllerY,
    SteamControllerLeftBumper,
    SteamControllerRightBumper,
    SteamControllerLeftGrip,
    SteamControllerRightGrip,
    SteamControllerStart,
    SteamControllerBack,
    SteamControllerLeftPadTouch,
    SteamControllerLeftPadSwipe,
    SteamControllerLeftPadClick,
    SteamControllerLeftPadDPadNorth,
    SteamControllerLeftPadDPadSouth,
    SteamControllerLeftPadDPadWest,
    SteamControllerLeftPadDPadEast,
    SteamControllerRightPadTouch,
    SteamControllerRightPadSwipe,
    SteamControllerRightPadClick,
    SteamControllerRightPadDPadNorth,
    SteamControllerRightPadDPadSouth,
    SteamControllerRightPadDPadWest,
    SteamControllerRightPadDPadEast,
    SteamControllerLeftTriggerPull,
    SteamControllerLeftTriggerClick,
    SteamControllerRightTriggerPull,
    SteamControllerRightTriggerClick,
    SteamControllerLeftStickMove,
    SteamControllerLeftStickClick,
    SteamControllerLeftStickDPadNorth,
    SteamControllerLeftStickDPadSouth,
    SteamControllerLeftStickDPadWest,
    SteamControllerLeftStickDPadEast,
    SteamControllerGyroMove,
    SteamControllerGyroPitch,
    SteamControllerGyroYaw,
    SteamControllerGyroRoll,
    SteamControllerReserved0,
    SteamControllerReserved1,
    SteamControllerReserved2,
    SteamControllerReserved3,
    SteamControllerReserved4,
    SteamControllerReserved5,
    SteamControllerReserved6,
    SteamControllerReserved7,
    SteamControllerReserved8,
    SteamControllerReserved9,
    SteamControllerReserved10,
    PS4X,
    PS4Circle,
    PS4Triangle,
    PS4Square,
    PS4LeftBumper,
    PS4RightBumper,
    PS4Options,
    PS4Share,
    PS4LeftPadTouch,
    PS4LeftPadSwipe,
    PS4LeftPadClick,
    PS4LeftPadDPadNorth,
    PS4LeftPadDPadSouth,
    PS4LeftPadDPadWest,
    PS4LeftPadDPadEast,
    PS4RightPadTouch,
    PS4RightPadSwipe,
    PS4RightPadClick,
    PS4RightPadDPadNorth,
    PS4RightPadDPadSouth,
    PS4RightPadDPadWest,
    PS4RightPadDPadEast,
    PS4CenterPadTouch,
    PS4CenterPadSwipe,
    PS4CenterPadClick,
    PS4CenterPadDPadNorth,
    PS4CenterPadDPadSouth,
    PS4CenterPadDPadWest,
    PS4CenterPadDPadEast,
    PS4LeftTriggerPull,
    PS4LeftTriggerClick,
    PS4RightTriggerPull,
    PS4RightTriggerClick,
    PS4LeftStickMove,
    PS4LeftStickClick,
    PS4LeftStickDPadNorth,
    PS4LeftStickDPadSouth,
    PS4LeftStickDPadWest,
    PS4LeftStickDPadEast,
    PS4RightStickMove,
    PS4RightStickClick,
    PS4RightStickDPadNorth,
    PS4RightStickDPadSouth,
    PS4RightStickDPadWest,
    PS4RightStickDPadEast,
    PS4DPadNorth,
    PS4DPadSouth,
    PS4DPadWest,
    PS4DPadEast,
    PS4GyroMove,
    PS4GyroPitch,
    PS4GyroYaw,
    PS4GyroRoll,
    PS4DPadMove,
    PS4Reserved1,
    PS4Reserved2,
    PS4Reserved3,
    PS4Reserved4,
    PS4Reserved5,
    PS4Reserved6,
    PS4Reserved7,
    PS4Reserved8,
    PS4Reserved9,
    PS4Reserved10,
    XBoxOneA,
    XBoxOneB,
    XBoxOneX,
    XBoxOneY,
    XBoxOneLeftBumper,
    XBoxOneRightBumper,
    XBoxOneMenu,
    XBoxOneView,
    XBoxOneLeftTriggerPull,
    XBoxOneLeftTriggerClick,
    XBoxOneRightTriggerPull,
    XBoxOneRightTriggerClick,
    XBoxOneLeftStickMove,
    XBoxOneLeftStickClick,
    XBoxOneLeftStickDPadNorth,
    XBoxOneLeftStickDPadSouth,
    XBoxOneLeftStickDPadWest,
    XBoxOneLeftStickDPadEast,
    XBoxOneRightStickMove,
    XBoxOneRightStickClick,
    XBoxOneRightStickDPadNorth,
    XBoxOneRightStickDPadSouth,
    XBoxOneRightStickDPadWest,
    XBoxOneRightStickDPadEast,
    XBoxOneDPadNorth,
    XBoxOneDPadSouth,
    XBoxOneDPadWest,
    XBoxOneDPadEast,
    XBoxOneDPadMove,
    XBoxOneLeftGripLower,
    XBoxOneLeftGripUpper,
    XBoxOneRightGripLower,
    XBoxOneRightGripUpper,
    XBoxOneShare,
    XBoxOneReserved6,
    XBoxOneReserved7,
    XBoxOneReserved8,
    XBoxOneReserved9,
    XBoxOneReserved10,
    XBox360A,
    XBox360B,
    XBox360X,
    XBox360Y,
    XBox360LeftBumper,
    XBox360RightBumper,
    XBox360Start,
    XBox360Back,
    XBox360LeftTriggerPull,
    XBox360LeftTriggerClick,
    XBox360RightTriggerPull,
    XBox360RightTriggerClick,
    XBox360LeftStickMove,
    XBox360LeftStickClick,
    XBox360LeftStickDPadNorth,
    XBox360LeftStickDPadSouth,
    XBox360LeftStickDPadWest,
    XBox360LeftStickDPadEast,
    XBox360RightStickMove,
    XBox360RightStickClick,
    XBox360RightStickDPadNorth,
    XBox360RightStickDPadSouth,
    XBox360RightStickDPadWest,
    XBox360RightStickDPadEast,
    XBox360DPadNorth,
    XBox360DPadSouth,
    XBox360DPadWest,
    XBox360DPadEast,
    XBox360DPadMove,
    XBox360Reserved1,
    XBox360Reserved2,
    XBox360Reserved3,
    XBox360Reserved4,
    XBox360Reserved5,
    XBox360Reserved6,
    XBox360Reserved7,
    XBox360Reserved8,
    XBox360Reserved9,
    XBox360Reserved10,
    SwitchA,
    SwitchB,
    SwitchX,
    SwitchY,
    SwitchLeftBumper,
    SwitchRightBumper,
    SwitchPlus,
    SwitchMinus,
    SwitchCapture,
    SwitchLeftTriggerPull,
    SwitchLeftTriggerClick,
    SwitchRightTriggerPull,
    SwitchRightTriggerClick,
    SwitchLeftStickMove,
    SwitchLeftStickClick,
    SwitchLeftStickDPadNorth,
    SwitchLeftStickDPadSouth,
    SwitchLeftStickDPadWest,
    SwitchLeftStickDPadEast,
    SwitchRightStickMove,
    SwitchRightStickClick,
    SwitchRightStickDPadNorth,
    SwitchRightStickDPadSouth,
    SwitchRightStickDPadWest,
    SwitchRightStickDPadEast,
    SwitchDPadNorth,
    SwitchDPadSouth,
    SwitchDPadWest,
    SwitchDPadEast,
    SwitchProGyroMove,
    SwitchProGyroPitch,
    SwitchProGyroYaw,
    SwitchProGyroRoll,
    SwitchDPadMove,
    SwitchReserved1,
    SwitchReserved2,
    SwitchReserved3,
    SwitchReserved4,
    SwitchReserved5,
    SwitchReserved6,
    SwitchReserved7,
    SwitchReserved8,
    SwitchReserved9,
    SwitchReserved10,
    SwitchRightGyroMove,
    SwitchRightGyroPitch,
    SwitchRightGyroYaw,
    SwitchRightGyroRoll,
    SwitchLeftGyroMove,
    SwitchLeftGyroPitch,
    SwitchLeftGyroYaw,
    SwitchLeftGyroRoll,
    SwitchLeftGripLower,
    SwitchLeftGripUpper,
    SwitchRightGripLower,
    SwitchRightGripUpper,
    SwitchJoyConButtonN,
    SwitchJoyConButtonE,
    SwitchJoyConButtonS,
    SwitchJoyConButtonW,
    SwitchReserved15,
    SwitchReserved16,
    SwitchReserved17,
    SwitchReserved18,
    SwitchReserved19,
    SwitchReserved20,
    PS5X,
    PS5Circle,
    PS5Triangle,
    PS5Square,
    PS5LeftBumper,
    PS5RightBumper,
    PS5Option,
    PS5Create,
    PS5Mute,
    PS5LeftPadTouch,
    PS5LeftPadSwipe,
    PS5LeftPadClick,
    PS5LeftPadDPadNorth,
    PS5LeftPadDPadSouth,
    PS5LeftPadDPadWest,
    PS5LeftPadDPadEast,
    PS5RightPadTouch,
    PS5RightPadSwipe,
    PS5RightPadClick,
    PS5RightPadDPadNorth,
    PS5RightPadDPadSouth,
    PS5RightPadDPadWest,
    PS5RightPadDPadEast,
    PS5CenterPadTouch,
    PS5CenterPadSwipe,
    PS5CenterPadClick,
    PS5CenterPadDPadNorth,
    PS5CenterPadDPadSouth,
    PS5CenterPadDPadWest,
    PS5CenterPadDPadEast,
    PS5LeftTriggerPull,
    PS5LeftTriggerClick,
    PS5RightTriggerPull,
    PS5RightTriggerClick,
    PS5LeftStickMove,
    PS5LeftStickClick,
    PS5LeftStickDPadNorth,
    PS5LeftStickDPadSouth,
    PS5LeftStickDPadWest,
    PS5LeftStickDPadEast,
    PS5RightStickMove,
    PS5RightStickClick,
    PS5RightStickDPadNorth,
    PS5RightStickDPadSouth,
    PS5RightStickDPadWest,
    PS5RightStickDPadEast,
    PS5DPadNorth,
    PS5DPadSouth,
    PS5DPadWest,
    PS5DPadEast,
    PS5GyroMove,
    PS5GyroPitch,
    PS5GyroYaw,
    PS5GyroRoll,
    PS5DPadMove,
    PS5LeftGrip,
    PS5RightGrip,
    PS5LeftFn,
    PS5RightFn,
    PS5Reserved5,
    PS5Reserved6,
    PS5Reserved7,
    PS5Reserved8,
    PS5Reserved9,
    PS5Reserved10,
    PS5Reserved11,
    PS5Reserved12,
    PS5Reserved13,
    PS5Reserved14,
    PS5Reserved15,
    PS5Reserved16,
    PS5Reserved17,
    PS5Reserved18,
    PS5Reserved19,
    PS5Reserved20,
    SteamDeckA,
    SteamDeckB,
    SteamDeckX,
    SteamDeckY,
    SteamDeckL1,
    SteamDeckR1,
    SteamDeckMenu,
    SteamDeckView,
    SteamDeckLeftPadTouch,
    SteamDeckLeftPadSwipe,
    SteamDeckLeftPadClick,
    SteamDeckLeftPadDPadNorth,
    SteamDeckLeftPadDPadSouth,
    SteamDeckLeftPadDPadWest,
    SteamDeckLeftPadDPadEast,
    SteamDeckRightPadTouch,
    SteamDeckRightPadSwipe,
    SteamDeckRightPadClick,
    SteamDeckRightPadDPadNorth,
    SteamDeckRightPadDPadSouth,
    SteamDeckRightPadDPadWest,
    SteamDeckRightPadDPadEast,
    SteamDeckL2SoftPull,
    SteamDeckL2,
    SteamDeckR2SoftPull,
    SteamDeckR2,
    SteamDeckLeftStickMove,
    SteamDeckL3,
    SteamDeckLeftStickDPadNorth,
    SteamDeckLeftStickDPadSouth,
    SteamDeckLeftStickDPadWest,
    SteamDeckLeftStickDPadEast,
    SteamDeckLeftStickTouch,
    SteamDeckRightStickMove,
    SteamDeckR3,
    SteamDeckRightStickDPadNorth,
    SteamDeckRightStickDPadSouth,
    SteamDeckRightStickDPadWest,
    SteamDeckRightStickDPadEast,
    SteamDeckRightStickTouch,
    SteamDeckL4,
    SteamDeckR4,
    SteamDeckL5,
    SteamDeckR5,
    SteamDeckDPadMove,
    SteamDeckDPadNorth,
    SteamDeckDPadSouth,
    SteamDeckDPadWest,
    SteamDeckDPadEast,
    SteamDeckGyroMove,
    SteamDeckGyroPitch,
    SteamDeckGyroYaw,
    SteamDeckGyroRoll,
    SteamDeckReserved1,
    SteamDeckReserved2,
    SteamDeckReserved3,
    SteamDeckReserved4,
    SteamDeckReserved5,
    SteamDeckReserved6,
    SteamDeckReserved7,
    SteamDeckReserved8,
    SteamDeckReserved9,
    SteamDeckReserved10,
    SteamDeckReserved11,
    SteamDeckReserved12,
    SteamDeckReserved13,
    SteamDeckReserved14,
    SteamDeckReserved15,
    SteamDeckReserved16,
    SteamDeckReserved17,
    SteamDeckReserved18,
    SteamDeckReserved19,
    SteamDeckReserved20,
    HoripadM1,
    HoripadM2,
    HoripadL4,
    HoripadR4,
    Count,
    MaximumPossibleValue,
}

impl InputActionOrigins {
    /// The number the native layer knows this origin by.
    pub open spec fn spec_code(self) -> i32 {
        match self {
            InputActionOrigins::NoOrigin => 0,
            InputActionOrigins::SteamControllerA => 1,
            InputActionOrigins::SteamControllerB => 2,
            InputActionOrigins::SteamControllerX => 3,
            InputActionOrigins::SteamControllerY => 4,
            InputActionOrigins::SteamControllerLeftBumper => 5,
            InputActionOrigins::SteamControllerRightBumper => 6,
            InputActionOrigins::SteamControllerLeftGrip => 7,
            InputActionOrigins::SteamControllerRightGrip => 8,
            InputActionOrigins::SteamControllerStart => 9,
            InputActionOrigins::SteamControllerBack => 10,
            InputActionOrigins::SteamControllerLeftPadTouch => 11,
            InputActionOrigins::SteamControllerLeftPadSwipe => 12,
            InputActionOrigins::SteamControllerLeftPadClick => 13,
            InputActionOrigins::SteamControllerLeftPadDPadNorth => 14,
            InputActionOrigins::SteamControllerLeftPadDPadSouth => 15,
            InputActionOrigins::SteamControllerLeftPadDPadWest => 16,
            InputActionOrigins::SteamControllerLeftPadDPadEast => 17,
            InputActionOrigins::SteamControllerRightPadTouch => 18,
            InputActionOrigins::SteamControllerRightPadSwipe => 19,
            InputActionOrigins::SteamControllerRightPadClick => 20,
            InputActionOrigins::SteamControllerRightPadDPadNorth => 21,
            InputActionOrigins::SteamControllerRightPadDPadSouth => 22,
            InputActionOrigins::SteamControllerRightPadDPadWest => 23,
            InputActionOrigins::SteamControllerRightPadDPadEast => 24,
            InputActionOrigins::SteamControllerLeftTriggerPull => 25,
            InputActionOrigins::SteamControllerLeftTriggerClick => 26,
            InputActionOrigins::SteamControllerRightTriggerPull => 27,
            InputActionOrigins::SteamControllerRightTriggerClick => 28,
            InputActionOrigins::SteamControllerLeftStickMove => 29,
            InputActionOrigins::SteamControllerLeftStickClick => 30,
            InputActionOrigins::SteamControllerLeftStickDPadNorth => 31,
            InputActionOrigins::SteamControllerLeftStickDPadSouth => 32,
            InputActionOrigins::SteamControllerLeftStickDPadWest => 33,
            InputActionOrigins::SteamControllerLeftStickDPadEast => 34,
            InputActionOrigins::SteamControllerGyroMove => 35,
            InputActionOrigins::SteamControllerGyroPitch => 36,
            InputActionOrigins::SteamControllerGyroYaw => 37,
            InputActionOrigins::SteamControllerGyroRoll => 38,
            InputActionOrigins::SteamControllerReserved0 => 39,
            InputActionOrigins::SteamControllerReserved1 => 40,
            InputActionOrigins::SteamControllerReserved2 => 41,
            InputActionOrigins::SteamControllerReserved3 => 42,
            InputActionOrigins::SteamControllerReserved4 => 43,
            InputActionOrigins::SteamControllerReserved5 => 44,
            InputActionOrigins::SteamControllerReserved6 => 45,
            InputActionOrigins::SteamControllerReserved7 => 46,
            InputActionOrigins::SteamControllerReserved8 => 47,
            InputActionOrigins::SteamControllerReserved9 => 48,
            InputActionOrigins::SteamControllerReserved10 => 49,
            InputActionOrigins::PS4X => 50,
            InputActionOrigins::PS4Circle => 51,
            InputActionOrigins::PS4Triangle => 52,
            InputActionOrigins::PS4Square => 53,
            InputActionOrigins::PS4LeftBumper => 54,
            InputActionOrigins::PS4RightBumper => 55,
            InputActionOrigins::PS4Options => 56,
            InputActionOrigins::PS4Share => 57,
            InputActionOrigins::PS4LeftPadTouch => 58,
            InputActionOrigins::PS4LeftPadSwipe => 59,
            InputActionOrigins::PS4LeftPadClick => 60,
            InputActionOrigins::PS4LeftPadDPadNorth => 61,
            InputActionOrigins::PS4LeftPadDPadSouth => 62,
            InputActionOrigins::PS4LeftPadDPadWest => 63,
            InputActionOrigins::PS4LeftPadDPadEast => 64,
            InputActionOrigins::PS4RightPadTouch => 65,
            InputActionOrigins::PS4RightPadSwipe => 66,
            InputActionOrigins::PS4RightPadClick => 67,
            InputActionOrigins::PS4RightPadDPadNorth => 68,
            InputActionOrigins::PS4RightPadDPadSouth => 69,
            InputActionOrigins::PS4RightPadDPadWest => 70,
            InputActionOrigins::PS4RightPadDPadEast => 71,
            InputActionOrigins::PS4CenterPadTouch => 72,
            InputActionOrigins::PS4CenterPadSwipe => 73,
            InputActionOrigins::PS4CenterPadClick => 74,
            InputActionOrigins::PS4CenterPadDPadNorth => 75,
            InputActionOrigins::PS4CenterPadDPadSouth => 76,
            InputActionOrigins::PS4CenterPadDPadWest => 77,
            InputActionOrigins::PS4CenterPadDPadEast => 78,
            InputActionOrigins::PS4LeftTriggerPull => 79,
            InputActionOrigins::PS4LeftTriggerClick => 80,
            InputActionOrigins::PS4RightTriggerPull => 81,
            InputActionOrigins::PS4RightTriggerClick => 82,
            InputActionOrigins::PS4LeftStickMove => 83,
            InputActionOrigins::PS4LeftStickClick => 84,
            InputActionOrigins::PS4LeftStickDPadNorth => 85,
            InputActionOrigins::PS4LeftStickDPadSouth => 86,
            InputActionOrigins::PS4LeftStickDPadWest => 87,
            InputActionOrigins::PS4LeftStickDPadEast => 88,
            InputActionOrigins::PS4RightStickMove => 89,
            InputActionOrigins::PS4RightStickClick => 90,
            InputActionOrigins::PS4RightStickDPadNorth => 91,
            InputActionOrigins::PS4RightStickDPadSouth => 92,
            InputActionOrigins::PS4RightStickDPadWest => 93,
            InputActionOrigins::PS4RightStickDPadEast => 94,
            InputActionOrigins::PS4DPadNorth => 95,
            InputActionOrigins::PS4DPadSouth => 96,
            InputActionOrigins::PS4DPadWest => 97,
            InputActionOrigins::PS4DPadEast => 98,
            InputActionOrigins::PS4GyroMove => 99,
            InputActionOrigins::PS4GyroPitch => 100,
            InputActionOrigins::PS4GyroYaw => 101,
            InputActionOrigins::PS4GyroRoll => 102,
            InputActionOrigins::PS4DPadMove => 103,
            InputActionOrigins::PS4Reserved1 => 104,
            InputActionOrigins::PS4Reserved2 => 105,
            InputActionOrigins::PS4Reserved3 => 106,
            InputActionOrigins::PS4Reserved4 => 107,
            InputActionOrigins::PS4Reserved5 => 108,
            InputActionOrigins::PS4Reserved6 => 109,
            InputActionOrigins::PS4Reserved7 => 110,
            InputActionOrigins::PS4Reserved8 => 111,
            InputActionOrigins::PS4Reserved9 => 112,
            InputActionOrigins::PS4Reserved10 => 113,
            InputActionOrigins::XBoxOneA => 114,
            InputActionOrigins::XBoxOneB => 115,
            InputActionOrigins::XBoxOneX => 116,
            InputActionOrigins::XBoxOneY => 117,
            InputActionOrigins::XBoxOneLeftBumper => 118,
            InputActionOrigins::XBoxOneRightBumper => 119,
            InputActionOrigins::XBoxOneMenu => 120,
            InputActionOrigins::XBoxOneView => 121,
            InputActionOrigins::XBoxOneLeftTriggerPull => 122,
            InputActionOrigins::XBoxOneLeftTriggerClick => 123,
            InputActionOrigins::XBoxOneRightTriggerPull => 124,
            InputActionOrigins::XBoxOneRightTriggerClick => 125,
            InputActionOrigins::XBoxOneLeftStickMove => 126,
            InputActionOrigins::XBoxOneLeftStickClick => 127,
            InputActionOrigins::XBoxOneLeftStickDPadNorth => 128,
            InputActionOrigins::XBoxOneLeftStickDPadSouth => 129,
            InputActionOrigins::XBoxOneLeftStickDPadWest => 130,
            InputActionOrigins::XBoxOneLeftStickDPadEast => 131,
            InputActionOrigins::XBoxOneRightStickMove => 132,
            InputActionOrigins::XBoxOneRightStickClick => 133,
            InputActionOrigins::XBoxOneRightStickDPadNorth => 134,
            InputActionOrigins::XBoxOneRightStickDPadSouth => 135,
            InputActionOrigins::XBoxOneRightStickDPadWest => 136,
            InputActionOrigins::XBoxOneRightStickDPadEast => 137,
            InputActionOrigins::XBoxOneDPadNorth => 138,
            InputActionOrigins::XBoxOneDPadSouth => 139,
            InputActionOrigins::XBoxOneDPadWest => 140,
            InputActionOrigins::XBoxOneDPadEast => 141,
            InputActionOrigins::XBoxOneDPadMove => 142,
            InputActionOrigins::XBoxOneLeftGripLower => 143,
            InputActionOrigins::XBoxOneLeftGripUpper => 144,
            InputActionOrigins::XBoxOneRightGripLower => 145,
            InputActionOrigins::XBoxOneRightGripUpper => 146,
            InputActionOrigins::XBoxOneShare => 147,
            InputActionOrigins::XBoxOneReserved6 => 148,
            InputActionOrigins::XBoxOneReserved7 => 149,
            InputActionOrigins::XBoxOneReserved8 => 150,
            InputActionOrigins::XBoxOneReserved9 => 151,
            InputActionOrigins::XBoxOneReserved10 => 152,
            InputActionOrigins::XBox360A => 153,
            InputActionOrigins::XBox360B => 154,
            InputActionOrigins::XBox360X => 155,
            InputActionOrigins::XBox360Y => 156,
            InputActionOrigins::XBox360LeftBumper => 157,
            InputActionOrigins::XBox360RightBumper => 158,
            InputActionOrigins::XBox360Start => 159,
            InputActionOrigins::XBox360Back => 160,
            InputActionOrigins::XBox360LeftTriggerPull => 161,
            InputActionOrigins::XBox360LeftTriggerClick => 162,
            InputActionOrigins::XBox360RightTriggerPull => 163,
            InputActionOrigins::XBox360RightTriggerClick => 164,
            InputActionOrigins::XBox360LeftStickMove => 165,
            InputActionOrigins::XBox360LeftStickClick => 166,
            InputActionOrigins::XBox360LeftStickDPadNorth => 167,
            InputActionOrigins::XBox360LeftStickDPadSouth => 168,
            InputActionOrigins::XBox360LeftStickDPadWest => 169,
            InputActionOrigins::XBox360LeftStickDPadEast => 170,
            InputActionOrigins::XBox360RightStickMove => 171,
            InputActionOrigins::XBox360RightStickClick => 172,
            InputActionOrigins::XBox360RightStickDPadNorth => 173,
            InputActionOrigins::XBox360RightStickDPadSouth => 174,
            InputActionOrigins::XBox360RightStickDPadWest => 175,
            InputActionOrigins::XBox360RightStickDPadEast => 176,
            InputActionOrigins::XBox360DPadNorth => 177,
            InputActionOrigins::XBox360DPadSouth => 178,
            InputActionOrigins::XBox360DPadWest => 179,
            InputActionOrigins::XBox360DPadEast => 180,
            InputActionOrigins::XBox360DPadMove => 181,
            InputActionOrigins::XBox360Reserved1 => 182,
            InputActionOrigins::XBox360Reserved2 => 183,
            InputActionOrigins::XBox360Reserved3 => 184,
            InputActionOrigins::XBox360Reserved4 => 185,
            InputActionOrigins::XBox360Reserved5 => 186,
            InputActionOrigins::XBox360Reserved6 => 187,
            InputActionOrigins::XBox360Reserved7 => 188,
            InputActionOrigins::XBox360Reserved8 => 189,
            InputActionOrigins::XBox360Reserved9 => 190,
            InputActionOrigins::XBox360Reserved10 => 191,
            InputActionOrigins::SwitchA => 192,
            InputActionOrigins::SwitchB => 193,
            InputActionOrigins::SwitchX => 194,
            InputActionOrigins::SwitchY => 195,
            InputActionOrigins::SwitchLeftBumper => 196,
            InputActionOrigins::SwitchRightBumper => 197,
            InputActionOrigins::SwitchPlus => 198,
            InputActionOrigins::SwitchMinus => 199,
            InputActionOrigins::SwitchCapture => 200,
            InputActionOrigins::SwitchLeftTriggerPull => 201,
            InputActionOrigins::SwitchLeftTriggerClick => 202,
            InputActionOrigins::SwitchRightTriggerPull => 203,
            InputActionOrigins::SwitchRightTriggerClick => 204,
            InputActionOrigins::SwitchLeftStickMove => 205,
            InputActionOrigins::SwitchLeftStickClick => 206,
            InputActionOrigins::SwitchLeftStickDPadNorth => 207,
            InputActionOrigins::SwitchLeftStickDPadSouth => 208,
            InputActionOrigins::SwitchLeftStickDPadWest => 209,
            InputActionOrigins::SwitchLeftStickDPadEast => 210,
            InputActionOrigins::SwitchRightStickMove => 211,
            InputActionOrigins::SwitchRightStickClick => 212,
            InputActionOrigins::SwitchRightStickDPadNorth => 213,
            InputActionOrigins::SwitchRightStickDPadSouth => 214,
            InputActionOrigins::SwitchRightStickDPadWest => 215,
            InputActionOrigins::SwitchRightStickDPadEast => 216,
            InputActionOrigins::SwitchDPadNorth => 217,
            InputActionOrigins::SwitchDPadSouth => 218,
            InputActionOrigins::SwitchDPadWest => 219,
            InputActionOrigins::SwitchDPadEast => 220,
            InputActionOrigins::SwitchProGyroMove => 221,
            InputActionOrigins::SwitchProGyroPitch => 222,
            InputActionOrigins::SwitchProGyroYaw => 223,
            InputActionOrigins::SwitchProGyroRoll => 224,
            InputActionOrigins::SwitchDPadMove => 225,
            InputActionOrigins::SwitchReserved1 => 226,
            InputActionOrigins::SwitchReserved2 => 227,
            InputActionOrigins::SwitchReserved3 => 228,
            InputActionOrigins::SwitchReserved4 => 229,
            InputActionOrigins::SwitchReserved5 => 230,
            InputActionOrigins::SwitchReserved6 => 231,
            InputActionOrigins::SwitchReserved7 => 232,
            InputActionOrigins::SwitchReserved8 => 233,
            InputActionOrigins::SwitchReserved9 => 234,
            InputActionOrigins::SwitchReserved10 => 235,
            InputActionOrigins::SwitchRightGyroMove => 236,
            InputActionOrigins::SwitchRightGyroPitch => 237,
            InputActionOrigins::SwitchRightGyroYaw => 238,
            InputActionOrigins::SwitchRightGyroRoll => 239,
            InputActionOrigins::SwitchLeftGyroMove => 240,
            InputActionOrigins::SwitchLeftGyroPitch => 241,
            InputActionOrigins::SwitchLeftGyroYaw => 242,
            InputActionOrigins::SwitchLeftGyroRoll => 243,
            InputActionOrigins::SwitchLeftGripLower => 244,
            InputActionOrigins::SwitchLeftGripUpper => 245,
            InputActionOrigins::SwitchRightGripLower => 246,
            InputActionOrigins::SwitchRightGripUpper => 247,
            InputActionOrigins::SwitchJoyConButtonN => 248,
            InputActionOrigins::SwitchJoyConButtonE => 249,
            InputActionOrigins::SwitchJoyConButtonS => 250,
            InputActionOrigins::SwitchJoyConButtonW => 251,
            InputActionOrigins::SwitchReserved15 => 252,
            InputActionOrigins::SwitchReserved16 => 253,
            InputActionOrigins::SwitchReserved17 => 254,
            InputActionOrigins::SwitchReserved18 => 255,
            InputActionOrigins::SwitchReserved19 => 256,
            InputActionOrigins::SwitchReserved20 => 257,
            InputActionOrigins::PS5X => 258,
            InputActionOrigins::PS5Circle => 259,
            InputActionOrigins::PS5Triangle => 260,
            InputActionOrigins::PS5Square => 261,
            InputActionOrigins::PS5LeftBumper => 262,
            InputActionOrigins::PS5RightBumper => 263,
            InputActionOrigins::PS5Option => 264,
            InputActionOrigins::PS5Create => 265,
            InputActionOrigins::PS5Mute => 266,
            InputActionOrigins::PS5LeftPadTouch => 267,
            InputActionOrigins::PS5LeftPadSwipe => 268,
            InputActionOrigins::PS5LeftPadClick => 269,
            InputActionOrigins::PS5LeftPadDPadNorth => 270,
            InputActionOrigins::PS5LeftPadDPadSouth => 271,
            InputActionOrigins::PS5LeftPadDPadWest => 272,
            InputActionOrigins::PS5LeftPadDPadEast => 273,
            InputActionOrigins::PS5RightPadTouch => 274,
            InputActionOrigins::PS5RightPadSwipe => 275,
            InputActionOrigins::PS5RightPadClick => 276,
            InputActionOrigins::PS5RightPadDPadNorth => 277,
            InputActionOrigins::PS5RightPadDPadSouth => 278,
            InputActionOrigins::PS5RightPadDPadWest => 279,
            InputActionOrigins::PS5RightPadDPadEast => 280,
            InputActionOrigins::PS5CenterPadTouch => 281,
            InputActionOrigins::PS5CenterPadSwipe => 282,
            InputActionOrigins::PS5CenterPadClick => 283,
            InputActionOrigins::PS5CenterPadDPadNorth => 284,
            InputActionOrigins::PS5CenterPadDPadSouth => 285,
            InputActionOrigins::PS5CenterPadDPadWest => 286,
            InputActionOrigins::PS5CenterPadDPadEast => 287,
            InputActionOrigins::PS5LeftTriggerPull => 288,
            InputActionOrigins::PS5LeftTriggerClick => 289,
            InputActionOrigins::PS5RightTriggerPull => 290,
            InputActionOrigins::PS5RightTriggerClick => 291,
            InputActionOrigins::PS5LeftStickMove => 292,
            InputActionOrigins::PS5LeftStickClick => 293,
            InputActionOrigins::PS5LeftStickDPadNorth => 294,
            InputActionOrigins::PS5LeftStickDPadSouth => 295,
            InputActionOrigins::PS5LeftStickDPadWest => 296,
            InputActionOrigins::PS5LeftStickDPadEast => 297,
            InputActionOrigins::PS5RightStickMove => 298,
            InputActionOrigins::PS5RightStickClick => 299,
            InputActionOrigins::PS5RightStickDPadNorth => 300,
            InputActionOrigins::PS5RightStickDPadSouth => 301,
            InputActionOrigins::PS5RightStickDPadWest => 302,
            InputActionOrigins::PS5RightStickDPadEast => 303,
            InputActionOrigins::PS5DPadNorth => 304,
            InputActionOrigins::PS5DPadSouth => 305,
            InputActionOrigins::PS5DPadWest => 306,
            InputActionOrigins::PS5DPadEast => 307,
            InputActionOrigins::PS5GyroMove => 308,
            InputActionOrigins::PS5GyroPitch => 309,
            InputActionOrigins::PS5GyroYaw => 310,
            InputActionOrigins::PS5GyroRoll => 311,
            InputActionOrigins::PS5DPadMove => 312,
            InputActionOrigins::PS5LeftGrip => 313,
            InputActionOrigins::PS5RightGrip => 314,
            InputActionOrigins::PS5LeftFn => 315,
            InputActionOrigins::PS5RightFn => 316,
            InputActionOrigins::PS5Reserved5 => 317,
            InputActionOrigins::PS5Reserved6 => 318,
            InputActionOrigins::PS5Reserved7 => 319,
            InputActionOrigins::PS5Reserved8 => 320,
            InputActionOrigins::PS5Reserved9 => 321,
            InputActionOrigins::PS5Reserved10 => 322,
            InputActionOrigins::PS5Reserved11 => 323,
            InputActionOrigins::PS5Reserved12 => 324,
            InputActionOrigins::PS5Reserved13 => 325,
            InputActionOrigins::PS5Reserved14 => 326,
            InputActionOrigins::PS5Reserved15 => 327,
            InputActionOrigins::PS5Reserved16 => 328,
            InputActionOrigins::PS5Reserved17 => 329,
            InputActionOrigins::PS5Reserved18 => 330,
            InputActionOrigins::PS5Reserved19 => 331,
            InputActionOrigins::PS5Reserved20 => 332,
            InputActionOrigins::SteamDeckA => 333,
            InputActionOrigins::SteamDeckB => 334,
            InputActionOrigins::SteamDeckX => 335,
            InputActionOrigins::SteamDeckY => 336,
            InputActionOrigins::SteamDeckL1 => 337,
            InputActionOrigins::SteamDeckR1 => 338,
            InputActionOrigins::SteamDeckMenu => 339,
            InputActionOrigins::SteamDeckView => 340,
            InputActionOrigins::SteamDeckLeftPadTouch => 341,
            InputActionOrigins::SteamDeckLeftPadSwipe => 342,
            InputActionOrigins::SteamDeckLeftPadClick => 343,
            InputActionOrigins::SteamDeckLeftPadDPadNorth => 344,
            InputActionOrigins::SteamDeckLeftPadDPadSouth => 345,
            InputActionOrigins::SteamDeckLeftPadDPadWest => 346,
            InputActionOrigins::SteamDeckLeftPadDPadEast => 347,
            InputActionOrigins::SteamDeckRightPadTouch => 348,
            InputActionOrigins::SteamDeckRightPadSwipe => 349,
            InputActionOrigins::SteamDeckRightPadClick => 350,
            InputActionOrigins::SteamDeckRightPadDPadNorth => 351,
            InputActionOrigins::SteamDeckRightPadDPadSouth => 352,
            InputActionOrigins::SteamDeckRightPadDPadWest => 353,
            InputActionOrigins::SteamDeckRightPadDPadEast => 354,
            InputActionOrigins::SteamDeckL2SoftPull => 355,
            InputActionOrigins::SteamDeckL2 => 356,
            InputActionOrigins::SteamDeckR2SoftPull => 357,
            InputActionOrigins::SteamDeckR2 => 358,
            InputActionOrigins::SteamDeckLeftStickMove => 359,
            InputActionOrigins::SteamDeckL3 => 360,
            InputActionOrigins::SteamDeckLeftStickDPadNorth => 361,
            InputActionOrigins::SteamDeckLeftStickDPadSouth => 362,
            InputActionOrigins::SteamDeckLeftStickDPadWest => 363,
            InputActionOrigins::SteamDeckLeftStickDPadEast => 364,
            InputActionOrigins::SteamDeckLeftStickTouch => 365,
            InputActionOrigins::SteamDeckRightStickMove => 366,
            InputActionOrigins::SteamDeckR3 => 367,
            InputActionOrigins::SteamDeckRightStickDPadNorth => 368,
            InputActionOrigins::SteamDeckRightStickDPadSouth => 369,
            InputActionOrigins::SteamDeckRightStickDPadWest => 370,
            InputActionOrigins::SteamDeckRightStickDPadEast => 371,
            InputActionOrigins::SteamDeckRightStickTouch => 372,
            InputActionOrigins::SteamDeckL4 => 373,
            InputActionOrigins::SteamDeckR4 => 374,
            InputActionOrigins::SteamDeckL5 => 375,
            InputActionOrigins::SteamDeckR5 => 376,
            InputActionOrigins::SteamDeckDPadMove => 377,
            InputActionOrigins::SteamDeckDPadNorth => 378,
            InputActionOrigins::SteamDeckDPadSouth => 379,
            InputActionOrigins::SteamDeckDPadWest => 380,
            InputActionOrigins::SteamDeckDPadEast => 381,
            InputActionOrigins::SteamDeckGyroMove => 382,
            InputActionOrigins::SteamDeckGyroPitch => 383,
            InputActionOrigins::SteamDeckGyroYaw => 384,
            InputActionOrigins::SteamDeckGyroRoll => 385,
            InputActionOrigins::SteamDeckReserved1 => 386,
            InputActionOrigins::SteamDeckReserved2 => 387,
            InputActionOrigins::SteamDeckReserved3 => 388,
            InputActionOrigins::SteamDeckReserved4 => 389,
            InputActionOrigins::SteamDeckReserved5 => 390,
            InputActionOrigins::SteamDeckReserved6 => 391,
            InputActionOrigins::SteamDeckReserved7 => 392,
            InputActionOrigins::SteamDeckReserved8 => 393,
            InputActionOrigins::SteamDeckReserved9 => 394,
            InputActionOrigins::SteamDeckReserved10 => 395,
            InputActionOrigins::SteamDeckReserved11 => 396,
            InputActionOrigins::SteamDeckReserved12 => 397,
            InputActionOrigins::SteamDeckReserved13 => 398,
            InputActionOrigins::SteamDeckReserved14 => 399,
            InputActionOrigins::SteamDeckReserved15 => 400,
            InputActionOrigins::SteamDeckReserved16 => 401,
            InputActionOrigins::SteamDeckReserved17 => 402,
            InputActionOrigins::SteamDeckReserved18 => 403,
            InputActionOrigins::SteamDeckReserved19 => 404,
            InputActionOrigins::SteamDeckReserved20 => 405,
            InputActionOrigins::HoripadM1 => 406,
            InputActionOrigins::HoripadM2 => 407,
            InputActionOrigins::HoripadL4 => 408,
            InputActionOrigins::HoripadR4 => 409,
            InputActionOrigins::Count => 410,
            InputActionOrigins::MaximumPossibleValue => 32767,
        }
    }

    /// The number the native layer knows this origin by.
    pub fn code(self) -> (code: i32)
        ensures
            code == self.spec_code(),
    {
        match self {
            InputActionOrigins::NoOrigin => 0,
            InputActionOrigins::SteamControllerA => 1,
            InputActionOrigins::SteamControllerB => 2,
            InputActionOrigins::SteamControllerX => 3,
            InputActionOrigins::SteamControllerY => 4,
            InputActionOrigins::SteamControllerLeftBumper => 5,
            InputActionOrigins::SteamControllerRightBumper => 6,
            InputActionOrigins::SteamControllerLeftGrip => 7,
            InputActionOrigins::SteamControllerRightGrip => 8,
            InputActionOrigins::SteamControllerStart => 9,
            InputActionOrigins::SteamControllerBack => 10,
            InputActionOrigins::SteamControllerLeftPadTouch => 11,
            InputActionOrigins::SteamControllerLeftPadSwipe => 12,
            InputActionOrigins::SteamControllerLeftPadClick => 13,
            InputActionOrigins::SteamControllerLeftPadDPadNorth => 14,
            InputActionOrigins::SteamControllerLeftPadDPadSouth => 15,
            InputActionOrigins::SteamControllerLeftPadDPadWest => 16,
            InputActionOrigins::SteamControllerLeftPadDPadEast => 17,
            InputActionOrigins::SteamControllerRightPadTouch => 18,
            InputActionOrigins::SteamControllerRightPadSwipe => 19,
            InputActionOrigins::SteamControllerRightPadClick => 20,
            InputActionOrigins::SteamControllerRightPadDPadNorth => 21,
            InputActionOrigins::SteamControllerRightPadDPadSouth => 22,
            InputActionOrigins::SteamControllerRightPadDPadWest => 23,
            InputActionOrigins::SteamControllerRightPadDPadEast => 24,
            InputActionOrigins::SteamControllerLeftTriggerPull => 25,
            InputActionOrigins::SteamControllerLeftTriggerClick => 26,
            InputActionOrigins::SteamControllerRightTriggerPull => 27,
            InputActionOrigins::SteamControllerRightTriggerClick => 28,
            InputActionOrigins::SteamControllerLeftStickMove => 29,
            InputActionOrigins::SteamControllerLeftStickClick => 30,
            InputActionOrigins::SteamControllerLeftStickDPadNorth => 31,
            InputActionOrigins::SteamControllerLeftStickDPadSouth => 32,
            InputActionOrigins::SteamControllerLeftStickDPadWest => 33,
            InputActionOrigins::SteamControllerLeftStickDPadEast => 34,
            InputActionOrigins::SteamControllerGyroMove => 35,
            InputActionOrigins::SteamControllerGyroPitch => 36,
            InputActionOrigins::SteamControllerGyroYaw => 37,
            InputActionOrigins::SteamControllerGyroRoll => 38,
            InputActionOrigins::SteamControllerReserved0 => 39,
            InputActionOrigins::SteamControllerReserved1 => 40,
            InputActionOrigins::SteamControllerReserved2 => 41,
            InputActionOrigins::SteamControllerReserved3 => 42,
            InputActionOrigins::SteamControllerReserved4 => 43,
            InputActionOrigins::SteamControllerReserved5 => 44,
            InputActionOrigins::SteamControllerReserved6 => 45,
            InputActionOrigins::SteamControllerReserved7 => 46,
            InputActionOrigins::SteamControllerReserved8 => 47,
            InputActionOrigins::SteamControllerReserved9 => 48,
            InputActionOrigins::SteamControllerReserved10 => 49,
            InputActionOrigins::PS4X => 50,
            InputActionOrigins::PS4Circle => 51,
            InputActionOrigins::PS4Triangle => 52,
            InputActionOrigins::PS4Square => 53,
            InputActionOrigins::PS4LeftBumper => 54,
            InputActionOrigins::PS4RightBumper => 55,
            InputActionOrigins::PS4Options => 56,
            InputActionOrigins::PS4Share => 57,
            InputActionOrigins::PS4LeftPadTouch => 58,
            InputActionOrigins::PS4LeftPadSwipe => 59,
            InputActionOrigins::PS4LeftPadClick => 60,
            InputActionOrigins::PS4LeftPadDPadNorth => 61,
            InputActionOrigins::PS4LeftPadDPadSouth => 62,
            InputActionOrigins::PS4LeftPadDPadWest => 63,
            InputActionOrigins::PS4LeftPadDPadEast => 64,
            InputActionOrigins::PS4RightPadTouch => 65,
            InputActionOrigins::PS4RightPadSwipe => 66,
            InputActionOrigins::PS4RightPadClick => 67,
            InputActionOrigins::PS4RightPadDPadNorth => 68,
            InputActionOrigins::PS4RightPadDPadSouth => 69,
            InputActionOrigins::PS4RightPadDPadWest => 70,
            InputActionOrigins::PS4RightPadDPadEast => 71,
            InputActionOrigins::PS4CenterPadTouch => 72,
            InputActionOrigins::PS4CenterPadSwipe => 73,
            InputActionOrigins::PS4CenterPadClick => 74,
            InputActionOrigins::PS4CenterPadDPadNorth => 75,
            InputActionOrigins::PS4CenterPadDPadSouth => 76,
            InputActionOrigins::PS4CenterPadDPadWest => 77,
            InputActionOrigins::PS4CenterPadDPadEast => 78,
            InputActionOrigins::PS4LeftTriggerPull => 79,
            InputActionOrigins::PS4LeftTriggerClick => 80,
            InputActionOrigins::PS4RightTriggerPull => 81,
            InputActionOrigins::PS4RightTriggerClick => 82,
            InputActionOrigins::PS4LeftStickMove => 83,
            InputActionOrigins::PS4LeftStickClick => 84,
            InputActionOrigins::PS4LeftStickDPadNorth => 85,
            InputActionOrigins::PS4LeftStickDPadSouth => 86,
            InputActionOrigins::PS4LeftStickDPadWest => 87,
            InputActionOrigins::PS4LeftStickDPadEast => 88,
            InputActionOrigins::PS4RightStickMove => 89,
            InputActionOrigins::PS4RightStickClick => 90,
            InputActionOrigins::PS4RightStickDPadNorth => 91,
            InputActionOrigins::PS4RightStickDPadSouth => 92,
            InputActionOrigins::PS4RightStickDPadWest => 93,
            InputActionOrigins::PS4RightStickDPadEast => 94,
            InputActionOrigins::PS4DPadNorth => 95,
            InputActionOrigins::PS4DPadSouth => 96,
            InputActionOrigins::PS4DPadWest => 97,
            InputActionOrigins::PS4DPadEast => 98,
            InputActionOrigins::PS4GyroMove => 99,
            InputActionOrigins::PS4GyroPitch => 100,
            InputActionOrigins::PS4GyroYaw => 101,
            InputActionOrigins::PS4GyroRoll => 102,
            InputActionOrigins::PS4DPadMove => 103,
            InputActionOrigins::PS4Reserved1 => 104,
            InputActionOrigins::PS4Reserved2 => 105,
            InputActionOrigins::PS4Reserved3 => 106,
            InputActionOrigins::PS4Reserved4 => 107,
            InputActionOrigins::PS4Reserved5 => 108,
            InputActionOrigins::PS4Reserved6 => 109,
            InputActionOrigins::PS4Reserved7 => 110,
            InputActionOrigins::PS4Reserved8 => 111,
            InputActionOrigins::PS4Reserved9 => 112,
            InputActionOrigins::PS4Reserved10 => 113,
            InputActionOrigins::XBoxOneA => 114,
            InputActionOrigins::XBoxOneB => 115,
            InputActionOrigins::XBoxOneX => 116,
            InputActionOrigins::XBoxOneY => 117,
            InputActionOrigins::XBoxOneLeftBumper => 118,
            InputActionOrigins::XBoxOneRightBumper => 119,
            InputActionOrigins::XBoxOneMenu => 120,
            InputActionOrigins::XBoxOneView => 121,
            InputActionOrigins::XBoxOneLeftTriggerPull => 122,
            InputActionOrigins::XBoxOneLeftTriggerClick => 123,
            InputActionOrigins::XBoxOneRightTriggerPull => 124,
            InputActionOrigins::XBoxOneRightTriggerClick => 125,
            InputActionOrigins::XBoxOneLeftStickMove => 126,
            InputActionOrigins::XBoxOneLeftStickClick => 127,
            InputActionOrigins::XBoxOneLeftStickDPadNorth => 128,
            InputActionOrigins::XBoxOneLeftStickDPadSouth => 129,
            InputActionOrigins::XBoxOneLeftStickDPadWest => 130,
            InputActionOrigins::XBoxOneLeftStickDPadEast => 131,
            InputActionOrigins::XBoxOneRightStickMove => 132,
            InputActionOrigins::XBoxOneRightStickClick => 133,
            InputActionOrigins::XBoxOneRightStickDPadNorth => 134,
            InputActionOrigins::XBoxOneRightStickDPadSouth => 135,
            InputActionOrigins::XBoxOneRightStickDPadWest => 136,
            InputActionOrigins::XBoxOneRightStickDPadEast => 137,
            InputActionOrigins::XBoxOneDPadNorth => 138,
            InputActionOrigins::XBoxOneDPadSouth => 139,
            InputActionOrigins::XBoxOneDPadWest => 140,
            InputActionOrigins::XBoxOneDPadEast => 141,
            InputActionOrigins::XBoxOneDPadMove => 142,
            InputActionOrigins::XBoxOneLeftGripLower => 143,
            InputActionOrigins::XBoxOneLeftGripUpper => 144,
            InputActionOrigins::XBoxOneRightGripLower => 145,
            InputActionOrigins::XBoxOneRightGripUpper => 146,
            InputActionOrigins::XBoxOneShare => 147,
            InputActionOrigins::XBoxOneReserved6 => 148,
            InputActionOrigins::XBoxOneReserved7 => 149,
            InputActionOrigins::XBoxOneReserved8 => 150,
            InputActionOrigins::XBoxOneReserved9 => 151,
            InputActionOrigins::XBoxOneReserved10 => 152,
            InputActionOrigins::XBox360A => 153,
            InputActionOrigins::XBox360B => 154,
            InputActionOrigins::XBox360X => 155,
            InputActionOrigins::XBox360Y => 156,
            InputActionOrigins::XBox360LeftBumper => 157,
            InputActionOrigins::XBox360RightBumper => 158,
            InputActionOrigins::XBox360Start => 159,
            InputActionOrigins::XBox360Back => 160,
            InputActionOrigins::XBox360LeftTriggerPull => 161,
            InputActionOrigins::XBox360LeftTriggerClick => 162,
            InputActionOrigins::XBox360RightTriggerPull => 163,
            InputActionOrigins::XBox360RightTriggerClick => 164,
            InputActionOrigins::XBox360LeftStickMove => 165,
            InputActionOrigins::XBox360LeftStickClick => 166,
            InputActionOrigins::XBox360LeftStickDPadNorth => 167,
            InputActionOrigins::XBox360LeftStickDPadSouth => 168,
            InputActionOrigins::XBox360LeftStickDPadWest => 169,
            InputActionOrigins::XBox360LeftStickDPadEast => 170,
            InputActionOrigins::XBox360RightStickMove => 171,
            InputActionOrigins::XBox360RightStickClick => 172,
            InputActionOrigins::XBox360RightStickDPadNorth => 173,
            InputActionOrigins::XBox360RightStickDPadSouth => 174,
            InputActionOrigins::XBox360RightStickDPadWest => 175,
            InputActionOrigins::XBox360RightStickDPadEast => 176,
            InputActionOrigins::XBox360DPadNorth => 177,
            InputActionOrigins::XBox360DPadSouth => 178,
            InputActionOrigins::XBox360DPadWest => 179,
            InputActionOrigins::XBox360DPadEast => 180,
            InputActionOrigins::XBox360DPadMove => 181,
            InputActionOrigins::XBox360Reserved1 => 182,
            InputActionOrigins::XBox360Reserved2 => 183,
            InputActionOrigins::XBox360Reserved3 => 184,
            InputActionOrigins::XBox360Reserved4 => 185,
            InputActionOrigins::XBox360Reserved5 => 186,
            InputActionOrigins::XBox360Reserved6 => 187,
            InputActionOrigins::XBox360Reserved7 => 188,
            InputActionOrigins::XBox360Reserved8 => 189,
            InputActionOrigins::XBox360Reserved9 => 190,
            InputActionOrigins::XBox360Reserved10 => 191,
            InputActionOrigins::SwitchA => 192,
            InputActionOrigins::SwitchB => 193,
            InputActionOrigins::SwitchX => 194,
            InputActionOrigins::SwitchY => 195,
            InputActionOrigins::SwitchLeftBumper => 196,
            InputActionOrigins::SwitchRightBumper => 197,
            InputActionOrigins::SwitchPlus => 198,
            InputActionOrigins::SwitchMinus => 199,
            InputActionOrigins::SwitchCapture => 200,
            InputActionOrigins::SwitchLeftTriggerPull => 201,
            InputActionOrigins::SwitchLeftTriggerClick => 202,
            InputActionOrigins::SwitchRightTriggerPull => 203,
            InputActionOrigins::SwitchRightTriggerClick => 204,
            InputActionOrigins::SwitchLeftStickMove => 205,
            InputActionOrigins::SwitchLeftStickClick => 206,
            InputActionOrigins::SwitchLeftStickDPadNorth => 207,
            InputActionOrigins::SwitchLeftStickDPadSouth => 208,
            InputActionOrigins::SwitchLeftStickDPadWest => 209,
            InputActionOrigins::SwitchLeftStickDPadEast => 210,
            InputActionOrigins::SwitchRightStickMove => 211,
            InputActionOrigins::SwitchRightStickClick => 212,
            InputActionOrigins::SwitchRightStickDPadNorth => 213,
            InputActionOrigins::SwitchRightStickDPadSouth => 214,
            InputActionOrigins::SwitchRightStickDPadWest => 215,
            InputActionOrigins::SwitchRightStickDPadEast => 216,
            InputActionOrigins::SwitchDPadNorth => 217,
            InputActionOrigins::SwitchDPadSouth => 218,
            InputActionOrigins::SwitchDPadWest => 219,
            InputActionOrigins::SwitchDPadEast => 220,
            InputActionOrigins::SwitchProGyroMove => 221,
            InputActionOrigins::SwitchProGyroPitch => 222,
            InputActionOrigins::SwitchProGyroYaw => 223,
            InputActionOrigins::SwitchProGyroRoll => 224,
            InputActionOrigins::SwitchDPadMove => 225,
            InputActionOrigins::SwitchReserved1 => 226,
            InputActionOrigins::SwitchReserved2 => 227,
            InputActionOrigins::SwitchReserved3 => 228,
            InputActionOrigins::SwitchReserved4 => 229,
            InputActionOrigins::SwitchReserved5 => 230,
            InputActionOrigins::SwitchReserved6 => 231,
            InputActionOrigins::SwitchReserved7 => 232,
            InputActionOrigins::SwitchReserved8 => 233,
            InputActionOrigins::SwitchReserved9 => 234,
            InputActionOrigins::SwitchReserved10 => 235,
            InputActionOrigins::SwitchRightGyroMove => 236,
            InputActionOrigins::SwitchRightGyroPitch => 237,
            InputActionOrigins::SwitchRightGyroYaw => 238,
            InputActionOrigins::SwitchRightGyroRoll => 239,
            InputActionOrigins::SwitchLeftGyroMove => 240,
            InputActionOrigins::SwitchLeftGyroPitch => 241,
            InputActionOrigins::SwitchLeftGyroYaw => 242,
            InputActionOrigins::SwitchLeftGyroRoll => 243,
            InputActionOrigins::SwitchLeftGripLower => 244,
            InputActionOrigins::SwitchLeftGripUpper => 245,
            InputActionOrigins::SwitchRightGripLower => 246,
            InputActionOrigins::SwitchRightGripUpper => 247,
            InputActionOrigins::SwitchJoyConButtonN => 248,
            InputActionOrigins::SwitchJoyConButtonE => 249,
            InputActionOrigins::SwitchJoyConButtonS => 250,
            InputActionOrigins::SwitchJoyConButtonW => 251,
            InputActionOrigins::SwitchReserved15 => 252,
            InputActionOrigins::SwitchReserved16 => 253,
            InputActionOrigins::SwitchReserved17 => 254,
            InputActionOrigins::SwitchReserved18 => 255,
            InputActionOrigins::SwitchReserved19 => 256,
            InputActionOrigins::SwitchReserved20 => 257,
            InputActionOrigins::PS5X => 258,
            InputActionOrigins::PS5Circle => 259,
            InputActionOrigins::PS5Triangle => 260,
            InputActionOrigins::PS5Square => 261,
            InputActionOrigins::PS5LeftBumper => 262,
            InputActionOrigins::PS5RightBumper => 263,
            InputActionOrigins::PS5Option => 264,
            InputActionOrigins::PS5Create => 265,
            InputActionOrigins::PS5Mute => 266,
            InputActionOrigins::PS5LeftPadTouch => 267,
            InputActionOrigins::PS5LeftPadSwipe => 268,
            InputActionOrigins::PS5LeftPadClick => 269,
            InputActionOrigins::PS5LeftPadDPadNorth => 270,
            InputActionOrigins::PS5LeftPadDPadSouth => 271,
            InputActionOrigins::PS5LeftPadDPadWest => 272,
            InputActionOrigins::PS5LeftPadDPadEast => 273,
            InputActionOrigins::PS5RightPadTouch => 274,
            InputActionOrigins::PS5RightPadSwipe => 275,
            InputActionOrigins::PS5RightPadClick => 276,
            InputActionOrigins::PS5RightPadDPadNorth => 277,
            InputActionOrigins::PS5RightPadDPadSouth => 278,
            InputActionOrigins::PS5RightPadDPadWest => 279,
            InputActionOrigins::PS5RightPadDPadEast => 280,
            InputActionOrigins::PS5CenterPadTouch => 281,
            InputActionOrigins::PS5CenterPadSwipe => 282,
            InputActionOrigins::PS5CenterPadClick => 283,
            InputActionOrigins::PS5CenterPadDPadNorth => 284,
            InputActionOrigins::PS5CenterPadDPadSouth => 285,
            InputActionOrigins::PS5CenterPadDPadWest => 286,
            InputActionOrigins::PS5CenterPadDPadEast => 287,
            InputActionOrigins::PS5LeftTriggerPull => 288,
            InputActionOrigins::PS5LeftTriggerClick => 289,
            InputActionOrigins::PS5RightTriggerPull => 290,
            InputActionOrigins::PS5RightTriggerClick => 291,
            InputActionOrigins::PS5LeftStickMove => 292,
            InputActionOrigins::PS5LeftStickClick => 293,
            InputActionOrigins::PS5LeftStickDPadNorth => 294,
            InputActionOrigins::PS5LeftStickDPadSouth => 295,
            InputActionOrigins::PS5LeftStickDPadWest => 296,
            InputActionOrigins::PS5LeftStickDPadEast => 297,
            InputActionOrigins::PS5RightStickMove => 298,
            InputActionOrigins::PS5RightStickClick => 299,
            InputActionOrigins::PS5RightStickDPadNorth => 300,
            InputActionOrigins::PS5RightStickDPadSouth => 301,
            InputActionOrigins::PS5RightStickDPadWest => 302,
            InputActionOrigins::PS5RightStickDPadEast => 303,
            InputActionOrigins::PS5DPadNorth => 304,
            InputActionOrigins::PS5DPadSouth => 305,
            InputActionOrigins::PS5DPadWest => 306,
            InputActionOrigins::PS5DPadEast => 307,
            InputActionOrigins::PS5GyroMove => 308,
            InputActionOrigins::PS5GyroPitch => 309,
            InputActionOrigins::PS5GyroYaw => 310,
            InputActionOrigins::PS5GyroRoll => 311,
            InputActionOrigins::PS5DPadMove => 312,
            InputActionOrigins::PS5LeftGrip => 313,
            InputActionOrigins::PS5RightGrip => 314,
            InputActionOrigins::PS5LeftFn => 315,
            InputActionOrigins::PS5RightFn => 316,
            InputActionOrigins::PS5Reserved5 => 317,
            InputActionOrigins::PS5Reserved6 => 318,
            InputActionOrigins::PS5Reserved7 => 319,
            InputActionOrigins::PS5Reserved8 => 320,
            InputActionOrigins::PS5Reserved9 => 321,
            InputActionOrigins::PS5Reserved10 => 322,
            InputActionOrigins::PS5Reserved11 => 323,
            InputActionOrigins::PS5Reserved12 => 324,
            InputActionOrigins::PS5Reserved13 => 325,
            InputActionOrigins::PS5Reserved14 => 326,
            InputActionOrigins::PS5Reserved15 => 327,
            InputActionOrigins::PS5Reserved16 => 328,
            InputActionOrigins::PS5Reserved17 => 329,
            InputActionOrigins::PS5Reserved18 => 330,
            InputActionOrigins::PS5Reserved19 => 331,
            InputActionOrigins::PS5Reserved20 => 332,
            InputActionOrigins::SteamDeckA => 333,
            InputActionOrigins::SteamDeckB => 334,
            InputActionOrigins::SteamDeckX => 335,
            InputActionOrigins::SteamDeckY => 336,
            InputActionOrigins::SteamDeckL1 => 337,
            InputActionOrigins::SteamDeckR1 => 338,
            InputActionOrigins::SteamDeckMenu => 339,
            InputActionOrigins::SteamDeckView => 340,
            InputActionOrigins::SteamDeckLeftPadTouch => 341,
            InputActionOrigins::SteamDeckLeftPadSwipe => 342,
            InputActionOrigins::SteamDeckLeftPadClick => 343,
            InputActionOrigins::SteamDeckLeftPadDPadNorth => 344,
            InputActionOrigins::SteamDeckLeftPadDPadSouth => 345,
            InputActionOrigins::SteamDeckLeftPadDPadWest => 346,
            InputActionOrigins::SteamDeckLeftPadDPadEast => 347,
            InputActionOrigins::SteamDeckRightPadTouch => 348,
            InputActionOrigins::SteamDeckRightPadSwipe => 349,
            InputActionOrigins::SteamDeckRightPadClick => 350,
            InputActionOrigins::SteamDeckRightPadDPadNorth => 351,
            InputActionOrigins::SteamDeckRightPadDPadSouth => 352,
            InputActionOrigins::SteamDeckRightPadDPadWest => 353,
            InputActionOrigins::SteamDeckRightPadDPadEast => 354,
            InputActionOrigins::SteamDeckL2SoftPull => 355,
            InputActionOrigins::SteamDeckL2 => 356,
            InputActionOrigins::SteamDeckR2SoftPull => 357,
            InputActionOrigins::SteamDeckR2 => 358,
            InputActionOrigins::SteamDeckLeftStickMove => 359,
            InputActionOrigins::SteamDeckL3 => 360,
            InputActionOrigins::SteamDeckLeftStickDPadNorth => 361,
            InputActionOrigins::SteamDeckLeftStickDPadSouth => 362,
            InputActionOrigins::SteamDeckLeftStickDPadWest => 363,
            InputActionOrigins::SteamDeckLeftStickDPadEast => 364,
            InputActionOrigins::SteamDeckLeftStickTouch => 365,
            InputActionOrigins::SteamDeckRightStickMove => 366,
            InputActionOrigins::SteamDeckR3 => 367,
            InputActionOrigins::SteamDeckRightStickDPadNorth => 368,
            InputActionOrigins::SteamDeckRightStickDPadSouth => 369,
            InputActionOrigins::SteamDeckRightStickDPadWest => 370,
            InputActionOrigins::SteamDeckRightStickDPadEast => 371,
            InputActionOrigins::SteamDeckRightStickTouch => 372,
            InputActionOrigins::SteamDeckL4 => 373,
            InputActionOrigins::SteamDeckR4 => 374,
            InputActionOrigins::SteamDeckL5 => 375,
            InputActionOrigins::SteamDeckR5 => 376,
            InputActionOrigins::SteamDeckDPadMove => 377,
            InputActionOrigins::SteamDeckDPadNorth => 378,
            InputActionOrigins::SteamDeckDPadSouth => 379,
            InputActionOrigins::SteamDeckDPadWest => 380,
            InputActionOrigins::SteamDeckDPadEast => 381,
            InputActionOrigins::SteamDeckGyroMove => 382,
            InputActionOrigins::SteamDeckGyroPitch => 383,
            InputActionOrigins::SteamDeckGyroYaw => 384,
            InputActionOrigins::SteamDeckGyroRoll => 385,
            InputActionOrigins::SteamDeckReserved1 => 386,
            InputActionOrigins::SteamDeckReserved2 => 387,
            InputActionOrigins::SteamDeckReserved3 => 388,
            InputActionOrigins::SteamDeckReserved4 => 389,
            InputActionOrigins::SteamDeckReserved5 => 390,
            InputActionOrigins::SteamDeckReserved6 => 391,
            InputActionOrigins::SteamDeckReserved7 => 392,
            InputActionOrigins::SteamDeckReserved8 => 393,
            InputActionOrigins::SteamDeckReserved9 => 394,
            InputActionOrigins::SteamDeckReserved10 => 395,
            InputActionOrigins::SteamDeckReserved11 => 396,
            InputActionOrigins::SteamDeckReserved12 => 397,
            InputActionOrigins::SteamDeckReserved13 => 398,
            InputActionOrigins::SteamDeckReserved14 => 399,
            InputActionOrigins::SteamDeckReserved15 => 400,
            InputActionOrigins::SteamDeckReserved16 => 401,
            InputActionOrigins::SteamDeckReserved17 => 402,
            InputActionOrigins::SteamDeckReserved18 => 403,
            InputActionOrigins::SteamDeckReserved19 => 404,
            InputActionOrigins::SteamDeckReserved20 => 405,
            InputActionOrigins::HoripadM1 => 406,
            InputActionOrigins::HoripadM2 => 407,
            InputActionOrigins::HoripadL4 => 408,
            InputActionOrigins::HoripadR4 => 409,
            InputActionOrigins::Count => 410,
            InputActionOrigins::MaximumPossibleValue => 32767,
        }
    }

    /// The number under which this origin is handed to the native layer: its
    /// own where it names a control, and that of `Count` otherwise.
    pub open spec fn spec_native_code(self) -> i32 {
        normalized(self.spec_code())
    }

    /// The number under which this origin is handed to the native layer.
    pub fn native_code(self) -> (code: i32)
        ensures
            code == self.spec_native_code(),
    {
        let code = self.code();
        if 0 <= code && code <= LAST_ORIGIN_CODE {
            code
        } else {
            COUNT_CODE
        }
    }

    /// The origin that the native layer means by `code`: the control of that
    /// number where there is one, and `Count` for every other number.
    #[verifier::rlimit(100)]
    pub fn from_code(code: i32) -> (origin: Self)
        ensures
            origin.spec_code() == normalized(code),
    {
        match code {
            0 => InputActionOrigins::NoOrigin,
            1 => InputActionOrigins::SteamControllerA,
            2 => InputActionOrigins::SteamControllerB,
            3 => InputActionOrigins::SteamControllerX,
            4 => InputActionOrigins::SteamControllerY,
            5 => InputActionOrigins::SteamControllerLeftBumper,
            6 => InputActionOrigins::SteamControllerRightBumper,
            7 => InputActionOrigins::SteamControllerLeftGrip,
            8 => InputActionOrigins::SteamControllerRightGrip,
            9 => InputActionOrigins::SteamControllerStart,
            10 => InputActionOrigins::SteamControllerBack,
            11 => InputActionOrigins::SteamControllerLeftPadTouch,
            12 => InputActionOrigins::SteamControllerLeftPadSwipe,
            13 => InputActionOrigins::SteamControllerLeftPadClick,
            14 => InputActionOrigins::SteamControllerLeftPadDPadNorth,
            15 => InputActionOrigins::SteamControllerLeftPadDPadSouth,
            16 => InputActionOrigins::SteamControllerLeftPadDPadWest,
            17 => InputActionOrigins::SteamControllerLeftPadDPadEast,
            18 => InputActionOrigins::SteamControllerRightPadTouch,
            19 => InputActionOrigins::SteamControllerRightPadSwipe,
            20 => InputActionOrigins::SteamControllerRightPadClick,
            21 => InputActionOrigins::SteamControllerRightPadDPadNorth,
            22 => InputActionOrigins::SteamControllerRightPadDPadSouth,
            23 => InputActionOrigins::SteamControllerRightPadDPadWest,
            24 => InputActionOrigins::SteamControllerRightPadDPadEast,
            25 => InputActionOrigins::SteamControllerLeftTriggerPull,
            26 => InputActionOrigins::SteamControllerLeftTriggerClick,
            27 => InputActionOrigins::SteamControllerRightTriggerPull,
            28 => InputActionOrigins::SteamControllerRightTriggerClick,
            29 => InputActionOrigins::SteamControllerLeftStickMove,
            30 => InputActionOrigins::SteamControllerLeftStickClick,
            31 => InputActionOrigins::SteamControllerLeftStickDPadNorth,
            32 => InputActionOrigins::SteamControllerLeftStickDPadSouth,
            33 => InputActionOrigins::SteamControllerLeftStickDPadWest,
            34 => InputActionOrigins::SteamControllerLeftStickDPadEast,
            35 => InputActionOrigins::SteamControllerGyroMove,
            36 => InputActionOrigins::SteamControllerGyroPitch,
            37 => InputActionOrigins::SteamControllerGyroYaw,
            38 => InputActionOrigins::SteamControllerGyroRoll,
            39 => InputActionOrigins::SteamControllerReserved0,
            40 => InputActionOrigins::SteamControllerReserved1,
            41 => InputActionOrigins::SteamControllerReserved2,
            42 => InputActionOrigins::SteamControllerReserved3,
            43 => InputActionOrigins::SteamControllerReserved4,
            44 => InputActionOrigins::SteamControllerReserved5,
            45 => InputActionOrigins::SteamControllerReserved6,
            46 => InputActionOrigins::SteamControllerReserved7,
            47 => InputActionOrigins::SteamControllerReserved8,
            48 => InputActionOrigins::SteamControllerReserved9,
            49 => InputActionOrigins::SteamControllerReserved10,
            50 => InputActionOrigins::PS4X,
            51 => InputActionOrigins::PS4Circle,
            52 => InputActionOrigins::PS4Triangle,
            53 => InputActionOrigins::PS4Square,
            54 => InputActionOrigins::PS4LeftBumper,
            55 => InputActionOrigins::PS4RightBumper,
            56 => InputActionOrigins::PS4Options,
            57 => InputActionOrigins::PS4Share,
            58 => InputActionOrigins::PS4LeftPadTouch,
            59 => InputActionOrigins::PS4LeftPadSwipe,
            60 => InputActionOrigins::PS4LeftPadClick,
            61 => InputActionOrigins::PS4LeftPadDPadNorth,
            62 => InputActionOrigins::PS4LeftPadDPadSouth,
            63 => InputActionOrigins::PS4LeftPadDPadWest,
            64 => InputActionOrigins::PS4LeftPadDPadEast,
            65 => InputActionOrigins::PS4RightPadTouch,
            66 => InputActionOrigins::PS4RightPadSwipe,
            67 => InputActionOrigins::PS4RightPadClick,
            68 => InputActionOrigins::PS4RightPadDPadNorth,
            69 => InputActionOrigins::PS4RightPadDPadSouth,
            70 => InputActionOrigins::PS4RightPadDPadWest,
            71 => InputActionOrigins::PS4RightPadDPadEast,
            72 => InputActionOrigins::PS4CenterPadTouch,
            73 => InputActionOrigins::PS4CenterPadSwipe,
            74 => InputActionOrigins::PS4CenterPadClick,
            75 => InputActionOrigins::PS4CenterPadDPadNorth,
            76 => InputActionOrigins::PS4CenterPadDPadSouth,
            77 => InputActionOrigins::PS4CenterPadDPadWest,
            78 => InputActionOrigins::PS4CenterPadDPadEast,
            79 => InputActionOrigins::PS4LeftTriggerPull,
            80 => InputActionOrigins::PS4LeftTriggerClick,
            81 => InputActionOrigins::PS4RightTriggerPull,
            82 => InputActionOrigins::PS4RightTriggerClick,
            83 => InputActionOrigins::PS4LeftStickMove,
            84 => InputActionOrigins::PS4LeftStickClick,
            85 => InputActionOrigins::PS4LeftStickDPadNorth,
            86 => InputActionOrigins::PS4LeftStickDPadSouth,
            87 => InputActionOrigins::PS4LeftStickDPadWest,
            88 => InputActionOrigins::PS4LeftStickDPadEast,
            89 => InputActionOrigins::PS4RightStickMove,
            90 => InputActionOrigins::PS4RightStickClick,
            91 => InputActionOrigins::PS4RightStickDPadNorth,
            92 => InputActionOrigins::PS4RightStickDPadSouth,
            93 => InputActionOrigins::PS4RightStickDPadWest,
            94 => InputActionOrigins::PS4RightStickDPadEast,
            95 => InputActionOrigins::PS4DPadNorth,
            96 => InputActionOrigins::PS4DPadSouth,
            97 => InputActionOrigins::PS4DPadWest,
            98 => InputActionOrigins::PS4DPadEast,
            99 => InputActionOrigins::PS4GyroMove,
            100 => InputActionOrigins::PS4GyroPitch,
            101 => InputActionOrigins::PS4GyroYaw,
            102 => InputActionOrigins::PS4GyroRoll,
            103 => InputActionOrigins::PS4DPadMove,
            104 => InputActionOrigins::PS4Reserved1,
            105 => InputActionOrigins::PS4Reserved2,
            106 => InputActionOrigins::PS4Reserved3,
            107 => InputActionOrigins::PS4Reserved4,
            108 => InputActionOrigins::PS4Reserved5,
            109 => InputActionOrigins::PS4Reserved6,
            110 => InputActionOrigins::PS4Reserved7,
            111 => InputActionOrigins::PS4Reserved8,
            112 => InputActionOrigins::PS4Reserved9,
            113 => InputActionOrigins::PS4Reserved10,
            114 => InputActionOrigins::XBoxOneA,
            115 => InputActionOrigins::XBoxOneB,
            116 => InputActionOrigins::XBoxOneX,
            117 => InputActionOrigins::XBoxOneY,
            118 => InputActionOrigins::XBoxOneLeftBumper,
            119 => InputActionOrigins::XBoxOneRightBumper,
            120 => InputActionOrigins::XBoxOneMenu,
            121 => InputActionOrigins::XBoxOneView,
            122 => InputActionOrigins::XBoxOneLeftTriggerPull,
            123 => InputActionOrigins::XBoxOneLeftTriggerClick,
            124 => InputActionOrigins::XBoxOneRightTriggerPull,
            125 => InputActionOrigins::XBoxOneRightTriggerClick,
            126 => InputActionOrigins::XBoxOneLeftStickMove,
            127 => InputActionOrigins::XBoxOneLeftStickClick,
            128 => InputActionOrigins::XBoxOneLeftStickDPadNorth,
            129 => InputActionOrigins::XBoxOneLeftStickDPadSouth,
            130 => InputActionOrigins::XBoxOneLeftStickDPadWest,
            131 => InputActionOrigins::XBoxOneLeftStickDPadEast,
            132 => InputActionOrigins::XBoxOneRightStickMove,
            133 => InputActionOrigins::XBoxOneRightStickClick,
            134 => InputActionOrigins::XBoxOneRightStickDPadNorth,
            135 => InputActionOrigins::XBoxOneRightStickDPadSouth,
            136 => InputActionOrigins::XBoxOneRightStickDPadWest,
            137 => InputActionOrigins::XBoxOneRightStickDPadEast,
            138 => InputActionOrigins::XBoxOneDPadNorth,
            139 => InputActionOrigins::XBoxOneDPadSouth,
            140 => InputActionOrigins::XBoxOneDPadWest,
            141 => InputActionOrigins::XBoxOneDPadEast,
            142 => InputActionOrigins::XBoxOneDPadMove,
            143 => InputActionOrigins::XBoxOneLeftGripLower,
            144 => InputActionOrigins::XBoxOneLeftGripUpper,
            145 => InputActionOrigins::XBoxOneRightGripLower,
            146 => InputActionOrigins::XBoxOneRightGripUpper,
            147 => InputActionOrigins::XBoxOneShare,
            148 => InputActionOrigins::XBoxOneReserved6,
            149 => InputActionOrigins::XBoxOneReserved7,
            150 => InputActionOrigins::XBoxOneReserved8,
            151 => InputActionOrigins::XBoxOneReserved9,
            152 => InputActionOrigins::XBoxOneReserved10,
            153 => InputActionOrigins::XBox360A,
            154 => InputActionOrigins::XBox360B,
            155 => InputActionOrigins::XBox360X,
            156 => InputActionOrigins::XBox360Y,
            157 => InputActionOrigins::XBox360LeftBumper,
            158 => InputActionOrigins::XBox360RightBumper,
            159 => InputActionOrigins::XBox360Start,
            160 => InputActionOrigins::XBox360Back,
            161 => InputActionOrigins::XBox360LeftTriggerPull,
            162 => InputActionOrigins::XBox360LeftTriggerClick,
            163 => InputActionOrigins::XBox360RightTriggerPull,
            164 => InputActionOrigins::XBox360RightTriggerClick,
            165 => InputActionOrigins::XBox360LeftStickMove,
            166 => InputActionOrigins::XBox360LeftStickClick,
            167 => InputActionOrigins::XBox360LeftStickDPadNorth,
            168 => InputActionOrigins::XBox360LeftStickDPadSouth,
            169 => InputActionOrigins::XBox360LeftStickDPadWest,
            170 => InputActionOrigins::XBox360LeftStickDPadEast,
            171 => InputActionOrigins::XBox360RightStickMove,
            172 => InputActionOrigins::XBox360RightStickClick,
            173 => InputActionOrigins::XBox360RightStickDPadNorth,
            174 => InputActionOrigins::XBox360RightStickDPadSouth,
            175 => InputActionOrigins::XBox360RightStickDPadWest,
            176 => InputActionOrigins::XBox360RightStickDPadEast,
            177 => InputActionOrigins::XBox360DPadNorth,
            178 => InputActionOrigins::XBox360DPadSouth,
            179 => InputActionOrigins::XBox360DPadWest,
            180 => InputActionOrigins::XBox360DPadEast,
            181 => InputActionOrigins::XBox360DPadMove,
            182 => InputActionOrigins::XBox360Reserved1,
            183 => InputActionOrigins::XBox360Reserved2,
            184 => InputActionOrigins::XBox360Reserved3,
            185 => InputActionOrigins::XBox360Reserved4,
            186 => InputActionOrigins::XBox360Reserved5,
            187 => InputActionOrigins::XBox360Reserved6,
            188 => InputActionOrigins::XBox360Reserved7,
            189 => InputActionOrigins::XBox360Reserved8,
            190 => InputActionOrigins::XBox360Reserved9,
            191 => InputActionOrigins::XBox360Reserved10,
            192 => InputActionOrigins::SwitchA,
            193 => InputActionOrigins::SwitchB,
            194 => InputActionOrigins::SwitchX,
            195 => InputActionOrigins::SwitchY,
            196 => InputActionOrigins::SwitchLeftBumper,
            197 => InputActionOrigins::SwitchRightBumper,
            198 => InputActionOrigins::SwitchPlus,
            199 => InputActionOrigins::SwitchMinus,
            200 => InputActionOrigins::SwitchCapture,
            201 => InputActionOrigins::SwitchLeftTriggerPull,
            202 => InputActionOrigins::SwitchLeftTriggerClick,
            203 => InputActionOrigins::SwitchRightTriggerPull,
            204 => InputActionOrigins::SwitchRightTriggerClick,
            205 => InputActionOrigins::SwitchLeftStickMove,
            206 => InputActionOrigins::SwitchLeftStickClick,
            207 => InputActionOrigins::SwitchLeftStickDPadNorth,
            208 => InputActionOrigins::SwitchLeftStickDPadSouth,
            209 => InputActionOrigins::SwitchLeftStickDPadWest,
            210 => InputActionOrigins::SwitchLeftStickDPadEast,
            211 => InputActionOrigins::SwitchRightStickMove,
            212 => InputActionOrigins::SwitchRightStickClick,
            213 => InputActionOrigins::SwitchRightStickDPadNorth,
            214 => InputActionOrigins::SwitchRightStickDPadSouth,
            215 => InputActionOrigins::SwitchRightStickDPadWest,
            216 => InputActionOrigins::SwitchRightStickDPadEast,
            217 => InputActionOrigins::SwitchDPadNorth,
            218 => InputActionOrigins::SwitchDPadSouth,
            219 => InputActionOrigins::SwitchDPadWest,
            220 => InputActionOrigins::SwitchDPadEast,
            221 => InputActionOrigins::SwitchProGyroMove,
            222 => InputActionOrigins::SwitchProGyroPitch,
            223 => InputActionOrigins::SwitchProGyroYaw,
            224 => InputActionOrigins::SwitchProGyroRoll,
            225 => InputActionOrigins::SwitchDPadMove,
            226 => InputActionOrigins::SwitchReserved1,
            227 => InputActionOrigins::SwitchReserved2,
            228 => InputActionOrigins::SwitchReserved3,
            229 => InputActionOrigins::SwitchReserved4,
            230 => InputActionOrigins::SwitchReserved5,
            231 => InputActionOrigins::SwitchReserved6,
            232 => InputActionOrigins::SwitchReserved7,
            233 => InputActionOrigins::SwitchReserved8,
            234 => InputActionOrigins::SwitchReserved9,
            235 => InputActionOrigins::SwitchReserved10,
            236 => InputActionOrigins::SwitchRightGyroMove,
            237 => InputActionOrigins::SwitchRightGyroPitch,
            238 => InputActionOrigins::SwitchRightGyroYaw,
            239 => InputActionOrigins::SwitchRightGyroRoll,
            240 => InputActionOrigins::SwitchLeftGyroMove,
            241 => InputActionOrigins::SwitchLeftGyroPitch,
            242 => InputActionOrigins::SwitchLeftGyroYaw,
            243 => InputActionOrigins::SwitchLeftGyroRoll,
            244 => InputActionOrigins::SwitchLeftGripLower,
            245 => InputActionOrigins::SwitchLeftGripUpper,
            246 => InputActionOrigins::SwitchRightGripLower,
            247 => InputActionOrigins::SwitchRightGripUpper,
            248 => InputActionOrigins::SwitchJoyConButtonN,
            249 => InputActionOrigins::SwitchJoyConButtonE,
            250 => InputActionOrigins::SwitchJoyConButtonS,
            251 => InputActionOrigins::SwitchJoyConButtonW,
            252 => InputActionOrigins::SwitchReserved15,
            253 => InputActionOrigins::SwitchReserved16,
            254 => InputActionOrigins::SwitchReserved17,
            255 => InputActionOrigins::SwitchReserved18,
            256 => InputActionOrigins::SwitchReserved19,
            257 => InputActionOrigins::SwitchReserved20,
            258 => InputActionOrigins::PS5X,
            259 => InputActionOrigins::PS5Circle,
            260 => InputActionOrigins::PS5Triangle,
            261 => InputActionOrigins::PS5Square,
            262 => InputActionOrigins::PS5LeftBumper,
            263 => InputActionOrigins::PS5RightBumper,
            264 => InputActionOrigins::PS5Option,
            265 => InputActionOrigins::PS5Create,
            266 => InputActionOrigins::PS5Mute,
            267 => InputActionOrigins::PS5LeftPadTouch,
            268 => InputActionOrigins::PS5LeftPadSwipe,
            269 => InputActionOrigins::PS5LeftPadClick,
            270 => InputActionOrigins::PS5LeftPadDPadNorth,
            271 => InputActionOrigins::PS5LeftPadDPadSouth,
            272 => InputActionOrigins::PS5LeftPadDPadWest,
            273 => InputActionOrigins::PS5LeftPadDPadEast,
            274 => InputActionOrigins::PS5RightPadTouch,
            275 => InputActionOrigins::PS5RightPadSwipe,
            276 => InputActionOrigins::PS5RightPadClick,
            277 => InputActionOrigins::PS5RightPadDPadNorth,
            278 => InputActionOrigins::PS5RightPadDPadSouth,
            279 => InputActionOrigins::PS5RightPadDPadWest,
            280 => InputActionOrigins::PS5RightPadDPadEast,
            281 => InputActionOrigins::PS5CenterPadTouch,
            282 => InputActionOrigins::PS5CenterPadSwipe,
            283 => InputActionOrigins::PS5CenterPadClick,
            284 => InputActionOrigins::PS5CenterPadDPadNorth,
            285 => InputActionOrigins::PS5CenterPadDPadSouth,
            286 => InputActionOrigins::PS5CenterPadDPadWest,
            287 => InputActionOrigins::PS5CenterPadDPadEast,
            288 => InputActionOrigins::PS5LeftTriggerPull,
            289 => InputActionOrigins::PS5LeftTriggerClick,
            290 => InputActionOrigins::PS5RightTriggerPull,
            291 => InputActionOrigins::PS5RightTriggerClick,
            292 => InputActionOrigins::PS5LeftStickMove,
            293 => InputActionOrigins::PS5LeftStickClick,
            294 => InputActionOrigins::PS5LeftStickDPadNorth,
            295 => InputActionOrigins::PS5LeftStickDPadSouth,
            296 => InputActionOrigins::PS5LeftStickDPadWest,
            297 => InputActionOrigins::PS5LeftStickDPadEast,
            298 => InputActionOrigins::PS5RightStickMove,
            299 => InputActionOrigins::PS5RightStickClick,
            300 => InputActionOrigins::PS5RightStickDPadNorth,
            301 => InputActionOrigins::PS5RightStickDPadSouth,
            302 => InputActionOrigins::PS5RightStickDPadWest,
            303 => InputActionOrigins::PS5RightStickDPadEast,
            304 => InputActionOrigins::PS5DPadNorth,
            305 => InputActionOrigins::PS5DPadSouth,
            306 => InputActionOrigins::PS5DPadWest,
            307 => InputActionOrigins::PS5DPadEast,
            308 => InputActionOrigins::PS5GyroMove,
            309 => InputActionOrigins::PS5GyroPitch,
            310 => InputActionOrigins::PS5GyroYaw,
            311 => InputActionOrigins::PS5GyroRoll,
            312 => InputActionOrigins::PS5DPadMove,
            313 => InputActionOrigins::PS5LeftGrip,
            314 => InputActionOrigins::PS5RightGrip,
            315 => InputActionOrigins::PS5LeftFn,
            316 => InputActionOrigins::PS5RightFn,
            317 => InputActionOrigins::PS5Reserved5,
            318 => InputActionOrigins::PS5Reserved6,
            319 => InputActionOrigins::PS5Reserved7,
            320 => InputActionOrigins::PS5Reserved8,
            321 => InputActionOrigins::PS5Reserved9,
            322 => InputActionOrigins::PS5Reserved10,
            323 => InputActionOrigins::PS5Reserved11,
            324 => InputActionOrigins::PS5Reserved12,
            325 => InputActionOrigins::PS5Reserved13,
            326 => InputActionOrigins::PS5Reserved14,
            327 => InputActionOrigins::PS5Reserved15,
            328 => InputActionOrigins::PS5Reserved16,
            329 => InputActionOrigins::PS5Reserved17,
            330 => InputActionOrigins::PS5Reserved18,
            331 => InputActionOrigins::PS5Reserved19,
            332 => InputActionOrigins::PS5Reserved20,
            333 => InputActionOrigins::SteamDeckA,
            334 => InputActionOrigins::SteamDeckB,
            335 => InputActionOrigins::SteamDeckX,
            336 => InputActionOrigins::SteamDeckY,
            337 => InputActionOrigins::SteamDeckL1,
            338 => InputActionOrigins::SteamDeckR1,
            339 => InputActionOrigins::SteamDeckMenu,
            340 => InputActionOrigins::SteamDeckView,
            341 => InputActionOrigins::SteamDeckLeftPadTouch,
            342 => InputActionOrigins::SteamDeckLeftPadSwipe,
            343 => InputActionOrigins::SteamDeckLeftPadClick,
            344 => InputActionOrigins::SteamDeckLeftPadDPadNorth,
            345 => InputActionOrigins::SteamDeckLeftPadDPadSouth,
            346 => InputActionOrigins::SteamDeckLeftPadDPadWest,
            347 => InputActionOrigins::SteamDeckLeftPadDPadEast,
            348 => InputActionOrigins::SteamDeckRightPadTouch,
            349 => InputActionOrigins::SteamDeckRightPadSwipe,
            350 => InputActionOrigins::SteamDeckRightPadClick,
            351 => InputActionOrigins::SteamDeckRightPadDPadNorth,
            352 => InputActionOrigins::SteamDeckRightPadDPadSouth,
            353 => InputActionOrigins::SteamDeckRightPadDPadWest,
            354 => InputActionOrigins::SteamDeckRightPadDPadEast,
            355 => InputActionOrigins::SteamDeckL2SoftPull,
            356 => InputActionOrigins::SteamDeckL2,
            357 => InputActionOrigins::SteamDeckR2SoftPull,
            358 => InputActionOrigins::SteamDeckR2,
            359 => InputActionOrigins::SteamDeckLeftStickMove,
            360 => InputActionOrigins::SteamDeckL3,
            361 => InputActionOrigins::SteamDeckLeftStickDPadNorth,
            362 => InputActionOrigins::SteamDeckLeftStickDPadSouth,
            363 => InputActionOrigins::SteamDeckLeftStickDPadWest,
            364 => InputActionOrigins::SteamDeckLeftStickDPadEast,
            365 => InputActionOrigins::SteamDeckLeftStickTouch,
            366 => InputActionOrigins::SteamDeckRightStickMove,
            367 => InputActionOrigins::SteamDeckR3,
            368 => InputActionOrigins::SteamDeckRightStickDPadNorth,
            369 => InputActionOrigins::SteamDeckRightStickDPadSouth,
            370 => InputActionOrigins::SteamDeckRightStickDPadWest,
            371 => InputActionOrigins::SteamDeckRightStickDPadEast,
            372 => InputActionOrigins::SteamDeckRightStickTouch,
            373 => InputActionOrigins::SteamDeckL4,
            374 => InputActionOrigins::SteamDeckR4,
            375 => InputActionOrigins::SteamDeckL5,
            376 => InputActionOrigins::SteamDeckR5,
            377 => InputActionOrigins::SteamDeckDPadMove,
            378 => InputActionOrigins::SteamDeckDPadNorth,
            379 => InputActionOrigins::SteamDeckDPadSouth,
            380 => InputActionOrigins::SteamDeckDPadWest,
            381 => InputActionOrigins::SteamDeckDPadEast,
            382 => InputActionOrigins::SteamDeckGyroMove,
            383 => InputActionOrigins::SteamDeckGyroPitch,
            384 => InputActionOrigins::SteamDeckGyroYaw,
            385 => InputActionOrigins::SteamDeckGyroRoll,
            386 => InputActionOrigins::SteamDeckReserved1,
            387 => InputActionOrigins::SteamDeckReserved2,
            388 => InputActionOrigins::SteamDeckReserved3,
            389 => InputActionOrigins::SteamDeckReserved4,
            390 => InputActionOrigins::SteamDeckReserved5,
            391 => InputActionOrigins::SteamDeckReserved6,
            392 => InputActionOrigins::SteamDeckReserved7,
            393 => InputActionOrigins::SteamDeckReserved8,
            394 => InputActionOrigins::SteamDeckReserved9,
            395 => InputActionOrigins::SteamDeckReserved10,
            396 => InputActionOrigins::SteamDeckReserved11,
            397 => InputActionOrigins::SteamDeckReserved12,
            398 => InputActionOrigins::SteamDeckReserved13,
            399 => InputActionOrigins::SteamDeckReserved14,
            400 => InputActionOrigins::SteamDeckReserved15,
            401 => InputActionOrigins::SteamDeckReserved16,
            402 => InputActionOrigins::SteamDeckReserved17,
            403 => InputActionOrigins::SteamDeckReserved18,
            404 => InputActionOrigins::SteamDeckReserved19,
            405 => InputActionOrigins::SteamDeckReserved20,
            406 => InputActionOrigins::HoripadM1,
            407 => InputActionOrigins::HoripadM2,
            408 => InputActionOrigins::HoripadL4,
            409 => InputActionOrigins::HoripadR4,
            _ => InputActionOrigins::Count,
        }
    }
}

/// The number that `from_code` gives the origin of `code`.
pub open spec fn normalized(code: i32) -> i32 {
    if 0 <= code <= LAST_ORIGIN_CODE {
        code
    } else {
        COUNT_CODE
    }
}

/// The origins that the native layer means by `codes`, one for one and in
/// the same order.
pub fn origins_from_codes(codes: &Vec<i32>) -> (origins: Vec<InputActionOrigins>)
    ensures
        origins@.len() == codes@.len(),
        forall|i: int|
            0 <= i < codes@.len() ==> (#[trigger] origins@[i]).spec_code() == normalized(codes@[i]),
{
    let mut origins: Vec<InputActionOrigins> = Vec::new();
    let mut i: usize = 0;
    while i < codes.len()
        invariant
            i <= codes.len(),
            origins@.len() == i,
            forall|j: int|
                0 <= j < i ==> (#[trigger] origins@[j]).spec_code() == normalized(codes@[j]),
        decreases codes.len() - i,
    {
        origins.push(InputActionOrigins::from_code(codes[i]));
        i += 1;
    }
    origins
}

/// No two origins share a number, so a number names at most one origin.
pub proof fn lemma_codes_are_distinct(a: InputActionOrigins, b: InputActionOrigins)
    requires
        a.spec_code() == b.spec_code(),
    ensures
        a == b,
{
}

/// An origin that names a control survives the way to the native layer and
/// back; every other origin comes back as `Count`.
pub proof fn lemma_native_round_trip(origin: InputActionOrigins, back: InputActionOrigins)
    requires
        back.spec_code() == normalized(origin.spec_native_code()),
    ensures
        back == if 0 <= origin.spec_code() <= LAST_ORIGIN_CODE {
            origin
        } else {
            InputActionOrigins::Count
        },
{
    if 0 <= origin.spec_code() <= LAST_ORIGIN_CODE {
        lemma_codes_are_distinct(origin, back);
    } else {
        lemma_codes_are_distinct(InputActionOrigins::Count, back);
    }
}

} // verus!
