use vstd::prelude::*;

verus! {

/// The type of a controller
#[derive(Debug, Clone, Copy, PartialEq, Eq, Structural)]
pub enum InputType {
    Unknown,
    SteamController,
    XBox360Controller,
    XBoxOneController,
    GenericGamepad,
    PS4Controller,
    AppleMFiController,
    AndroidController,
    SwitchJoyConPair,
    SwitchJoyConSingle,
    SwitchProController,
    MobileTouch,
    PS3Controller,
    PS5Controller,
    SteamDeckController,
}

impl InputType {

    /// Converts a `ESteamInputType` code; a code that stands for no value gives `Unknown`.
    pub fn from_code(code: i32) -> (r: InputType)
        ensures
            r == (match input_type_of_code(code) {
                Some(v) => v,
                None => InputType::Unknown,
            }),
    {
        match code {
            0 => InputType::Unknown,
            1 => InputType::SteamController,
            2 => InputType::XBox360Controller,
            3 => InputType::XBoxOneController,
            4 => InputType::GenericGamepad,
            5 => InputType::PS4Controller,
            6 => InputType::AppleMFiController,
            7 => InputType::AndroidController,
            8 => InputType::SwitchJoyConPair,
            9 => InputType::SwitchJoyConSingle,
            10 => InputType::SwitchProController,
            11 => InputType::MobileTouch,
            12 => InputType::PS3Controller,
            13 => InputType::PS5Controller,
            14 => InputType::SteamDeckController,
            _ => InputType::Unknown,
        }
    }
}

/// The value that a `ESteamInputType` code stands for, if any.
pub open spec fn input_type_of_code(code: i32) -> Option<InputType> {
    match code {
        0 => Some(InputType::Unknown),
        1 => Some(InputType::SteamController),
        2 => Some(InputType::XBox360Controller),
        3 => Some(InputType::XBoxOneController),
        4 => Some(InputType::GenericGamepad),
        5 => Some(InputType::PS4Controller),
        6 => Some(InputType::AppleMFiController),
        7 => Some(InputType::AndroidController),
        8 => Some(InputType::SwitchJoyConPair),
        9 => Some(InputType::SwitchJoyConSingle),
        10 => Some(InputType::SwitchProController),
        11 => Some(InputType::MobileTouch),
        12 => Some(InputType::PS3Controller),
        13 => Some(InputType::PS5Controller),
        14 => Some(InputType::SteamDeckController),
        _ => None,
    }
}

/// The most controllers that Steam Input reports at once.
pub const STEAM_INPUT_MAX_COUNT: usize = 16;

/// The handles of the connected controllers: the first `count` entries that
/// Steam filled.
pub fn connected_controllers(handles: Vec<u64>, count: usize) -> (r: Vec<u64>)
    requires
        count <= handles@.len(),
    ensures
        r@ == handles@.subrange(0, count as int),
{
    let mut handles = handles;
    handles.truncate(count);
    handles
}

/// The values of `input_type_of_code`, as the Steamworks SDK headers fix them.
pub proof fn lemma_input_type_of_code_table()
    ensures
        input_type_of_code(0) == Some(InputType::Unknown),
        input_type_of_code(1) == Some(InputType::SteamController),
        input_type_of_code(2) == Some(InputType::XBox360Controller),
        input_type_of_code(3) == Some(InputType::XBoxOneController),
        input_type_of_code(4) == Some(InputType::GenericGamepad),
        input_type_of_code(5) == Some(InputType::PS4Controller),
        input_type_of_code(6) == Some(InputType::AppleMFiController),
        input_type_of_code(7) == Some(InputType::AndroidController),
        input_type_of_code(8) == Some(InputType::SwitchJoyConPair),
        input_type_of_code(9) == Some(InputType::SwitchJoyConSingle),
        input_type_of_code(10) == Some(InputType::SwitchProController),
        input_type_of_code(11) == Some(InputType::MobileTouch),
        input_type_of_code(12) == Some(InputType::PS3Controller),
        input_type_of_code(13) == Some(InputType::PS5Controller),
        input_type_of_code(14) == Some(InputType::SteamDeckController),
{
}

} // verus!
