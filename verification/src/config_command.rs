//! The commands that a joystick button, axis or hat can be bound to.

use vstd::prelude::*;
use vstd::std_specs::convert::TryFromSpecImpl;
use vstd::string::StringExecFns;

verus! {

#[derive(Debug, Clone, Copy, PartialEq, Eq, Structural)]
pub enum Command {
    Unset,
    Up,
    Down,
    Left,
    Right,
    Edit,
    Opt,
    Shift,
    Play,
    VelocityMinus,
    VelocityPlus,
    OctaveMinus,
    OctavePlus,
    Keyjazz,
}

impl Default for Command {
    fn default() -> (r: Self)
        ensures
            r == Command::Unset,
    {
        Command::Unset
    }
}

/// The command with the given number, if there is one.
pub open spec fn command_of(number: u8) -> Option<Command> {
    if number == 0 {
        Some(Command::Unset)
    } else if number == 1 {
        Some(Command::Up)
    } else if number == 2 {
        Some(Command::Down)
    } else if number == 3 {
        Some(Command::Left)
    } else if number == 4 {
        Some(Command::Right)
    } else if number == 5 {
        Some(Command::Edit)
    } else if number == 6 {
        Some(Command::Opt)
    } else if number == 7 {
        Some(Command::Shift)
    } else if number == 8 {
        Some(Command::Play)
    } else if number == 9 {
        Some(Command::VelocityMinus)
    } else if number == 10 {
        Some(Command::VelocityPlus)
    } else if number == 11 {
        Some(Command::OctaveMinus)
    } else if number == 12 {
        Some(Command::OctavePlus)
    } else if number == 13 {
        Some(Command::Keyjazz)
    } else {
        None
    }
}

impl Command {
    /// Width of the widest label, in characters.
    pub const MAX_LENGTH: usize = 9;

    /// The place of the command in the order in which a menu steps through
    /// the commands, from 0.
    pub open spec fn spec_number(self) -> u8 {
        match self {
            Command::Unset => 0,
            Command::Up => 1,
            Command::Down => 2,
            Command::Left => 3,
            Command::Right => 4,
            Command::Edit => 5,
            Command::Opt => 6,
            Command::Shift => 7,
            Command::Play => 8,
            Command::VelocityMinus => 9,
            Command::VelocityPlus => 10,
            Command::OctaveMinus => 11,
            Command::OctavePlus => 12,
            Command::Keyjazz => 13,
        }
    }

    /// The place of the command in the order of the commands, from 0.
    #[verifier::when_used_as_spec(spec_number)]
    pub fn number(self) -> (r: u8)
        ensures
            r == self.spec_number(),
            r <= 13,
    {
        match self {
            Command::Unset => 0,
            Command::Up => 1,
            Command::Down => 2,
            Command::Left => 3,
            Command::Right => 4,
            Command::Edit => 5,
            Command::Opt => 6,
            Command::Shift => 7,
            Command::Play => 8,
            Command::VelocityMinus => 9,
            Command::VelocityPlus => 10,
            Command::OctaveMinus => 11,
            Command::OctavePlus => 12,
            Command::Keyjazz => 13,
        }
    }

    /// Whether this is the command that does nothing.
    pub fn is_none(&self) -> (r: bool)
        ensures
            r == (*self == Command::Unset),
    {
        *self == Command::Unset
    }

    /// The label of the command; that of [`Command::Unset`] is blank and as
    /// wide as the widest.
    pub open spec fn text(self) -> Seq<char> {
        match self {
            Command::Unset => "         "@,
            Command::Up => "UP"@,
            Command::Down => "DOWN"@,
            Command::Left => "LEFT"@,
            Command::Right => "RIGHT"@,
            Command::Edit => "EDIT"@,
            Command::Opt => "OPTION"@,
            Command::Shift => "SHIFT"@,
            Command::Play => "PLAY"@,
            Command::VelocityMinus => "VELOCITY-"@,
            Command::VelocityPlus => "VELOCITY+"@,
            Command::OctaveMinus => "OCTAVE-"@,
            Command::OctavePlus => "OCTAVE+"@,
            Command::Keyjazz => "KEYJAZZ"@,
        }
    }

    /// The label of the command as a menu shows it.
    pub fn label(&self) -> (r: String)
        ensures
            r@ == self.text(),
    {
        match self {
            Command::Unset => String::from_str("         "),
            Command::Up => String::from_str("UP"),
            Command::Down => String::from_str("DOWN"),
            Command::Left => String::from_str("LEFT"),
            Command::Right => String::from_str("RIGHT"),
            Command::Edit => String::from_str("EDIT"),
            Command::Opt => String::from_str("OPTION"),
            Command::Shift => String::from_str("SHIFT"),
            Command::Play => String::from_str("PLAY"),
            Command::VelocityMinus => String::from_str("VELOCITY-"),
            Command::VelocityPlus => String::from_str("VELOCITY+"),
            Command::OctaveMinus => String::from_str("OCTAVE-"),
            Command::OctavePlus => String::from_str("OCTAVE+"),
            Command::Keyjazz => String::from_str("KEYJAZZ"),
        }
    }
}

impl TryFrom<u8> for Command {
    type Error = ();

    fn try_from(value: u8) -> (r: Result<Self, ()>) {
        Ok(
            match value {
                0 => Command::Unset,
                1 => Command::Up,
                2 => Command::Down,
                3 => Command::Left,
                4 => Command::Right,
                5 => Command::Edit,
                6 => Command::Opt,
                7 => Command::Shift,
                8 => Command::Play,
                9 => Command::VelocityMinus,
                10 => Command::VelocityPlus,
                11 => Command::OctaveMinus,
                12 => Command::OctavePlus,
                13 => Command::Keyjazz,
                _ => {
                    return Err(());
                },
            },
        )
    }
}

impl TryFromSpecImpl<u8> for Command {
    open spec fn obeys_try_from_spec() -> bool {
        true
    }

    open spec fn try_from_spec(value: u8) -> Result<Self, ()> {
        match command_of(value) {
            Some(command) => Ok(command),
            None => Err(()),
        }
    }
}

/// A command is found again by its number, and no other number gives it.
pub proof fn lemma_command_numbers(command: Command, number: u8)
    ensures
        command_of(command.spec_number()) == Some(command),
        command_of(number) == Some(command) ==> number == command.spec_number(),
        command_of(number) is Some <==> number <= 13,
{
}

} // verus!
