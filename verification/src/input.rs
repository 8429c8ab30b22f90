use crate::system::{SystemId, GC, WII};
use vstd::prelude::*;

verus! {

/// Analog stick and trigger ranges of a GameCube pad.
pub const STICK_CENTER: u8 = 0x80;
pub const STICK_MIN: u8 = 0x00;
pub const STICK_MAX: u8 = 0xFF;
pub const TRIGGER_MIN: u8 = 0x00;
pub const TRIGGER_MAX: u8 = 0xFF;

/// State of one GameCube controller port.
#[derive(Clone, Copy, Debug)]
pub struct PadStatus {
    pub connected: bool,
    pub buttons: u16,
    pub stick_x: u8,
    pub stick_y: u8,
    pub substick_x: u8,
    pub substick_y: u8,
    pub trigger_left: u8,
    pub trigger_right: u8,
}

impl Default for PadStatus {
    /// An unplugged port with every input at zero.
    fn default() -> (r: Self)
        ensures
            !r.connected,
            r.buttons == 0,
            r.stick_x == 0 && r.stick_y == 0 && r.substick_x == 0 && r.substick_y == 0,
            r.trigger_left == 0 && r.trigger_right == 0,
    {
        PadStatus {
            connected: false,
            buttons: 0,
            stick_x: 0,
            stick_y: 0,
            substick_x: 0,
            substick_y: 0,
            trigger_left: 0,
            trigger_right: 0,
        }
    }
}

/// Input from the host for one frame.
#[derive(Clone, Copy, Debug)]
pub enum HostInput {
    Gc(PadStatus),
    Wii { wiimote_buttons: u16, nunchuk_buttons: u8, nunchuk_stick_x: u8, nunchuk_stick_y: u8 },
}

impl HostInput {
    /// A connected GameCube pad with nothing pressed.
    pub fn gc_connected() -> (r: Self)
        ensures
            r == HostInput::gc_connected_spec(),
    {
        HostInput::Gc(PadStatus { connected: true, ..PadStatus::default() })
    }

    pub open spec fn gc_connected_spec() -> HostInput {
        HostInput::Gc(
            PadStatus {
                connected: true,
                buttons: 0,
                stick_x: 0,
                stick_y: 0,
                substick_x: 0,
                substick_y: 0,
                trigger_left: 0,
                trigger_right: 0,
            },
        )
    }

    /// A Wii Remote with nothing pressed and the Nunchuk stick centred.
    pub fn wii_neutral() -> (r: Self)
        ensures
            r == HostInput::wii_neutral_spec(),
    {
        HostInput::Wii { wiimote_buttons: 0, nunchuk_buttons: 0, nunchuk_stick_x: 0x80, nunchuk_stick_y: 0x80 }
    }

    /// The idle input of `system`: the same value `wii_neutral` gives for
    /// the Wii and `gc_connected` gives for the GameCube. Any other system
    /// has none.
    pub fn neutral_for(system: SystemId) -> (r: Self)
        requires
            system == GC || system == WII,
        ensures
            r == HostInput::neutral_spec(system),
    {
        if system == WII {
            Self::wii_neutral()
        } else {
            Self::gc_connected()
        }
    }

    pub open spec fn wii_neutral_spec() -> HostInput {
        HostInput::Wii { wiimote_buttons: 0, nunchuk_buttons: 0, nunchuk_stick_x: 0x80, nunchuk_stick_y: 0x80 }
    }

    /// The idle input of `system` (the GameCube's for any id but the Wii's).
    pub open spec fn neutral_spec(system: SystemId) -> HostInput {
        if system == WII {
            HostInput::wii_neutral_spec()
        } else {
            HostInput::gc_connected_spec()
        }
    }
}

/// The idle input of each system is what its own constructor gives:
/// `neutral_for(WII)` equals `wii_neutral()` and `neutral_for(GC)` equals
/// `gc_connected()`, variant and fields alike.
pub proof fn lemma_neutral_for_matches_constructors()
    ensures
        HostInput::neutral_spec(WII) == HostInput::wii_neutral_spec(),
        HostInput::neutral_spec(GC) == HostInput::gc_connected_spec(),
{
}

} // verus!
