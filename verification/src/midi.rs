//! Note messages as transport commands: which key starts and stops what.

use vstd::prelude::*;
use crate::looper_fsm::Commands;

verus! {

/// The key that toggles recording.
pub const A3_PITCH: u8 = 69;

/// The key that stops.
pub const G3_PITCH: u8 = 67;

/// The key that plays.
pub const F3_PITCH: u8 = 65;

/// The key that toggles overdubbing.
pub const E3_PITCH: u8 = 64;

/// The key that replaces while it is held.
pub const D3_PITCH: u8 = 62;

/// The key that toggles muting.
pub const C3_PITCH: u8 = 60;

/// The key that inserts while it is held.
pub const B2_PITCH: u8 = 59;

/// The key that multiplies while it is held.
pub const A2_PITCH: u8 = 57;

/// The kind of a MIDI message, as its status byte gives it.
#[derive(Clone, Copy, PartialEq, Eq, Debug, Structural)]
pub enum Status {
    NoteOff,
    NoteOn,
    PolyphonicAftertouch,
    ControlChange,
    ProgramChange,
    ChannelAftertouch,
    PitchBend,
    SysExStart,
    MIDITimeCodeQtrFrame,
    SongPositionPointer,
    SongSelect,
    TuneRequest,
    SysExEnd,
    TimingClock,
    Start,
    Continue,
    Stop,
    ActiveSensing,
    SystemReset,
}

impl Status {
    /// The status byte of this kind of message.
    pub open spec fn code_of(self) -> u8 {
        match self {
            Status::NoteOff => 0x80,
            Status::NoteOn => 0x90,
            Status::PolyphonicAftertouch => 0xA0,
            Status::ControlChange => 0xB0,
            Status::ProgramChange => 0xC0,
            Status::ChannelAftertouch => 0xD0,
            Status::PitchBend => 0xE0,
            Status::SysExStart => 0xF0,
            Status::MIDITimeCodeQtrFrame => 0xF1,
            Status::SongPositionPointer => 0xF2,
            Status::SongSelect => 0xF3,
            Status::TuneRequest => 0xF6,
            Status::SysExEnd => 0xF7,
            Status::TimingClock => 0xF8,
            Status::Start => 0xFA,
            Status::Continue => 0xFB,
            Status::Stop => 0xFC,
            Status::ActiveSensing => 0xFE,
            Status::SystemReset => 0xFF,
        }
    }

    /// The status byte of this kind of message.
    pub fn code(&self) -> (b: u8)
        ensures
            b == self.code_of(),
    {
        match self {
            Status::NoteOff => 0x80,
            Status::NoteOn => 0x90,
            Status::PolyphonicAftertouch => 0xA0,
            Status::ControlChange => 0xB0,
            Status::ProgramChange => 0xC0,
            Status::ChannelAftertouch => 0xD0,
            Status::PitchBend => 0xE0,
            Status::SysExStart => 0xF0,
            Status::MIDITimeCodeQtrFrame => 0xF1,
            Status::SongPositionPointer => 0xF2,
            Status::SongSelect => 0xF3,
            Status::TuneRequest => 0xF6,
            Status::SysExEnd => 0xF7,
            Status::TimingClock => 0xF8,
            Status::Start => 0xFA,
            Status::Continue => 0xFB,
            Status::Stop => 0xFC,
            Status::ActiveSensing => 0xFE,
            Status::SystemReset => 0xFF,
        }
    }
}

/// The kind of message that the status byte `b` stands for, if it stands for
/// one.
pub open spec fn kind_of(b: u8) -> Option<Status> {
    if b == 0x80 {
        Some(Status::NoteOff)
    } else if b == 0x90 {
        Some(Status::NoteOn)
    } else if b == 0xA0 {
        Some(Status::PolyphonicAftertouch)
    } else if b == 0xB0 {
        Some(Status::ControlChange)
    } else if b == 0xC0 {
        Some(Status::ProgramChange)
    } else if b == 0xD0 {
        Some(Status::ChannelAftertouch)
    } else if b == 0xE0 {
        Some(Status::PitchBend)
    } else if b == 0xF0 {
        Some(Status::SysExStart)
    } else if b == 0xF1 {
        Some(Status::MIDITimeCodeQtrFrame)
    } else if b == 0xF2 {
        Some(Status::SongPositionPointer)
    } else if b == 0xF3 {
        Some(Status::SongSelect)
    } else if b == 0xF6 {
        Some(Status::TuneRequest)
    } else if b == 0xF7 {
        Some(Status::SysExEnd)
    } else if b == 0xF8 {
        Some(Status::TimingClock)
    } else if b == 0xFA {
        Some(Status::Start)
    } else if b == 0xFB {
        Some(Status::Continue)
    } else if b == 0xFC {
        Some(Status::Stop)
    } else if b == 0xFE {
        Some(Status::ActiveSensing)
    } else if b == 0xFF {
        Some(Status::SystemReset)
    } else {
        None
    }
}

/// The kind of message that the status byte `b` stands for, if it stands for
/// one.
pub fn status(b: u8) -> (kind: Option<Status>)
    ensures
        kind == kind_of(b),
{
    match b {
        0x80 => Some(Status::NoteOff),
        0x90 => Some(Status::NoteOn),
        0xA0 => Some(Status::PolyphonicAftertouch),
        0xB0 => Some(Status::ControlChange),
        0xC0 => Some(Status::ProgramChange),
        0xD0 => Some(Status::ChannelAftertouch),
        0xE0 => Some(Status::PitchBend),
        0xF0 => Some(Status::SysExStart),
        0xF1 => Some(Status::MIDITimeCodeQtrFrame),
        0xF2 => Some(Status::SongPositionPointer),
        0xF3 => Some(Status::SongSelect),
        0xF6 => Some(Status::TuneRequest),
        0xF7 => Some(Status::SysExEnd),
        0xF8 => Some(Status::TimingClock),
        0xFA => Some(Status::Start),
        0xFB => Some(Status::Continue),
        0xFC => Some(Status::Stop),
        0xFE => Some(Status::ActiveSensing),
        0xFF => Some(Status::SystemReset),
        _ => None,
    }
}

/// A status byte stands for the kind of message whose status byte it is, and
/// for nothing where no kind has it.
pub proof fn lemma_kind_of_inverts_code(b: u8, kind: Status)
    ensures
        kind_of(kind.code_of()) == Some(kind),
        kind_of(b) == Some(kind) <==> kind.code_of() == b,
{
}

/// The command that pressing the key `pitch` gives.
pub open spec fn pressed(pitch: u8) -> Option<Commands> {
    if pitch == A3_PITCH {
        Some(Commands::Record)
    } else if pitch == G3_PITCH {
        Some(Commands::Stop)
    } else if pitch == F3_PITCH {
        Some(Commands::Play)
    } else if pitch == E3_PITCH {
        Some(Commands::Overdub)
    } else if pitch == D3_PITCH {
        Some(Commands::ReplaceStart)
    } else if pitch == C3_PITCH {
        Some(Commands::Mute)
    } else if pitch == B2_PITCH {
        Some(Commands::InsertStart)
    } else if pitch == A2_PITCH {
        Some(Commands::MultiplyStart)
    } else {
        None
    }
}

/// The command that releasing the key `pitch` gives.
pub open spec fn released(pitch: u8) -> Option<Commands> {
    if pitch == D3_PITCH {
        Some(Commands::ReplaceStop)
    } else if pitch == B2_PITCH {
        Some(Commands::InsertStop)
    } else if pitch == A2_PITCH {
        Some(Commands::MultiplyStop)
    } else {
        None
    }
}

/// The command that a message of kind `kind` for the key `pitch` gives: a
/// note-on is a key pressed, a note-off a key released, and no other kind of
/// message is a command.
pub open spec fn command_of(kind: Status, pitch: u8) -> Option<Commands> {
    match kind {
        Status::NoteOn => pressed(pitch),
        Status::NoteOff => released(pitch),
        _ => None,
    }
}

/// The command that a message of kind `kind` for the key `pitch` gives.
pub fn note_command(kind: Status, pitch: u8) -> (command: Option<Commands>)
    ensures
        command == command_of(kind, pitch),
{
    match kind {
        Status::NoteOn => {
            if pitch == A3_PITCH {
                Some(Commands::Record)
            } else if pitch == G3_PITCH {
                Some(Commands::Stop)
            } else if pitch == F3_PITCH {
                Some(Commands::Play)
            } else if pitch == E3_PITCH {
                Some(Commands::Overdub)
            } else if pitch == D3_PITCH {
                Some(Commands::ReplaceStart)
            } else if pitch == C3_PITCH {
                Some(Commands::Mute)
            } else if pitch == B2_PITCH {
                Some(Commands::InsertStart)
            } else if pitch == A2_PITCH {
                Some(Commands::MultiplyStart)
            } else {
                None
            }
        },
        Status::NoteOff => {
            if pitch == D3_PITCH {
                Some(Commands::ReplaceStop)
            } else if pitch == B2_PITCH {
                Some(Commands::InsertStop)
            } else if pitch == A2_PITCH {
                Some(Commands::MultiplyStop)
            } else {
                None
            }
        },
        _ => None,
    }
}

/// The command that the MIDI message `data` gives: its first byte is the
/// status byte, its second the key.
pub fn midi_command(data: [u8; 3]) -> (command: Option<Commands>)
    ensures
        command == match kind_of(data[0]) {
            Some(kind) => command_of(kind, data[1]),
            None => None,
        },
{
    match status(data[0]) {
        Some(kind) => note_command(kind, data[1]),
        None => None,
    }
}

} // verus!
