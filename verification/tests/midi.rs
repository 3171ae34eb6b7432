use plexlooper::looper_fsm::Commands;
use plexlooper::midi::{midi_command, note_command, status, Status};

#[test]
fn status_bytes_name_their_kind() {
    assert_eq!(status(0x80), Some(Status::NoteOff));
    assert_eq!(status(0x90), Some(Status::NoteOn));
    assert_eq!(status(0xA0), Some(Status::PolyphonicAftertouch));
    assert_eq!(status(0xB0), Some(Status::ControlChange));
    assert_eq!(status(0xC0), Some(Status::ProgramChange));
    assert_eq!(status(0xD0), Some(Status::ChannelAftertouch));
    assert_eq!(status(0xE0), Some(Status::PitchBend));
    assert_eq!(status(0xF0), Some(Status::SysExStart));
    assert_eq!(status(0xF1), Some(Status::MIDITimeCodeQtrFrame));
    assert_eq!(status(0xF2), Some(Status::SongPositionPointer));
    assert_eq!(status(0xF3), Some(Status::SongSelect));
    assert_eq!(status(0xF6), Some(Status::TuneRequest));
    assert_eq!(status(0xF7), Some(Status::SysExEnd));
    assert_eq!(status(0xF8), Some(Status::TimingClock));
    assert_eq!(status(0xFA), Some(Status::Start));
    assert_eq!(status(0xFB), Some(Status::Continue));
    assert_eq!(status(0xFC), Some(Status::Stop));
    assert_eq!(status(0xFE), Some(Status::ActiveSensing));
    assert_eq!(status(0xFF), Some(Status::SystemReset));
}

#[test]
fn other_bytes_name_no_kind() {
    assert_eq!(status(0x00), None);
    assert_eq!(status(0x91), None);
    assert_eq!(status(0xF4), None);
    assert_eq!(status(0xF5), None);
    assert_eq!(status(0xFD), None);
}

#[test]
fn status_and_code_invert_each_other() {
    let mut kinds = 0;
    for b in 0..=255u8 {
        if let Some(kind) = status(b) {
            assert_eq!(kind.code(), b);
            kinds += 1;
        }
    }
    assert_eq!(kinds, 19);
}

#[test]
fn keys_pressed() {
    assert_eq!(note_command(Status::NoteOn, 69), Some(Commands::Record));
    assert_eq!(note_command(Status::NoteOn, 67), Some(Commands::Stop));
    assert_eq!(note_command(Status::NoteOn, 65), Some(Commands::Play));
    assert_eq!(note_command(Status::NoteOn, 64), Some(Commands::Overdub));
    assert_eq!(note_command(Status::NoteOn, 62), Some(Commands::ReplaceStart));
    assert_eq!(note_command(Status::NoteOn, 60), Some(Commands::Mute));
    assert_eq!(note_command(Status::NoteOn, 59), Some(Commands::InsertStart));
    assert_eq!(note_command(Status::NoteOn, 57), Some(Commands::MultiplyStart));
    assert_eq!(note_command(Status::NoteOn, 58), None);
    assert_eq!(note_command(Status::NoteOn, 0), None);
}

#[test]
fn keys_released() {
    assert_eq!(note_command(Status::NoteOff, 62), Some(Commands::ReplaceStop));
    assert_eq!(note_command(Status::NoteOff, 59), Some(Commands::InsertStop));
    assert_eq!(note_command(Status::NoteOff, 57), Some(Commands::MultiplyStop));
    assert_eq!(note_command(Status::NoteOff, 69), None);
    assert_eq!(note_command(Status::NoteOff, 60), None);
}

#[test]
fn other_messages_are_no_commands() {
    assert_eq!(note_command(Status::ControlChange, 69), None);
    assert_eq!(note_command(Status::Stop, 67), None);
}

#[test]
fn messages_as_bytes() {
    assert_eq!(midi_command([0x90, 69, 100]), Some(Commands::Record));
    assert_eq!(midi_command([0x80, 62, 0]), Some(Commands::ReplaceStop));
    assert_eq!(midi_command([0x91, 69, 100]), None);
    assert_eq!(midi_command([0xB0, 69, 100]), None);
    assert_eq!(midi_command([0x12, 69, 100]), None);
}
