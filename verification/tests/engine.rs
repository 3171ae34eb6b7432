use plexlooper::engine::ELState;
use plexlooper::looper::{TimedCommand, NUM_BUFFERS};
use plexlooper::looper_fsm::{Commands, LabelColor, LooperState, Pending, SteadyState};
use plexlooper::recording_buffer::{RecordingBuffer, SamplePair, WET_MULT};

fn frame(left: f32, right: f32) -> SamplePair {
    (left.to_bits(), right.to_bits())
}

fn mono(value: f32) -> SamplePair {
    frame(value, value)
}

fn times(a: u32, b: u32) -> u32 {
    (f32::from_bits(a) * f32::from_bits(b)).to_bits()
}

fn plus(a: u32, b: u32) -> u32 {
    (f32::from_bits(a) + f32::from_bits(b)).to_bits()
}

fn gain(sample: u32) -> u32 {
    (f32::from_bits(sample) * 0.98).to_bits()
}

fn played(source: SamplePair) -> SamplePair {
    (gain(source.0), gain(source.1))
}

fn run(engine: &mut ELState, inputs: &[SamplePair]) -> Vec<SamplePair> {
    assert!(engine.is_well_formed());
    let outs = engine.process_block(&inputs.to_vec(), &Vec::new(), &times, &plus);
    assert!(engine.is_well_formed());
    outs
}

fn ramp(from: usize, count: usize) -> Vec<SamplePair> {
    (from..from + count).map(|i| mono(i as f32)).collect()
}

/// An engine that has recorded `ramp(0, frames)` and plays.
fn playing(frames: usize) -> ELState {
    let mut engine = ELState::new();
    engine.apply_command(Commands::Record);
    run(&mut engine, &ramp(0, frames));
    engine.apply_command(Commands::Record);
    engine
}

fn loop_of(engine: &ELState) -> Vec<SamplePair> {
    engine.buffer.buffer[..engine.transport.loop_length].to_vec()
}

#[test]
fn new_engine_is_stopped_and_silent() {
    let engine = ELState::new();
    assert_eq!(engine.state, LooperState::Stopped);
    assert_eq!(engine.prev_state, SteadyState::Stopped);
    assert_eq!(engine.feedback, 0);
    assert_eq!(engine.missed_syncs, 0);
    assert_eq!(engine.cycles, 0);
    assert_eq!(engine.total_cycles, 1);
    assert_eq!(engine.transport.sync_window, 1);
    assert_eq!(engine.transport.loop_length, 0);
    assert_eq!(engine.buffer.length(), 102400);
    assert_eq!(NUM_BUFFERS, 4);
    assert_eq!(engine.buffers.len(), 4);
    for layer in &engine.buffers {
        assert_eq!(layer.length(), 102400);
    }
    let same = ELState::default();
    assert_eq!(same.state, LooperState::Stopped);
    assert_eq!(same.transport, engine.transport);
    assert_eq!(same.buffers.len(), 4);
}

#[test]
fn record_thousand_frames_then_play_them() {
    let mut engine = ELState::new();
    engine.apply_command(Commands::Record);
    assert_eq!(engine.state, LooperState::Recording);
    let ones = vec![mono(1.0); 1000];
    run(&mut engine, &ones);
    assert_eq!(engine.transport.loop_length, 1000);
    engine.apply_command(Commands::Record);
    assert_eq!(engine.state, LooperState::Playing);
    assert_eq!(engine.transport.cycle_len, 1000);
    assert_eq!(engine.transport.loop_length, 1000);
    let outs = run(&mut engine, &vec![mono(0.25); 1000]);
    assert_eq!(outs.len(), 1000);
    for out in &outs {
        assert_eq!(*out, frame(1.0 * 0.98, 1.0 * 0.98));
    }
    assert_eq!(loop_of(&engine), ones);
    assert_eq!(engine.buffer.get(1000), Some(&mono(0.0)));
}

#[test]
fn playback_goes_through_the_loop_once_and_repeats() {
    let mut engine = playing(8);
    assert_eq!(loop_of(&engine), ramp(0, 8));
    assert_eq!(engine.transport.play_cursor, 7);
    let first = run(&mut engine, &vec![mono(0.0); 8]);
    let expected: Vec<SamplePair> =
        [7usize, 0, 1, 2, 3, 4, 5, 6].iter().map(|i| played(mono(*i as f32))).collect();
    assert_eq!(first, expected);
    assert_eq!(engine.transport.play_cursor, 7);
    let second = run(&mut engine, &vec![mono(0.0); 8]);
    assert_eq!(second, expected);
    assert_eq!(loop_of(&engine), ramp(0, 8));
}

#[test]
fn recording_monitors_what_is_in_the_loop() {
    let mut engine = ELState::new();
    engine.apply_command(Commands::Record);
    let outs = run(&mut engine, &ramp(5, 4));
    assert_eq!(outs, vec![played(mono(5.0)), played(mono(5.0)), played(mono(6.0)), played(mono(7.0))]);
    assert_eq!(engine.transport.loop_length, 4);
    assert_eq!(engine.transport.cycle_len, 4);
    assert_eq!(engine.transport.play_cursor, 3);
    assert_eq!(engine.transport.write_cursor, 3);
}

#[test]
fn recording_past_the_buffer_appends() {
    let mut engine = ELState::new();
    engine.apply_command(Commands::Record);
    engine.buffer = RecordingBuffer::with_size(2);
    run(&mut engine, &ramp(1, 5));
    assert_eq!(engine.buffer.length(), 5);
    assert_eq!(engine.transport.loop_length, 5);
    assert_eq!(loop_of(&engine), ramp(1, 5));
}

#[test]
fn stopped_engine_is_silent_and_stands_still() {
    let mut engine = playing(4);
    engine.apply_command(Commands::Overdub);
    engine.apply_command(Commands::Stop);
    assert_eq!(engine.state, LooperState::Stopped);
    let before = engine.transport;
    let outs = run(&mut engine, &ramp(50, 3));
    assert_eq!(outs, vec![(0, 0); 3]);
    assert_eq!(engine.transport.play_cursor, before.play_cursor);
    assert_eq!(engine.transport.write_cursor, before.write_cursor);
    assert_eq!(loop_of(&engine), ramp(0, 4));
}

#[test]
fn muted_engine_is_silent_and_moves_on() {
    let mut engine = playing(4);
    engine.apply_command(Commands::Mute);
    assert_eq!(engine.state, LooperState::Muted);
    assert_eq!(engine.prev_state, SteadyState::Playing);
    let outs = run(&mut engine, &ramp(50, 3));
    assert_eq!(outs, vec![(0, 0); 3]);
    assert_eq!(engine.transport.play_cursor, 2);
    engine.apply_command(Commands::Mute);
    assert_eq!(engine.state, LooperState::Playing);
    assert_eq!(engine.prev_state, SteadyState::Muted);
    assert_eq!(run(&mut engine, &ramp(50, 1)), vec![played(mono(2.0))]);
}

#[test]
fn reading_past_the_buffer_is_silence() {
    let mut engine = ELState::new();
    engine.buffer = RecordingBuffer::with_size(0);
    engine.apply_command(Commands::Play);
    let outs = engine.process_block(
        &ramp(1, 3),
        &Vec::new(),
        &|sample: u32, _by: u32| sample + 1,
        &|a: u32, _b: u32| a,
    );
    assert_eq!(outs, vec![(0, 0); 3]);
    engine.buffer = RecordingBuffer::with_size(1);
    let outs = engine.process_block(
        &ramp(1, 2),
        &Vec::new(),
        &|sample: u32, _by: u32| sample + 1,
        &|a: u32, _b: u32| a,
    );
    assert_eq!(outs, vec![(1, 1); 2]);
}

#[test]
fn overdub_blends_into_the_loop() {
    let mut engine = ELState::new();
    engine.apply_command(Commands::Record);
    run(&mut engine, &vec![mono(0.5); 4]);
    engine.apply_command(Commands::Overdub);
    assert_eq!(engine.state, LooperState::Overdubbing);
    assert_eq!(engine.transport.write_cursor, 3);
    engine.set_feedback(1.0f32.to_bits());
    let outs = run(&mut engine, &vec![frame(0.2, -0.2); 2]);
    let mixed = frame(0.69, 0.29000002);
    assert_eq!(loop_of(&engine), vec![mixed, mono(0.5), mono(0.5), mixed]);
    assert_eq!(outs, vec![played(mixed), played(mixed)]);
    assert_eq!(engine.transport.loop_length, 4);
    assert_eq!(engine.transport.write_cursor, 1);
    assert_eq!(engine.transport.play_cursor, 1);
    engine.apply_command(Commands::Overdub);
    assert_eq!(engine.state, LooperState::Playing);
}

#[test]
fn overdub_takes_products_and_sum_of_existing_feedback_and_incoming() {
    let mut engine = ELState::new();
    engine.apply_command(Commands::Record);
    let recorded: Vec<SamplePair> = vec![(100, 200), (300, 400)];
    engine.process_block(&recorded, &Vec::new(), &times, &plus);
    engine.apply_command(Commands::Overdub);
    engine.set_feedback(5);
    let outs = engine.process_block(
        &vec![(1, 2), (3, 4)],
        &Vec::new(),
        &|a: u32, b: u32| if b == WET_MULT { a + 7 } else { a * b },
        &|a: u32, b: u32| a + b,
    );
    assert_eq!(loop_of(&engine), vec![(538, 1039), (1536, 2037)]);
    assert_eq!(outs, vec![(1543, 2044), (545, 1046)]);
}

#[test]
fn replace_waits_a_full_cycle_for_a_narrow_window() {
    let mut engine = playing(400);
    engine.set_division(4);
    run(&mut engine, &vec![mono(0.0); 251]);
    assert_eq!(engine.transport.play_cursor, 250);
    assert_eq!(engine.transport.cycle_len, 400);
    assert_eq!(engine.transport.division_len, 100);
    assert_eq!(engine.transport.subdivision, 2);
    assert_eq!(engine.transport.sync_window, 1);

    engine.apply_command(Commands::ReplaceStart);
    assert_eq!(
        engine.state,
        LooperState::SyncPending(Pending::ReplaceEnter, SteadyState::Playing)
    );
    assert_eq!(engine.transport.write_cursor, 250);
    assert_eq!(loop_of(&engine), ramp(0, 400));

    let outs = run(&mut engine, &ramp(1000, 400));
    assert_eq!(engine.transport.sync_point, 200);
    assert_eq!(engine.state, LooperState::Replacing);
    let mut expected = ramp(0, 400);
    for k in 350..400 {
        expected[(250 + k) % 400] = mono((1000 + k) as f32);
    }
    assert_eq!(loop_of(&engine), expected);
    assert_eq!(expected[199], mono(199.0));
    assert_eq!(expected[200], mono(1350.0));
    assert_eq!(expected[249], mono(1399.0));
    assert_eq!(expected[250], mono(250.0));
    for k in 0..400 {
        let heard = if k < 350 { mono(((250 + k) % 400) as f32) } else { mono((1000 + k) as f32) };
        assert_eq!(outs[k], played(heard));
    }
    assert_eq!(engine.transport.play_cursor, 250);
    assert_eq!(engine.transport.write_cursor, 250);
}

#[test]
fn pending_replace_edits_nothing_before_the_sync_point() {
    let mut engine = playing(400);
    engine.set_division(4);
    run(&mut engine, &vec![mono(0.0); 251]);
    engine.apply_command(Commands::ReplaceStart);
    assert_eq!(engine.missed_syncs, 0);
    run(&mut engine, &ramp(1000, 349));
    assert_eq!(
        engine.state,
        LooperState::SyncPending(Pending::ReplaceEnter, SteadyState::Playing)
    );
    assert_eq!(loop_of(&engine), ramp(0, 400));
    assert_eq!(engine.transport.play_cursor, 199);
    assert_eq!(engine.missed_syncs, 1);
    run(&mut engine, &ramp(2000, 0));
    assert_eq!(engine.missed_syncs, 1);
    run(&mut engine, &ramp(2000, 1));
    assert_eq!(engine.missed_syncs, 2);
    assert_eq!(
        engine.state,
        LooperState::SyncPending(Pending::ReplaceEnter, SteadyState::Playing)
    );
    assert_eq!(engine.transport.play_cursor, 200);
    assert_eq!(engine.transport.subdivision, 2);
    run(&mut engine, &ramp(3000, 2));
    assert_eq!(engine.state, LooperState::Replacing);
    assert_eq!(engine.missed_syncs, 2);
    assert_eq!(engine.display().missed_syncs, 2);
    let mut expected = ramp(0, 400);
    expected[200] = mono(3000.0);
    expected[201] = mono(3001.0);
    assert_eq!(loop_of(&engine), expected);
}

#[test]
fn replace_goes_on_until_its_exit_fires() {
    let mut engine = playing(400);
    engine.set_division(4);
    run(&mut engine, &vec![mono(0.0); 251]);
    engine.apply_command(Commands::ReplaceStart);
    run(&mut engine, &ramp(1000, 400));
    assert_eq!(engine.state, LooperState::Replacing);
    assert_eq!(engine.prev_state, SteadyState::Playing);

    engine.apply_command(Commands::ReplaceStop);
    assert_eq!(
        engine.state,
        LooperState::SyncPending(Pending::ReplaceExit, SteadyState::Playing)
    );
    run(&mut engine, &ramp(2000, 400));
    assert_eq!(engine.state, LooperState::Playing);
    let mut expected = ramp(0, 400);
    for k in 350..400 {
        expected[(250 + k) % 400] = mono((1000 + k) as f32);
    }
    for k in 0..350 {
        expected[(250 + k) % 400] = mono((2000 + k) as f32);
    }
    assert_eq!(loop_of(&engine), expected);
    assert_eq!(expected[200], mono(1350.0));
    assert_eq!(expected[199], mono(2349.0));
}

#[test]
fn replace_begins_at_once_in_a_wide_window() {
    let mut engine = playing(8);
    engine.set_sample_rate(44100);
    assert_eq!(engine.transport.sync_window, 882);
    engine.apply_command(Commands::ReplaceStart);
    let outs = run(&mut engine, &ramp(100, 3));
    assert_eq!(engine.state, LooperState::Replacing);
    assert_eq!(
        loop_of(&engine),
        vec![
            mono(101.0),
            mono(102.0),
            mono(2.0),
            mono(3.0),
            mono(4.0),
            mono(5.0),
            mono(6.0),
            mono(100.0)
        ]
    );
    assert_eq!(outs, vec![played(mono(100.0)), played(mono(101.0)), played(mono(102.0))]);
    engine.apply_command(Commands::Stop);
    assert_eq!(engine.state, LooperState::Stopped);
}

#[test]
fn replace_with_nothing_to_overwrite_is_harmless() {
    let mut engine = ELState::new();
    engine.buffer = RecordingBuffer::with_size(0);
    engine.apply_command(Commands::Play);
    engine.apply_command(Commands::ReplaceStart);
    run(&mut engine, &ramp(1, 3));
    assert_eq!(engine.state, LooperState::Replacing);
    assert_eq!(engine.buffer.length(), 0);
    assert_eq!(engine.transport.loop_length, 0);
    assert_eq!(engine.transport.write_cursor, 0);
}

#[test]
fn insert_widens_the_loop() {
    let mut engine = playing(8);
    engine.set_sample_rate(44100);
    run(&mut engine, &vec![mono(0.0); 4]);
    assert_eq!(engine.transport.play_cursor, 3);
    engine.apply_command(Commands::InsertStart);
    assert_eq!(
        engine.state,
        LooperState::SyncPending(Pending::InsertEnter, SteadyState::Playing)
    );
    assert_eq!(engine.transport.write_cursor, 3);

    let outs = run(&mut engine, &ramp(10, 4));
    assert_eq!(engine.state, LooperState::Inserting);
    assert_eq!(engine.transport.loop_length, 12);
    assert_eq!(engine.transport.cycle_len, 12);
    assert_eq!(engine.buffer.length(), 102404);
    let wide: Vec<SamplePair> = [0, 1, 2, 10, 11, 12, 13, 3, 4, 5, 6, 7]
        .iter()
        .map(|value| mono(*value as f32))
        .collect();
    assert_eq!(loop_of(&engine), wide);
    assert_eq!(outs, ramp(10, 4).iter().map(|input| played(*input)).collect::<Vec<_>>());
    assert_eq!(engine.transport.write_cursor, 7);
    assert_eq!(engine.transport.play_cursor, 7);

    run(&mut engine, &ramp(14, 2));
    assert_eq!(engine.transport.loop_length, 14);
    assert_eq!(engine.buffer.length(), 102406);
    let wider: Vec<SamplePair> = [0, 1, 2, 10, 11, 12, 13, 14, 15, 3, 4, 5, 6, 7]
        .iter()
        .map(|value| mono(*value as f32))
        .collect();
    assert_eq!(loop_of(&engine), wider);
}

#[test]
fn insert_ends_at_the_sync_point() {
    let mut engine = playing(8);
    engine.set_sample_rate(44100);
    run(&mut engine, &vec![mono(0.0); 4]);
    engine.apply_command(Commands::InsertStart);
    run(&mut engine, &ramp(10, 4));
    engine.apply_command(Commands::InsertStop);
    assert_eq!(
        engine.state,
        LooperState::SyncPending(Pending::InsertExit, SteadyState::Playing)
    );
    let outs = run(&mut engine, &ramp(20, 3));
    assert_eq!(engine.state, LooperState::Playing);
    assert_eq!(engine.transport.loop_length, 12);
    assert_eq!(engine.buffer.length(), 102407);
    let after: Vec<SamplePair> = [0, 1, 2, 10, 11, 12, 13, 0, 0, 0, 3, 4]
        .iter()
        .map(|value| mono(*value as f32))
        .collect();
    assert_eq!(loop_of(&engine), after);
    assert_eq!(outs, vec![mono(0.0); 3]);
    assert_eq!(engine.transport.play_cursor, 10);
    assert_eq!(engine.transport.write_cursor, 7);
}

#[test]
fn insert_goes_on_while_its_exit_waits() {
    let mut engine = playing(8);
    engine.transport.sync_window = 882;
    run(&mut engine, &vec![mono(0.0); 4]);
    engine.apply_command(Commands::InsertStart);
    run(&mut engine, &ramp(10, 2));
    assert_eq!(engine.state, LooperState::Inserting);
    engine.transport.sync_window = 0;
    engine.apply_command(Commands::InsertStop);
    run(&mut engine, &ramp(20, 2));
    assert_eq!(
        engine.state,
        LooperState::SyncPending(Pending::InsertExit, SteadyState::Playing)
    );
    assert_eq!(engine.transport.loop_length, 12);
    let wide: Vec<SamplePair> = [0, 1, 2, 10, 11, 20, 21, 3, 4, 5, 6, 7]
        .iter()
        .map(|value| mono(*value as f32))
        .collect();
    assert_eq!(loop_of(&engine), wide);
}

#[test]
fn multiply_adds_a_layer_and_returns() {
    let mut engine = playing(6);
    engine.apply_command(Commands::MultiplyStart);
    assert_eq!(engine.state, LooperState::Multiplying);
    assert_eq!(engine.prev_state, SteadyState::Playing);
    assert_eq!(engine.buffers.len(), 5);
    assert_eq!(engine.buffers[4].length(), 6);
    assert_eq!(engine.buffers[4].get(5), Some(&(0, 0)));
    let outs = run(&mut engine, &ramp(40, 2));
    assert_eq!(outs, vec![played(mono(5.0)), played(mono(0.0))]);
    assert_eq!(loop_of(&engine), ramp(0, 6));
    engine.apply_command(Commands::Play);
    assert_eq!(engine.state, LooperState::Multiplying);
    engine.apply_command(Commands::MultiplyStop);
    assert_eq!(engine.state, LooperState::Playing);
    assert_eq!(engine.prev_state, SteadyState::Multiplying);
}

#[test]
fn recording_stops_into_stopped_or_playing() {
    let mut engine = ELState::new();
    engine.apply_command(Commands::Record);
    run(&mut engine, &ramp(0, 5));
    engine.transport.cycle_len = 2;
    engine.apply_command(Commands::Stop);
    assert_eq!(engine.state, LooperState::Stopped);
    assert_eq!(engine.transport.cycle_len, 5);

    let mut engine = ELState::new();
    engine.apply_command(Commands::Record);
    run(&mut engine, &ramp(0, 5));
    engine.transport.cycle_len = 2;
    engine.apply_command(Commands::Play);
    assert_eq!(engine.state, LooperState::Playing);
    assert_eq!(engine.transport.cycle_len, 5);
}

#[test]
fn record_while_playing_clears_the_loop() {
    let mut engine = playing(6);
    engine.apply_command(Commands::MultiplyStart);
    engine.apply_command(Commands::MultiplyStop);
    assert_eq!(engine.buffers.len(), 5);
    engine.apply_command(Commands::Record);
    assert_eq!(engine.state, LooperState::Recording);
    assert_eq!(engine.prev_state, SteadyState::Playing);
    assert_eq!(engine.transport.loop_length, 0);
    assert_eq!(engine.transport.cycle_len, 0);
    assert_eq!(engine.transport.play_cursor, 0);
    assert_eq!(engine.transport.write_cursor, 0);
    assert_eq!(engine.buffers.len(), 4);
    assert_eq!(engine.buffer.buffer, vec![(0, 0); 102400]);
}

#[test]
fn commands_take_hold_within_the_block() {
    let mut engine = ELState::new();
    let commands = vec![TimedCommand { offset: 1, command: Commands::Record }];
    let outs = engine.process_block(&ramp(1, 4), &commands, &times, &plus);
    assert_eq!(outs, vec![(0, 0), (0, 0), played(mono(3.0)), played(mono(3.0))]);
    assert_eq!(engine.state, LooperState::Recording);
    assert_eq!(loop_of(&engine), vec![mono(3.0), mono(4.0)]);
}

#[test]
fn commands_past_the_block_are_applied_at_its_end() {
    let mut engine = ELState::new();
    let commands = vec![
        TimedCommand { offset: 9, command: Commands::Play },
        TimedCommand { offset: 4, command: Commands::Mute },
    ];
    let outs = engine.process_block(&ramp(1, 4), &commands, &times, &plus);
    assert_eq!(outs, vec![(0, 0); 4]);
    assert_eq!(engine.state, LooperState::Muted);
    assert_eq!(engine.prev_state, SteadyState::Playing);
}

#[test]
fn commands_are_applied_in_the_order_in_which_they_stand() {
    let mut engine = ELState::new();
    let commands = vec![
        TimedCommand { offset: 2, command: Commands::Play },
        TimedCommand { offset: 0, command: Commands::Record },
    ];
    engine.process_block(&ramp(1, 4), &commands, &times, &plus);
    assert_eq!(engine.state, LooperState::Recording);
    assert_eq!(loop_of(&engine), vec![mono(4.0)]);
}

#[test]
fn an_empty_block_still_applies_commands_and_refreshes_the_grid() {
    let mut engine = playing(400);
    engine.set_division(4);
    engine.transport.play_cursor = 250;
    let commands = vec![TimedCommand { offset: 0, command: Commands::Mute }];
    let outs = engine.process_block(&Vec::new(), &commands, &times, &plus);
    assert!(outs.is_empty());
    assert_eq!(engine.state, LooperState::Muted);
    assert_eq!(engine.transport.division_len, 100);
    assert_eq!(engine.transport.subdivision, 2);
    assert_eq!(engine.transport.sync_point, 0);
}

#[test]
fn block_with_fewer_than_two_channels_is_skipped() {
    let mut engine = playing(4);
    let before = engine.transport;
    let commands = vec![TimedCommand { offset: 0, command: Commands::Mute }];
    let inputs = vec![vec![1u32, 2, 3]];
    let mut outputs = vec![vec![9u32, 9, 9], vec![8u32, 8, 8]];
    engine.process(&inputs, &mut outputs, &commands, &times, &plus);
    assert_eq!(outputs, vec![vec![9u32, 9, 9], vec![8u32, 8, 8]]);
    assert_eq!(engine.state, LooperState::Playing);
    assert_eq!(engine.transport, before);

    let inputs = vec![vec![1u32, 2, 3], vec![4u32, 5, 6]];
    let mut outputs = vec![vec![9u32, 9, 9]];
    engine.process(&inputs, &mut outputs, &commands, &times, &plus);
    assert_eq!(outputs, vec![vec![9u32, 9, 9]]);
    assert_eq!(engine.state, LooperState::Playing);
    assert_eq!(engine.transport, before);

    let mut outputs: Vec<Vec<u32>> = Vec::new();
    engine.process(&Vec::new(), &mut outputs, &commands, &times, &plus);
    assert_eq!(engine.state, LooperState::Playing);
}

#[test]
fn block_in_channels() {
    let mut engine = ELState::new();
    engine.apply_command(Commands::Record);
    let inputs = vec![
        vec![1.0f32.to_bits(), 2.0f32.to_bits(), 3.0f32.to_bits()],
        vec![(-1.0f32).to_bits(), (-2.0f32).to_bits(), (-3.0f32).to_bits(), 77],
        vec![5, 5, 5],
    ];
    let mut outputs = vec![vec![9u32; 5], vec![8u32; 4], vec![7u32; 4]];
    engine.process(&inputs, &mut outputs, &Vec::new(), &times, &plus);
    assert_eq!(loop_of(&engine), vec![frame(1.0, -1.0), frame(2.0, -2.0), frame(3.0, -3.0)]);
    assert_eq!(
        outputs,
        vec![
            vec![gain(1.0f32.to_bits()), gain(1.0f32.to_bits()), gain(2.0f32.to_bits()), 9, 9],
            vec![
                gain((-1.0f32).to_bits()),
                gain((-1.0f32).to_bits()),
                gain((-2.0f32).to_bits()),
                8
            ],
            vec![7u32; 4],
        ]
    );
}

#[test]
fn single_frames() {
    let mut engine = playing(3);
    assert_eq!(engine.transport.play_cursor, 2);
    let out = engine.process_frame(mono(9.0), 1, &times, &plus);
    assert_eq!(out, played(mono(2.0)));
    assert_eq!(engine.transport.play_cursor, 0);
    engine.apply_command(Commands::Overdub);
    engine.set_feedback(0.5f32.to_bits());
    let out = engine.process_frame(mono(1.0), 1, &times, &plus);
    assert_eq!(loop_of(&engine)[0], mono(1.0));
    assert_eq!(out, played(mono(1.0)));
    let out = engine.process_frame(mono(0.25), 1, &times, &plus);
    assert_eq!(loop_of(&engine)[1], mono(0.74));
    assert_eq!(out, played(mono(0.74)));
}

#[test]
fn parameters() {
    let mut engine = ELState::new();
    engine.set_feedback(0.75f32.to_bits());
    assert_eq!(f32::from_bits(engine.feedback), 0.75);
    engine.set_division(16);
    assert_eq!(engine.transport.division, 16);
    assert_eq!(engine.transport.division_len, 0);
    engine.set_sample_rate(96000);
    assert_eq!(engine.transport.sync_window, 1920);
    assert_eq!(engine.state, LooperState::Stopped);
}

#[test]
fn display_copy() {
    let mut engine = playing(400);
    engine.set_division(4);
    run(&mut engine, &vec![mono(0.0); 251]);
    run(&mut engine, &Vec::new());
    let shown = engine.display();
    assert_eq!(shown.state_label, "Playing");
    assert_eq!(shown.color, Some(LabelColor::Green));
    assert_eq!(shown.play_cursor, 250);
    assert_eq!(shown.cycles, 0);
    assert_eq!(shown.total_cycles, 1);
    assert_eq!(shown.division, 4);
    assert_eq!(shown.subdivision, 2);
    assert_eq!(shown.sync_point, 200);
    engine.apply_command(Commands::InsertStart);
    let shown = engine.display();
    assert_eq!(shown.state_label, "Sync Start");
    assert_eq!(shown.color, None);
}

#[test]
fn well_formed_states() {
    let mut engine = ELState::new();
    assert!(engine.is_well_formed());
    engine.transport.play_cursor = 1;
    assert!(!engine.is_well_formed());
    engine.transport.loop_length = 2;
    assert!(engine.is_well_formed());
    engine.transport.write_cursor = 2;
    assert!(!engine.is_well_formed());
    engine.transport.write_cursor = 1;
    engine.transport.cycle_len = 3;
    assert!(!engine.is_well_formed());
    engine.transport.cycle_len = 2;
    engine.transport.subdivision = usize::MAX;
    engine.transport.division_len = 2;
    assert!(!engine.is_well_formed());
    engine.transport.division_len = 1;
    assert!(engine.is_well_formed());
    engine.buffer = RecordingBuffer::with_size(1);
    assert!(!engine.is_well_formed());
    engine.buffer = RecordingBuffer::with_size(2);
    assert!(engine.is_well_formed());
    engine.buffers[3].start_position = 1;
    assert!(!engine.is_well_formed());
    engine.buffers[3].start_position = 0;
    engine.buffer.start_position = 1;
    assert!(!engine.is_well_formed());
}

#[test]
fn missed_syncs_stop_counting_at_the_top() {
    let mut engine = playing(400);
    engine.transport.sync_window = 0;
    engine.apply_command(Commands::ReplaceStart);
    engine.missed_syncs = usize::MAX - 1;
    run(&mut engine, &ramp(0, 3));
    assert_eq!(engine.missed_syncs, usize::MAX);
    run(&mut engine, &ramp(0, 3));
    assert_eq!(engine.missed_syncs, usize::MAX);
    assert_eq!(loop_of(&engine), ramp(0, 400));
}

#[test]
fn a_pending_sync_is_held_against_the_play_cursor() {
    let mut engine = playing(8);
    engine.state = LooperState::SyncPending(Pending::ReplaceEnter, SteadyState::Playing);
    engine.transport.play_cursor = 4;
    engine.transport.write_cursor = 0;
    engine.transport.division_len = 5;
    engine.transport.subdivision = 1;
    engine.transport.sync_window = 1;
    let outs = run(&mut engine, &ramp(100, 3));
    assert_eq!(engine.transport.sync_point, 5);
    assert_eq!(engine.state, LooperState::Replacing);
    let mut expected = ramp(0, 8);
    expected[1] = mono(101.0);
    expected[2] = mono(102.0);
    assert_eq!(loop_of(&engine), expected);
    assert_eq!(outs, vec![played(mono(4.0)), played(mono(5.0)), played(mono(6.0))]);
    assert_eq!(engine.transport.play_cursor, 7);
    assert_eq!(engine.transport.write_cursor, 3);
}

#[test]
fn a_write_cursor_in_the_window_does_not_end_the_wait() {
    let mut engine = playing(8);
    engine.state = LooperState::SyncPending(Pending::ReplaceEnter, SteadyState::Playing);
    engine.transport.play_cursor = 0;
    engine.transport.write_cursor = 5;
    engine.transport.division_len = 5;
    engine.transport.subdivision = 1;
    engine.transport.sync_window = 1;
    run(&mut engine, &ramp(100, 3));
    assert_eq!(
        engine.state,
        LooperState::SyncPending(Pending::ReplaceEnter, SteadyState::Playing)
    );
    assert_eq!(loop_of(&engine), ramp(0, 8));
    assert_eq!(engine.missed_syncs, 1);
}

#[test]
fn commands_do_not_disturb_a_pending_sync() {
    let mut engine = playing(8);
    engine.transport.sync_window = 0;
    engine.apply_command(Commands::ReplaceStart);
    let waiting = engine.state;
    let commands = vec![
        TimedCommand { offset: 0, command: Commands::Stop },
        TimedCommand { offset: 1, command: Commands::Record },
        TimedCommand { offset: 1, command: Commands::ReplaceStop },
        TimedCommand { offset: 7, command: Commands::Mute },
    ];
    engine.process_block(&ramp(100, 4), &commands, &times, &plus);
    assert_eq!(engine.state, waiting);
    assert_eq!(loop_of(&engine), ramp(0, 8));
    assert_eq!(engine.transport.loop_length, 8);
}
