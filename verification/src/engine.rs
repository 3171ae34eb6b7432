//! The engine: the looper's whole state, and the functions that run it.
//!
//! Every function here is stated against [`Looper`], the engine's state as a
//! mathematical value. Where a frame has to be blended or attenuated, the
//! engine says which products and sums it takes, and takes them with the
//! product `times` and the sum `plus` of two samples that the host hands in.

use vstd::prelude::*;
use crate::looper::{fresh_layers, due_until, Looper, TimedCommand, NUM_BUFFERS, lemma_in_block_prefix};
use crate::looper_fsm::{
    decide, looper_cycle, Commands, Effect, LabelColor, LooperState, Pending, SteadyState,
};
use crate::recording_buffer::{
    callable, is_blend_of, silence, silent_frame, RecordingBuffer, SamplePair, INITIAL_SIZE,
    WET_MULT,
};
use crate::transport::{window_for, TransportState};

verus! {

/// The frames of each buffer of `buffers`.
pub open spec fn layers_of(buffers: Seq<RecordingBuffer>) -> Seq<Seq<SamplePair>> {
    Seq::new(buffers.len(), |i: int| buffers[i]@)
}

/// `out` is a frame that playback may give for what is `heard`: silence where
/// nothing is heard, else each channel of the frame heard times `WET_MULT`,
/// by the host's product `times`.
pub open spec fn is_playback_of<M: Fn(u32, u32) -> u32>(
    times: &M,
    heard: Option<SamplePair>,
    out: SamplePair,
) -> bool {
    match heard {
        Some(frame) => call_ensures(*times, (frame.0, WET_MULT), out.0) && call_ensures(
            *times,
            (frame.1, WET_MULT),
            out.1,
        ),
        None => out == silent_frame(),
    }
}

/// What frame `frame` of a block owes to the host's arithmetic: if the frame
/// is blended into the loop, `mixed[frame]` is a blend of the frame under the
/// write cursor and the input; and `out` is a playback of what is heard.
pub open spec fn frame_outcome<M: Fn(u32, u32) -> u32, A: Fn(u32, u32) -> u32>(
    before: Looper,
    inputs: Seq<SamplePair>,
    commands: Seq<TimedCommand>,
    mixed: Seq<SamplePair>,
    frame: int,
    out: SamplePair,
    times: &M,
    plus: &A,
) -> bool {
    let at = before.in_block(inputs, commands, mixed, frame as nat).0;
    let remaining = (inputs.len() - frame) as nat;
    &&& at.frame_overdubs(remaining) ==> is_blend_of(
        times,
        plus,
        at.buffer[at.transport.write_cursor as int],
        inputs[frame],
        at.feedback,
        mixed[frame],
    )
    &&& is_playback_of(times, at.frame_heard(inputs[frame], remaining, mixed[frame]), out)
}

/// What a block does: `after` is `before` after the block, `outs` holds one
/// frame to play for each input frame, and frame by frame blends and
/// playback are what [`frame_outcome`] says. `mixed` holds for each frame what
/// an overdub stores in it.
pub open spec fn block_outcome<M: Fn(u32, u32) -> u32, A: Fn(u32, u32) -> u32>(
    before: Looper,
    inputs: Seq<SamplePair>,
    commands: Seq<TimedCommand>,
    mixed: Seq<SamplePair>,
    after: Looper,
    outs: Seq<SamplePair>,
    times: &M,
    plus: &A,
) -> bool {
    &&& mixed.len() == inputs.len()
    &&& outs.len() == inputs.len()
    &&& after == before.after_block(inputs, commands, mixed)
    &&& forall|frame: int|
        0 <= frame < inputs.len() ==> #[trigger] frame_outcome(
            before,
            inputs,
            commands,
            mixed,
            frame,
            outs[frame],
            times,
            plus,
        )
}

/// Whether a block is processed at all: the host has to supply two channels
/// to read and two to fill.
pub open spec fn has_stereo(inputs: Seq<Vec<u32>>, outputs: Seq<Vec<u32>>) -> bool {
    inputs.len() >= 2 && outputs.len() >= 2
}

/// The number of frames of a block: as many as all four channels hold.
pub open spec fn block_frames(inputs: Seq<Vec<u32>>, outputs: Seq<Vec<u32>>) -> nat
    recommends
        has_stereo(inputs, outputs),
{
    let read = if inputs[0]@.len() <= inputs[1]@.len() {
        inputs[0]@.len()
    } else {
        inputs[1]@.len()
    };
    let filled = if outputs[0]@.len() <= outputs[1]@.len() {
        outputs[0]@.len()
    } else {
        outputs[1]@.len()
    };
    if read <= filled {
        read
    } else {
        filled
    }
}

/// The first `frames` frames of two channels.
pub open spec fn stereo_frames(left: Seq<u32>, right: Seq<u32>, frames: nat) -> Seq<SamplePair> {
    Seq::new(frames, |i: int| (left[i], right[i]))
}

/// A channel after a block: where the block gave a sample, that sample,
/// beyond that what the channel held before.
pub open spec fn channel_filled(before: Seq<u32>, samples: Seq<u32>) -> Seq<u32> {
    Seq::new(
        before.len(),
        |i: int|
            if i < samples.len() {
                samples[i]
            } else {
                before[i]
            },
    )
}

/// The output channels after a block that gave the frames `outs`: the first
/// channel holds their left samples, the second their right samples, and any
/// further channel is as it was.
pub open spec fn outputs_filled(
    before: Seq<Vec<u32>>,
    after: Seq<Vec<u32>>,
    outs: Seq<SamplePair>,
) -> bool
    recommends
        before.len() >= 2,
{
    &&& after.len() == before.len()
    &&& after[0]@ == channel_filled(before[0]@, outs.map_values(|frame: SamplePair| frame.0))
    &&& after[1]@ == channel_filled(before[1]@, outs.map_values(|frame: SamplePair| frame.1))
    &&& forall|channel: int| 2 <= channel < before.len() ==> after[channel] == before[channel]
}

/// What the engine shows of itself: a copy for a display to read.
pub struct DisplayState {
    /// The mode's name.
    pub state_label: String,
    /// The colour for the mode's name, if the mode sets one.
    pub color: Option<LabelColor>,
    /// Where playback reads, in frames.
    pub play_cursor: usize,
    /// Cycle counter.
    pub cycles: usize,
    /// Cycle total.
    pub total_cycles: usize,
    /// Subdivisions per cycle.
    pub division: usize,
    /// The subdivision that playback was in at the end of the last block.
    pub subdivision: usize,
    /// The sync point of the last block.
    pub sync_point: usize,
    /// Number of blocks through which a pending transition has waited in vain.
    pub missed_syncs: usize,
}

/// The looper's whole state.
pub struct ELState {
    /// Feedback of the overdub (0.0 to 1.0), as the bit pattern of a
    /// single-precision value.
    pub feedback: u32,
    /// Cursors, lengths and sync bookkeeping.
    pub transport: TransportState,
    /// Layers held besides the active buffer.
    pub buffers: Vec<RecordingBuffer>,
    /// The active buffer: the one that is written and played.
    pub buffer: RecordingBuffer,
    /// Cycle counter for the display.
    pub cycles: usize,
    /// Cycle total for the display.
    pub total_cycles: usize,
    /// The mode.
    pub state: LooperState,
    /// The mode before the last command that changed the mode.
    pub prev_state: SteadyState,
    /// Number of blocks through which a pending transition has waited in vain.
    pub missed_syncs: usize,
}

impl View for ELState {
    type V = Looper;

    open spec fn view(&self) -> Looper {
        Looper {
            feedback: self.feedback,
            transport: self.transport,
            buffer: self.buffer@,
            layers: layers_of(self.buffers@),
            cycles: self.cycles,
            total_cycles: self.total_cycles,
            state: self.state,
            prev_state: self.prev_state,
            missed_syncs: self.missed_syncs,
        }
    }
}

impl ELState {
    /// The state's invariant: its value is well formed, and every buffer
    /// starts at offset 0.
    pub open spec fn wf(&self) -> bool {
        &&& self@.wf()
        &&& self.buffer.start_position == 0
        &&& forall|i: int|
            0 <= i < self.buffers@.len() ==> (#[trigger] self.buffers@[i]).start_position == 0
    }

    /// Whether the state's invariant holds. It does of every state that
    /// [`ELState::new`] made and that only this library's functions changed.
    pub fn is_well_formed(&self) -> (ok: bool)
        ensures
            ok == self.wf(),
    {
        if !self.transport.is_well_formed() {
            return false;
        }
        if self.transport.loop_length > self.buffer.length() || self.buffer.start_position != 0 {
            return false;
        }
        let mut seen: usize = 0;
        while seen < self.buffers.len()
            invariant
                seen <= self.buffers@.len(),
                forall|i: int| 0 <= i < seen ==> (#[trigger] self.buffers@[i]).start_position == 0,
            decreases self.buffers@.len() - seen,
        {
            if self.buffers[seen].start_position != 0 {
                return false;
            }
            seen += 1;
        }
        true
    }

    /// A stopped engine with nothing recorded.
    pub fn new() -> (engine: ELState)
        ensures
            engine.wf(),
            engine@ == Looper::fresh(),
    {
        ELState {
            feedback: 0,
            transport: TransportState::new(),
            buffers: ELState::clear_buffers(),
            buffer: RecordingBuffer::new(),
            cycles: 0,
            total_cycles: 1,
            state: LooperState::Stopped,
            prev_state: SteadyState::Stopped,
            missed_syncs: 0,
        }
    }

    /// Sets the feedback of the overdub.
    pub fn set_feedback(&mut self, feedback: u32)
        ensures
            *final(self) == (ELState { feedback, ..*old(self) }),
    {
        self.feedback = feedback;
    }

    /// Sets the number of subdivisions per cycle. It takes hold when the
    /// subdivision is next worked out, at the end of a block.
    pub fn set_division(&mut self, division: usize)
        ensures
            *final(self) == (ELState {
                transport: TransportState { division, ..old(self).transport },
                ..*old(self)
            }),
    {
        self.transport.division = division;
    }

    /// Tells the engine the sample rate, in frames per second: the sync
    /// window becomes 20 ms worth of frames.
    pub fn set_sample_rate(&mut self, sample_rate: u32)
        ensures
            *final(self) == (ELState {
                transport: TransportState {
                    sync_window: window_for(sample_rate as int) as usize,
                    ..old(self).transport
                },
                ..*old(self)
            }),
    {
        self.transport.set_sample_rate(sample_rate);
    }

    /// A copy of what a display shows.
    pub fn display(&self) -> (shown: DisplayState)
        ensures
            shown.state_label@ == self.state.label_text(),
            shown.color == self.state.color_of(),
            shown.play_cursor == self.transport.play_cursor,
            shown.cycles == self.cycles,
            shown.total_cycles == self.total_cycles,
            shown.division == self.transport.division,
            shown.subdivision == self.transport.subdivision,
            shown.sync_point == self.transport.sync_point,
            shown.missed_syncs == self.missed_syncs,
    {
        DisplayState {
            state_label: self.state.label(),
            color: self.state.label_color(),
            play_cursor: self.transport.play_cursor,
            cycles: self.cycles,
            total_cycles: self.total_cycles,
            division: self.transport.division,
            subdivision: self.transport.subdivision,
            sync_point: self.transport.sync_point,
            missed_syncs: self.missed_syncs,
        }
    }

    /// A fresh set of layers.
    pub fn clear_buffers() -> (buffers: Vec<RecordingBuffer>)
        ensures
            layers_of(buffers@) == fresh_layers(),
            forall|i: int|
                0 <= i < buffers@.len() ==> (#[trigger] buffers@[i]).start_position == 0,
    {
        let mut buffers: Vec<RecordingBuffer> = Vec::new();
        let mut made: usize = 0;
        while made < NUM_BUFFERS
            invariant
                made <= NUM_BUFFERS,
                buffers@.len() == made,
                forall|i: int| 0 <= i < made ==> (#[trigger] buffers@[i])@ == silence(INITIAL_SIZE as nat),
                forall|i: int| 0 <= i < made ==> (#[trigger] buffers@[i]).start_position == 0,
            decreases NUM_BUFFERS - made,
        {
            let buffer = RecordingBuffer::new();
            buffers.push(buffer);
            made += 1;
        }
        assert(layers_of(buffers@) =~= fresh_layers());
        buffers
    }

    /// Applies `command`: carries out what the transition table asks for and
    /// moves to the mode that the table gives. A command that clears the loop
    /// does not rest in `Clearing` but carries on to where the table sends it
    /// from there. Where the mode changes, the mode left behind is remembered
    /// as the previous one.
    pub fn apply_command(&mut self, command: Commands)
        requires
            old(self).wf(),
        ensures
            final(self).wf(),
            final(self)@ == old(self)@.after_command(command),
    {
        let left = self.state;
        let row = decide(left, self.prev_state, command);
        let reached = looper_cycle(self, command);
        let next = match row.effect {
            Effect::Clear => decide(reached, self.prev_state, command).next,
            _ => reached,
        };
        if next != left {
            match left.steady() {
                Some(mode) => {
                    self.prev_state = mode;
                },
                None => {},
            }
        }
        self.state = next;
    }

    /// Applies the commands of `commands` that are due once frame `frame` has
    /// been processed, when those before `from` have been fed. Returns the
    /// place up to which the commands are fed now.
    pub fn feed_commands(&mut self, commands: &Vec<TimedCommand>, from: usize, frame: usize) -> (fed:
        usize)
        requires
            old(self).wf(),
            from <= commands@.len(),
        ensures
            final(self).wf(),
            fed == due_until(commands@, from as int, frame as int),
            from <= fed <= commands@.len(),
            final(self)@ == old(self)@.after_commands(commands@, from as int, fed as int),
    {
        let mut fed: usize = from;
        while fed < commands.len() && commands[fed].offset <= frame
            invariant
                self.wf(),
                from <= fed <= commands@.len(),
                due_until(commands@, fed as int, frame as int) == due_until(
                    commands@,
                    from as int,
                    frame as int,
                ),
                self@ == old(self)@.after_commands(commands@, from as int, fed as int),
            decreases commands@.len() - fed,
        {
            self.apply_command(commands[fed].command);
            fed += 1;
        }
        fed
    }

    /// Applies the commands of `commands` from place `from` on, in their
    /// order.
    pub fn feed_rest(&mut self, commands: &Vec<TimedCommand>, from: usize)
        requires
            old(self).wf(),
            from <= commands@.len(),
        ensures
            final(self).wf(),
            final(self)@ == old(self)@.after_commands(
                commands@,
                from as int,
                commands@.len() as int,
            ),
    {
        let mut fed: usize = from;
        while fed < commands.len()
            invariant
                self.wf(),
                from <= fed <= commands@.len(),
                self@ == old(self)@.after_commands(commands@, from as int, fed as int),
            decreases commands@.len() - fed,
        {
            self.apply_command(commands[fed].command);
            fed += 1;
        }
    }

    /// Begins a block of `frames` frames: fixes the sync point for the block
    /// and, where frames are being inserted, splices `frames` silent frames in
    /// at the write cursor.
    pub fn begin_block(&mut self, frames: usize)
        requires
            old(self).wf(),
        ensures
            final(self).wf(),
            final(self)@ == old(self)@.block_begun(frames as nat),
    {
        self.transport.mark_sync_point();
        match self.state {
            LooperState::Inserting | LooperState::SyncPending(Pending::InsertExit, _) => {
                self.buffer.insert_empty(self.transport.write_cursor, frames);
            },
            _ => {},
        }
    }

    /// Counts a missed sync point.
    pub fn count_missed_sync(&mut self)
        requires
            old(self).wf(),
        ensures
            final(self).wf(),
            final(self)@ == old(self)@.miss_counted(),
    {
        if self.missed_syncs < usize::MAX {
            self.missed_syncs = self.missed_syncs + 1;
        }
    }

    /// Processes a block: one frame to play for each frame of `inputs`. A
    /// command of `commands` is applied once the frame at its offset has been
    /// processed, those with offsets past the block after the last frame, all
    /// in the order in which they stand. A transition that was pending when
    /// the block began and is pending still after its last frame has missed
    /// its sync point, which is counted. At the end of the block the
    /// subdivision is worked out anew.
    pub fn process_block<M: Fn(u32, u32) -> u32, A: Fn(u32, u32) -> u32>(
        &mut self,
        inputs: &Vec<SamplePair>,
        commands: &Vec<TimedCommand>,
        times: &M,
        plus: &A,
    ) -> (outs: Vec<SamplePair>)
        requires
            old(self).wf(),
            callable(times),
            callable(plus),
        ensures
            final(self).wf(),
            exists|mixed: Seq<SamplePair>|
                block_outcome(
                    old(self)@,
                    inputs@,
                    commands@,
                    mixed,
                    final(self)@,
                    outs@,
                    times,
                    plus,
                ),
    {
        let frames = inputs.len();
        let begun = self.state;
        self.begin_block(frames);
        let mut outs: Vec<SamplePair> = Vec::with_capacity(frames);
        let mut fed: usize = 0;
        let mut frame: usize = 0;
        let ghost mut mixed: Seq<SamplePair> = Seq::empty();
        while frame < frames
            invariant
                self.wf(),
                callable(times),
                callable(plus),
                frames == inputs@.len(),
                frame <= frames,
                fed <= commands@.len(),
                mixed.len() == frame,
                outs@.len() == frame,
                (self@, fed as int) == old(self)@.in_block(
                    inputs@,
                    commands@,
                    mixed,
                    frame as nat,
                ),
                forall|earlier: int|
                    0 <= earlier < frame ==> #[trigger] frame_outcome(
                        old(self)@,
                        inputs@,
                        commands@,
                        mixed,
                        earlier,
                        outs@[earlier],
                        times,
                        plus,
                    ),
            decreases frames - frame,
        {
            let ghost at = self@;
            let ghost so_far = mixed;
            let ghost played = outs@;
            let out = self.process_frame(inputs[frame], frames - frame, times, plus);
            proof {
                mixed = so_far.push(at.mixed_in(self@));
                lemma_in_block_prefix(
                    old(self)@,
                    inputs@,
                    commands@,
                    so_far,
                    mixed,
                    frame as nat,
                );
            }
            fed = self.feed_commands(commands, fed, frame);
            outs.push(out);
            proof {
                assert forall|earlier: int| 0 <= earlier < frame + 1 implies #[trigger] frame_outcome(
                    old(self)@,
                    inputs@,
                    commands@,
                    mixed,
                    earlier,
                    outs@[earlier],
                    times,
                    plus,
                ) by {
                    if earlier < frame {
                        lemma_in_block_prefix(
                            old(self)@,
                            inputs@,
                            commands@,
                            so_far,
                            mixed,
                            earlier as nat,
                        );
                        assert(frame_outcome(
                            old(self)@,
                            inputs@,
                            commands@,
                            so_far,
                            earlier,
                            played[earlier],
                            times,
                            plus,
                        ));
                    }
                }
            }
            frame += 1;
        }
        if frames > 0 && begun.steady().is_none() && self.state == begun {
            self.count_missed_sync();
        }
        self.feed_rest(commands, fed);
        self.transport.refresh_grid();
        proof {
            assert(block_outcome(
                old(self)@,
                inputs@,
                commands@,
                mixed,
                self@,
                outs@,
                times,
                plus,
            ));
        }
        outs
    }

    /// Processes a block that the host hands over as channels of samples:
    /// `inputs[0]` and `inputs[1]` are read as left and right, `outputs[0]`
    /// and `outputs[1]` are filled. Where the host supplies fewer than two
    /// channels to read or to fill, the block is skipped: nothing is written,
    /// no command is applied, the state stays as it is.
    pub fn process<M: Fn(u32, u32) -> u32, A: Fn(u32, u32) -> u32>(
        &mut self,
        inputs: &Vec<Vec<u32>>,
        outputs: &mut Vec<Vec<u32>>,
        commands: &Vec<TimedCommand>,
        times: &M,
        plus: &A,
    )
        requires
            old(self).wf(),
            callable(times),
            callable(plus),
        ensures
            final(self).wf(),
            !has_stereo(inputs@, old(outputs)@) ==> *final(self) == *old(self) && *final(outputs)
                == *old(outputs),
            has_stereo(inputs@, old(outputs)@) ==> exists|
                mixed: Seq<SamplePair>,
                outs: Seq<SamplePair>,
            |
                {
                    &&& #[trigger] block_outcome(
                        old(self)@,
                        stereo_frames(
                            inputs@[0]@,
                            inputs@[1]@,
                            block_frames(inputs@, old(outputs)@),
                        ),
                        commands@,
                        mixed,
                        final(self)@,
                        outs,
                        times,
                        plus,
                    )
                    &&& outputs_filled(old(outputs)@, final(outputs)@, outs)
                },
    {
        if inputs.len() < 2 || outputs.len() < 2 {
            return ;
        }
        let read: usize = if inputs[0].len() <= inputs[1].len() {
            inputs[0].len()
        } else {
            inputs[1].len()
        };
        let filled: usize = if outputs[0].len() <= outputs[1].len() {
            outputs[0].len()
        } else {
            outputs[1].len()
        };
        let frames: usize = if read <= filled {
            read
        } else {
            filled
        };
        let mut stereo_in: Vec<SamplePair> = Vec::with_capacity(frames);
        let mut frame: usize = 0;
        while frame < frames
            invariant
                inputs@.len() >= 2,
                frames <= inputs@[0]@.len(),
                frames <= inputs@[1]@.len(),
                frame <= frames,
                stereo_in@ =~= stereo_frames(inputs@[0]@, inputs@[1]@, frame as nat),
            decreases frames - frame,
        {
            stereo_in.push((inputs[0][frame], inputs[1][frame]));
            frame += 1;
        }
        let stereo_out = self.process_block(&stereo_in, commands, times, plus);
        let ghost mixed = choose|mixed: Seq<SamplePair>|
            block_outcome(
                old(self)@,
                stereo_in@,
                commands@,
                mixed,
                self@,
                stereo_out@,
                times,
                plus,
            );
        let ghost lefts = stereo_out@.map_values(|frame: SamplePair| frame.0);
        let ghost rights = stereo_out@.map_values(|frame: SamplePair| frame.1);
        frame = 0;
        while frame < frames
            invariant
                frames == stereo_out@.len(),
                frames <= old(outputs)@[0]@.len(),
                frames <= old(outputs)@[1]@.len(),
                frame <= frames,
                old(outputs)@.len() >= 2,
                outputs@.len() == old(outputs)@.len(),
                lefts == stereo_out@.map_values(|frame: SamplePair| frame.0),
                rights == stereo_out@.map_values(|frame: SamplePair| frame.1),
                outputs@[0]@ =~= channel_filled(old(outputs)@[0]@, lefts.take(frame as int)),
                outputs@[1]@ =~= channel_filled(old(outputs)@[1]@, rights.take(frame as int)),
                forall|channel: int|
                    2 <= channel < old(outputs)@.len() ==> outputs@[channel] == old(
                        outputs,
                    )@[channel],
            decreases frames - frame,
        {
            let out = stereo_out[frame];
            outputs[0][frame] = out.0;
            outputs[1][frame] = out.1;
            frame += 1;
        }
        proof {
            assert(lefts.take(frames as int) =~= lefts);
            assert(rights.take(frames as int) =~= rights);
            assert(outputs_filled(old(outputs)@, outputs@, stereo_out@));
            assert(frames == block_frames(inputs@, old(outputs)@));
            assert(stereo_in@ == stereo_frames(inputs@[0]@, inputs@[1]@, frames as nat));
            assert(block_outcome(
                old(self)@,
                stereo_frames(inputs@[0]@, inputs@[1]@, block_frames(inputs@, old(outputs)@)),
                commands@,
                mixed,
                self@,
                stereo_out@,
                times,
                plus,
            ));
        }
    }

    /// Looks at a pending sync at the start of a frame, with `remaining`
    /// frames of the block still to come.
    pub fn resolve_sync(&mut self, remaining: usize)
        requires
            old(self).wf(),
        ensures
            final(self).wf(),
            final(self)@ == old(self)@.sync_resolved(remaining as nat),
    {
        match self.state {
            LooperState::SyncPending(pending, back) => {
                if self.transport.in_sync_window(self.transport.play_cursor) {
                    match pending {
                        Pending::ReplaceEnter => {
                            self.state = LooperState::Replacing;
                        },
                        Pending::InsertEnter => {
                            self.buffer.insert_empty(self.transport.write_cursor, remaining);
                            self.state = LooperState::Inserting;
                        },
                        Pending::ReplaceExit => {
                            self.state = back.to_state();
                        },
                        Pending::InsertExit => {
                            self.state = back.to_state();
                        },
                    }
                }
            },
            _ => {},
        }
    }

    /// Edits the loop with the frame `input` as the mode asks.
    pub fn write_frame<M: Fn(u32, u32) -> u32, A: Fn(u32, u32) -> u32>(
        &mut self,
        input: SamplePair,
        times: &M,
        plus: &A,
    )
        requires
            old(self).wf(),
            callable(times),
            callable(plus),
        ensures
            final(self).wf(),
            final(self)@ == old(self)@.written(input, old(self)@.mixed_in(final(self)@)),
            old(self)@.overdubs() ==> is_blend_of(
                times,
                plus,
                old(self)@.buffer[old(self).transport.write_cursor as int],
                input,
                old(self).feedback,
                old(self)@.mixed_in(final(self)@),
            ),
    {
        let cursor = self.transport.write_cursor;
        let tail = self.transport.loop_length;
        match self.state {
            LooperState::Recording => {
                if tail < self.buffer.length() {
                    self.buffer.overwrite(tail, input);
                } else {
                    self.buffer.push(input);
                }
                assert(tail < self.buffer.buffer.len() <= usize::MAX);
                self.transport.grow();
            },
            LooperState::Inserting | LooperState::SyncPending(Pending::InsertExit, _) => {
                if tail < self.buffer.length() {
                    self.buffer.overwrite(cursor, input);
                    self.transport.grow();
                }
            },
            LooperState::Overdubbing => {
                self.buffer.overdub(cursor, input, self.feedback, times, plus);
            },
            LooperState::Replacing | LooperState::SyncPending(Pending::ReplaceExit, _) => {
                if cursor < self.buffer.length() {
                    self.buffer.overwrite(cursor, input);
                }
            },
            _ => {},
        }
    }

    /// The frame that playback gives in this state.
    pub fn play_frame<M: Fn(u32, u32) -> u32>(&self, times: &M) -> (out: SamplePair)
        requires
            callable(times),
        ensures
            is_playback_of(times, self@.heard(), out),
    {
        match self.state {
            LooperState::Muted | LooperState::Stopped => (0u32, 0u32),
            _ => match self.buffer.get(self.transport.play_cursor) {
                Some(frame) => {
                    let left = times(frame.0, WET_MULT);
                    let right = times(frame.1, WET_MULT);
                    (left, right)
                },
                None => (0u32, 0u32),
            },
        }
    }

    /// Moves the cursors one frame on.
    pub fn advance(&mut self)
        requires
            old(self).wf(),
        ensures
            final(self).wf(),
            final(self)@ == old(self)@.advanced(),
    {
        match self.state {
            LooperState::Recording
            | LooperState::Inserting
            | LooperState::Overdubbing
            | LooperState::Replacing
            | LooperState::SyncPending(_, _) => {
                self.transport.advance_write();
            },
            _ => {},
        }
        match self.state {
            LooperState::Stopped => {},
            _ => {
                self.transport.advance_play();
            },
        }
    }

    /// Processes one frame, with `remaining` frames of its block still to come
    /// (itself included): looks at a pending sync, edits the loop with `input`
    /// as the mode asks, reads the frame to play, and moves the cursors on.
    /// Returns the frame to play.
    pub fn process_frame<M: Fn(u32, u32) -> u32, A: Fn(u32, u32) -> u32>(
        &mut self,
        input: SamplePair,
        remaining: usize,
        times: &M,
        plus: &A,
    ) -> (out: SamplePair)
        requires
            old(self).wf(),
            callable(times),
            callable(plus),
        ensures
            final(self).wf(),
            final(self)@ == old(self)@.after_frame(
                input,
                remaining as nat,
                old(self)@.mixed_in(final(self)@),
            ),
            old(self)@.frame_overdubs(remaining as nat) ==> is_blend_of(
                times,
                plus,
                old(self)@.buffer[old(self).transport.write_cursor as int],
                input,
                old(self).feedback,
                old(self)@.mixed_in(final(self)@),
            ),
            is_playback_of(
                times,
                old(self)@.frame_heard(
                    input,
                    remaining as nat,
                    old(self)@.mixed_in(final(self)@),
                ),
                out,
            ),
    {
        self.resolve_sync(remaining);
        self.write_frame(input, times, plus);
        let out = self.play_frame(times);
        self.advance();
        out
    }
}

impl Default for ELState {
    /// A stopped engine with nothing recorded, as [`ELState::new`] makes it.
    fn default() -> (engine: ELState)
        ensures
            engine.wf(),
            engine@ == Looper::fresh(),
    {
        ELState::new()
    }
}

} // verus!
