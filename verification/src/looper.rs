//! The looper as a mathematical value, and what a command, a frame and a
//! block of frames make of it.
//!
//! This is the model that the engine is held to: every function of the engine
//! says which of these values its state has afterwards.

use vstd::prelude::*;
use crate::looper_fsm::{transition, Commands, Effect, LooperState, Pending, SteadyState};
use crate::recording_buffer::{frame_at, silence, with_silence_at, SamplePair, INITIAL_SIZE};
use crate::transport::{
    cursor_after, in_window, lemma_cursor_after, lemma_cursor_wraps, TransportState,
};

verus! {

/// Number of layers that a cleared engine holds besides its active buffer.
pub const NUM_BUFFERS: usize = 4;

/// The engine's state as a mathematical value.
pub struct Looper {
    /// Feedback of the overdub, as the bit pattern of a single-precision value.
    pub feedback: u32,
    /// Cursors, lengths and sync bookkeeping.
    pub transport: TransportState,
    /// The frames of the active buffer.
    pub buffer: Seq<SamplePair>,
    /// The frames of each layer.
    pub layers: Seq<Seq<SamplePair>>,
    /// Cycle counter for the display.
    pub cycles: usize,
    /// Cycle total for the display.
    pub total_cycles: usize,
    /// The mode.
    pub state: LooperState,
    /// The mode before the last command that changed the mode.
    pub prev_state: SteadyState,
    /// Number of blocks through which a pending transition has waited in vain.
    pub missed_syncs: usize,
}

/// A command with the frame of its block at which it arrives.
#[derive(Clone, Copy, PartialEq, Eq, Debug, Structural)]
pub struct TimedCommand {
    /// Offset of the frame within the block.
    pub offset: usize,
    /// The command.
    pub command: Commands,
}

/// The layers of a cleared engine: [`NUM_BUFFERS`] times [`INITIAL_SIZE`]
/// silent frames.
pub open spec fn fresh_layers() -> Seq<Seq<SamplePair>> {
    Seq::new(NUM_BUFFERS as nat, |i: int| silence(INITIAL_SIZE as nat))
}

/// The place in `commands` up to which they are due once frame `frame` has
/// been processed, when those before `from` have been fed: the commands from
/// `from` on are due one after the other as long as their offsets do not lie
/// past `frame`.
pub open spec fn due_until(commands: Seq<TimedCommand>, from: int, frame: int) -> int
    decreases commands.len() - from,
{
    if 0 <= from < commands.len() && commands[from].offset <= frame {
        due_until(commands, from + 1, frame)
    } else {
        from
    }
}

impl Looper {
    /// A stopped looper with nothing recorded: a silent active buffer and
    /// [`NUM_BUFFERS`] silent layers of [`INITIAL_SIZE`] frames each, feedback
    /// and division at 0, a sync window of one frame.
    pub open spec fn fresh() -> Looper {
        Looper {
            feedback: 0,
            transport: TransportState::fresh(),
            buffer: silence(INITIAL_SIZE as nat),
            layers: fresh_layers(),
            cycles: 0,
            total_cycles: 1,
            state: LooperState::Stopped,
            prev_state: SteadyState::Stopped,
            missed_syncs: 0,
        }
    }

    /// The transport is well formed and the loop fits into the active buffer.
    pub open spec fn wf(self) -> bool {
        &&& self.transport.wf()
        &&& self.transport.loop_length <= self.buffer.len()
    }

    /// This looper after the change that `effect` names.
    pub open spec fn effected(self, effect: Effect) -> Looper {
        match effect {
            Effect::Keep => self,
            Effect::Clear => Looper {
                transport: self.transport.cleared(),
                buffer: silence(INITIAL_SIZE as nat),
                layers: fresh_layers(),
                ..self
            },
            Effect::FreezeCycle => Looper { transport: self.transport.cycle_frozen(), ..self },
            Effect::CueWrite => Looper { transport: self.transport.write_cued(), ..self },
            Effect::NewLayer => Looper {
                layers: self.layers.push(silence(self.transport.cycle_len as nat)),
                ..self
            },
        }
    }

    /// The mode that the looper is in once `command` has been applied: the
    /// mode that the table gives, but for a command that clears the loop.
    /// Such a command does not rest in `Clearing`: with the loop cleared it
    /// carries on to where the table sends it from there.
    pub open spec fn arrival(self, command: Commands) -> LooperState {
        let row = transition(self.state, self.prev_state, command);
        if row.effect is Clear {
            transition(row.next, self.prev_state, command).next
        } else {
            row.next
        }
    }

    /// This looper after `command`: the table's effect is carried out and the
    /// mode moves to where the command leads. Where that changes the mode, the
    /// mode left behind is remembered as the previous one.
    pub open spec fn after_command(self, command: Commands) -> Looper {
        let changed = self.effected(transition(self.state, self.prev_state, command).effect);
        let next = self.arrival(command);
        Looper {
            state: next,
            prev_state: match self.state.steady_of() {
                Some(left) => if next != self.state {
                    left
                } else {
                    self.prev_state
                },
                None => self.prev_state,
            },
            ..changed
        }
    }

    /// This looper once a pending sync has been looked at, in a frame with
    /// `remaining` frames of its block still to come (itself included). A
    /// pending transition fires when the play cursor lies in the sync window:
    /// an entry goes to its working mode, an exit to the mode it carries. An
    /// insert that begins splices `remaining` silent frames in at the write
    /// cursor.
    pub open spec fn sync_resolved(self, remaining: nat) -> Looper {
        match self.state {
            LooperState::SyncPending(pending, back) => if self.transport.at_sync() {
                match pending {
                    Pending::ReplaceEnter => Looper { state: LooperState::Replacing, ..self },
                    Pending::InsertEnter => Looper {
                        state: LooperState::Inserting,
                        buffer: with_silence_at(
                            self.buffer,
                            self.transport.write_cursor as int,
                            remaining,
                        ),
                        ..self
                    },
                    Pending::ReplaceExit => Looper { state: back.as_state(), ..self },
                    Pending::InsertExit => Looper { state: back.as_state(), ..self },
                }
            } else {
                self
            },
            _ => self,
        }
    }

    /// Whether a frame is blended into the loop in this state.
    pub open spec fn overdubs(self) -> bool {
        self.state is Overdubbing && self.transport.write_cursor < self.buffer.len()
    }

    /// This looper after its mode's edit of the loop with the frame `input`.
    /// `mixed` is the frame that an overdub stores.
    ///
    /// Recording puts the frame at the loop's tail and counts it. Inserting,
    /// also while its exit is pending, fills the next spliced frame and counts
    /// it, as long as the buffer holds room beyond the loop. Overdubbing
    /// stores `mixed` at the write cursor. Replacing, also while its exit is
    /// pending, stores the frame at the write cursor. No other mode edits.
    pub open spec fn written(self, input: SamplePair, mixed: SamplePair) -> Looper {
        let cursor = self.transport.write_cursor as int;
        let tail = self.transport.loop_length as int;
        match self.state {
            LooperState::Recording => Looper {
                buffer: if tail < self.buffer.len() {
                    self.buffer.update(tail, input)
                } else {
                    self.buffer.push(input)
                },
                transport: self.transport.grown(),
                ..self
            },
            LooperState::Inserting | LooperState::SyncPending(Pending::InsertExit, _) => if tail
                < self.buffer.len() {
                Looper {
                    buffer: self.buffer.update(cursor, input),
                    transport: self.transport.grown(),
                    ..self
                }
            } else {
                self
            },
            LooperState::Overdubbing => if cursor < self.buffer.len() {
                Looper { buffer: self.buffer.update(cursor, mixed), ..self }
            } else {
                self
            },
            LooperState::Replacing | LooperState::SyncPending(Pending::ReplaceExit, _) => if cursor
                < self.buffer.len() {
                Looper { buffer: self.buffer.update(cursor, input), ..self }
            } else {
                self
            },
            _ => self,
        }
    }

    /// What playback reads in this state: nothing when stopped or muted, else
    /// the frame at the play cursor, if there is one.
    pub open spec fn heard(self) -> Option<SamplePair> {
        if self.state.silent() {
            None
        } else {
            frame_at(self.buffer, self.transport.play_cursor as int)
        }
    }

    /// This looper with its cursors moved one frame on: the write cursor in
    /// the modes that edit, the play cursor in every mode but `Stopped`.
    pub open spec fn advanced(self) -> Looper {
        let written = if self.state.writes() {
            self.transport.write_advanced()
        } else {
            self.transport
        };
        let played = if self.state is Stopped {
            written
        } else {
            written.play_advanced()
        };
        Looper { transport: played, ..self }
    }

    /// This looper after one frame: the pending sync is looked at, the mode
    /// edits the loop, and the cursors move on.
    pub open spec fn after_frame(self, input: SamplePair, remaining: nat, mixed: SamplePair)
        -> Looper {
        self.sync_resolved(remaining).written(input, mixed).advanced()
    }

    /// What playback reads in that frame: after the edit, before the cursors
    /// move.
    pub open spec fn frame_heard(self, input: SamplePair, remaining: nat, mixed: SamplePair)
        -> Option<SamplePair> {
        self.sync_resolved(remaining).written(input, mixed).heard()
    }

    /// Whether that frame is blended into the loop.
    pub open spec fn frame_overdubs(self, remaining: nat) -> bool {
        self.sync_resolved(remaining).overdubs()
    }

    /// This looper after the commands at places `from` up to, not including,
    /// `to` of `commands`, in their order.
    pub open spec fn after_commands(self, commands: Seq<TimedCommand>, from: int, to: int)
        -> Looper
        decreases to - from,
    {
        if from >= to {
            self
        } else {
            self.after_commands(commands, from, to - 1).after_command(commands[to - 1].command)
        }
    }

    /// Whether frames are being inserted in this state: in `Inserting`, and
    /// while its exit is pending.
    pub open spec fn inserts(self) -> bool {
        self.state is Inserting || self.state matches LooperState::SyncPending(
            Pending::InsertExit,
            _,
        )
    }

    /// This looper at the start of a block of `frames` frames: the sync point
    /// is fixed for the block, and where frames are being inserted, `frames`
    /// silent frames are spliced in at the write cursor.
    pub open spec fn block_begun(self, frames: nat) -> Looper {
        Looper {
            transport: self.transport.sync_marked(),
            buffer: if self.inserts() {
                with_silence_at(self.buffer, self.transport.write_cursor as int, frames)
            } else {
                self.buffer
            },
            ..self
        }
    }

    /// The looper, and the number of commands fed, after the first `done`
    /// frames of a block. After each frame the commands that are due are
    /// applied. `mixed` holds for each frame what an overdub stores in it.
    pub open spec fn in_block(
        self,
        inputs: Seq<SamplePair>,
        commands: Seq<TimedCommand>,
        mixed: Seq<SamplePair>,
        done: nat,
    ) -> (Looper, int)
        recommends
            done <= inputs.len(),
            done <= mixed.len(),
        decreases done,
    {
        if done == 0 {
            (self.block_begun(inputs.len()), 0)
        } else {
            let frame = done - 1;
            let (before, fed) = self.in_block(inputs, commands, mixed, frame as nat);
            let due = due_until(commands, fed, frame);
            (
                before.after_frame(
                    inputs[frame],
                    (inputs.len() - frame) as nat,
                    mixed[frame],
                ).after_commands(commands, fed, due),
                due,
            )
        }
    }

    /// Whether a block that took this looper to `last` has missed its sync
    /// point: the block had frames, it began with a transition pending, and
    /// that transition is pending still when its frames are done.
    pub open spec fn missed_sync(self, last: Looper, frames: nat) -> bool {
        frames > 0 && self.state is SyncPending && last.state == self.state
    }

    /// This looper with one more missed sync point counted. The count stops
    /// at the largest number it can hold.
    pub open spec fn miss_counted(self) -> Looper {
        Looper {
            missed_syncs: if self.missed_syncs < usize::MAX {
                (self.missed_syncs + 1) as usize
            } else {
                self.missed_syncs
            },
            ..self
        }
    }

    /// This looper after a whole block: all its frames, a missed sync point
    /// counted, then the commands that are still left, then the subdivision
    /// worked out anew.
    pub open spec fn after_block(
        self,
        inputs: Seq<SamplePair>,
        commands: Seq<TimedCommand>,
        mixed: Seq<SamplePair>,
    ) -> Looper {
        let (last, fed) = self.in_block(inputs, commands, mixed, inputs.len());
        let counted = if self.missed_sync(last, inputs.len()) {
            last.miss_counted()
        } else {
            last
        };
        let ended = counted.after_commands(commands, fed, commands.len() as int);
        Looper { transport: ended.transport.grid_refreshed(), ..ended }
    }

    /// The frame that stands at this looper's write cursor in `later`: where
    /// an overdub in this state leaves its result.
    pub open spec fn mixed_in(self, later: Looper) -> SamplePair {
        later.buffer[self.transport.write_cursor as int]
    }
}

/// The state of a block after some frames depends only on what overdubs
/// stored in those frames.
pub proof fn lemma_in_block_prefix(
    before: Looper,
    inputs: Seq<SamplePair>,
    commands: Seq<TimedCommand>,
    mixed: Seq<SamplePair>,
    other: Seq<SamplePair>,
    done: nat,
)
    requires
        forall|frame: int| 0 <= frame < done ==> mixed[frame] == other[frame],
    ensures
        before.in_block(inputs, commands, mixed, done) == before.in_block(
            inputs,
            commands,
            other,
            done,
        ),
    decreases done,
{
    if done > 0 {
        lemma_in_block_prefix(before, inputs, commands, mixed, other, (done - 1) as nat);
    }
}

/// In the modes that keep the loop's length, the cursors walk round the loop:
/// after any number of frames of a block without commands the mode and the
/// loop's length are as they were, the play cursor has moved on by that many
/// frames, and so has the write cursor where the mode edits.
pub proof fn lemma_cursors_walk_the_loop(
    before: Looper,
    inputs: Seq<SamplePair>,
    mixed: Seq<SamplePair>,
    done: nat,
)
    requires
        before.wf(),
        before.state is Playing || before.state is Muted || before.state is Multiplying
            || before.state is Overdubbing || before.state is Replacing,
    ensures
        ({
            let at = before.in_block(inputs, Seq::empty(), mixed, done).0;
            let length = before.transport.loop_length as int;
            &&& at.wf()
            &&& at.state == before.state
            &&& at.transport.loop_length == before.transport.loop_length
            &&& at.transport.play_cursor == cursor_after(
                before.transport.play_cursor as int,
                length,
                done,
            )
            &&& at.transport.write_cursor == if before.state.writes() {
                cursor_after(before.transport.write_cursor as int, length, done)
            } else {
                before.transport.write_cursor as int
            }
        }),
    decreases done,
{
    if done > 0 {
        let frame = (done - 1) as nat;
        lemma_cursors_walk_the_loop(before, inputs, mixed, frame);
        lemma_nothing_fed(before, inputs, mixed, frame);
        let at = before.in_block(inputs, Seq::empty(), mixed, frame).0;
        let stepped = at.after_frame(
            inputs[frame as int],
            (inputs.len() - frame) as nat,
            mixed[frame as int],
        );
        assert(due_until(Seq::<TimedCommand>::empty(), 0, frame as int) == 0);
        assert(stepped.after_commands(Seq::<TimedCommand>::empty(), 0, 0) == stepped);
    }
}

/// Cursor wraparound: in the modes that keep the loop's length, a block of as
/// many frames as the loop is long brings the play cursor back to where it
/// was, and the write cursor too. Cursors that start at 0 are back at 0.
pub proof fn lemma_cursors_come_round(
    before: Looper,
    inputs: Seq<SamplePair>,
    mixed: Seq<SamplePair>,
)
    requires
        before.wf(),
        before.transport.loop_length > 0,
        before.state is Playing || before.state is Muted || before.state is Multiplying
            || before.state is Overdubbing || before.state is Replacing,
    ensures
        ({
            let at = before.in_block(
                inputs,
                Seq::empty(),
                mixed,
                before.transport.loop_length as nat,
            ).0;
            &&& at.transport.play_cursor == before.transport.play_cursor
            &&& at.transport.write_cursor == before.transport.write_cursor
        }),
{
    let length = before.transport.loop_length as int;
    lemma_cursors_walk_the_loop(before, inputs, mixed, length as nat);
    lemma_cursor_wraps(before.transport.play_cursor as int, length);
    lemma_cursor_wraps(before.transport.write_cursor as int, length);
}

/// `ReplaceStart` while playing edits nothing: the looper waits for the sync
/// point, with the write cursor brought to the play cursor.
pub proof fn lemma_replace_start_waits(looper: Looper)
    requires
        looper.state is Playing,
    ensures
        looper.after_command(Commands::ReplaceStart).state == LooperState::SyncPending(
            Pending::ReplaceEnter,
            SteadyState::Playing,
        ),
        looper.after_command(Commands::ReplaceStart).buffer == looper.buffer,
        looper.after_command(Commands::ReplaceStart).transport
            == looper.transport.write_cued(),
{
}

/// A pending sync ignores every command: whatever commands are applied
/// while a transition waits, the looper is as it was.
pub proof fn lemma_pending_ignores_commands(
    looper: Looper,
    commands: Seq<TimedCommand>,
    from: int,
    to: int,
)
    requires
        looper.state is SyncPending,
    ensures
        looper.after_commands(commands, from, to) == looper,
    decreases to - from,
{
    if from < to {
        lemma_pending_ignores_commands(looper, commands, from, to - 1);
    }
}

/// While a replace waits to begin and the play cursor stays outside the sync
/// window, the frames of a block edit nothing, whatever commands arrive:
/// after any number of them the buffer is as it was, the replace still waits,
/// and each cursor has moved on by that many frames.
pub proof fn lemma_pending_replace_edits_nothing(
    before: Looper,
    inputs: Seq<SamplePair>,
    commands: Seq<TimedCommand>,
    mixed: Seq<SamplePair>,
    done: nat,
)
    requires
        before.wf(),
        before.state matches LooperState::SyncPending(Pending::ReplaceEnter, _),
        forall|earlier: nat|
            earlier < done ==> !in_window(
                #[trigger] cursor_after(
                    before.transport.play_cursor as int,
                    before.transport.loop_length as int,
                    earlier,
                ),
                before.transport.sync_marked().sync_point as int,
                before.transport.sync_window as int,
            ),
    ensures
        ({
            let at = before.in_block(inputs, commands, mixed, done).0;
            let length = before.transport.loop_length as int;
            let played = cursor_after(before.transport.play_cursor as int, length, done);
            let written = cursor_after(before.transport.write_cursor as int, length, done);
            &&& at.buffer == before.buffer
            &&& at.state == before.state
            &&& at.missed_syncs == before.missed_syncs
            &&& at.transport == (TransportState {
                play_cursor: played as usize,
                write_cursor: written as usize,
                ..before.transport.sync_marked()
            })
            &&& 0 <= played <= length && 0 <= written <= length
            &&& length > 0 ==> played < length && written < length
        }),
    decreases done,
{
    if done > 0 {
        let frame = (done - 1) as nat;
        lemma_pending_replace_edits_nothing(before, inputs, commands, mixed, frame);
        let (at, fed) = before.in_block(inputs, commands, mixed, frame);
        assert(!at.transport.at_sync());
        let stepped = at.after_frame(
            inputs[frame as int],
            (inputs.len() - frame) as nat,
            mixed[frame as int],
        );
        lemma_pending_ignores_commands(
            stepped,
            commands,
            fed,
            due_until(commands, fed, frame as int),
        );
    }
}

/// A block throughout which a replace waits in vain edits nothing: if the
/// play cursor lies outside the sync window in every frame of the block, the
/// buffer is after the block as it was before, and the replace still waits,
/// whatever commands the block brought.
pub proof fn lemma_replace_waits_through_block(
    before: Looper,
    inputs: Seq<SamplePair>,
    commands: Seq<TimedCommand>,
    mixed: Seq<SamplePair>,
)
    requires
        before.wf(),
        before.state matches LooperState::SyncPending(Pending::ReplaceEnter, _),
        forall|frame: nat|
            frame < inputs.len() ==> !in_window(
                #[trigger] cursor_after(
                    before.transport.play_cursor as int,
                    before.transport.loop_length as int,
                    frame,
                ),
                before.transport.sync_marked().sync_point as int,
                before.transport.sync_window as int,
            ),
    ensures
        before.after_block(inputs, commands, mixed).buffer == before.buffer,
        before.after_block(inputs, commands, mixed).state == before.state,
{
    lemma_pending_replace_edits_nothing(before, inputs, commands, mixed, inputs.len());
    let (last, fed) = before.in_block(inputs, commands, mixed, inputs.len());
    let counted = if before.missed_sync(last, inputs.len()) {
        last.miss_counted()
    } else {
        last
    };
    lemma_pending_ignores_commands(counted, commands, fed, commands.len() as int);
}

/// The same with the play cursor's place written out: in a loop that holds
/// frames, frame `k` of a block finds the play cursor at its place at the
/// start of the block plus `k`, modulo the loop's length. If none of those
/// places lies in the sync window, the block edits nothing and the replace
/// still waits.
pub proof fn lemma_replace_waits_outside_window(
    before: Looper,
    inputs: Seq<SamplePair>,
    commands: Seq<TimedCommand>,
    mixed: Seq<SamplePair>,
)
    requires
        before.wf(),
        before.state matches LooperState::SyncPending(Pending::ReplaceEnter, _),
        before.transport.loop_length > 0,
        forall|frame: nat|
            frame < inputs.len() ==> !in_window(
                #[trigger] ((before.transport.play_cursor + frame) % (
                before.transport.loop_length as int)),
                before.transport.sync_marked().sync_point as int,
                before.transport.sync_window as int,
            ),
    ensures
        before.after_block(inputs, commands, mixed).buffer == before.buffer,
        before.after_block(inputs, commands, mixed).state == before.state,
{
    assert forall|frame: nat| frame < inputs.len() implies !in_window(
        #[trigger] cursor_after(
            before.transport.play_cursor as int,
            before.transport.loop_length as int,
            frame,
        ),
        before.transport.sync_marked().sync_point as int,
        before.transport.sync_window as int,
    ) by {
        lemma_cursor_after(
            before.transport.play_cursor as int,
            before.transport.loop_length as int,
            frame,
        );
        assert(!in_window(
            (before.transport.play_cursor + frame) % (before.transport.loop_length as int),
            before.transport.sync_marked().sync_point as int,
            before.transport.sync_window as int,
        ));
    }
    lemma_replace_waits_through_block(before, inputs, commands, mixed);
}

/// With no commands, none is fed.
pub proof fn lemma_nothing_fed(
    before: Looper,
    inputs: Seq<SamplePair>,
    mixed: Seq<SamplePair>,
    done: nat,
)
    ensures
        before.in_block(inputs, Seq::empty(), mixed, done).1 == 0,
    decreases done,
{
    if done > 0 {
        lemma_nothing_fed(before, inputs, mixed, (done - 1) as nat);
        assert(due_until(Seq::<TimedCommand>::empty(), 0, done - 1) == 0);
    }
}

/// In the frame in which the play cursor lies in the sync window, a replace
/// that waited begins: the mode becomes `Replacing`, and that frame already
/// overwrites the frame under the write cursor.
pub proof fn lemma_replace_begins_in_window(
    looper: Looper,
    input: SamplePair,
    remaining: nat,
    mixed: SamplePair,
)
    requires
        looper.state matches LooperState::SyncPending(Pending::ReplaceEnter, _),
        looper.transport.at_sync(),
        looper.transport.write_cursor < looper.buffer.len(),
    ensures
        looper.after_frame(input, remaining, mixed).state == LooperState::Replacing,
        looper.after_frame(input, remaining, mixed).buffer == looper.buffer.update(
            looper.transport.write_cursor as int,
            input,
        ),
{
}

/// `frames` after the first `done` frames of `inputs` have been written over
/// it, one after the other, by a cursor that starts at `cursor` and walks a
/// loop of `loop_length` frames.
pub open spec fn replaced(
    frames: Seq<SamplePair>,
    cursor: int,
    loop_length: int,
    inputs: Seq<SamplePair>,
    done: nat,
) -> Seq<SamplePair>
    decreases done,
{
    if done == 0 {
        frames
    } else {
        replaced(frames, cursor, loop_length, inputs, (done - 1) as nat).update(
            cursor_after(cursor, loop_length, (done - 1) as nat),
            inputs[done - 1],
        )
    }
}

/// While replacing, every frame of a block without commands is written over
/// the loop: after any number of frames the buffer is what it was with those
/// inputs written over it along the write cursor's way, and the mode is still
/// `Replacing`.
pub proof fn lemma_replacing_overwrites_every_frame(
    before: Looper,
    inputs: Seq<SamplePair>,
    mixed: Seq<SamplePair>,
    done: nat,
)
    requires
        before.wf(),
        before.state is Replacing,
        before.transport.loop_length > 0,
    ensures
        ({
            let at = before.in_block(inputs, Seq::empty(), mixed, done).0;
            &&& at.state is Replacing
            &&& at.buffer == replaced(
                before.buffer,
                before.transport.write_cursor as int,
                before.transport.loop_length as int,
                inputs,
                done,
            )
        }),
    decreases done,
{
    if done > 0 {
        let frame = (done - 1) as nat;
        lemma_replacing_overwrites_every_frame(before, inputs, mixed, frame);
        lemma_cursors_walk_the_loop(before, inputs, mixed, frame);
        lemma_nothing_fed(before, inputs, mixed, frame);
        let at = before.in_block(inputs, Seq::empty(), mixed, frame).0;
        let stepped = at.after_frame(
            inputs[frame as int],
            (inputs.len() - frame) as nat,
            mixed[frame as int],
        );
        assert(due_until(Seq::<TimedCommand>::empty(), 0, frame as int) == 0);
        assert(stepped.after_commands(Seq::<TimedCommand>::empty(), 0, 0) == stepped);
    }
}

/// Once replacing, every frame overwrites the frame under the write cursor
/// with its input, and the mode stays. That goes on after `ReplaceStop`, while
/// the exit waits outside the sync window.
pub proof fn lemma_replacing_overwrites(
    looper: Looper,
    input: SamplePair,
    remaining: nat,
    mixed: SamplePair,
)
    requires
        looper.state is Replacing || (looper.state matches LooperState::SyncPending(
            Pending::ReplaceExit,
            _,
        ) && !looper.transport.at_sync()),
        looper.transport.write_cursor < looper.buffer.len(),
    ensures
        looper.after_frame(input, remaining, mixed).state == looper.state,
        looper.after_frame(input, remaining, mixed).buffer == looper.buffer.update(
            looper.transport.write_cursor as int,
            input,
        ),
{
}

} // verus!
