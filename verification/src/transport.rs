//! The transport: where the loop is being written and played, how long it
//! is, and the grid of sync points that quantised edits wait for.

use vstd::prelude::*;
use vstd::arithmetic::div_mod::{
    lemma_add_mod_noop, lemma_fundamental_div_mod, lemma_mod_add_multiples_vanish,
    lemma_small_mod,
};

verus! {

/// How long after a sync point a waiting transition may still fire, in
/// milliseconds.
pub const SYNC_DELAY_MS: u32 = 20;

/// Positions, lengths and sync bookkeeping of one loop, all in frames.
#[derive(Clone, Copy, PartialEq, Eq, Debug, Structural)]
pub struct TransportState {
    /// Where the next edit of the loop lands.
    pub write_cursor: usize,
    /// Where playback reads.
    pub play_cursor: usize,
    /// Recorded length of the loop: the modulus both cursors wrap at.
    pub loop_length: usize,
    /// Length of one pass of the loop.
    pub cycle_len: usize,
    /// Subdivisions per cycle, as set by the user.
    pub division: usize,
    /// Length of one subdivision, as of the end of the last block.
    pub division_len: usize,
    /// The subdivision playback was in at the end of the last block.
    pub subdivision: usize,
    /// Start of that subdivision: what a waiting transition is held against
    /// during the current block.
    pub sync_point: usize,
    /// Width of the window after `sync_point` in which a waiting transition
    /// fires.
    pub sync_window: usize,
}

/// The cursor that follows `cursor` in a loop of `loop_length` frames. With
/// nothing recorded the cursor rests at 0.
pub open spec fn next_cursor(cursor: int, loop_length: int) -> int {
    if loop_length > 0 {
        (cursor + 1) % loop_length
    } else {
        0
    }
}

/// The cursor reached from `cursor` after `frames` steps of [`next_cursor`].
pub open spec fn cursor_after(cursor: int, loop_length: int, frames: nat) -> int
    decreases frames,
{
    if frames == 0 {
        cursor
    } else {
        next_cursor(cursor_after(cursor, loop_length, (frames - 1) as nat), loop_length)
    }
}

/// Length of one subdivision: the cycle split `division` ways, or 0 when
/// there is no division to split by.
pub open spec fn division_len_of(cycle_len: int, division: int) -> int {
    if division > 0 {
        cycle_len / division
    } else {
        0
    }
}

/// The subdivision that `cursor` lies in, or 0 when subdivisions have no
/// length.
pub open spec fn subdivision_of(cursor: int, division_len: int) -> int {
    if division_len > 0 {
        cursor / division_len
    } else {
        0
    }
}

/// `position` lies in the window of `window` frames that opens at
/// `sync_point`.
pub open spec fn in_window(position: int, sync_point: int, window: int) -> bool {
    sync_point <= position < sync_point + window
}

/// The sync window, in frames, at `sample_rate` frames per second.
pub open spec fn window_for(sample_rate: int) -> int {
    sample_rate * SYNC_DELAY_MS as int / 1000
}

impl TransportState {
    /// Both cursors lie inside the loop (at 0 while nothing is recorded), a
    /// cycle is no longer than the loop, and the start of the current
    /// subdivision is a position that can be held.
    pub open spec fn wf(self) -> bool {
        &&& self.cycle_len <= self.loop_length
        &&& self.loop_length > 0 ==> self.write_cursor < self.loop_length && self.play_cursor
            < self.loop_length
        &&& self.loop_length == 0 ==> self.write_cursor == 0 && self.play_cursor == 0
        &&& self.subdivision * self.division_len <= usize::MAX
    }

    /// This transport after a loop clear: cursors and lengths at 0, the rest
    /// kept.
    pub open spec fn cleared(self) -> TransportState {
        TransportState { write_cursor: 0, play_cursor: 0, loop_length: 0, cycle_len: 0, ..self }
    }

    /// This transport with the cycle frozen at the recorded length.
    pub open spec fn cycle_frozen(self) -> TransportState {
        TransportState { cycle_len: self.loop_length, ..self }
    }

    /// This transport with the write cursor brought to the play cursor.
    pub open spec fn write_cued(self) -> TransportState {
        TransportState { write_cursor: self.play_cursor, ..self }
    }

    /// This transport with loop and cycle one frame longer.
    pub open spec fn grown(self) -> TransportState
        recommends
            self.loop_length < usize::MAX,
            self.cycle_len < usize::MAX,
    {
        TransportState {
            loop_length: (self.loop_length + 1) as usize,
            cycle_len: (self.cycle_len + 1) as usize,
            ..self
        }
    }

    /// This transport with the play cursor one frame on.
    pub open spec fn play_advanced(self) -> TransportState {
        TransportState {
            play_cursor: next_cursor(self.play_cursor as int, self.loop_length as int) as usize,
            ..self
        }
    }

    /// This transport with the write cursor one frame on.
    pub open spec fn write_advanced(self) -> TransportState {
        TransportState {
            write_cursor: next_cursor(self.write_cursor as int, self.loop_length as int) as usize,
            ..self
        }
    }

    /// This transport with the sync point set to the start of the stored
    /// subdivision.
    pub open spec fn sync_marked(self) -> TransportState {
        TransportState { sync_point: (self.subdivision * self.division_len) as usize, ..self }
    }

    /// This transport with subdivision length and subdivision worked out anew
    /// from cycle length, division and play cursor.
    pub open spec fn grid_refreshed(self) -> TransportState {
        let division_len = division_len_of(self.cycle_len as int, self.division as int);
        TransportState {
            division_len: division_len as usize,
            subdivision: subdivision_of(self.play_cursor as int, division_len) as usize,
            ..self
        }
    }

    /// Whether the play cursor lies in the current sync window.
    pub open spec fn at_sync(self) -> bool {
        in_window(self.play_cursor as int, self.sync_point as int, self.sync_window as int)
    }

    /// A transport with nothing recorded, no division set, and a sync window
    /// of one frame.
    pub open spec fn fresh() -> TransportState {
        TransportState {
            write_cursor: 0,
            play_cursor: 0,
            loop_length: 0,
            cycle_len: 0,
            division: 0,
            division_len: 0,
            subdivision: 0,
            sync_point: 0,
            sync_window: 1,
        }
    }

    /// Whether this transport is well formed.
    pub fn is_well_formed(&self) -> (ok: bool)
        ensures
            ok == self.wf(),
    {
        let cursors = if self.loop_length > 0 {
            self.write_cursor < self.loop_length && self.play_cursor < self.loop_length
        } else {
            self.write_cursor == 0 && self.play_cursor == 0
        };
        let grid = self.subdivision.checked_mul(self.division_len);
        self.cycle_len <= self.loop_length && cursors && grid.is_some()
    }

    /// A transport with nothing recorded and a sync window of one frame.
    pub fn new() -> (t: TransportState)
        ensures
            t == TransportState::fresh(),
            t.wf(),
    {
        TransportState {
            write_cursor: 0,
            play_cursor: 0,
            loop_length: 0,
            cycle_len: 0,
            division: 0,
            division_len: 0,
            subdivision: 0,
            sync_point: 0,
            sync_window: 1,
        }
    }

    /// Resets cursors and lengths for a fresh recording.
    pub fn clear(&mut self)
        ensures
            *final(self) == old(self).cleared(),
            old(self).wf() ==> final(self).wf(),
    {
        self.write_cursor = 0;
        self.play_cursor = 0;
        self.loop_length = 0;
        self.cycle_len = 0;
    }

    /// Freezes the cycle at what has been recorded.
    pub fn freeze_cycle(&mut self)
        ensures
            *final(self) == old(self).cycle_frozen(),
            old(self).wf() ==> final(self).wf(),
    {
        self.cycle_len = self.loop_length;
    }

    /// Brings the write cursor to where playback is.
    pub fn cue_write(&mut self)
        ensures
            *final(self) == old(self).write_cued(),
            old(self).wf() ==> final(self).wf(),
    {
        self.write_cursor = self.play_cursor;
    }

    /// Counts one more recorded frame into loop and cycle.
    pub fn grow(&mut self)
        requires
            old(self).wf(),
            old(self).loop_length < usize::MAX,
        ensures
            *final(self) == old(self).grown(),
            final(self).wf(),
    {
        self.loop_length = self.loop_length + 1;
        self.cycle_len = self.cycle_len + 1;
    }

    /// Moves the play cursor one frame on, wrapping at the loop length.
    pub fn advance_play(&mut self)
        requires
            old(self).wf(),
        ensures
            *final(self) == old(self).play_advanced(),
            final(self).wf(),
    {
        if self.loop_length > 0 {
            self.play_cursor = (self.play_cursor + 1) % self.loop_length;
        } else {
            self.play_cursor = 0;
        }
    }

    /// Moves the write cursor one frame on, wrapping at the loop length.
    pub fn advance_write(&mut self)
        requires
            old(self).wf(),
        ensures
            *final(self) == old(self).write_advanced(),
            final(self).wf(),
    {
        if self.loop_length > 0 {
            self.write_cursor = (self.write_cursor + 1) % self.loop_length;
        } else {
            self.write_cursor = 0;
        }
    }

    /// Fixes the sync point for the block that begins: the start of the
    /// subdivision that the last block ended in.
    pub fn mark_sync_point(&mut self)
        requires
            old(self).wf(),
        ensures
            *final(self) == old(self).sync_marked(),
            final(self).wf(),
    {
        self.sync_point = self.subdivision * self.division_len;
    }

    /// Works out subdivision length and current subdivision at the end of a
    /// block. A division of 0, or subdivisions of no length, give 0.
    pub fn refresh_grid(&mut self)
        requires
            old(self).wf(),
        ensures
            *final(self) == old(self).grid_refreshed(),
            final(self).wf(),
    {
        let division_len: usize = if self.division > 0 {
            self.cycle_len / self.division
        } else {
            0
        };
        let subdivision: usize = if division_len > 0 {
            self.play_cursor / division_len
        } else {
            0
        };
        proof {
            if division_len > 0 {
                lemma_fundamental_div_mod(self.play_cursor as int, division_len as int);
                assert(subdivision * division_len == division_len * subdivision)
                    by (nonlinear_arith);
            } else {
                assert(subdivision * division_len == 0) by (nonlinear_arith)
                    requires
                        division_len == 0,
                ;
            }
        }
        self.division_len = division_len;
        self.subdivision = subdivision;
    }

    /// Whether `position` lies in the sync window of the current block.
    pub fn in_sync_window(&self, position: usize) -> (hit: bool)
        ensures
            hit == in_window(position as int, self.sync_point as int, self.sync_window as int),
    {
        position >= self.sync_point && position - self.sync_point < self.sync_window
    }

    /// Sets the sync window to [`SYNC_DELAY_MS`] worth of frames at
    /// `sample_rate` frames per second.
    pub fn set_sample_rate(&mut self, sample_rate: u32)
        ensures
            *final(self) == (TransportState {
                sync_window: window_for(sample_rate as int) as usize,
                ..*old(self)
            }),
            final(self).sync_window == sample_rate / 50,
            old(self).wf() ==> final(self).wf(),
    {
        let window: u32 = sample_rate / 50;
        assert(window == window_for(sample_rate as int)) by {
            assert(sample_rate as int * 20 / 1000 == sample_rate as int / 50) by (nonlinear_arith);
        }
        self.sync_window = window as usize;
    }
}

/// Where a cursor that starts inside the loop stands after any number of
/// frames: its start plus the frames, modulo the loop length.
pub proof fn lemma_cursor_after(cursor: int, loop_length: int, frames: nat)
    requires
        0 <= cursor < loop_length,
    ensures
        cursor_after(cursor, loop_length, frames) == (cursor + frames) % loop_length,
    decreases frames,
{
    if frames == 0 {
        lemma_small_mod(cursor as nat, loop_length as nat);
    } else {
        lemma_cursor_after(cursor, loop_length, (frames - 1) as nat);
        let before = cursor + frames - 1;
        lemma_add_mod_noop(before, 1, loop_length);
        if loop_length == 1 {
            assert((before % loop_length + 1) % loop_length == 0);
            assert((before + 1) % loop_length == 0);
        } else {
            lemma_small_mod(1, loop_length as nat);
        }
    }
}

/// Cursor wraparound: a cursor inside a loop is back where it started after
/// as many frames as the loop is long. A cursor that starts at 0 is back at 0.
pub proof fn lemma_cursor_wraps(cursor: int, loop_length: int)
    requires
        0 <= cursor < loop_length,
    ensures
        cursor_after(cursor, loop_length, loop_length as nat) == cursor,
        cursor_after(0, loop_length, loop_length as nat) == 0,
{
    lemma_cursor_after(cursor, loop_length, loop_length as nat);
    lemma_cursor_after(0, loop_length, loop_length as nat);
    lemma_mod_add_multiples_vanish(cursor, loop_length);
    lemma_mod_add_multiples_vanish(0, loop_length);
    lemma_small_mod(cursor as nat, loop_length as nat);
    lemma_small_mod(0, loop_length as nat);
}

} // verus!
