//! The looper's modes, the commands that move between them, and the
//! transition table.
//!
//! A transition is decided in two steps. [`decide`] is pure: from the mode, the
//! mode before it and a command it gives the next mode and names the one
//! change that the transport and the buffers need. [`looper_cycle`] carries
//! that change out on the engine's state and hands the next mode back.

use vstd::prelude::*;
use crate::engine::{layers_of, ELState};
use crate::looper::Looper;
use crate::recording_buffer::{silence, RecordingBuffer};

verus! {

/// What the player asks of the looper.
#[derive(Clone, Copy, PartialEq, Eq, Debug, Structural)]
pub enum Commands {
    Stop,
    Play,
    Record,
    Overdub,
    MultiplyStart,
    MultiplyStop,
    ReplaceStart,
    ReplaceStop,
    InsertStart,
    InsertStop,
    Mute,
}

/// A transition that waits for the next sync point.
#[derive(Clone, Copy, PartialEq, Eq, Debug, Structural)]
pub enum Pending {
    /// Replacing begins at the sync point.
    ReplaceEnter,
    /// Replacing ends at the sync point.
    ReplaceExit,
    /// Inserting begins at the sync point.
    InsertEnter,
    /// Inserting ends at the sync point.
    InsertExit,
}

/// A mode the looper can rest in: every mode but a pending sync.
#[derive(Clone, Copy, PartialEq, Eq, Debug, Structural)]
pub enum SteadyState {
    Stopped,
    Recording,
    Clearing,
    Overdubbing,
    Multiplying,
    Playing,
    Replacing,
    Inserting,
    Muted,
}

/// The looper's mode.
#[derive(Clone, Copy, PartialEq, Eq, Debug, Structural)]
pub enum LooperState {
    Stopped,
    Recording,
    Clearing,
    Overdubbing,
    Multiplying,
    Playing,
    Replacing,
    /// A transition waits for the sync point; the second field is the mode to
    /// go to when an exit fires, or to fall back to.
    SyncPending(Pending, SteadyState),
    Inserting,
    Muted,
}

/// The change to transport and buffers that comes with a transition.
#[derive(Clone, Copy, PartialEq, Eq, Debug, Structural)]
pub enum Effect {
    /// Nothing changes.
    Keep,
    /// The loop is cleared: fresh buffers, cursors and lengths at 0.
    Clear,
    /// The cycle length is frozen at the recorded length.
    FreezeCycle,
    /// The write cursor is brought to the play cursor.
    CueWrite,
    /// A silent layer as long as one cycle is added.
    NewLayer,
}

/// The colour that the display gives a mode's label.
#[derive(Clone, Copy, PartialEq, Eq, Debug, Structural)]
pub enum LabelColor {
    Red,
    Green,
    Black,
}

/// The outcome of one row of the transition table.
#[derive(Clone, Copy, PartialEq, Eq, Debug, Structural)]
pub struct Transition {
    /// The mode to go to.
    pub next: LooperState,
    /// What has to change with it.
    pub effect: Effect,
}

impl Commands {
    /// The command's name.
    pub open spec fn label_text(self) -> Seq<char> {
        match self {
            Commands::Stop => "Stop"@,
            Commands::Play => "Play"@,
            Commands::Record => "Record"@,
            Commands::Overdub => "Overdub"@,
            Commands::MultiplyStart => "MultiplyStart"@,
            Commands::MultiplyStop => "MultiplyStop"@,
            Commands::ReplaceStart => "ReplaceStart"@,
            Commands::ReplaceStop => "ReplaceStop"@,
            Commands::InsertStart => "InserstStart"@,
            Commands::InsertStop => "InsertStop"@,
            Commands::Mute => "Mute"@,
        }
    }

    /// The command's name, as it is logged.
    pub fn label(&self) -> (text: String)
        ensures
            text@ == self.label_text(),
    {
        match self {
            Commands::Stop => "Stop".to_owned(),
            Commands::Play => "Play".to_owned(),
            Commands::Record => "Record".to_owned(),
            Commands::Overdub => "Overdub".to_owned(),
            Commands::MultiplyStart => "MultiplyStart".to_owned(),
            Commands::MultiplyStop => "MultiplyStop".to_owned(),
            Commands::ReplaceStart => "ReplaceStart".to_owned(),
            Commands::ReplaceStop => "ReplaceStop".to_owned(),
            Commands::InsertStart => "InserstStart".to_owned(),
            Commands::InsertStop => "InsertStop".to_owned(),
            Commands::Mute => "Mute".to_owned(),
        }
    }
}

impl Pending {
    /// Whether this is the wait to begin an edit, not to end one.
    pub open spec fn is_entry(self) -> bool {
        self is ReplaceEnter || self is InsertEnter
    }

    /// The command that this wait stands for.
    pub open spec fn command_of(self) -> Commands {
        match self {
            Pending::ReplaceEnter => Commands::ReplaceStart,
            Pending::ReplaceExit => Commands::ReplaceStop,
            Pending::InsertEnter => Commands::InsertStart,
            Pending::InsertExit => Commands::InsertStop,
        }
    }

    /// The command that this wait stands for.
    pub fn command(&self) -> (c: Commands)
        ensures
            c == self.command_of(),
    {
        match self {
            Pending::ReplaceEnter => Commands::ReplaceStart,
            Pending::ReplaceExit => Commands::ReplaceStop,
            Pending::InsertEnter => Commands::InsertStart,
            Pending::InsertExit => Commands::InsertStop,
        }
    }
}

impl SteadyState {
    /// This mode as a looper mode.
    pub open spec fn as_state(self) -> LooperState {
        match self {
            SteadyState::Stopped => LooperState::Stopped,
            SteadyState::Recording => LooperState::Recording,
            SteadyState::Clearing => LooperState::Clearing,
            SteadyState::Overdubbing => LooperState::Overdubbing,
            SteadyState::Multiplying => LooperState::Multiplying,
            SteadyState::Playing => LooperState::Playing,
            SteadyState::Replacing => LooperState::Replacing,
            SteadyState::Inserting => LooperState::Inserting,
            SteadyState::Muted => LooperState::Muted,
        }
    }

    /// This mode as a looper mode.
    pub fn to_state(&self) -> (state: LooperState)
        ensures
            state == self.as_state(),
    {
        match self {
            SteadyState::Stopped => LooperState::Stopped,
            SteadyState::Recording => LooperState::Recording,
            SteadyState::Clearing => LooperState::Clearing,
            SteadyState::Overdubbing => LooperState::Overdubbing,
            SteadyState::Multiplying => LooperState::Multiplying,
            SteadyState::Playing => LooperState::Playing,
            SteadyState::Replacing => LooperState::Replacing,
            SteadyState::Inserting => LooperState::Inserting,
            SteadyState::Muted => LooperState::Muted,
        }
    }
}

impl LooperState {
    /// This mode as a steady mode; a pending sync is none.
    pub open spec fn steady_of(self) -> Option<SteadyState> {
        match self {
            LooperState::Stopped => Some(SteadyState::Stopped),
            LooperState::Recording => Some(SteadyState::Recording),
            LooperState::Clearing => Some(SteadyState::Clearing),
            LooperState::Overdubbing => Some(SteadyState::Overdubbing),
            LooperState::Multiplying => Some(SteadyState::Multiplying),
            LooperState::Playing => Some(SteadyState::Playing),
            LooperState::Replacing => Some(SteadyState::Replacing),
            LooperState::SyncPending(_, _) => None,
            LooperState::Inserting => Some(SteadyState::Inserting),
            LooperState::Muted => Some(SteadyState::Muted),
        }
    }

    /// This mode as a steady mode; a pending sync is none.
    pub fn steady(&self) -> (mode: Option<SteadyState>)
        ensures
            mode == self.steady_of(),
    {
        match self {
            LooperState::Stopped => Some(SteadyState::Stopped),
            LooperState::Recording => Some(SteadyState::Recording),
            LooperState::Clearing => Some(SteadyState::Clearing),
            LooperState::Overdubbing => Some(SteadyState::Overdubbing),
            LooperState::Multiplying => Some(SteadyState::Multiplying),
            LooperState::Playing => Some(SteadyState::Playing),
            LooperState::Replacing => Some(SteadyState::Replacing),
            LooperState::SyncPending(_, _) => None,
            LooperState::Inserting => Some(SteadyState::Inserting),
            LooperState::Muted => Some(SteadyState::Muted),
        }
    }

    /// The mode's name as the display shows it.
    pub open spec fn label_text(self) -> Seq<char> {
        match self {
            LooperState::Stopped => "Stopped"@,
            LooperState::Recording => "Recording"@,
            LooperState::Playing => "Playing"@,
            LooperState::Overdubbing => "Overdubbing"@,
            LooperState::Multiplying => "Multiplying"@,
            LooperState::Clearing => "Clearing"@,
            LooperState::Replacing => "Replacing"@,
            LooperState::SyncPending(pending, _) => if pending.is_entry() {
                "Sync Start"@
            } else {
                "Sync Stop"@
            },
            LooperState::Inserting => "Inserting"@,
            LooperState::Muted => "Muted"@,
        }
    }

    /// The mode's name as the display shows it.
    pub fn label(&self) -> (text: String)
        ensures
            text@ == self.label_text(),
    {
        match self {
            LooperState::Stopped => "Stopped".to_owned(),
            LooperState::Recording => "Recording".to_owned(),
            LooperState::Playing => "Playing".to_owned(),
            LooperState::Overdubbing => "Overdubbing".to_owned(),
            LooperState::Multiplying => "Multiplying".to_owned(),
            LooperState::Clearing => "Clearing".to_owned(),
            LooperState::Replacing => "Replacing".to_owned(),
            LooperState::SyncPending(Pending::ReplaceEnter, _) => "Sync Start".to_owned(),
            LooperState::SyncPending(Pending::InsertEnter, _) => "Sync Start".to_owned(),
            LooperState::SyncPending(Pending::ReplaceExit, _) => "Sync Stop".to_owned(),
            LooperState::SyncPending(Pending::InsertExit, _) => "Sync Stop".to_owned(),
            LooperState::Inserting => "Inserting".to_owned(),
            LooperState::Muted => "Muted".to_owned(),
        }
    }

    /// The colour for this mode's label: red while the loop is recorded into,
    /// green while it plays, black while it is silent. The other modes leave
    /// the label's colour as it is.
    pub open spec fn color_of(self) -> Option<LabelColor> {
        match self {
            LooperState::Recording => Some(LabelColor::Red),
            LooperState::Overdubbing => Some(LabelColor::Red),
            LooperState::Replacing => Some(LabelColor::Red),
            LooperState::Playing => Some(LabelColor::Green),
            LooperState::Stopped => Some(LabelColor::Black),
            LooperState::Muted => Some(LabelColor::Black),
            _ => None,
        }
    }

    /// The colour for this mode's label, if the mode sets one.
    pub fn label_color(&self) -> (color: Option<LabelColor>)
        ensures
            color == self.color_of(),
    {
        match self {
            LooperState::Recording | LooperState::Overdubbing | LooperState::Replacing => Some(
                LabelColor::Red,
            ),
            LooperState::Playing => Some(LabelColor::Green),
            LooperState::Stopped | LooperState::Muted => Some(LabelColor::Black),
            _ => None,
        }
    }

    /// Whether the loop is edited in this mode, so that the write cursor
    /// moves with every frame.
    pub open spec fn writes(self) -> bool {
        match self {
            LooperState::Recording => true,
            LooperState::Inserting => true,
            LooperState::Overdubbing => true,
            LooperState::Replacing => true,
            LooperState::SyncPending(_, _) => true,
            _ => false,
        }
    }

    /// Whether playback is silent in this mode.
    pub open spec fn silent(self) -> bool {
        self is Muted || self is Stopped
    }
}

impl Default for LooperState {
    fn default() -> (state: LooperState)
        ensures
            state == LooperState::Stopped,
    {
        LooperState::Stopped
    }
}

/// The rows of the transition table: whether `command` is listed for `state`.
/// Every command is listed for `Clearing`, none for a pending sync.
pub open spec fn listed(state: LooperState, command: Commands) -> bool {
    match state {
        LooperState::Stopped => command is Play || command is Record,
        LooperState::Clearing => true,
        LooperState::Recording => command is Stop || command is Play || command is Record
            || command is Overdub || command is Mute,
        LooperState::Playing => command is Record || command is Overdub || command is ReplaceStart
            || command is InsertStart || command is MultiplyStart || command is Mute,
        LooperState::Overdubbing => command is Play || command is Overdub || command is Stop
            || command is Mute,
        LooperState::Replacing => command is ReplaceStop || command is Stop,
        LooperState::Inserting => command is InsertStop,
        LooperState::Multiplying => command is MultiplyStop,
        LooperState::Muted => command is Mute,
        LooperState::SyncPending(_, _) => false,
    }
}

/// The transition table. `previous` is the mode that the looper was in before
/// the last command that changed its mode.
pub open spec fn transition(state: LooperState, previous: SteadyState, command: Commands)
    -> Transition {
    match (state, command) {
        (LooperState::Stopped, Commands::Play) => Transition {
            next: LooperState::Playing,
            effect: Effect::Keep,
        },
        (LooperState::Stopped, Commands::Record) => Transition {
            next: LooperState::Clearing,
            effect: Effect::Clear,
        },
        (LooperState::Clearing, _) => Transition {
            next: LooperState::Recording,
            effect: Effect::Keep,
        },
        (LooperState::Recording, Commands::Stop) => Transition {
            next: LooperState::Stopped,
            effect: Effect::FreezeCycle,
        },
        (LooperState::Recording, Commands::Play) => Transition {
            next: LooperState::Playing,
            effect: Effect::FreezeCycle,
        },
        (LooperState::Recording, Commands::Record) => Transition {
            next: LooperState::Playing,
            effect: Effect::FreezeCycle,
        },
        (LooperState::Recording, Commands::Overdub) => Transition {
            next: LooperState::Overdubbing,
            effect: Effect::CueWrite,
        },
        (LooperState::Recording, Commands::Mute) => Transition {
            next: LooperState::Muted,
            effect: Effect::Keep,
        },
        (LooperState::Playing, Commands::Record) => Transition {
            next: LooperState::Clearing,
            effect: Effect::Clear,
        },
        (LooperState::Playing, Commands::Overdub) => Transition {
            next: LooperState::Overdubbing,
            effect: Effect::CueWrite,
        },
        (LooperState::Playing, Commands::ReplaceStart) => Transition {
            next: LooperState::SyncPending(Pending::ReplaceEnter, SteadyState::Playing),
            effect: Effect::CueWrite,
        },
        (LooperState::Playing, Commands::InsertStart) => Transition {
            next: LooperState::SyncPending(Pending::InsertEnter, SteadyState::Playing),
            effect: Effect::CueWrite,
        },
        (LooperState::Playing, Commands::MultiplyStart) => Transition {
            next: LooperState::Multiplying,
            effect: Effect::NewLayer,
        },
        (LooperState::Playing, Commands::Mute) => Transition {
            next: LooperState::Muted,
            effect: Effect::Keep,
        },
        (LooperState::Overdubbing, Commands::Play) => Transition {
            next: LooperState::Playing,
            effect: Effect::Keep,
        },
        (LooperState::Overdubbing, Commands::Overdub) => Transition {
            next: LooperState::Playing,
            effect: Effect::Keep,
        },
        (LooperState::Overdubbing, Commands::Stop) => Transition {
            next: LooperState::Stopped,
            effect: Effect::Keep,
        },
        (LooperState::Overdubbing, Commands::Mute) => Transition {
            next: LooperState::Muted,
            effect: Effect::Keep,
        },
        (LooperState::Replacing, Commands::ReplaceStop) => Transition {
            next: LooperState::SyncPending(Pending::ReplaceExit, previous),
            effect: Effect::Keep,
        },
        (LooperState::Replacing, Commands::Stop) => Transition {
            next: LooperState::Stopped,
            effect: Effect::Keep,
        },
        (LooperState::Inserting, Commands::InsertStop) => Transition {
            next: LooperState::SyncPending(Pending::InsertExit, previous),
            effect: Effect::Keep,
        },
        (LooperState::Multiplying, Commands::MultiplyStop) => Transition {
            next: previous.as_state(),
            effect: Effect::Keep,
        },
        (LooperState::Muted, Commands::Mute) => Transition {
            next: LooperState::Playing,
            effect: Effect::Keep,
        },
        _ => Transition { next: state, effect: Effect::Keep },
    }
}

/// Looks a command up in the transition table.
pub fn decide(state: LooperState, previous: SteadyState, command: Commands) -> (t: Transition)
    ensures
        t == transition(state, previous, command),
{
    let stay = Transition { next: state, effect: Effect::Keep };
    match state {
        LooperState::Stopped => match command {
            Commands::Play => Transition { next: LooperState::Playing, effect: Effect::Keep },
            Commands::Record => Transition { next: LooperState::Clearing, effect: Effect::Clear },
            _ => stay,
        },
        LooperState::Clearing => Transition { next: LooperState::Recording, effect: Effect::Keep },
        LooperState::Recording => match command {
            Commands::Stop => Transition {
                next: LooperState::Stopped,
                effect: Effect::FreezeCycle,
            },
            Commands::Play => Transition {
                next: LooperState::Playing,
                effect: Effect::FreezeCycle,
            },
            Commands::Record => Transition {
                next: LooperState::Playing,
                effect: Effect::FreezeCycle,
            },
            Commands::Overdub => Transition {
                next: LooperState::Overdubbing,
                effect: Effect::CueWrite,
            },
            Commands::Mute => Transition { next: LooperState::Muted, effect: Effect::Keep },
            _ => stay,
        },
        LooperState::Playing => match command {
            Commands::Record => Transition { next: LooperState::Clearing, effect: Effect::Clear },
            Commands::Overdub => Transition {
                next: LooperState::Overdubbing,
                effect: Effect::CueWrite,
            },
            Commands::ReplaceStart => Transition {
                next: LooperState::SyncPending(Pending::ReplaceEnter, SteadyState::Playing),
                effect: Effect::CueWrite,
            },
            Commands::InsertStart => Transition {
                next: LooperState::SyncPending(Pending::InsertEnter, SteadyState::Playing),
                effect: Effect::CueWrite,
            },
            Commands::MultiplyStart => Transition {
                next: LooperState::Multiplying,
                effect: Effect::NewLayer,
            },
            Commands::Mute => Transition { next: LooperState::Muted, effect: Effect::Keep },
            _ => stay,
        },
        LooperState::Overdubbing => match command {
            Commands::Play => Transition { next: LooperState::Playing, effect: Effect::Keep },
            Commands::Overdub => Transition { next: LooperState::Playing, effect: Effect::Keep },
            Commands::Stop => Transition { next: LooperState::Stopped, effect: Effect::Keep },
            Commands::Mute => Transition { next: LooperState::Muted, effect: Effect::Keep },
            _ => stay,
        },
        LooperState::Replacing => match command {
            Commands::ReplaceStop => Transition {
                next: LooperState::SyncPending(Pending::ReplaceExit, previous),
                effect: Effect::Keep,
            },
            Commands::Stop => Transition { next: LooperState::Stopped, effect: Effect::Keep },
            _ => stay,
        },
        LooperState::Inserting => match command {
            Commands::InsertStop => Transition {
                next: LooperState::SyncPending(Pending::InsertExit, previous),
                effect: Effect::Keep,
            },
            _ => stay,
        },
        LooperState::Multiplying => match command {
            Commands::MultiplyStop => Transition { next: previous.to_state(), effect: Effect::Keep },
            _ => stay,
        },
        LooperState::Muted => match command {
            Commands::Mute => Transition { next: LooperState::Playing, effect: Effect::Keep },
            _ => stay,
        },
        LooperState::SyncPending(_, _) => stay,
    }
}


/// Carries out on `plugin_state` what the transition table asks for when
/// `command` arrives, and returns the mode that the table gives. The mode
/// held in `plugin_state` is left for the caller to set.
pub fn looper_cycle(plugin_state: &mut ELState, command: Commands) -> (next: LooperState)
    requires
        old(plugin_state).wf(),
    ensures
        next == transition(old(plugin_state).state, old(plugin_state).prev_state, command).next,
        final(plugin_state)@ == old(plugin_state)@.effected(
            transition(old(plugin_state).state, old(plugin_state).prev_state, command).effect,
        ),
        final(plugin_state).wf(),
{
    let chosen = decide(plugin_state.state, plugin_state.prev_state, command);
    match chosen.effect {
        Effect::Keep => {},
        Effect::Clear => {
            clearing_start(plugin_state);
        },
        Effect::FreezeCycle => {
            plugin_state.transport.freeze_cycle();
        },
        Effect::CueWrite => {
            plugin_state.transport.cue_write();
        },
        Effect::NewLayer => {
            multiply_start(plugin_state);
        },
    }
    chosen.next
}

/// Clears the loop: a fresh active buffer, fresh layers, cursors and lengths
/// at 0.
fn clearing_start(plugin_state: &mut ELState)
    requires
        old(plugin_state).wf(),
    ensures
        final(plugin_state)@ == old(plugin_state)@.effected(Effect::Clear),
        final(plugin_state).wf(),
{
    plugin_state.buffers = ELState::clear_buffers();
    plugin_state.buffer = RecordingBuffer::new();
    plugin_state.transport.clear();
}

/// Adds a silent layer as long as one cycle.
fn multiply_start(plugin_state: &mut ELState)
    requires
        old(plugin_state).wf(),
    ensures
        final(plugin_state)@ == old(plugin_state)@.effected(Effect::NewLayer),
        final(plugin_state).wf(),
{
    let new_buffer = RecordingBuffer::with_size(plugin_state.transport.cycle_len);
    plugin_state.buffers.push(new_buffer);
    assert(layers_of(plugin_state.buffers@) =~= layers_of(old(plugin_state).buffers@).push(
        silence(old(plugin_state).transport.cycle_len as nat),
    ));
}

/// A command that the table does not list for a mode changes nothing: the
/// mode stays, and so do transport, buffers and the previous mode.
pub proof fn lemma_unlisted_command_changes_nothing(looper: Looper, command: Commands)
    requires
        !listed(looper.state, command),
    ensures
        transition(looper.state, looper.prev_state, command) == (Transition {
            next: looper.state,
            effect: Effect::Keep,
        }),
        looper.after_command(command) == looper,
{
}

} // verus!
