//! The playback state machine. It owns the selected track and decides what
//! the audio engine is told; the engine itself runs outside the library and
//! carries out the commands in order.

use vstd::prelude::*;
use crate::model::Episode;
use crate::text::{clock_text, fmt_time};

verus! {

/// Where playback stands: nothing loaded, a track opened but not started,
/// playing, or paused.
#[derive(PartialEq, Eq, Structural, Clone, Copy, Debug)]
pub enum PlaybackState {
    Idle,
    Loaded,
    Playing,
    Paused,
}

/// An instruction to the audio engine.
#[derive(PartialEq, Eq, Debug)]
pub enum EngineCommand {
    /// Stop the current session and release its resources.
    Stop,
    /// Open the audio file at `path` as the new session, not yet playing.
    Open { path: String },
    /// Start or resume output.
    Play,
    /// Pause output.
    Pause,
    /// Move to `position_ms` milliseconds from the start.
    SeekTo { position_ms: u64 },
    /// Set the output volume, in percent.
    SetVolume { percent: u8 },
}

impl Clone for EngineCommand {
    fn clone(&self) -> (r: Self)
        ensures
            r == *self,
    {
        match self {
            EngineCommand::Stop => EngineCommand::Stop,
            EngineCommand::Open { path } => EngineCommand::Open { path: path.clone() },
            EngineCommand::Play => EngineCommand::Play,
            EngineCommand::Pause => EngineCommand::Pause,
            EngineCommand::SeekTo { position_ms } => EngineCommand::SeekTo { position_ms: *position_ms },
            EngineCommand::SetVolume { percent } => EngineCommand::SetVolume { percent: *percent },
        }
    }
}

/// The volume a newly opened session plays at.
pub const DEFAULT_VOLUME: u8 = 50;

/// The volume after turning it up.
pub const FULL_VOLUME: u8 = 100;

/// How far the jump keys move, in milliseconds.
pub const JUMP_MS: u64 = 10000;

/// The playback controller: the selected track and the state of its session.
#[derive(PartialEq, Eq, Debug)]
pub struct Player {
    pub selected_track: Option<Episode>,
    pub state: PlaybackState,
}

/// Engine sessions alive after the engine runs `cmds`, starting with `live`:
/// opening adds one, stopping releases the current one.
pub open spec fn sessions_after(live: nat, cmds: Seq<EngineCommand>) -> nat
    decreases cmds.len(),
{
    if cmds.len() == 0 {
        live
    } else {
        let before = sessions_after(live, cmds.drop_last());
        match cmds.last() {
            EngineCommand::Open { .. } => before + 1,
            EngineCommand::Stop => 0,
            _ => before,
        }
    }
}

/// Sessions alive in a state.
pub open spec fn live_sessions(state: PlaybackState) -> nat {
    if state == PlaybackState::Idle { 0 } else { 1 }
}

/// The commands that loading `episode` gives in `state`: the current session
/// stopped first, if there is one, then the episode's file opened at the
/// default volume, if it has one.
pub open spec fn load_commands(state: PlaybackState, episode: Episode) -> Seq<EngineCommand> {
    let stop = if state != PlaybackState::Idle { seq![EngineCommand::Stop] } else { Seq::empty() };
    match episode.audio_filepath {
        Some(p) => stop + seq![EngineCommand::Open { path: p }, EngineCommand::SetVolume { percent: DEFAULT_VOLUME }],
        None => stop,
    }
}

/// The state after loading `episode`.
pub open spec fn load_state(episode: Episode) -> PlaybackState {
    if episode.audio_filepath is Some { PlaybackState::Loaded } else { PlaybackState::Idle }
}

/// The furthest position in `track`, in milliseconds, when its duration is
/// known.
pub open spec fn end_ms(track: Option<Episode>) -> Option<u64> {
    match track {
        Some(t) => match t.duration {
            Some(d) => if d >= 0 { Some((d * 1000) as u64) } else { Some(0u64) },
            None => None,
        },
        None => None,
    }
}

/// `position_ms` clamped to the track: no later than its end when that is
/// known.
pub open spec fn clamp_to(position_ms: u64, end: Option<u64>) -> u64 {
    match end {
        Some(e) => if position_ms > e { e } else { position_ms },
        None => position_ms,
    }
}

/// The progress line: the position and the duration as clock times.
pub open spec fn progress_text(position_ms: u64, track: Option<Episode>) -> Seq<char> {
    let dur: nat = match track {
        Some(t) => match t.duration {
            Some(d) => if d >= 0 { d as nat } else { 0 },
            None => 0,
        },
        None => 0,
    };
    clock_text((position_ms / 1000) as nat) + seq![' ', '/', ' '] + clock_text(dur)
}

impl Player {
    /// The controller and commands after loading `episode`.
    pub open spec fn loading(self, episode: Episode) -> (Player, Seq<EngineCommand>) {
        (
            Player {
                selected_track: if episode.audio_filepath is Some { Some(episode) } else { None },
                state: load_state(episode),
            },
            load_commands(self.state, episode),
        )
    }

    /// The controller and commands after starting output: a loaded or
    /// paused session plays, anything else is left as it is.
    pub open spec fn playing(self) -> (Player, Seq<EngineCommand>) {
        if self.state == PlaybackState::Loaded || self.state == PlaybackState::Paused {
            (Player { state: PlaybackState::Playing, ..self }, seq![EngineCommand::Play])
        } else {
            (self, Seq::empty())
        }
    }

    /// The controller and commands after toggling: playing pauses, loaded or
    /// paused plays, idle stays idle.
    pub open spec fn toggled(self) -> (Player, Seq<EngineCommand>) {
        if self.state == PlaybackState::Playing {
            (Player { state: PlaybackState::Paused, ..self }, seq![EngineCommand::Pause])
        } else {
            self.playing()
        }
    }

    /// The commands for seeking to `position_ms`: clamped to the track, and
    /// none when idle.
    pub open spec fn seek_commands(self, position_ms: u64) -> Seq<EngineCommand> {
        if self.state == PlaybackState::Idle {
            Seq::empty()
        } else {
            seq![EngineCommand::SeekTo { position_ms: clamp_to(position_ms, end_ms(self.selected_track)) }]
        }
    }

    /// A session is alive exactly when a track is selected, and a selected
    /// track has an audio file.
    pub open spec fn wf(&self) -> bool {
        &&& (self.state == PlaybackState::Idle) <==> (self.selected_track is None)
        &&& self.selected_track matches Some(t) ==> t.audio_filepath is Some
    }

    /// A controller with nothing loaded.
    pub fn new() -> (r: Player)
        ensures
            r.state == PlaybackState::Idle,
            r.selected_track is None,
            r.wf(),
    {
        Player { selected_track: None, state: PlaybackState::Idle }
    }

    /// The playback state.
    pub fn get_playback_state(&self) -> (r: PlaybackState)
        ensures
            r == self.state,
    {
        self.state
    }

    /// Loads `episode`: tears down the current session, if any, then opens
    /// the episode's audio file. An episode without a file leaves the
    /// controller idle.
    pub fn load(&mut self, episode: Episode) -> (r: Vec<EngineCommand>)
        ensures
            (*final(self), r@) == old(self).loading(episode),
            final(self).wf(),
    {
        let mut cmds: Vec<EngineCommand> = Vec::new();
        if self.state != PlaybackState::Idle {
            cmds.push(EngineCommand::Stop);
        }
        match &episode.audio_filepath {
            Some(p) => {
                cmds.push(EngineCommand::Open { path: p.clone() });
                cmds.push(EngineCommand::SetVolume { percent: DEFAULT_VOLUME });
                self.state = PlaybackState::Loaded;
                self.selected_track = Some(episode);
            },
            None => {
                self.state = PlaybackState::Idle;
                self.selected_track = None;
            },
        }
        assert(cmds@ =~= load_commands(old(self).state, episode));
        cmds
    }

    /// Records that the engine could not open the loaded file: the
    /// controller goes back to idle.
    pub fn open_failed(&mut self)
        ensures
            final(self).state == PlaybackState::Idle,
            final(self).selected_track is None,
            final(self).wf(),
    {
        self.state = PlaybackState::Idle;
        self.selected_track = None;
    }

    /// Starts output of a loaded or paused session.
    pub fn play(&mut self) -> (r: Vec<EngineCommand>)
        ensures
            (*final(self), r@) == old(self).playing(),
            old(self).wf() ==> final(self).wf(),
    {
        let mut cmds: Vec<EngineCommand> = Vec::new();
        if self.state == PlaybackState::Loaded || self.state == PlaybackState::Paused {
            cmds.push(EngineCommand::Play);
            self.state = PlaybackState::Playing;
        }
        cmds
    }

    /// Pauses a playing session, or starts a loaded or paused one; does
    /// nothing when idle.
    pub fn toggle_playback(&mut self) -> (r: Vec<EngineCommand>)
        ensures
            (*final(self), r@) == old(self).toggled(),
            old(self).wf() ==> final(self).wf(),
    {
        let mut cmds: Vec<EngineCommand> = Vec::new();
        match self.state {
            PlaybackState::Playing => {
                cmds.push(EngineCommand::Pause);
                self.state = PlaybackState::Paused;
            },
            PlaybackState::Loaded | PlaybackState::Paused => {
                cmds.push(EngineCommand::Play);
                self.state = PlaybackState::Playing;
            },
            PlaybackState::Idle => {},
        }
        cmds
    }

    /// The listening position to save: the engine's position while a session
    /// is alive, zero otherwise.
    pub fn get_current_timestamp(&self, engine_position_ms: u64) -> (r: u64)
        ensures
            r == (if self.state == PlaybackState::Idle { 0 } else { engine_position_ms }),
    {
        if self.state == PlaybackState::Idle {
            0
        } else {
            engine_position_ms
        }
    }

    fn end_of_track(&self) -> (r: Option<u64>)
        ensures
            r == end_ms(self.selected_track),
    {
        match &self.selected_track {
            Some(t) => match t.duration {
                Some(d) => if d >= 0 { Some(d as u64 * 1000) } else { Some(0) },
                None => None,
            },
            None => None,
        }
    }

    /// Moves to `position_ms`, clamped to the track, while a session is
    /// alive.
    pub fn seek(&mut self, position_ms: u64) -> (r: Vec<EngineCommand>)
        ensures
            *final(self) == *old(self),
            r@ == old(self).seek_commands(position_ms),
    {
        let mut cmds: Vec<EngineCommand> = Vec::new();
        if self.state != PlaybackState::Idle {
            let target = match self.end_of_track() {
                Some(e) => if position_ms > e { e } else { position_ms },
                None => position_ms,
            };
            cmds.push(EngineCommand::SeekTo { position_ms: target });
        }
        cmds
    }

    /// Jumps ahead from the engine's position `position_ms`.
    pub fn jump_forward_10s(&mut self, position_ms: u64) -> (r: Vec<EngineCommand>)
        ensures
            *final(self) == *old(self),
            r@ == old(self).seek_commands(
                if position_ms + JUMP_MS <= u64::MAX { (position_ms + JUMP_MS) as u64 } else { u64::MAX },
            ),
    {
        let target = if position_ms <= u64::MAX - JUMP_MS { position_ms + JUMP_MS } else { u64::MAX };
        self.seek(target)
    }

    /// Jumps back from the engine's position `position_ms`, no further than
    /// the start.
    pub fn jump_backward_10s(&mut self, position_ms: u64) -> (r: Vec<EngineCommand>)
        ensures
            *final(self) == *old(self),
            r@ == old(self).seek_commands(
                if position_ms >= JUMP_MS { (position_ms - JUMP_MS) as u64 } else { 0 },
            ),
    {
        let target = if position_ms >= JUMP_MS { position_ms - JUMP_MS } else { 0 };
        self.seek(target)
    }

    fn volume(&self, percent: u8) -> (r: Vec<EngineCommand>)
        ensures
            self.state == PlaybackState::Idle ==> r@.len() == 0,
            self.state != PlaybackState::Idle ==> r@ == seq![EngineCommand::SetVolume { percent }],
    {
        let mut cmds: Vec<EngineCommand> = Vec::new();
        if self.state != PlaybackState::Idle {
            cmds.push(EngineCommand::SetVolume { percent });
        }
        cmds
    }

    /// Turns the volume up to full while a session is alive.
    pub fn increase_volume(&mut self) -> (r: Vec<EngineCommand>)
        ensures
            *final(self) == *old(self),
            old(self).state == PlaybackState::Idle ==> r@.len() == 0,
            old(self).state != PlaybackState::Idle ==> r@ == seq![EngineCommand::SetVolume { percent: FULL_VOLUME }],
    {
        self.volume(FULL_VOLUME)
    }

    /// Turns the volume back down to the default while a session is alive.
    pub fn decrease_volume(&mut self) -> (r: Vec<EngineCommand>)
        ensures
            *final(self) == *old(self),
            old(self).state == PlaybackState::Idle ==> r@.len() == 0,
            old(self).state != PlaybackState::Idle ==> r@ == seq![EngineCommand::SetVolume { percent: DEFAULT_VOLUME }],
    {
        self.volume(DEFAULT_VOLUME)
    }

    /// The progress line `H:MM:SS / H:MM:SS` for the engine's position
    /// `position_ms`, or empty text when nothing is loaded.
    pub fn get_progress(&self, position_ms: u64) -> (r: String)
        ensures
            self.state == PlaybackState::Idle ==> r@.len() == 0,
            self.state != PlaybackState::Idle ==> r@ == progress_text(position_ms, self.selected_track),
    {
        if self.state == PlaybackState::Idle {
            return String::new();
        }
        let dur: u64 = match &self.selected_track {
            Some(t) => match t.duration {
                Some(d) => if d >= 0 { d as u64 } else { 0 },
                None => 0,
            },
            None => 0,
        };
        let mut s = fmt_time(position_ms / 1000);
        s.push(' ');
        s.push('/');
        s.push(' ');
        let tail = fmt_time(dur);
        let mut i: usize = 0;
        let n = tail.as_str().unicode_len();
        let ghost head = s@;
        while i < n
            invariant
                n == tail@.len(),
                i <= n,
                s@ == head + tail@.take(i as int),
            decreases n - i,
        {
            let c = tail.as_str().get_char(i);
            s.push(c);
            assert(tail@.take(i + 1) =~= tail@.take(i as int).push(c));
            i += 1;
        }
        assert(tail@.take(n as int) =~= tail@);
        assert(s@ =~= progress_text(position_ms, self.selected_track));
        s
    }
}

/// Loading a track while another plays leaves exactly one engine session:
/// the old one is released before the new one is opened, so at no point
/// are two alive.
pub proof fn lemma_load_single_session(state: PlaybackState, episode: Episode)
    ensures
        ({
            let cmds = load_commands(state, episode);
            &&& forall|k: int| 0 <= k <= cmds.len() ==> sessions_after(live_sessions(state), #[trigger] cmds.take(k)) <= 1
            &&& sessions_after(live_sessions(state), cmds) == live_sessions(load_state(episode))
        }),
{
    let cmds = load_commands(state, episode);
    let live = live_sessions(state);
    let n = cmds.len() as int;
    assert(cmds.take(0).len() == 0);
    assert(sessions_after(live, cmds.take(0)) == live);
    assert(n <= 3);
    assert forall|j: int| 1 <= j <= n implies {
        &&& (#[trigger] cmds.take(j)).drop_last() =~= cmds.take(j - 1)
        &&& cmds.take(j).last() == cmds[j - 1]
    } by {}
    if state != PlaybackState::Idle {
        assert(cmds[0] == EngineCommand::Stop);
        assert(sessions_after(live, cmds.take(1)) == 0);
        if n == 3 {
            assert(cmds[1] is Open);
            assert(sessions_after(live, cmds.take(2)) == 1);
            assert(sessions_after(live, cmds.take(3)) == 1);
        }
    } else if n == 2 {
        assert(cmds[0] is Open);
        assert(sessions_after(live, cmds.take(1)) == 1);
        assert(sessions_after(live, cmds.take(2)) == 1);
    }
    assert forall|k: int| 0 <= k <= cmds.len() implies sessions_after(live, #[trigger] cmds.take(k)) <= 1 by {
        assert(k == 0 || k == 1 || k == 2 || k == 3);
    }
    assert(cmds.take(n) =~= cmds);
}

/// Commands that neither open nor stop a session leave the count of live
/// sessions as it was, at every point.
pub proof fn lemma_quiet_commands(live: nat, a: Seq<EngineCommand>, b: Seq<EngineCommand>)
    requires
        forall|i: int| 0 <= i < b.len() ==> !(#[trigger] b[i] is Open) && !(b[i] is Stop),
    ensures
        forall|k: int| a.len() <= k <= a.len() + b.len() ==> sessions_after(live, #[trigger] (a + b).take(k)) == sessions_after(live, a),
    decreases b.len(),
{
    if b.len() > 0 {
        lemma_quiet_commands(live, a, b.drop_last());
        assert forall|k: int| a.len() <= k <= a.len() + b.len() implies sessions_after(live, #[trigger] (a + b).take(k)) == sessions_after(live, a) by {
            if k == a.len() + b.len() {
                let ab = a + b;
                assert(ab.take(k).drop_last() =~= (a + b.drop_last()).take(k - 1));
                assert(ab.take(k).last() == b[b.len() - 1]);
            } else {
                assert((a + b).take(k) =~= (a + b.drop_last()).take(k));
            }
        }
    } else {
        assert((a + b).take(a.len() as int) =~= a);
    }
}

} // verus!
