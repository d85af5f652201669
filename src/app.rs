//! The shared application state: what the renderer reads, and the
//! transitions the control loop and the background worker make on it while
//! holding its lock. Work that waits on the network is handed to the worker
//! as an `IoEvent`; what the store and the audio engine are to do comes back
//! as a list of `Effect`s, to be carried out in order.

use vstd::prelude::*;
use std::sync::mpsc::Sender;
use crate::list::{ListView, StatefulList, next_index, previous_index, selected_of};
use crate::model::{Episode, Pod};
use crate::player::{EngineCommand, JUMP_MS, PlaybackState, Player, lemma_load_single_session, lemma_quiet_commands, live_sessions, load_commands, sessions_after};

verus! {

#[verifier::external_type_specification]
#[verifier::external_body]
#[verifier::reject_recursive_types(T)]
pub struct ExSender<T>(Sender<T>);

/// Which view is shown: the pods, or the episodes of the active pod.
#[derive(PartialEq, Eq, Structural, Clone, Copy, Debug)]
pub enum NavigationStack {
    Main,
    Episodes,
}

/// What keys do: navigate, edit the new-pod form, or close the help.
#[derive(PartialEq, Eq, Structural, Clone, Copy, Debug)]
pub enum InputMode {
    Normal,
    Editing,
    Help,
}

/// The field of the new-pod form that typing goes to.
#[derive(PartialEq, Eq, Structural, Clone, Copy, Debug)]
pub enum InputField {
    Name,
    Url,
}

/// A failure to show in the status line.
#[derive(PartialEq, Eq, Structural, Clone, Copy, Debug)]
pub enum Failure {
    /// A command could not be handed to the worker: it is gone.
    WorkerGone,
    /// The worker's network, parse or file work failed.
    CommandFailed,
    /// The store could not be read or written.
    StoreFailed,
    /// The audio engine could not open or play a file.
    PlaybackFailed,
}

/// A command for the background worker.
#[derive(PartialEq, Eq, Debug)]
pub enum IoEvent {
    /// Fetch a pod's feed for the first time.
    FetchEpisodes(Pod),
    /// Fetch a pod's feed again, for episodes not yet stored.
    RefreshPod(Pod),
    /// Download an episode's audio, then play it.
    DownloadAudio(Episode),
}

/// Work for the store or the audio engine, produced by a transition.
#[derive(PartialEq, Eq, Debug)]
pub enum Effect {
    /// Store `timestamp_ms` as the episode's listening position.
    SaveTimestamp { episode_id: i32, timestamp_ms: u64 },
    /// Store that the episode's audio is at `filepath` and lasts `duration` s.
    MarkEpisodeDownloaded { episode_id: i32, filepath: String, duration: i32 },
    /// Load the pod's episodes from the store and show them.
    LoadEpisodes { pod_id: i32 },
    /// Create a pod, then reload the pod list.
    CreatePod { title: String, url: String },
    /// Give the audio engine a command.
    Engine(EngineCommand),
    /// Leave the program.
    Quit,
}

/// A key press, as the control loop reads it.
#[derive(PartialEq, Eq, Structural, Clone, Copy, Debug)]
pub enum Key {
    /// A character typed without modifiers.
    Char(char),
    /// A character typed with shift held.
    ShiftChar(char),
    Enter,
    Esc,
    Backspace,
    Tab,
    /// Any other key.
    Other,
}

/// How a worker command ended.
#[derive(PartialEq, Eq, Debug)]
pub enum WorkOutcome {
    /// The pod's feed was read and stored; `episodes` is what the store now
    /// holds for it.
    EpisodesFetched { pod_id: i32, episodes: Vec<Episode> },
    /// The episode's audio was stored at `filepath`, lasting `duration` s.
    AudioDownloaded { episode: Episode, filepath: String, duration: i32 },
    /// A network, parse or file step failed; nothing was stored.
    Failed,
}

/// An effect with its texts as character sequences.
pub enum EffectView {
    SaveTimestamp { episode_id: i32, timestamp_ms: u64 },
    MarkEpisodeDownloaded { episode_id: i32, filepath: Seq<char>, duration: i32 },
    LoadEpisodes { pod_id: i32 },
    CreatePod { title: Seq<char>, url: Seq<char> },
    Engine(EngineCommand),
    Quit,
}

impl View for Effect {
    type V = EffectView;

    open spec fn view(&self) -> EffectView {
        match self {
            Effect::SaveTimestamp { episode_id, timestamp_ms } => EffectView::SaveTimestamp {
                episode_id: *episode_id,
                timestamp_ms: *timestamp_ms,
            },
            Effect::MarkEpisodeDownloaded { episode_id, filepath, duration } => EffectView::MarkEpisodeDownloaded {
                episode_id: *episode_id,
                filepath: filepath@,
                duration: *duration,
            },
            Effect::LoadEpisodes { pod_id } => EffectView::LoadEpisodes { pod_id: *pod_id },
            Effect::CreatePod { title, url } => EffectView::CreatePod { title: title@, url: url@ },
            Effect::Engine(c) => EffectView::Engine(*c),
            Effect::Quit => EffectView::Quit,
        }
    }
}

pub open spec fn effect_views(v: Seq<Effect>) -> Seq<EffectView> {
    v.map_values(|e: Effect| e@)
}

pub open spec fn engine_effects(cmds: Seq<EngineCommand>) -> Seq<EffectView> {
    cmds.map_values(|c: EngineCommand| EffectView::Engine(c))
}

/// Relies on `std::sync::mpsc::Sender::send`: it hands `event` to the
/// receiving worker, and fails when the receiver is gone.
#[verifier::external_body]
fn send_to_worker(tx: &Sender<IoEvent>, event: IoEvent) -> (sent: bool) {
    tx.send(event).is_ok()
}

/// The application state shared by the control loop and the worker.
pub struct App {
    pub pods: StatefulList<Pod>,
    pub episodes: Option<StatefulList<Episode>>,
    pub io_tx: Option<Sender<IoEvent>>,
    pub is_loading: bool,
    pub is_downloading: bool,
    pub navigation_stack: NavigationStack,
    pub player: Player,
    pub active_pod_id: i32,
    pub show_popup: bool,
    pub input_pod_name: String,
    pub input_pod_url: String,
    pub input_mode: InputMode,
    pub input_field: InputField,
    /// The last failure, until a later command succeeds.
    pub status: Option<Failure>,
    /// The commands handed to the worker so far, in order.
    pub sent_events: Ghost<Seq<IoEvent>>,
}

/// The application state as the contracts see it.
pub struct AppView {
    pub pods: ListView<Pod>,
    pub episodes: Option<ListView<Episode>>,
    pub connected: bool,
    pub is_loading: bool,
    pub is_downloading: bool,
    pub navigation_stack: NavigationStack,
    pub player: Player,
    pub active_pod_id: i32,
    pub show_popup: bool,
    pub input_pod_name: Seq<char>,
    pub input_pod_url: Seq<char>,
    pub input_mode: InputMode,
    pub input_field: InputField,
    pub status: Option<Failure>,
    pub sent_events: Seq<IoEvent>,
}

impl View for App {
    type V = AppView;

    open spec fn view(&self) -> AppView {
        AppView {
            pods: self.pods@,
            episodes: match self.episodes {
                Some(l) => Some(l@),
                None => None,
            },
            connected: self.io_tx is Some,
            is_loading: self.is_loading,
            is_downloading: self.is_downloading,
            navigation_stack: self.navigation_stack,
            player: self.player,
            active_pod_id: self.active_pod_id,
            show_popup: self.show_popup,
            input_pod_name: self.input_pod_name@,
            input_pod_url: self.input_pod_url@,
            input_mode: self.input_mode,
            input_field: self.input_field,
            status: self.status,
            sent_events: self.sent_events@,
        }
    }
}

/// `e` with its listening position set to `ts`.
pub open spec fn stamped(e: Episode, ts: u64) -> Episode {
    Episode { timestamp_ms: ts, ..e }
}

/// The items of an episode list, the ones with the id of `ep` replaced by it.
pub open spec fn replace_items(items: Seq<Episode>, ep: Episode) -> Seq<Episode> {
    items.map_values(|e: Episode| if e.id == ep.id { ep } else { e })
}

/// The items of a pod list, the one with id `id` marked as fetched.
pub open spec fn mark_pod_items(items: Seq<Pod>, id: i32) -> Seq<Pod> {
    items.map_values(|p: Pod| if p.id == id { Pod { downloaded: true, ..p } } else { p })
}

impl AppView {
    /// Whether a command is in flight or an episode downloading; downloading
    /// is only ever flagged together with loading.
    pub open spec fn flags_ok(self) -> bool {
        self.is_downloading ==> self.is_loading
    }

    /// The state after handing `ev` to the worker: loading is flagged exactly
    /// when the hand-over went through (`sent`), which it cannot without a
    /// worker; when it fails, no command can be in flight, both flags are
    /// cleared and the failure is reported.
    pub open spec fn dispatched(self, ev: IoEvent, sent: bool) -> AppView {
        let ok = sent && self.connected;
        AppView {
            is_loading: ok,
            is_downloading: if ok { self.is_downloading } else { false },
            status: if ok { self.status } else { Some(Failure::WorkerGone) },
            sent_events: if ok { self.sent_events.push(ev) } else { self.sent_events },
            ..self
        }
    }

    /// The state and effects after saving the listening position
    /// `position_ms`: while a session is alive, the selected track takes it,
    /// the list entries with its id are replaced by the saved track, and the
    /// store is told.
    pub open spec fn saved(self, position_ms: u64) -> (AppView, Seq<EffectView>) {
        match self.player.selected_track {
            Some(t) => if self.player.state != PlaybackState::Idle {
                (
                    AppView {
                        player: Player { selected_track: Some(stamped(t, position_ms)), ..self.player },
                        episodes: match self.episodes {
                            Some(l) => Some(ListView { items: replace_items(l.items, stamped(t, position_ms)), ..l }),
                            None => None,
                        },
                        ..self
                    },
                    seq![EffectView::SaveTimestamp { episode_id: t.id, timestamp_ms: position_ms }],
                )
            } else {
                (self, Seq::empty())
            },
            None => (self, Seq::empty()),
        }
    }

    /// The state and effects after entering the selected pod: a pod never
    /// fetched is handed to the worker, which shows its episodes when done; a
    /// fetched one has its episodes loaded from the store.
    pub open spec fn entered_pod(self, sent: bool) -> (AppView, Seq<EffectView>) {
        match selected_of(self.pods) {
            Some(p) => if !p.downloaded {
                (
                    AppView { navigation_stack: NavigationStack::Episodes, ..self }.dispatched(
                        IoEvent::FetchEpisodes(p),
                        sent,
                    ),
                    Seq::empty(),
                )
            } else {
                (
                    AppView { navigation_stack: NavigationStack::Episodes, ..self },
                    seq![EffectView::LoadEpisodes { pod_id: p.id }],
                )
            },
            None => (self, Seq::empty()),
        }
    }

    /// The selected episode, if the episode list has a selection.
    pub open spec fn selected_episode(self) -> Option<Episode> {
        match self.episodes {
            Some(l) => selected_of(l),
            None => None,
        }
    }

    /// The state and effects after entering the selected episode: the
    /// current position is saved first; an episode not downloaded is handed
    /// to the worker with downloading flagged; a downloaded one is loaded,
    /// moved to its saved position and played.
    pub open spec fn entered_episode(self, position_ms: u64, sent: bool) -> (AppView, Seq<EffectView>) {
        if self.selected_episode() is None {
            (self, Seq::empty())
        } else {
            let (v1, e1) = self.saved(position_ms);
            let ep = v1.selected_episode().unwrap();
            if !ep.downloaded {
                (AppView { is_downloading: true, ..v1 }.dispatched(IoEvent::DownloadAudio(ep), sent), e1)
            } else {
                let (loaded, c1) = v1.player.loading(ep);
                let c2 = loaded.seek_commands(ep.timestamp_ms);
                let (started, c3) = loaded.playing();
                (AppView { player: started, ..v1 }, e1 + engine_effects(c1) + engine_effects(c2) + engine_effects(c3))
            }
        }
    }

    /// The state and effects after play/pause: a playing track has its
    /// position saved before it pauses.
    pub open spec fn toggled(self, position_ms: u64) -> (AppView, Seq<EffectView>) {
        if self.player.state == PlaybackState::Playing {
            let (v1, e1) = self.saved(position_ms);
            let (p, c) = v1.player.toggled();
            (AppView { player: p, ..v1 }, e1 + engine_effects(c))
        } else {
            let (p, c) = self.player.toggled();
            (AppView { player: p, ..self }, engine_effects(c))
        }
    }

    /// The state after asking the worker to refresh the selected pod.
    pub open spec fn refreshed(self, sent: bool) -> AppView {
        match selected_of(self.pods) {
            Some(p) => self.dispatched(IoEvent::RefreshPod(p), sent),
            None => self,
        }
    }

    /// The state and effects after playing `ep` from its start: the current
    /// position is saved, the list shows `ep`, and the engine switches to it.
    pub open spec fn played_episode(self, ep: Episode, position_ms: u64) -> (AppView, Seq<EffectView>) {
        let (v1, e1) = self.saved(position_ms);
        let (loaded, c1) = v1.player.loading(ep);
        let (started, c2) = loaded.playing();
        (
            AppView {
                player: started,
                episodes: match v1.episodes {
                    Some(l) => Some(ListView { items: replace_items(l.items, ep), ..l }),
                    None => None,
                },
                ..v1
            },
            e1 + engine_effects(c1) + engine_effects(c2),
        )
    }

    /// The state and effects after the worker reports `outcome`: both
    /// in-flight flags cleared whatever happened; a fetched pod marked, made
    /// active and its episodes shown; a downloaded episode stored and played;
    /// a failure reported, a success clearing the last one.
    pub open spec fn completed(self, outcome: WorkOutcome, position_ms: u64) -> (AppView, Seq<EffectView>) {
        let cleared = AppView { is_loading: false, is_downloading: false, status: None, ..self };
        match outcome {
            WorkOutcome::EpisodesFetched { pod_id, episodes } => (
                AppView {
                    pods: ListView { items: mark_pod_items(self.pods.items, pod_id), ..self.pods },
                    active_pod_id: pod_id,
                    episodes: Some(ListView { selected: None, items: episodes@ }),
                    ..cleared
                },
                Seq::empty(),
            ),
            WorkOutcome::AudioDownloaded { episode, filepath, duration } => {
                let ep = Episode {
                    audio_filepath: Some(filepath),
                    downloaded: true,
                    duration: Some(duration),
                    ..episode
                };
                let (v, e) = cleared.played_episode(ep, position_ms);
                (
                    v,
                    seq![EffectView::MarkEpisodeDownloaded { episode_id: episode.id, filepath: filepath@, duration }] + e,
                )
            },
            WorkOutcome::Failed => (AppView { status: Some(Failure::CommandFailed), ..cleared }, Seq::empty()),
        }
    }

    /// The state and effects after submitting the new-pod form: the store is
    /// asked to create the pod, and the form is emptied and closed.
    pub open spec fn created_pod(self) -> (AppView, Seq<EffectView>) {
        (
            AppView {
                input_mode: InputMode::Normal,
                input_pod_name: Seq::empty(),
                input_pod_url: Seq::empty(),
                ..self
            },
            seq![EffectView::CreatePod { title: self.input_pod_name, url: self.input_pod_url }],
        )
    }

    /// The state after moving down in the shown list.
    pub open spec fn moved_down(self) -> AppView {
        if self.navigation_stack == NavigationStack::Main {
            AppView {
                pods: ListView { selected: next_index(self.pods.selected, self.pods.items.len()), ..self.pods },
                ..self
            }
        } else {
            AppView {
                episodes: match self.episodes {
                    Some(l) => Some(ListView { selected: next_index(l.selected, l.items.len()), ..l }),
                    None => None,
                },
                ..self
            }
        }
    }

    /// The state after moving up in the shown list.
    pub open spec fn moved_up(self) -> AppView {
        if self.navigation_stack == NavigationStack::Main {
            AppView {
                pods: ListView { selected: previous_index(self.pods.selected, self.pods.items.len()), ..self.pods },
                ..self
            }
        } else {
            AppView {
                episodes: match self.episodes {
                    Some(l) => Some(ListView { selected: previous_index(l.selected, l.items.len()), ..l }),
                    None => None,
                },
                ..self
            }
        }
    }

    /// The form after typing `c` into its current field.
    pub open spec fn typed(self, c: char) -> AppView {
        match self.input_field {
            InputField::Name => AppView { input_pod_name: self.input_pod_name.push(c), ..self },
            InputField::Url => AppView { input_pod_url: self.input_pod_url.push(c), ..self },
        }
    }

    /// The form after erasing the last character of its current field.
    pub open spec fn erased(self) -> AppView {
        match self.input_field {
            InputField::Name => if self.input_pod_name.len() > 0 {
                AppView { input_pod_name: self.input_pod_name.drop_last(), ..self }
            } else {
                self
            },
            InputField::Url => if self.input_pod_url.len() > 0 {
                AppView { input_pod_url: self.input_pod_url.drop_last(), ..self }
            } else {
                self
            },
        }
    }

    /// The state and effects after saving the position and asking to quit.
    pub open spec fn quit(self, position_ms: u64) -> (AppView, Seq<EffectView>) {
        let (v, e) = self.saved(position_ms);
        (v, e.push(EffectView::Quit))
    }

    /// The state and effects after the command key `c` in normal mode.
    pub open spec fn on_command(self, c: char, position_ms: u64, sent: bool) -> (AppView, Seq<EffectView>) {
        if c == 'q' {
            if self.navigation_stack == NavigationStack::Main {
                self.quit(position_ms)
            } else {
                (AppView { navigation_stack: NavigationStack::Main, ..self }, Seq::empty())
            }
        } else if c == 'j' {
            (self.moved_down(), Seq::empty())
        } else if c == 'k' {
            (self.moved_up(), Seq::empty())
        } else if c == ' ' {
            self.toggled(position_ms)
        } else if c == 'r' {
            (self.refreshed(sent), Seq::empty())
        } else if c == 'o' {
            let target = if position_ms + JUMP_MS <= u64::MAX { (position_ms + JUMP_MS) as u64 } else { u64::MAX };
            (self, engine_effects(self.player.seek_commands(target)))
        } else if c == 'i' {
            let target = if position_ms >= JUMP_MS { (position_ms - JUMP_MS) as u64 } else { 0 };
            (self, engine_effects(self.player.seek_commands(target)))
        } else if c == '?' {
            (AppView { input_mode: InputMode::Help, ..self }, Seq::empty())
        } else if c == 'n' {
            (AppView { input_mode: InputMode::Editing, ..self }, Seq::empty())
        } else {
            (self, Seq::empty())
        }
    }

    /// The state and effects after `key`, with the engine at `position_ms`.
    pub open spec fn on_key(self, key: Key, position_ms: u64, sent: bool) -> (AppView, Seq<EffectView>) {
        match self.input_mode {
            InputMode::Normal => match key {
                Key::Char(c) => self.on_command(c, position_ms, sent),
                Key::Enter => if self.navigation_stack == NavigationStack::Main {
                    self.entered_pod(sent)
                } else {
                    self.entered_episode(position_ms, sent)
                },
                _ => (self, Seq::empty()),
            },
            InputMode::Help => match key {
                Key::Char(_) => (AppView { input_mode: InputMode::Normal, ..self }, Seq::empty()),
                _ => (self, Seq::empty()),
            },
            InputMode::Editing => match key {
                Key::Char(c) => (self.typed(c), Seq::empty()),
                Key::ShiftChar(c) => (self.typed(c), Seq::empty()),
                Key::Esc => (AppView { input_mode: InputMode::Normal, ..self }, Seq::empty()),
                Key::Backspace => (self.erased(), Seq::empty()),
                Key::Tab => (
                    AppView {
                        input_field: if self.input_field == InputField::Name { InputField::Url } else { InputField::Name },
                        ..self
                    },
                    Seq::empty(),
                ),
                Key::Enter => self.created_pod(),
                _ => (self, Seq::empty()),
            },
        }
    }
}

fn push_engine(effects: &mut Vec<Effect>, cmds: &Vec<EngineCommand>)
    ensures
        effect_views(final(effects)@) == effect_views(old(effects)@) + engine_effects(cmds@),
{
    let ghost start = effects@;
    let mut i: usize = 0;
    while i < cmds.len()
        invariant
            i <= cmds.len(),
            effects@.len() == start.len() + i,
            forall|k: int| 0 <= k < start.len() ==> #[trigger] effects@[k] == start[k],
            forall|k: int| 0 <= k < i ==> #[trigger] effects@[start.len() + k] == Effect::Engine(cmds@[k]),
        decreases cmds.len() - i,
    {
        effects.push(Effect::Engine(cmds[i].clone()));
        i += 1;
    }
    assert(effect_views(effects@) =~= effect_views(start) + engine_effects(cmds@)) by {
        assert forall|k: int| 0 <= k < effects@.len() implies #[trigger] effect_views(effects@)[k] == (effect_views(start) + engine_effects(cmds@))[k] by {
            if k >= start.len() {
                let j = k - start.len();
                assert(effects@[start.len() + j] == Effect::Engine(cmds@[j]));
            }
        }
    }
}

fn replace_in_list(items: &mut Vec<Episode>, ep: &Episode)
    ensures
        final(items)@ == replace_items(old(items)@, *ep),
{
    let ghost start = items@;
    let mut i: usize = 0;
    while i < items.len()
        invariant
            i <= items.len(),
            items@.len() == start.len(),
            forall|k: int| 0 <= k < i ==> #[trigger] items@[k] == (if start[k].id == ep.id { *ep } else { start[k] }),
            forall|k: int| i <= k < items@.len() ==> #[trigger] items@[k] == start[k],
        decreases items.len() - i,
    {
        if items[i].id == ep.id {
            items.set(i, ep.clone());
        }
        i += 1;
    }
    assert(items@ =~= replace_items(start, *ep));
}

fn mark_pod_list(items: &mut Vec<Pod>, id: i32)
    ensures
        final(items)@ == mark_pod_items(old(items)@, id),
{
    let ghost start = items@;
    let mut i: usize = 0;
    while i < items.len()
        invariant
            i <= items.len(),
            items@.len() == start.len(),
            forall|k: int| 0 <= k < i ==> #[trigger] items@[k] == (if start[k].id == id { Pod { downloaded: true, ..start[k] } } else { start[k] }),
            forall|k: int| i <= k < items@.len() ==> #[trigger] items@[k] == start[k],
        decreases items.len() - i,
    {
        if items[i].id == id {
            let mut p = items[i].clone();
            p.downloaded = true;
            items.set(i, p);
        }
        i += 1;
    }
    assert(items@ =~= mark_pod_items(start, id));
}

impl App {
    /// A fresh state: the stored pods listed, nothing selected, no command in
    /// flight, the main view, nothing loaded.
    pub fn new(io_tx: Sender<IoEvent>, pods_db: Vec<Pod>) -> (r: App)
        ensures
            r@ == (AppView {
                pods: ListView { selected: None, items: pods_db@ },
                episodes: None,
                connected: true,
                is_loading: false,
                is_downloading: false,
                navigation_stack: NavigationStack::Main,
                player: r.player,
                active_pod_id: 0,
                show_popup: false,
                input_pod_name: Seq::empty(),
                input_pod_url: Seq::empty(),
                input_mode: InputMode::Normal,
                input_field: InputField::Name,
                status: None,
                sent_events: Seq::empty(),
            }),
            r.player.state == PlaybackState::Idle,
            r.player.selected_track is None,
    {
        App {
            pods: StatefulList::with_items(pods_db),
            episodes: None,
            io_tx: Some(io_tx),
            is_loading: false,
            is_downloading: false,
            navigation_stack: NavigationStack::Main,
            player: Player::new(),
            active_pod_id: 0,
            show_popup: false,
            input_pod_name: String::new(),
            input_pod_url: String::new(),
            input_mode: InputMode::Normal,
            input_field: InputField::Name,
            status: None,
            sent_events: Ghost(Seq::empty()),
        }
    }

    /// Hands `action` to the worker and flags loading; when the hand-over
    /// fails, both in-flight flags are cleared, the failure is reported and
    /// `false` returned.
    pub fn dispatch(&mut self, action: IoEvent) -> (sent: bool)
        ensures
            final(self)@ == old(self)@.dispatched(action, sent),
            sent ==> old(self)@.connected,
    {
        let ghost ev = action;
        self.is_loading = true;
        let sent = match &self.io_tx {
            Some(tx) => send_to_worker(tx, action),
            None => false,
        };
        if sent {
            self.sent_events = Ghost(self.sent_events@.push(ev));
        } else {
            self.is_loading = false;
            self.is_downloading = false;
            self.status = Some(Failure::WorkerGone);
        }
        sent
    }

    /// Saves the engine's position `position_ms` as the listening position of
    /// the selected track, in memory and, through the returned effect, in the
    /// store; nothing happens while no session is alive.
    pub fn save_timestamp(&mut self, position_ms: u64) -> (r: Vec<Effect>)
        ensures
            (final(self)@, effect_views(r@)) == old(self)@.saved(position_ms),
    {
        let mut effects: Vec<Effect> = Vec::new();
        if self.player.state == PlaybackState::Idle {
            assert(effect_views(effects@) =~= Seq::empty());
            return effects;
        }
        let ts = self.player.get_current_timestamp(position_ms);
        match &self.player.selected_track {
            Some(t) => {
                let mut track = t.clone();
                track.timestamp_ms = ts;
                let id = track.id;
                if let Some(list) = &mut self.episodes {
                    replace_in_list(&mut list.items, &track);
                }
                self.player.selected_track = Some(track);
                effects.push(Effect::SaveTimestamp { episode_id: id, timestamp_ms: ts });
            },
            None => {},
        }
        assert(effect_views(effects@) =~= old(self)@.saved(position_ms).1);
        effects
    }

    /// Shows `episodes` as the list of pod `id`, with nothing selected.
    pub fn set_active_pod(&mut self, id: i32, episodes: Vec<Episode>)
        ensures
            final(self)@ == (AppView {
                active_pod_id: id,
                episodes: Some(ListView { selected: None, items: episodes@ }),
                ..old(self)@
            }),
    {
        self.active_pod_id = id;
        self.episodes = Some(StatefulList::with_items(episodes));
    }

    /// Shows `pods` as the pod list, with nothing selected.
    pub fn set_pods(&mut self, pods: Vec<Pod>)
        ensures
            final(self)@ == (AppView { pods: ListView { selected: None, items: pods@ }, ..old(self)@ }),
    {
        self.pods = StatefulList::with_items(pods);
    }

    /// Reports a failure of work done outside the library (the store, the
    /// audio engine) in the status line.
    pub fn report_failure(&mut self, failure: Failure)
        ensures
            final(self)@ == (AppView { status: Some(failure), ..old(self)@ }),
    {
        self.status = Some(failure);
    }

    /// Goes back to the pod list.
    pub fn back(&mut self)
        ensures
            final(self)@ == (AppView { navigation_stack: NavigationStack::Main, ..old(self)@ }),
    {
        self.navigation_stack = NavigationStack::Main;
    }

    fn selected_pod(&self) -> (r: Option<Pod>)
        ensures
            r == selected_of(self.pods@),
    {
        match self.pods.selected_item() {
            Some(p) => Some(p.clone()),
            None => None,
        }
    }

    fn selected_episode(&self) -> (r: Option<Episode>)
        ensures
            r == self@.selected_episode(),
    {
        match &self.episodes {
            Some(l) => match l.selected_item() {
                Some(e) => Some(e.clone()),
                None => None,
            },
            None => None,
        }
    }

    /// Asks the worker to fetch the selected pod's feed again; loading is
    /// flagged exactly when the request was handed over.
    pub fn refresh_pod(&mut self)
        ensures
            final(self)@ == old(self)@.refreshed(final(self).is_loading),
    {
        if let Some(pod) = self.selected_pod() {
            let _ = self.dispatch(IoEvent::RefreshPod(pod));
        }
    }

    /// Enters the selected pod: a pod never fetched goes to the worker, a
    /// fetched one has its episodes loaded from the store.
    pub fn handle_enter_pod(&mut self) -> (r: Vec<Effect>)
        ensures
            (final(self)@, effect_views(r@)) == old(self)@.entered_pod(final(self).is_loading),
    {
        let mut effects: Vec<Effect> = Vec::new();
        if let Some(pod) = self.selected_pod() {
            self.navigation_stack = NavigationStack::Episodes;
            if !pod.downloaded {
                let _ = self.dispatch(IoEvent::FetchEpisodes(pod));
            } else {
                effects.push(Effect::LoadEpisodes { pod_id: pod.id });
            }
        }
        assert(effect_views(effects@) =~= old(self)@.entered_pod(final(self).is_loading).1);
        effects
    }

    /// Enters the selected episode with the engine at `position_ms`: the
    /// current position is saved, then an episode not yet downloaded goes to
    /// the worker, and a downloaded one plays from its saved position.
    pub fn handle_enter_episode(&mut self, position_ms: u64) -> (r: Vec<Effect>)
        ensures
            (final(self)@, effect_views(r@)) == old(self)@.entered_episode(position_ms, final(self).is_loading),
    {
        if self.selected_episode().is_none() {
            let effects: Vec<Effect> = Vec::new();
            assert(effect_views(effects@) =~= Seq::empty());
            return effects;
        }
        let mut effects = self.save_timestamp(position_ms);
        let ep = match self.selected_episode() {
            Some(e) => e,
            None => {
                return effects;
            },
        };
        if !ep.downloaded {
            self.is_downloading = true;
            let _ = self.dispatch(IoEvent::DownloadAudio(ep));
        } else {
            let ts = ep.timestamp_ms;
            let c1 = self.player.load(ep);
            let c2 = self.player.seek(ts);
            let c3 = self.player.play();
            push_engine(&mut effects, &c1);
            push_engine(&mut effects, &c2);
            push_engine(&mut effects, &c3);
        }
        effects
    }

    /// Play/pause with the engine at `position_ms`; a playing track has its
    /// position saved before it pauses.
    pub fn toggle_playback(&mut self, position_ms: u64) -> (r: Vec<Effect>)
        ensures
            (final(self)@, effect_views(r@)) == old(self)@.toggled(position_ms),
    {
        let mut effects: Vec<Effect> = Vec::new();
        if self.player.get_playback_state() == PlaybackState::Playing {
            effects = self.save_timestamp(position_ms);
        }
        let c = self.player.toggle_playback();
        push_engine(&mut effects, &c);
        proof {
            if old(self).player.state != PlaybackState::Playing {
                assert(effect_views(Seq::<Effect>::empty()) =~= Seq::empty());
                assert(Seq::<EffectView>::empty() + engine_effects(c@) =~= engine_effects(c@));
            }
        }
        effects
    }

    /// Plays `episode` from its start, with the engine at `position_ms`: the
    /// current position is saved, the list shows `episode`, and the engine
    /// switches to it.
    pub fn play_episode(&mut self, episode: Episode, position_ms: u64) -> (r: Vec<Effect>)
        ensures
            (final(self)@, effect_views(r@)) == old(self)@.played_episode(episode, position_ms),
    {
        let mut effects = self.save_timestamp(position_ms);
        if let Some(list) = &mut self.episodes {
            replace_in_list(&mut list.items, &episode);
        }
        let c1 = self.player.load(episode);
        let c2 = self.player.play();
        push_engine(&mut effects, &c1);
        push_engine(&mut effects, &c2);
        effects
    }

    /// Applies the end of a worker command, with the engine at
    /// `position_ms`. Both in-flight flags are cleared whatever the outcome.
    pub fn complete(&mut self, outcome: WorkOutcome, position_ms: u64) -> (r: Vec<Effect>)
        ensures
            (final(self)@, effect_views(r@)) == old(self)@.completed(outcome, position_ms),
            !final(self).is_loading,
            !final(self).is_downloading,
    {
        self.is_loading = false;
        self.is_downloading = false;
        self.status = None;
        match outcome {
            WorkOutcome::EpisodesFetched { pod_id, episodes } => {
                mark_pod_list(&mut self.pods.items, pod_id);
                self.active_pod_id = pod_id;
                self.episodes = Some(StatefulList::with_items(episodes));
                let effects: Vec<Effect> = Vec::new();
                assert(effect_views(effects@) =~= Seq::empty());
                effects
            },
            WorkOutcome::AudioDownloaded { episode, filepath, duration } => {
                let mut effects: Vec<Effect> = Vec::new();
                effects.push(Effect::MarkEpisodeDownloaded {
                    episode_id: episode.id,
                    filepath: filepath.clone(),
                    duration,
                });
                let mut ep = episode;
                ep.mark_downloaded(filepath, duration);
                let mut more = self.play_episode(ep, position_ms);
                let ghost first = effects@;
                let ghost rest = more@;
                effects.append(&mut more);
                assert(effect_views(effects@) =~= effect_views(first) + effect_views(rest));
                effects
            },
            WorkOutcome::Failed => {
                self.status = Some(Failure::CommandFailed);
                let effects: Vec<Effect> = Vec::new();
                assert(effect_views(effects@) =~= Seq::empty());
                effects
            },
        }
    }

    fn on_command(&mut self, c: char, position_ms: u64) -> (r: Vec<Effect>)
        requires
            old(self).input_mode == InputMode::Normal,
        ensures
            (final(self)@, effect_views(r@)) == old(self)@.on_command(c, position_ms, final(self).is_loading),
    {
        let mut effects: Vec<Effect> = Vec::new();
        if c == 'q' {
            if self.navigation_stack == NavigationStack::Main {
                effects = self.save_timestamp(position_ms);
                effects.push(Effect::Quit);
            } else {
                self.back();
            }
        } else if c == 'j' {
            if self.navigation_stack == NavigationStack::Main {
                self.pods.next();
            } else if let Some(list) = &mut self.episodes {
                list.next();
            }
        } else if c == 'k' {
            if self.navigation_stack == NavigationStack::Main {
                self.pods.previous();
            } else if let Some(list) = &mut self.episodes {
                list.previous();
            }
        } else if c == ' ' {
            effects = self.toggle_playback(position_ms);
        } else if c == 'r' {
            self.refresh_pod();
        } else if c == 'o' {
            let cmds = self.player.jump_forward_10s(position_ms);
            push_engine(&mut effects, &cmds);
        } else if c == 'i' {
            let cmds = self.player.jump_backward_10s(position_ms);
            push_engine(&mut effects, &cmds);
        } else if c == '?' {
            self.input_mode = InputMode::Help;
        } else if c == 'n' {
            self.input_mode = InputMode::Editing;
        }
        proof {
            if c == 'j' || c == 'k' || c == '?' || c == 'n' || (c == 'q' && old(self).navigation_stack != NavigationStack::Main) || !(c == 'q' || c == ' ' || c == 'o' || c == 'i') {
                assert(effect_views(effects@) =~= Seq::empty());
            }
            if c == 'o' || c == 'i' {
                assert(Seq::<EffectView>::empty() + engine_effects(old(self).player.seek_commands(
                    if c == 'o' {
                        if position_ms + JUMP_MS <= u64::MAX { (position_ms + JUMP_MS) as u64 } else { u64::MAX }
                    } else {
                        if position_ms >= JUMP_MS { (position_ms - JUMP_MS) as u64 } else { 0 }
                    }
                )) =~= effect_views(effects@));
            }
        }
        effects
    }

    /// Handles one key press, with the engine at `position_ms`, and returns
    /// the effects to carry out in order. A command for the worker was
    /// handed over exactly when loading is flagged afterwards.
    pub fn handle_key(&mut self, key: Key, position_ms: u64) -> (r: Vec<Effect>)
        ensures
            (final(self)@, effect_views(r@)) == old(self)@.on_key(key, position_ms, final(self).is_loading),
    {
        let mut effects: Vec<Effect> = Vec::new();
        match self.input_mode {
            InputMode::Normal => match key {
                Key::Char(c) => {
                    effects = self.on_command(c, position_ms);
                },
                Key::Enter => {
                    if self.navigation_stack == NavigationStack::Main {
                        effects = self.handle_enter_pod();
                    } else {
                        effects = self.handle_enter_episode(position_ms);
                    }
                },
                _ => {},
            },
            InputMode::Help => match key {
                Key::Char(_) => {
                    self.input_mode = InputMode::Normal;
                },
                _ => {},
            },
            InputMode::Editing => match key {
                Key::Char(c) | Key::ShiftChar(c) => match self.input_field {
                    InputField::Name => self.input_pod_name.push(c),
                    InputField::Url => self.input_pod_url.push(c),
                },
                Key::Esc => {
                    self.input_mode = InputMode::Normal;
                },
                Key::Backspace => match self.input_field {
                    InputField::Name => {
                        let _ = self.input_pod_name.pop();
                    },
                    InputField::Url => {
                        let _ = self.input_pod_url.pop();
                    },
                },
                Key::Tab => {
                    self.input_field = match self.input_field {
                        InputField::Name => InputField::Url,
                        InputField::Url => InputField::Name,
                    };
                },
                Key::Enter => {
                    effects = self.create_pod();
                },
                Key::Other => {},
            },
        }
        proof {
            if effects@.len() == 0 {
                assert(effect_views(effects@) =~= Seq::empty());
            }
        }
        effects
    }

    /// Submits the new-pod form: the store is asked to create the pod, and
    /// the form is emptied and closed.
    pub fn create_pod(&mut self) -> (r: Vec<Effect>)
        ensures
            (final(self)@, effect_views(r@)) == old(self)@.created_pod(),
    {
        let title = self.input_pod_name.clone();
        let url = self.input_pod_url.clone();
        self.input_mode = InputMode::Normal;
        self.input_pod_name = String::new();
        self.input_pod_url = String::new();
        let mut effects: Vec<Effect> = Vec::new();
        effects.push(Effect::CreatePod { title, url });
        assert(effect_views(effects@) =~= old(self)@.created_pod().1);
        effects
    }
}

/// Whatever a worker command ended in, both in-flight flags are clear once
/// its outcome is applied.
pub proof fn lemma_flags_cleared(v: AppView, outcome: WorkOutcome, position_ms: u64)
    ensures
        !v.completed(outcome, position_ms).0.is_loading,
        !v.completed(outcome, position_ms).0.is_downloading,
        v.completed(outcome, position_ms).0.flags_ok(),
{
}

/// No transition leaves downloading flagged without loading: a key press
/// keeps the in-flight flags consistent.
pub proof fn lemma_keys_keep_flags(v: AppView, key: Key, position_ms: u64, sent: bool)
    requires
        v.flags_ok(),
    ensures
        v.on_key(key, position_ms, sent).0.flags_ok(),
{
}

/// Saving the position of a live session hands the store exactly the
/// position that the selected track now holds, and every list entry of that
/// episode becomes the saved track, so reading the episode back gives the
/// saved value.
pub proof fn lemma_saved_position_round_trip(v: AppView, position_ms: u64)
    requires
        v.player.state != PlaybackState::Idle,
        v.player.selected_track is Some,
    ensures
        ({
            let t = v.player.selected_track.unwrap();
            let (w, effects) = v.saved(position_ms);
            &&& effects == seq![EffectView::SaveTimestamp { episode_id: t.id, timestamp_ms: position_ms }]
            &&& w.player.selected_track == Some(stamped(t, position_ms))
            &&& w.player.selected_track.unwrap().timestamp_ms == position_ms
            &&& w.episodes matches Some(l) ==> forall|k: int| 0 <= k < l.items.len() && (#[trigger] l.items[k]).id == t.id
                ==> l.items[k] == stamped(t, position_ms) && l.items[k].timestamp_ms == position_ms
        }),
{
    let t = v.player.selected_track.unwrap();
    let (w, effects) = v.saved(position_ms);
    if let Some(l) = w.episodes {
        assert forall|k: int| 0 <= k < l.items.len() && (#[trigger] l.items[k]).id == t.id implies l.items[k] == stamped(t, position_ms) by {
            let ol = v.episodes.unwrap();
            assert(l.items[k] == (if ol.items[k].id == t.id { stamped(t, position_ms) } else { ol.items[k] }));
        }
    }
}

/// Quitting while a track is selected saves the engine's live position for
/// it, in memory and in the store, before the program ends.
pub proof fn lemma_quit_saves_position(v: AppView, position_ms: u64)
    requires
        v.player.wf(),
        v.player.selected_track is Some,
    ensures
        ({
            let t = v.player.selected_track.unwrap();
            let (w, effects) = v.quit(position_ms);
            &&& effects == seq![
                EffectView::SaveTimestamp { episode_id: t.id, timestamp_ms: position_ms },
                EffectView::Quit,
            ]
            &&& w.player.selected_track == Some(stamped(t, position_ms))
        }),
{
    let (w, effects) = v.quit(position_ms);
    assert(effects =~= seq![
        EffectView::SaveTimestamp { episode_id: v.player.selected_track.unwrap().id, timestamp_ms: position_ms },
        EffectView::Quit,
    ]);
}

/// Entering a downloaded episode B while another track A is loaded leaves
/// exactly one engine session, B's: A's session is stopped before B's is
/// opened, so at no point are two alive, and B plays.
pub proof fn lemma_switch_keeps_one_session(v: AppView, position_ms: u64, sent: bool)
    requires
        v.player.wf(),
        v.selected_episode() matches Some(b) && b.wf() && b.downloaded,
        v.player.selected_track matches Some(a) ==> a.id != v.selected_episode().unwrap().id,
    ensures
        ({
            let b = v.selected_episode().unwrap();
            let (v1, e1) = v.saved(position_ms);
            let cmds = load_commands(v.player.state, b)
                + v1.player.loading(b).0.seek_commands(b.timestamp_ms)
                + seq![EngineCommand::Play];
            let (w, effects) = v.entered_episode(position_ms, sent);
            &&& w.player.state == PlaybackState::Playing
            &&& w.player.selected_track == Some(b)
            &&& effects == e1 + engine_effects(cmds)
            &&& forall|k: int| 0 <= k <= cmds.len() ==> sessions_after(live_sessions(v.player.state), #[trigger] cmds.take(k)) <= 1
            &&& sessions_after(live_sessions(v.player.state), cmds) == 1
        }),
{
    let b = v.selected_episode().unwrap();
    let (v1, e1) = v.saved(position_ms);
    let l = v.episodes.unwrap();
    let i = l.selected.unwrap();
    assert(v1.selected_episode() == Some(b)) by {
        let l1 = v1.episodes.unwrap();
        assert(l1.selected == l.selected);
        assert(l1.items.len() == l.items.len());
        assert(l1.items[i as int] == l.items[i as int]);
    }
    let live = live_sessions(v.player.state);
    let load = load_commands(v.player.state, b);
    let (loaded, c1) = v1.player.loading(b);
    let rest = loaded.seek_commands(b.timestamp_ms) + seq![EngineCommand::Play];
    let cmds = load + loaded.seek_commands(b.timestamp_ms) + seq![EngineCommand::Play];
    assert(cmds =~= load + rest);
    lemma_load_single_session(v.player.state, b);
    assert(forall|j: int| 0 <= j < rest.len() ==> !(#[trigger] rest[j] is Open) && !(rest[j] is Stop));
    lemma_quiet_commands(live, load, rest);
    assert forall|k: int| 0 <= k <= cmds.len() implies sessions_after(live, #[trigger] cmds.take(k)) <= 1 by {
        if k <= load.len() {
            assert(cmds.take(k) =~= load.take(k));
        }
    }
    assert(cmds.take(cmds.len() as int) =~= cmds);
    assert(load.take(load.len() as int) =~= load);
    let (w, effects) = v.entered_episode(position_ms, sent);
    let c2 = loaded.seek_commands(b.timestamp_ms);
    assert(engine_effects(cmds) =~= engine_effects(c1) + engine_effects(c2) + engine_effects(seq![EngineCommand::Play]));
    assert(effects =~= e1 + engine_effects(cmds));
}

} // verus!
