use std::sync::mpsc::channel;

use podplayer::app::{App, Effect, Failure, InputField, InputMode, IoEvent, Key, NavigationStack, WorkOutcome};
use podplayer::feed::plan_feed;
use podplayer::model::{Episode, Pod};
use podplayer::player::{EngineCommand, PlaybackState};

fn pod(id: i32, downloaded: bool) -> Pod {
    Pod { id, title: format!("pod {}", id), url: String::from("https://feed.example/a.xml"), downloaded }
}

fn episode(id: i32, downloaded: bool, timestamp_ms: u64) -> Episode {
    Episode {
        id,
        uid: format!("u{}", id),
        pod_id: 1,
        title: format!("ep {}", id),
        url: String::new(),
        audio_url: format!("https://cdn.example/{}.mp3", id),
        description: String::new(),
        audio_filepath: if downloaded { Some(format!("./data/{}.mp3", id)) } else { None },
        downloaded,
        played: false,
        timestamp_ms,
        pub_timestamp: 0,
        duration: if downloaded { Some(600) } else { None },
    }
}

const FEED: &str = "<?xml version=\"1.0\"?><rss version=\"2.0\"><channel><title>A</title><link>https://feed.example</link><description>d</description>\
<item><title>One</title><guid>u1</guid><pubDate>Wed, 18 Feb 2015 23:16:09 GMT</pubDate><enclosure url=\"https://cdn.example/1.mp3\" length=\"1\" type=\"audio/mpeg\"/></item>\
<item><title>Two</title><guid>u2</guid><pubDate>Wed, 18 Feb 2015 23:16:09 GMT</pubDate><enclosure url=\"https://cdn.example/2.mp3\" length=\"1\" type=\"audio/mpeg\"/></item>\
<item><title>Three</title><guid>u3</guid><pubDate>Wed, 18 Feb 2015 23:16:09 GMT</pubDate><enclosure url=\"https://cdn.example/3.mp3\" length=\"1\" type=\"audio/mpeg\"/></item>\
</channel></rss>";

#[test]
fn entering_new_pod_fetches_its_episodes() {
    let (tx, rx) = channel();
    let mut app = App::new(tx, vec![pod(1, false)]);
    app.set_active_pod(7, vec![episode(70, false, 0)]);
    app.handle_key(Key::Char('j'), 0);
    let effects = app.handle_key(Key::Enter, 0);
    assert!(effects.is_empty());
    assert!(app.is_loading);
    assert_eq!(app.navigation_stack, NavigationStack::Episodes);
    assert_eq!(app.active_pod_id, 7);
    assert_eq!(app.episodes.as_ref().unwrap().items[0].id, 70);
    let ev = rx.try_recv().unwrap();
    assert_eq!(ev, IoEvent::FetchEpisodes(pod(1, false)));
    let plan = match ev {
        IoEvent::FetchEpisodes(p) => plan_feed(&p, &vec![], FEED.as_bytes()).unwrap(),
        _ => unreachable!(),
    };
    assert_eq!(plan.new_episodes.len(), 3);
    assert!(plan.new_episodes.iter().all(|e| e.pod_id == 1 && !e.downloaded));
    assert!(plan.mark_pod_downloaded);
    let stored: Vec<Episode> = (1..=3).map(|i| episode(i, false, 0)).collect();
    let effects = app.complete(WorkOutcome::EpisodesFetched { pod_id: 1, episodes: stored }, 0);
    assert!(effects.is_empty());
    assert!(app.pods.items[0].downloaded);
    assert_eq!(app.active_pod_id, 1);
    assert_eq!(app.episodes.as_ref().unwrap().items.len(), 3);
    assert_eq!(app.episodes.as_ref().unwrap().selected, None);
    assert_eq!(app.status, None);
    assert!(!app.is_loading);
    assert!(!app.is_downloading);
}

#[test]
fn entering_fetched_pod_loads_from_store() {
    let (tx, rx) = channel();
    let mut app = App::new(tx, vec![pod(1, true), pod(2, true)]);
    app.pods.next();
    app.pods.next();
    assert_eq!(app.handle_enter_pod(), vec![Effect::LoadEpisodes { pod_id: 2 }]);
    assert!(rx.try_recv().is_err());
    assert!(!app.is_loading);
    app.set_active_pod(2, vec![episode(5, false, 0)]);
    assert_eq!(app.active_pod_id, 2);
    assert_eq!(app.episodes.as_ref().unwrap().selected, None);
}

#[test]
fn entering_undownloaded_episode_downloads_then_plays() {
    let (tx, rx) = channel();
    let mut app = App::new(tx, vec![pod(1, true)]);
    app.navigation_stack = NavigationStack::Episodes;
    app.set_active_pod(1, vec![episode(10, false, 0)]);
    app.handle_key(Key::Char('j'), 0);
    let effects = app.handle_key(Key::Enter, 0);
    assert!(effects.is_empty());
    assert!(app.is_downloading);
    assert!(app.is_loading);
    assert_eq!(rx.try_recv().unwrap(), IoEvent::DownloadAudio(episode(10, false, 0)));
    let effects = app.complete(
        WorkOutcome::AudioDownloaded {
            episode: episode(10, false, 0),
            filepath: String::from("./data/10.mp3"),
            duration: 600,
        },
        0,
    );
    assert_eq!(
        effects,
        vec![
            Effect::MarkEpisodeDownloaded { episode_id: 10, filepath: String::from("./data/10.mp3"), duration: 600 },
            Effect::Engine(EngineCommand::Open { path: String::from("./data/10.mp3") }),
            Effect::Engine(EngineCommand::SetVolume { percent: 50 }),
            Effect::Engine(EngineCommand::Play),
        ]
    );
    let track = app.player.selected_track.as_ref().unwrap();
    assert!(track.downloaded);
    assert_eq!(track.audio_filepath.as_deref(), Some("./data/10.mp3"));
    assert_eq!(track.duration, Some(600));
    assert_eq!(track.timestamp_ms, 0);
    assert_eq!(app.player.get_playback_state(), PlaybackState::Playing);
    assert!(app.episodes.as_ref().unwrap().items[0].downloaded);
    assert!(!app.is_downloading);
    assert!(!app.is_loading);
}

#[test]
fn entering_downloaded_episode_resumes_at_saved_position() {
    let (tx, _rx) = channel();
    let mut app = App::new(tx, vec![]);
    app.set_active_pod(1, vec![episode(3, true, 42_000)]);
    app.episodes.as_mut().unwrap().next();
    let effects = app.handle_enter_episode(0);
    assert_eq!(
        effects,
        vec![
            Effect::Engine(EngineCommand::Open { path: String::from("./data/3.mp3") }),
            Effect::Engine(EngineCommand::SetVolume { percent: 50 }),
            Effect::Engine(EngineCommand::SeekTo { position_ms: 42_000 }),
            Effect::Engine(EngineCommand::Play),
        ]
    );
    assert!(!app.is_loading);
}

#[test]
fn switching_tracks_saves_the_current_position_first() {
    let (tx, _rx) = channel();
    let mut app = App::new(tx, vec![]);
    app.set_active_pod(1, vec![episode(3, true, 0), episode(4, true, 0)]);
    app.episodes.as_mut().unwrap().next();
    app.handle_enter_episode(0);
    app.episodes.as_mut().unwrap().next();
    let effects = app.handle_enter_episode(7_500);
    assert_eq!(effects[0], Effect::SaveTimestamp { episode_id: 3, timestamp_ms: 7_500 });
    assert_eq!(effects[1], Effect::Engine(EngineCommand::Stop));
    assert_eq!(app.episodes.as_ref().unwrap().items[0].timestamp_ms, 7_500);
    assert_eq!(app.player.selected_track.as_ref().unwrap().id, 4);
}

#[test]
fn quitting_saves_the_position() {
    let (tx, _rx) = channel();
    let mut app = App::new(tx, vec![]);
    app.set_active_pod(1, vec![episode(3, true, 120_000)]);
    app.episodes.as_mut().unwrap().next();
    app.handle_enter_episode(0);
    let effects = app.handle_key(Key::Char('q'), 120_000);
    assert_eq!(
        effects,
        vec![Effect::SaveTimestamp { episode_id: 3, timestamp_ms: 120_000 }, Effect::Quit]
    );
    assert_eq!(app.player.selected_track.as_ref().unwrap().timestamp_ms, 120_000);
    assert_eq!(app.episodes.as_ref().unwrap().items[0].timestamp_ms, 120_000);
}

#[test]
fn quitting_saves_the_advanced_position() {
    let (tx, _rx) = channel();
    let mut app = App::new(tx, vec![]);
    app.set_active_pod(1, vec![episode(3, true, 120_000)]);
    app.episodes.as_mut().unwrap().next();
    app.handle_enter_episode(0);
    let effects = app.save_timestamp(131_250);
    assert_eq!(effects, vec![Effect::SaveTimestamp { episode_id: 3, timestamp_ms: 131_250 }]);
    assert_eq!(app.player.selected_track.as_ref().unwrap().timestamp_ms, 131_250);
}

#[test]
fn nothing_is_saved_without_a_session() {
    let (tx, _rx) = channel();
    let mut app = App::new(tx, vec![]);
    assert!(app.save_timestamp(5_000).is_empty());
    assert_eq!(app.handle_key(Key::Char('q'), 5_000), vec![Effect::Quit]);
}

#[test]
fn pausing_saves_the_position() {
    let (tx, _rx) = channel();
    let mut app = App::new(tx, vec![]);
    app.set_active_pod(1, vec![episode(3, true, 0)]);
    app.episodes.as_mut().unwrap().next();
    app.handle_enter_episode(0);
    let effects = app.handle_key(Key::Char(' '), 9_000);
    assert_eq!(
        effects,
        vec![Effect::SaveTimestamp { episode_id: 3, timestamp_ms: 9_000 }, Effect::Engine(EngineCommand::Pause)]
    );
    assert_eq!(app.toggle_playback(9_000), vec![Effect::Engine(EngineCommand::Play)]);
}

#[test]
fn failed_command_clears_both_flags() {
    let (tx, _rx) = channel();
    let mut app = App::new(tx, vec![]);
    app.is_loading = true;
    app.is_downloading = true;
    assert!(app.complete(WorkOutcome::Failed, 0).is_empty());
    assert!(!app.is_loading);
    assert!(!app.is_downloading);
    assert_eq!(app.status, Some(Failure::CommandFailed));
    app.complete(WorkOutcome::EpisodesFetched { pod_id: 4, episodes: vec![] }, 0);
    assert_eq!(app.status, None);
    app.report_failure(Failure::StoreFailed);
    assert_eq!(app.status, Some(Failure::StoreFailed));
}

#[test]
fn dispatch_without_worker_clears_loading() {
    let (tx, rx) = channel();
    drop(rx);
    let mut app = App::new(tx, vec![pod(1, false)]);
    assert!(!app.dispatch(IoEvent::RefreshPod(pod(1, false))));
    assert!(!app.is_loading);
    assert_eq!(app.status, Some(Failure::WorkerGone));
    app.set_active_pod(1, vec![episode(10, false, 0)]);
    app.episodes.as_mut().unwrap().next();
    app.handle_enter_episode(0);
    assert!(!app.is_loading);
    assert!(!app.is_downloading);
}

#[test]
fn refresh_dispatches_selected_pod() {
    let (tx, rx) = channel();
    let mut app = App::new(tx, vec![pod(1, true)]);
    app.handle_key(Key::Char('r'), 0);
    assert!(rx.try_recv().is_err());
    app.handle_key(Key::Char('j'), 0);
    app.handle_key(Key::Char('r'), 0);
    assert!(app.is_loading);
    assert_eq!(rx.try_recv().unwrap(), IoEvent::RefreshPod(pod(1, true)));
}

#[test]
fn list_navigation_wraps() {
    let (tx, _rx) = channel();
    let mut app = App::new(tx, vec![pod(1, true), pod(2, true), pod(3, true)]);
    app.handle_key(Key::Char('k'), 0);
    assert_eq!(app.pods.selected, Some(0));
    app.handle_key(Key::Char('k'), 0);
    assert_eq!(app.pods.selected, Some(2));
    app.handle_key(Key::Char('j'), 0);
    assert_eq!(app.pods.selected, Some(0));
    let (tx2, _rx2) = channel();
    let mut empty = App::new(tx2, vec![]);
    empty.handle_key(Key::Char('j'), 0);
    assert_eq!(empty.pods.selected, None);
    assert!(empty.handle_enter_pod().is_empty());
    assert_eq!(empty.navigation_stack, NavigationStack::Main);
}

#[test]
fn back_returns_to_pods() {
    let (tx, _rx) = channel();
    let mut app = App::new(tx, vec![]);
    app.navigation_stack = NavigationStack::Episodes;
    assert!(app.handle_key(Key::Char('q'), 0).is_empty());
    assert_eq!(app.navigation_stack, NavigationStack::Main);
}

#[test]
fn new_pod_form_edits_and_submits() {
    let (tx, _rx) = channel();
    let mut app = App::new(tx, vec![]);
    app.handle_key(Key::Char('n'), 0);
    assert_eq!(app.input_mode, InputMode::Editing);
    app.handle_key(Key::Char('a'), 0);
    app.handle_key(Key::ShiftChar('B'), 0);
    app.handle_key(Key::Char('c'), 0);
    app.handle_key(Key::Backspace, 0);
    app.handle_key(Key::Tab, 0);
    assert_eq!(app.input_field, InputField::Url);
    app.handle_key(Key::Char('u'), 0);
    app.handle_key(Key::Char('q'), 0);
    assert_eq!(app.input_pod_name, "aB");
    assert_eq!(app.input_pod_url, "uq");
    let effects = app.handle_key(Key::Enter, 0);
    assert_eq!(effects, vec![Effect::CreatePod { title: String::from("aB"), url: String::from("uq") }]);
    assert_eq!(app.input_mode, InputMode::Normal);
    assert_eq!(app.input_pod_name, "");
    assert_eq!(app.input_pod_url, "");
    app.set_pods(vec![pod(9, false)]);
    assert_eq!(app.pods.items.len(), 1);
}

#[test]
fn help_closes_on_any_character() {
    let (tx, _rx) = channel();
    let mut app = App::new(tx, vec![]);
    app.handle_key(Key::Char('?'), 0);
    assert_eq!(app.input_mode, InputMode::Help);
    app.handle_key(Key::Enter, 0);
    assert_eq!(app.input_mode, InputMode::Help);
    app.handle_key(Key::Char('x'), 0);
    assert_eq!(app.input_mode, InputMode::Normal);
    app.handle_key(Key::Char('n'), 0);
    app.handle_key(Key::Esc, 0);
    assert_eq!(app.input_mode, InputMode::Normal);
}

#[test]
fn jump_keys_seek_the_engine() {
    let (tx, _rx) = channel();
    let mut app = App::new(tx, vec![]);
    assert!(app.handle_key(Key::Char('o'), 1_000).is_empty());
    app.set_active_pod(1, vec![episode(3, true, 0)]);
    app.episodes.as_mut().unwrap().next();
    app.handle_enter_episode(0);
    assert_eq!(
        app.handle_key(Key::Char('o'), 1_000),
        vec![Effect::Engine(EngineCommand::SeekTo { position_ms: 11_000 })]
    );
    assert_eq!(
        app.handle_key(Key::Char('i'), 1_000),
        vec![Effect::Engine(EngineCommand::SeekTo { position_ms: 0 })]
    );
}

#[test]
fn saving_replaces_list_entries_with_the_saved_track() {
    let (tx, _rx) = channel();
    let mut app = App::new(tx, vec![]);
    app.set_active_pod(1, vec![episode(3, true, 0)]);
    app.episodes.as_mut().unwrap().next();
    app.handle_enter_episode(0);
    let mut stale = episode(3, false, 500);
    stale.title = String::from("old title");
    app.set_active_pod(1, vec![stale, episode(4, false, 0)]);
    app.save_timestamp(8_000);
    let track = app.player.selected_track.clone().unwrap();
    assert_eq!(track.timestamp_ms, 8_000);
    assert_eq!(app.episodes.as_ref().unwrap().items[0], track);
    assert_eq!(app.episodes.as_ref().unwrap().items[1], episode(4, false, 0));
}

#[test]
fn finished_fetch_makes_its_pod_active() {
    let (tx, _rx) = channel();
    let mut app = App::new(tx, vec![pod(1, true), pod(2, false)]);
    app.set_active_pod(1, vec![episode(5, false, 0)]);
    app.is_loading = true;
    app.complete(WorkOutcome::EpisodesFetched { pod_id: 2, episodes: vec![episode(9, false, 0)] }, 0);
    assert_eq!(app.active_pod_id, 2);
    assert_eq!(app.episodes.as_ref().unwrap().items, vec![episode(9, false, 0)]);
    assert!(app.pods.items[1].downloaded);
    assert!(!app.is_loading);
}
