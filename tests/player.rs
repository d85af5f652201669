use podplayer::model::Episode;
use podplayer::player::{EngineCommand, PlaybackState, Player};
use podplayer::text::fmt_time;

fn episode(id: i32, path: Option<&str>, duration: Option<i32>, timestamp_ms: u64) -> Episode {
    Episode {
        id,
        uid: format!("u{}", id),
        pod_id: 1,
        title: format!("ep {}", id),
        url: String::new(),
        audio_url: String::new(),
        description: String::new(),
        audio_filepath: path.map(String::from),
        downloaded: path.is_some(),
        played: false,
        timestamp_ms,
        pub_timestamp: 0,
        duration,
    }
}

#[test]
fn clock_times() {
    assert_eq!(fmt_time(0), "0:00:00");
    assert_eq!(fmt_time(65), "0:01:05");
    assert_eq!(fmt_time(3725), "1:02:05");
    assert_eq!(fmt_time(36000), "10:00:00");
    assert_eq!(fmt_time(359999), "99:59:59");
}

#[test]
fn loading_while_playing_releases_the_old_session_first() {
    let mut p = Player::new();
    let first = p.load(episode(1, Some("./data/a.mp3"), Some(60), 0));
    assert_eq!(
        first,
        vec![EngineCommand::Open { path: String::from("./data/a.mp3") }, EngineCommand::SetVolume { percent: 50 }]
    );
    assert_eq!(p.play(), vec![EngineCommand::Play]);
    assert_eq!(p.get_playback_state(), PlaybackState::Playing);
    let second = p.load(episode(2, Some("./data/b.mp3"), Some(60), 0));
    assert_eq!(
        second,
        vec![
            EngineCommand::Stop,
            EngineCommand::Open { path: String::from("./data/b.mp3") },
            EngineCommand::SetVolume { percent: 50 },
        ]
    );
    let opens = first.iter().chain(second.iter()).filter(|c| matches!(c, EngineCommand::Open { .. })).count();
    let stops = second.iter().filter(|c| matches!(c, EngineCommand::Stop)).count();
    assert_eq!(opens - stops, 1);
    assert_eq!(p.get_playback_state(), PlaybackState::Loaded);
    assert_eq!(p.selected_track.as_ref().map(|t| t.id), Some(2));
}

#[test]
fn loading_without_a_file_leaves_idle() {
    let mut p = Player::new();
    p.load(episode(1, Some("./a.mp3"), None, 0));
    assert_eq!(p.load(episode(2, None, None, 0)), vec![EngineCommand::Stop]);
    assert_eq!(p.get_playback_state(), PlaybackState::Idle);
    assert!(p.selected_track.is_none());
}

#[test]
fn toggle_moves_between_playing_and_paused() {
    let mut p = Player::new();
    assert!(p.toggle_playback().is_empty());
    assert_eq!(p.get_playback_state(), PlaybackState::Idle);
    p.load(episode(1, Some("./a.mp3"), Some(100), 0));
    assert_eq!(p.toggle_playback(), vec![EngineCommand::Play]);
    assert_eq!(p.toggle_playback(), vec![EngineCommand::Pause]);
    assert_eq!(p.get_playback_state(), PlaybackState::Paused);
    assert_eq!(p.toggle_playback(), vec![EngineCommand::Play]);
    assert_eq!(p.get_playback_state(), PlaybackState::Playing);
    assert!(p.play().is_empty());
}

#[test]
fn seeking_is_clamped_to_the_track() {
    let mut p = Player::new();
    assert!(p.seek(5000).is_empty());
    assert!(p.jump_forward_10s(0).is_empty());
    p.load(episode(1, Some("./a.mp3"), Some(100), 0));
    assert_eq!(p.seek(5000), vec![EngineCommand::SeekTo { position_ms: 5000 }]);
    assert_eq!(p.seek(500_000), vec![EngineCommand::SeekTo { position_ms: 100_000 }]);
    assert_eq!(p.jump_forward_10s(95_000), vec![EngineCommand::SeekTo { position_ms: 100_000 }]);
    assert_eq!(p.jump_forward_10s(1_000), vec![EngineCommand::SeekTo { position_ms: 11_000 }]);
    assert_eq!(p.jump_backward_10s(4_000), vec![EngineCommand::SeekTo { position_ms: 0 }]);
    assert_eq!(p.jump_backward_10s(40_000), vec![EngineCommand::SeekTo { position_ms: 30_000 }]);
    p.load(episode(2, Some("./b.mp3"), None, 0));
    assert_eq!(p.jump_forward_10s(u64::MAX - 5), vec![EngineCommand::SeekTo { position_ms: u64::MAX }]);
}

#[test]
fn volume_and_progress() {
    let mut p = Player::new();
    assert!(p.increase_volume().is_empty());
    assert_eq!(p.get_progress(1000), "");
    assert_eq!(p.get_current_timestamp(1234), 0);
    p.load(episode(1, Some("./a.mp3"), Some(120), 0));
    assert_eq!(p.increase_volume(), vec![EngineCommand::SetVolume { percent: 100 }]);
    assert_eq!(p.decrease_volume(), vec![EngineCommand::SetVolume { percent: 50 }]);
    assert_eq!(p.get_progress(65_400), "0:01:05 / 0:02:00");
    assert_eq!(p.get_current_timestamp(1234), 1234);
    p.open_failed();
    assert_eq!(p.get_playback_state(), PlaybackState::Idle);
}
