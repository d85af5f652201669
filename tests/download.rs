use podplayer::download::{audio_dir, audio_file_path, download_target, duration_field, stream_duration};
use podplayer::model::Episode;

#[test]
fn target_is_named_after_last_segment() {
    assert_eq!(download_target("https://cdn.example/audio/ep1.mp3"), "./data/ep1.mp3");
    assert_eq!(download_target("https://cdn.example/ep2.mp3?x=1"), "./data/ep2.mp3");
}

#[test]
fn target_falls_back_without_a_name() {
    assert_eq!(download_target("https://cdn.example/audio/"), "./data/tmp.bin");
    assert_eq!(download_target("not a url"), "./data/tmp.bin");
    assert_eq!(audio_file_path(None), "./data/tmp.bin");
    assert_eq!(audio_file_path(Some(String::new())), "./data/tmp.bin");
    assert_eq!(audio_file_path(Some(String::from("a.ogg"))), "./data/a.ogg");
    assert_eq!(audio_dir(), "./data");
}

#[test]
fn duration_from_frames_and_time_base() {
    assert_eq!(stream_duration(Some(441000), Some((1, 44100))), 10);
    assert_eq!(stream_duration(Some(44099), Some((1, 44100))), 0);
    assert_eq!(stream_duration(None, Some((1, 44100))), 0);
    assert_eq!(stream_duration(Some(5), None), 0);
    assert_eq!(stream_duration(Some(5), Some((0, 44100))), 0);
    assert_eq!(stream_duration(Some(5), Some((1, 0))), 0);
}

#[test]
fn duration_saturates_in_record() {
    assert_eq!(duration_field(120), 120);
    assert_eq!(duration_field(u64::MAX), i32::MAX);
}

#[test]
fn marking_downloaded_sets_path_and_duration() {
    let mut e = Episode {
        id: 10,
        uid: String::from("u"),
        pod_id: 1,
        title: String::from("t"),
        url: String::new(),
        audio_url: String::from("https://cdn.example/e.mp3"),
        description: String::new(),
        audio_filepath: None,
        downloaded: false,
        played: false,
        timestamp_ms: 0,
        pub_timestamp: 0,
        duration: None,
    };
    e.mark_downloaded(String::from("./data/e.mp3"), 300);
    assert!(e.downloaded);
    assert_eq!(e.audio_filepath.as_deref(), Some("./data/e.mp3"));
    assert_eq!(e.duration, Some(300));
}
