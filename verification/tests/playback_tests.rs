use jukebox::error::JbError;
use jukebox::library::Library;
use jukebox::playback::{Effect, Jukebox, Message, PlaybackState};
use jukebox::settings::GlobalSettings;
use jukebox::song::{Song, TagRecord};
use jukebox::time::TimeSpan;

fn track(path: &str, secs: u64) -> Song {
    Song::from_tags(path.to_string(), TagRecord::empty(), TimeSpan::from_secs(secs))
}

fn jukebox_with(paths: &[&str]) -> Jukebox {
    let mut jukebox = Jukebox::new(GlobalSettings::default());
    for path in paths {
        jukebox.add_song_to_queue_end(track(path, 2));
    }
    jukebox
}

fn playing(paths: &[&str]) -> Jukebox {
    let mut jukebox = jukebox_with(paths);
    assert!(plays(&jukebox.toggle_playback(), paths[0]));
    assert!(jukebox.song_opened(Ok(())).is_ok());
    jukebox
}

fn plays(effect: &Effect, path: &str) -> bool {
    matches!(effect, Effect::PlayFile(file) if file == path)
}

fn current_marks(jukebox: &Jukebox) -> Vec<bool> {
    let queue = jukebox.playback_queue();
    let mut marks = Vec::new();
    let mut i = 0;
    while i < queue.len() {
        marks.push(queue.get(i).unwrap().is_current);
        i += 1;
    }
    marks
}

fn queued_paths(jukebox: &Jukebox) -> Vec<String> {
    let queue = jukebox.playback_queue();
    let mut paths = Vec::new();
    let mut i = 0;
    while i < queue.len() {
        paths.push(queue.get(i).unwrap().song.file_path.clone());
        i += 1;
    }
    paths
}

#[test]
fn new_jukebox_is_idle() {
    let jukebox = Jukebox::new(GlobalSettings::default());
    assert_eq!(jukebox.sink_state(), PlaybackState::Stop);
    assert_eq!(jukebox.playback_queue().len(), 0);
    assert_eq!(jukebox.playback_index(), 0);
    assert_eq!(jukebox.global_settings().folder_to_scan, "./");
    assert_eq!(jukebox.global_settings().library_file, "library.toml");
}

#[test]
fn enqueue_does_not_start_playback() {
    let mut jukebox = Jukebox::new(GlobalSettings::default());
    jukebox.add_song_to_queue_end(track("b.mp3", 2));
    jukebox.add_song_to_queue_start(track("a.mp3", 2));
    assert_eq!(jukebox.sink_state(), PlaybackState::Stop);
    assert_eq!(queued_paths(&jukebox), vec!["a.mp3", "b.mp3"]);
    assert_eq!(current_marks(&jukebox), vec![false, false]);
    assert_eq!(jukebox.playback_index(), 0);
}

#[test]
fn toggle_in_empty_queue_does_nothing() {
    let mut jukebox = Jukebox::new(GlobalSettings::default());
    assert!(matches!(jukebox.toggle_playback(), Effect::Nothing));
    assert_eq!(jukebox.sink_state(), PlaybackState::Stop);
    assert_eq!(jukebox.playback_queue().len(), 0);
}

#[test]
fn toggle_without_sink_plays_the_entry_at_the_index() {
    let mut jukebox = jukebox_with(&["s0.flac", "s1.flac"]);
    let effect = jukebox.toggle_playback();
    assert!(plays(&effect, "s0.flac"));
    assert_eq!(jukebox.sink_state(), PlaybackState::Stop);
    assert_eq!(current_marks(&jukebox), vec![false, false]);
    assert!(jukebox.song_opened(Ok(())).is_ok());
    assert_eq!(jukebox.sink_state(), PlaybackState::Play);
    assert_eq!(current_marks(&jukebox), vec![true, false]);
    assert_eq!(jukebox.playback_index(), 0);
}

#[test]
fn toggle_pauses_and_resumes() {
    let mut jukebox = playing(&["s0.flac"]);
    assert!(matches!(jukebox.toggle_playback(), Effect::PauseSink));
    assert_eq!(jukebox.sink_state(), PlaybackState::Pause);
    assert!(matches!(jukebox.toggle_playback(), Effect::ResumeSink));
    assert_eq!(jukebox.sink_state(), PlaybackState::Play);
    assert_eq!(current_marks(&jukebox), vec![true]);
}

#[test]
fn toggle_sink_playback_without_sink_does_nothing() {
    let mut jukebox = jukebox_with(&["s0.flac"]);
    assert!(matches!(jukebox.toggle_sink_playback(), Effect::Nothing));
    assert_eq!(jukebox.sink_state(), PlaybackState::Stop);
    let mut jukebox = playing(&["s0.flac"]);
    assert!(matches!(jukebox.toggle_sink_playback(), Effect::PauseSink));
    assert!(matches!(jukebox.toggle_sink_playback(), Effect::ResumeSink));
}

#[test]
fn playback_advances_at_the_end_of_a_track() {
    let mut jukebox = jukebox_with(&["s0.flac", "s1.flac"]);
    assert!(plays(&jukebox.toggle_playback(), "s0.flac"));
    assert!(jukebox.song_opened(Ok(())).is_ok());
    let effect = jukebox.update_time(TimeSpan::new(2, 100_000_000));
    assert!(plays(&effect, "s1.flac"));
    assert_eq!(jukebox.playback_index(), 1);
    assert!(jukebox.song_opened(Ok(())).is_ok());
    assert_eq!(jukebox.sink_state(), PlaybackState::Play);
    assert_eq!(current_marks(&jukebox), vec![false, true]);
}

#[test]
fn tick_before_the_end_changes_nothing() {
    let mut jukebox = playing(&["s0.flac", "s1.flac"]);
    assert!(matches!(jukebox.update_time(TimeSpan::new(1, 999_999_999)), Effect::Nothing));
    assert_eq!(jukebox.playback_index(), 0);
    assert_eq!(jukebox.sink_state(), PlaybackState::Play);
    assert_eq!(current_marks(&jukebox), vec![true, false]);
}

#[test]
fn tick_at_the_exact_end_advances() {
    let mut jukebox = playing(&["s0.flac", "s1.flac"]);
    assert!(plays(&jukebox.update_time(TimeSpan::new(2, 0)), "s1.flac"));
    assert_eq!(jukebox.playback_index(), 1);
}

#[test]
fn tick_while_paused_changes_nothing() {
    let mut jukebox = playing(&["s0.flac", "s1.flac"]);
    jukebox.toggle_playback();
    assert!(matches!(jukebox.update_time(TimeSpan::from_secs(10)), Effect::Nothing));
    assert_eq!(jukebox.playback_index(), 0);
    assert_eq!(jukebox.sink_state(), PlaybackState::Pause);
}

#[test]
fn tick_without_sink_changes_nothing() {
    let mut jukebox = jukebox_with(&["s0.flac", "s1.flac"]);
    assert!(matches!(jukebox.update_time(TimeSpan::from_secs(10)), Effect::Nothing));
    assert_eq!(jukebox.playback_index(), 0);
    assert_eq!(jukebox.sink_state(), PlaybackState::Stop);
}

#[test]
fn tick_in_empty_queue_changes_nothing() {
    let mut jukebox = Jukebox::new(GlobalSettings::default());
    assert!(matches!(jukebox.update_time(TimeSpan::zero()), Effect::Nothing));
    assert!(matches!(jukebox.update_time(TimeSpan::from_secs(100)), Effect::Nothing));
    assert_eq!(jukebox.sink_state(), PlaybackState::Stop);
    assert_eq!(jukebox.playback_index(), 0);
    assert_eq!(jukebox.playback_queue().len(), 0);
}

#[test]
fn end_of_single_track_replays_it() {
    let mut jukebox = playing(&["only.flac"]);
    let effect = jukebox.update_time(TimeSpan::new(2, 1));
    assert!(plays(&effect, "only.flac"));
    assert_eq!(jukebox.playback_index(), 0);
    assert!(jukebox.song_opened(Ok(())).is_ok());
    assert_eq!(jukebox.sink_state(), PlaybackState::Play);
    assert_eq!(current_marks(&jukebox), vec![true]);
}

#[test]
fn next_in_empty_queue_does_nothing() {
    let mut jukebox = Jukebox::new(GlobalSettings::default());
    assert!(matches!(jukebox.next_in_queue(), Effect::Nothing));
    assert_eq!(jukebox.playback_index(), 0);
    assert_eq!(jukebox.sink_state(), PlaybackState::Stop);
}

#[test]
fn next_moves_on_and_stops_at_the_last_entry() {
    let mut jukebox = jukebox_with(&["a.mp3", "b.mp3", "c.mp3"]);
    assert!(plays(&jukebox.next_in_queue(), "b.mp3"));
    assert_eq!(jukebox.playback_index(), 1);
    assert!(plays(&jukebox.next_in_queue(), "c.mp3"));
    assert_eq!(jukebox.playback_index(), 2);
    assert!(plays(&jukebox.next_in_queue(), "c.mp3"));
    assert_eq!(jukebox.playback_index(), 2);
}

#[test]
fn previous_moves_back_and_stops_at_the_first_entry() {
    let mut jukebox = jukebox_with(&["a.mp3", "b.mp3"]);
    jukebox.next_in_queue();
    assert!(plays(&jukebox.prev_in_queue(), "a.mp3"));
    assert_eq!(jukebox.playback_index(), 0);
    assert!(plays(&jukebox.prev_in_queue(), "a.mp3"));
    assert_eq!(jukebox.playback_index(), 0);
}

#[test]
fn previous_in_empty_queue_does_nothing() {
    let mut jukebox = Jukebox::new(GlobalSettings::default());
    assert!(matches!(jukebox.prev_in_queue(), Effect::Nothing));
    assert_eq!(jukebox.playback_index(), 0);
}

#[test]
fn next_while_paused_plays_again() {
    let mut jukebox = playing(&["a.mp3", "b.mp3"]);
    jukebox.toggle_playback();
    assert_eq!(jukebox.sink_state(), PlaybackState::Pause);
    assert!(plays(&jukebox.next_in_queue(), "b.mp3"));
    assert!(jukebox.song_opened(Ok(())).is_ok());
    assert_eq!(jukebox.sink_state(), PlaybackState::Play);
    assert_eq!(current_marks(&jukebox), vec![false, true]);
}

#[test]
fn failed_play_keeps_queue_and_index() {
    let mut jukebox = playing(&["a.mp3", "b.mp3"]);
    assert!(plays(&jukebox.next_in_queue(), "b.mp3"));
    let result = jukebox.song_opened(Err(JbError::IoError("no such file".to_string())));
    match result {
        Err(JbError::IoError(detail)) => assert_eq!(detail, "no such file"),
        _ => panic!("the failure was not handed on"),
    }
    assert_eq!(jukebox.sink_state(), PlaybackState::Stop);
    assert_eq!(jukebox.playback_index(), 1);
    assert_eq!(queued_paths(&jukebox), vec!["a.mp3", "b.mp3"]);
    assert_eq!(current_marks(&jukebox), vec![true, false]);
}

#[test]
fn toggle_after_failed_play_tries_again() {
    let mut jukebox = jukebox_with(&["a.mp3"]);
    assert!(plays(&jukebox.toggle_playback(), "a.mp3"));
    assert!(jukebox
        .song_opened(Err(JbError::AudioFileError("not audio".to_string())))
        .is_err());
    assert!(plays(&jukebox.toggle_playback(), "a.mp3"));
}

#[test]
fn song_opened_in_empty_queue_holds_no_sink() {
    let mut jukebox = Jukebox::new(GlobalSettings::default());
    assert!(jukebox.song_opened(Ok(())).is_ok());
    assert_eq!(jukebox.sink_state(), PlaybackState::Stop);
}

#[test]
fn kill_sink_lets_go_of_a_held_sink() {
    let mut jukebox = playing(&["a.mp3"]);
    assert!(matches!(jukebox.kill_sink(), Effect::DropSink));
    assert_eq!(jukebox.sink_state(), PlaybackState::Stop);
    assert!(matches!(jukebox.kill_sink(), Effect::Nothing));
    assert_eq!(jukebox.sink_state(), PlaybackState::Stop);
    assert_eq!(queued_paths(&jukebox), vec!["a.mp3"]);
}

#[test]
fn play_song_from_queue_lets_go_of_the_sink_first() {
    let mut jukebox = playing(&["a.mp3"]);
    assert!(plays(&jukebox.play_song_from_queue(), "a.mp3"));
    assert_eq!(jukebox.sink_state(), PlaybackState::Stop);
    assert_eq!(current_marks(&jukebox), vec![true]);
}

#[test]
fn reorder_song_in_queue_moves_an_entry() {
    let mut jukebox = jukebox_with(&["a.mp3", "b.mp3", "c.mp3"]);
    assert!(jukebox.reorder_song_in_queue(2, 0));
    assert_eq!(queued_paths(&jukebox), vec!["c.mp3", "a.mp3", "b.mp3"]);
    assert!(!jukebox.reorder_song_in_queue(3, 0));
    assert_eq!(queued_paths(&jukebox), vec!["c.mp3", "a.mp3", "b.mp3"]);
}

#[test]
fn pick_enqueues_a_song_of_the_catalog() {
    let mut library = Library::new();
    let id = library.insert_song(track("picked.ogg", 5));
    let mut jukebox = Jukebox::new(GlobalSettings::default());
    assert!(jukebox.pick(&library, id));
    assert_eq!(queued_paths(&jukebox), vec!["picked.ogg"]);
    assert_eq!(jukebox.sink_state(), PlaybackState::Stop);
    assert!(plays(&jukebox.toggle_playback(), "picked.ogg"));
}

#[test]
fn pick_of_an_unknown_song_does_nothing() {
    let library = Library::new();
    let mut jukebox = jukebox_with(&["a.mp3"]);
    assert!(!jukebox.pick(&library, 12345));
    assert_eq!(queued_paths(&jukebox), vec!["a.mp3"]);
}

#[test]
fn update_dispatches_playback_commands() {
    let library = Library::new();
    let mut jukebox = jukebox_with(&["a.mp3", "b.mp3"]);
    assert!(plays(&jukebox.update(&library, Message::TogglePlayback), "a.mp3"));
    assert!(matches!(
        jukebox.update(&library, Message::SongOpened(Ok(()))),
        Effect::Nothing
    ));
    assert_eq!(jukebox.sink_state(), PlaybackState::Play);
    assert!(matches!(jukebox.update(&library, Message::TogglePlayback), Effect::PauseSink));
    assert!(plays(&jukebox.update(&library, Message::NextSong), "b.mp3"));
    assert_eq!(jukebox.playback_index(), 1);
    assert!(plays(&jukebox.update(&library, Message::PreviousSong), "a.mp3"));
    assert_eq!(jukebox.playback_index(), 0);
    let failure = Message::SongOpened(Err(JbError::AudioDeviceError("no device".to_string())));
    assert!(matches!(jukebox.update(&library, failure), Effect::Nothing));
    assert_eq!(jukebox.sink_state(), PlaybackState::Stop);
}

#[test]
fn update_dispatches_ticks() {
    let library = Library::new();
    let mut jukebox = playing(&["a.mp3", "b.mp3"]);
    assert!(matches!(
        jukebox.update(&library, Message::TickUpdate(TimeSpan::from_secs(1))),
        Effect::Nothing
    ));
    assert!(plays(
        &jukebox.update(&library, Message::TickUpdate(TimeSpan::from_secs(3))),
        "b.mp3"
    ));
    assert_eq!(jukebox.playback_index(), 1);
}

#[test]
fn update_enqueues_and_picks() {
    let mut library = Library::new();
    let id = library.insert_song(track("picked.ogg", 5));
    let mut jukebox = Jukebox::new(GlobalSettings::default());
    assert!(matches!(
        jukebox.update(&library, Message::EnqueueBack(track("given.mp3", 1))),
        Effect::Nothing
    ));
    assert!(matches!(jukebox.update(&library, Message::PickSong(id)), Effect::Nothing));
    assert!(matches!(jukebox.update(&library, Message::PickSong(id ^ 1)), Effect::Nothing));
    assert_eq!(queued_paths(&jukebox), vec!["given.mp3", "picked.ogg"]);
    assert_eq!(jukebox.sink_state(), PlaybackState::Stop);
}

#[test]
fn update_asks_the_host_for_scan_load_and_save() {
    let library = Library::new();
    let settings = GlobalSettings {
        folder_to_scan: "/music".to_string(),
        library_file: "/data/lib.toml".to_string(),
    };
    let mut jukebox = Jukebox::new(settings);
    match jukebox.update(&library, Message::Scan) {
        Effect::ScanAndSave { folder_to_scan, library_file } => {
            assert_eq!(folder_to_scan, "/music");
            assert_eq!(library_file, "/data/lib.toml");
        },
        _ => panic!("a scan was not asked for"),
    }
    match jukebox.update(&library, Message::LoadLibrary) {
        Effect::LoadLibrary { library_file } => assert_eq!(library_file, "/data/lib.toml"),
        _ => panic!("a load was not asked for"),
    }
    match jukebox.update(&library, Message::SaveLibrary) {
        Effect::SaveLibrary { library_file } => assert_eq!(library_file, "/data/lib.toml"),
        _ => panic!("a save was not asked for"),
    }
}

#[test]
fn update_ignores_completion_reports() {
    let library = Library::new();
    let mut jukebox = playing(&["a.mp3"]);
    assert!(matches!(jukebox.update(&library, Message::ScanComplete(Ok(()))), Effect::Nothing));
    assert!(matches!(
        jukebox.update(&library, Message::ScanComplete(Err("disk full".to_string()))),
        Effect::Nothing
    ));
    assert!(matches!(jukebox.update(&library, Message::LoadComplete(Ok(()))), Effect::Nothing));
    assert!(matches!(
        jukebox.update(&library, Message::LoadComplete(Err("no file".to_string()))),
        Effect::Nothing
    ));
    assert_eq!(jukebox.sink_state(), PlaybackState::Play);
    assert_eq!(queued_paths(&jukebox), vec!["a.mp3"]);
    assert_eq!(jukebox.playback_index(), 0);
}

#[test]
fn update_saves_settings() {
    let library = Library::new();
    let mut jukebox = playing(&["a.mp3"]);
    let settings = GlobalSettings {
        folder_to_scan: "/other".to_string(),
        library_file: "other.toml".to_string(),
    };
    assert!(matches!(jukebox.update(&library, Message::SaveSettings(settings)), Effect::Nothing));
    assert_eq!(jukebox.global_settings().folder_to_scan, "/other");
    assert_eq!(jukebox.global_settings().library_file, "other.toml");
    assert_eq!(jukebox.sink_state(), PlaybackState::Play);
    assert_eq!(queued_paths(&jukebox), vec!["a.mp3"]);
}

#[test]
fn playback_state_compares_by_variant() {
    assert_eq!(PlaybackState::Play, PlaybackState::Play);
    assert_ne!(PlaybackState::Play, PlaybackState::Pause);
    assert_ne!(PlaybackState::Pause, PlaybackState::Stop);
    let copy = PlaybackState::Stop;
    assert_eq!(copy.clone(), PlaybackState::Stop);
}
