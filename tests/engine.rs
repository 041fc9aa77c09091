use rustplayer::playlist::file_name_of;
use rustplayer::probe::{accept_probe, is_mp3_path};
use rustplayer::{InputMode, MusicPlayer, PlayError, PlayStatus, ProbeReport, SinkCommand};

const SEC: u64 = 1_000_000_000;

fn probe_missing_mp3(path: &str) -> ProbeReport {
    match mp3_duration::from_path(path) {
        Ok(d) => ProbeReport::Complete(d.as_nanos() as u64),
        Err(e) => ProbeReport::Partial(e.at_duration.as_nanos() as u64),
    }
}

fn loaded(paths: &[&str], duration: u64) -> MusicPlayer {
    let mut p = MusicPlayer::new();
    for path in paths {
        assert!(p.add_to_list(path.to_string(), ProbeReport::Complete(duration), true, false, 0));
    }
    p
}

#[test]
fn enqueue_missing_path_changes_nothing() {
    let mut p = loaded(&["/music/a.mp3"], 10 * SEC);
    let report = probe_missing_mp3("/surely/not/here.mp3");
    assert_eq!(report, ProbeReport::Partial(0));
    assert!(!p.add_to_list("/surely/not/here.mp3".to_string(), report, false, false, SEC));
    assert_eq!(p.play_list().lists.len(), 1);
    assert_eq!(p.playing_song().unwrap().path, "/music/a.mp3");
    assert_eq!(
        p.play_with_file("/surely/not/here.mp3".to_string(), report, false, false, SEC),
        Err(PlayError::NotPlayable)
    );
    assert_eq!(
        p.play_with_file("/x/unreadable.ogg".to_string(), ProbeReport::Complete(SEC), false, true, SEC),
        Err(PlayError::IoError)
    );
    assert_eq!(p.play_list().lists.len(), 1);
    assert_eq!(p.playing_song().unwrap().path, "/music/a.mp3");
}

#[test]
fn exclusive_enqueue_replaces_queue() {
    let mut p = loaded(&["/m/a.mp3", "/m/b.mp3"], 10 * SEC);
    assert_eq!(p.play_list().lists.len(), 2);
    p.take_commands();
    assert!(p.add_to_list("/m/c.flac".to_string(), ProbeReport::Complete(4 * SEC), true, true, 7));
    assert_eq!(p.play_list().lists.len(), 1);
    let front = p.playing_song().unwrap();
    assert_eq!(front.name, "c.flac");
    assert_eq!(front.status, PlayStatus::Playing(7, 0));
    assert!(p.is_playing());
    assert_eq!(
        p.take_commands(),
        vec![SinkCommand::Stop, SinkCommand::Replace("/m/c.flac".to_string()), SinkCommand::Play]
    );
}

#[test]
fn repetition_keeps_front_until_last_play() {
    let mut p = MusicPlayer::new();
    assert!(p.adjust_repetition(true));
    assert!(p.adjust_repetition(true));
    assert_eq!(p.repetition(), 3);
    assert!(p.add_to_list("/m/a.mp3".to_string(), ProbeReport::Complete(SEC), true, false, 0));
    assert!(p.add_to_list("/m/b.mp3".to_string(), ProbeReport::Complete(SEC), true, false, 0));
    assert_eq!(p.playing_song().unwrap().repetition, 3);
    assert!(p.next(1));
    assert_eq!(p.playing_song().unwrap().path, "/m/a.mp3");
    assert_eq!(p.playing_song().unwrap().repetition, 2);
    assert!(p.next(2));
    assert_eq!(p.playing_song().unwrap().path, "/m/a.mp3");
    assert_eq!(p.playing_song().unwrap().repetition, 1);
    assert!(p.next(3));
    assert_eq!(p.play_list().lists.len(), 1);
    assert_eq!(p.playing_song().unwrap().path, "/m/b.mp3");
    assert_eq!(p.playing_song().unwrap().status, PlayStatus::Playing(3, 0));
}

#[test]
fn paused_time_is_not_counted() {
    let mut p = loaded(&["/m/ten.mp3"], 10 * SEC);
    assert_eq!(p.playing_song().unwrap().status, PlayStatus::Playing(0, 0));
    assert!(p.pause(3 * SEC));
    assert_eq!(p.playing_song().unwrap().status, PlayStatus::Stopped(3 * SEC));
    assert!(!p.is_playing());
    p.tick(6 * SEC);
    assert_eq!(p.current_time(), 3 * SEC);
    assert!(p.resume(8 * SEC));
    p.tick(10 * SEC);
    assert_eq!(p.current_time(), 5 * SEC);
    assert_eq!(p.total_time(), 10 * SEC);
    assert_eq!(p.play_list().lists.len(), 1);
}

#[test]
fn tick_at_end_advances_once() {
    let mut p = loaded(&["/m/a.mp3", "/m/b.mp3", "/m/c.mp3"], 10 * SEC);
    p.take_commands();
    p.tick(25 * SEC);
    assert_eq!(p.play_list().lists.len(), 2);
    assert_eq!(p.playing_song().unwrap().path, "/m/b.mp3");
    assert_eq!(p.playing_song().unwrap().status, PlayStatus::Playing(25 * SEC, 0));
    assert_eq!(
        p.take_commands(),
        vec![SinkCommand::Stop, SinkCommand::Reload("/m/b.mp3".to_string()), SinkCommand::Play]
    );
    p.tick(26 * SEC);
    assert_eq!(p.play_list().lists.len(), 2);
    assert_eq!(p.current_time(), SEC);
}

#[test]
fn tick_at_end_of_last_track_empties_queue() {
    let mut p = loaded(&["/m/a.mp3"], 10 * SEC);
    p.take_commands();
    p.tick(10 * SEC);
    assert!(p.playing_song().is_none());
    assert!(!p.is_playing());
    assert_eq!(p.take_commands(), vec![SinkCommand::Stop]);
    p.tick(11 * SEC);
    assert_eq!(p.take_commands(), vec![SinkCommand::Stop]);
}

#[test]
fn next_on_empty_queue_fails_and_changes_nothing() {
    let mut p = MusicPlayer::new();
    assert!(!p.next(5));
    assert!(!p.is_initialized());
    assert_eq!(p.current_time(), 0);
    assert_eq!(p.total_time(), 0);
    assert!(p.take_commands().is_empty());

    let mut q = loaded(&["/m/a.mp3"], 10 * SEC);
    q.tick(4 * SEC);
    q.tick(10 * SEC);
    q.take_commands();
    assert!(!q.next(12 * SEC));
    assert!(q.is_initialized());
    assert_eq!(q.current_time(), 4 * SEC);
    assert_eq!(q.total_time(), 10 * SEC);
    assert!(q.take_commands().is_empty());
}

#[test]
fn appending_does_not_interrupt() {
    let mut p = loaded(&["/m/a.mp3"], 10 * SEC);
    assert_eq!(
        p.take_commands(),
        vec![SinkCommand::Stop, SinkCommand::Replace("/m/a.mp3".to_string()), SinkCommand::Play]
    );
    assert!(p.add_to_list("/m/b.mp3".to_string(), ProbeReport::Complete(SEC), true, false, 2 * SEC));
    assert_eq!(p.take_commands(), vec![SinkCommand::Play]);
    assert_eq!(p.play_list().lists.len(), 2);
    assert_eq!(p.play_list().lists[1].status, PlayStatus::Waiting);
    assert_eq!(p.current_time(), 2 * SEC);
}

#[test]
fn play_starts_and_resumes() {
    let mut p = loaded(&["/m/a.mp3"], 10 * SEC);
    assert!(p.play(4 * SEC));
    assert_eq!(p.playing_song().unwrap().status, PlayStatus::Playing(0, 0));
    assert!(p.pause(5 * SEC));
    assert!(p.pause(6 * SEC));
    assert_eq!(p.playing_song().unwrap().status, PlayStatus::Stopped(5 * SEC));
    assert!(p.play(9 * SEC));
    assert_eq!(p.playing_song().unwrap().status, PlayStatus::Playing(9 * SEC, 5 * SEC));
    assert!(p.resume(9 * SEC));
    assert_eq!(p.playing_song().unwrap().status, PlayStatus::Playing(9 * SEC, 5 * SEC));
    assert!(p.stop());
    assert_eq!(p.playing_song().unwrap().status, PlayStatus::Playing(9 * SEC, 5 * SEC));
}

#[test]
fn next_past_last_track_leaves_empty_queue() {
    let mut p = MusicPlayer::new();
    assert!(p.add_to_list("/m/a.mp3".to_string(), ProbeReport::Complete(SEC), true, false, 0));
    assert!(p.next(1));
    assert!(p.playing_song().is_none());
    assert!(p.is_initialized());
    assert!(!p.play(2));
}

#[test]
fn repetition_floor_is_one() {
    let mut p = MusicPlayer::new();
    assert_eq!(p.repetition(), 1);
    assert!(p.adjust_repetition(false));
    assert_eq!(p.repetition(), 1);
    assert!(p.adjust_repetition(true));
    assert!(p.add_to_list("/m/a.mp3".to_string(), ProbeReport::Complete(SEC), true, false, 0));
    assert!(p.adjust_repetition(false));
    assert_eq!(p.repetition(), 1);
    assert_eq!(p.playing_song().unwrap().repetition, 2);
}

#[test]
fn probe_reports_decide_duration() {
    assert_eq!(accept_probe(ProbeReport::Complete(7)), Ok(7));
    assert_eq!(accept_probe(ProbeReport::Complete(0)), Ok(0));
    assert_eq!(accept_probe(ProbeReport::Partial(3)), Ok(3));
    assert_eq!(accept_probe(ProbeReport::Partial(0)), Err(PlayError::NotPlayable));
    assert_eq!(accept_probe(ProbeReport::Unknown), Err(PlayError::NotPlayable));
}

#[test]
fn mp3_paths_are_recognised() {
    assert!(is_mp3_path("/m/song.mp3"));
    assert!(is_mp3_path(".mp3"));
    assert!(!is_mp3_path("/m/song.MP3"));
    assert!(!is_mp3_path("/m/song.flac"));
    assert!(!is_mp3_path("mp3"));
    assert!(!is_mp3_path(""));
}

#[test]
fn file_names_come_from_last_component() {
    assert_eq!(file_name_of("/home/u/Music/Song One.mp3"), "Song One.mp3");
    assert_eq!(file_name_of("plain.ogg"), "plain.ogg");
    assert_eq!(file_name_of("/dir/"), "");
    assert_eq!(file_name_of("/é/ü.wav"), "ü.wav");
}

#[test]
fn elapsed_saturates() {
    assert_eq!(PlayStatus::Playing(5, 2).elapsed(9), 6);
    assert_eq!(PlayStatus::Playing(9, 2).elapsed(5), 2);
    assert_eq!(PlayStatus::Playing(0, u64::MAX - 1).elapsed(5), u64::MAX);
    assert_eq!(PlayStatus::Stopped(4).elapsed(100), 4);
    assert_eq!(PlayStatus::Waiting.elapsed(100), 0);
}

#[test]
fn new_engine_is_empty() {
    let p = MusicPlayer::new();
    assert!(p.playing_song().is_none());
    assert!(!p.is_playing());
    assert_eq!(InputMode::Normal, InputMode::Normal);
}
