use emp::ipc::{PlayStatus, Response};
use emp::player::{cover_file_name, Command, Core, CoverFormat, Effect, MediaEvent, TrackTags};
use emp::time::Span;

fn core_with(names: &[&str]) -> Core {
    let mut c = Core::new();
    for n in names {
        let out = c.daemon_event_handle(Command::Append(n.to_string()));
        assert_eq!(out.response, Response::Success);
        assert!(out.effects.is_empty());
    }
    c
}

/// Hands back every effect, as the program does once each piece of work succeeded.
fn perform(c: &mut Core, effects: &[Effect]) {
    for e in effects {
        c.commit(e);
    }
}

fn secs(s: u64) -> Span {
    Span::from_parts(s, 0)
}

#[test]
fn ping_answers_pong() {
    let mut c = Core::new();
    let out = c.daemon_event_handle(Command::Ping);
    assert_eq!(out.response, Response::Pong);
    assert!(out.effects.is_empty());
}

#[test]
fn play_with_empty_playlist_is_refused() {
    let mut c = Core::new();
    let out = c.daemon_event_handle(Command::Play(None));
    assert_eq!(out.response, Response::Error("没有音乐".to_string()));
    assert!(out.effects.is_empty());
    assert!(!c.is_playing);
}

#[test]
fn play_loads_first_song_from_start() {
    let mut c = core_with(&["a.mp3", "b.mp3"]);
    let out = c.daemon_event_handle(Command::Play(None));
    assert_eq!(out.response, Response::Success);
    assert_eq!(
        out.effects,
        vec![
            Effect::ShowPlaying { progress: Span::zero() },
            Effect::MarkPlaying,
            Effect::LoadAndPlay { path: "a.mp3".to_string() }
        ]
    );
    assert!(!c.is_playing);
    perform(&mut c, &out.effects);
    assert!(c.is_playing);
}

#[test]
fn pause_then_play_resumes() {
    let mut c = core_with(&["a.mp3"]);
    let out = c.daemon_event_handle(Command::Play(None));
    perform(&mut c, &out.effects);
    for _ in 0..40 {
        assert!(c.tick().is_empty());
    }
    assert_eq!(c.playing_time, secs(1));
    let out = c.daemon_event_handle(Command::Pause);
    assert_eq!(out.response, Response::Success);
    assert_eq!(out.effects, vec![Effect::PausePlayer, Effect::ShowPaused { progress: secs(1) }]);
    assert!(!c.is_playing);
    assert!(c.tick().is_empty());
    assert_eq!(c.playing_time, secs(1));
    let out = c.media_event_handle(MediaEvent::Toggle { player_paused: true });
    assert_eq!(
        out.effects,
        vec![Effect::ShowPlaying { progress: secs(1) }, Effect::MarkPlaying, Effect::Resume { path: "a.mp3".to_string() }]
    );
}

#[test]
fn toggle_while_playing_pauses() {
    let mut c = core_with(&["a.mp3"]);
    let out = c.daemon_event_handle(Command::Play(None));
    perform(&mut c, &out.effects);
    assert!(c.is_playing);
    let out = c.media_event_handle(MediaEvent::Toggle { player_paused: false });
    assert_eq!(out.effects, vec![Effect::PausePlayer, Effect::ShowPaused { progress: Span::zero() }]);
    assert!(!c.is_playing);
}

#[test]
fn next_and_previous_restart_from_zero() {
    let mut c = core_with(&["a", "b", "c"]);
    let out = c.daemon_event_handle(Command::Play(None));
    perform(&mut c, &out.effects);
    c.tick();
    let out = c.daemon_event_handle(Command::Next);
    assert_eq!(out.effects[2], Effect::LoadAndPlay { path: "b".to_string() });
    let out = c.daemon_event_handle(Command::Previous);
    assert_eq!(out.effects[2], Effect::LoadAndPlay { path: "a".to_string() });
    let out = c.media_event_handle(MediaEvent::Previous);
    assert_eq!(out.effects[2], Effect::LoadAndPlay { path: "c".to_string() });
    let out = c.media_event_handle(MediaEvent::Next);
    assert_eq!(out.effects[2], Effect::LoadAndPlay { path: "a".to_string() });
}

#[test]
fn seek_plays_from_target() {
    let mut c = core_with(&["a"]);
    let out = c.daemon_event_handle(Command::Seek(Some(secs(30))));
    assert_eq!(out.response, Response::Success);
    assert_eq!(
        out.effects,
        vec![
            Effect::ShowPlaying { progress: secs(30) },
            Effect::MarkPlaying,
            Effect::SeekAndPlay { path: "a".to_string(), position: secs(30) },
            Effect::ClearSeek,
        ]
    );
    assert!(c.is_seek);
    perform(&mut c, &out.effects);
    assert!(!c.is_seek);
    assert!(c.is_playing);
    assert_eq!(c.playing_time, secs(30));
}

#[test]
fn invalid_seek_is_refused() {
    let mut c = core_with(&["a"]);
    let out = c.daemon_event_handle(Command::Seek(None));
    assert_eq!(out.response, Response::Error("无效的跳转时间".to_string()));
    assert!(out.effects.is_empty());
    let out = c.media_event_handle(MediaEvent::SeekBackward);
    assert_eq!(out.response, Response::Error("无效的跳转时间".to_string()));
    assert!(!c.is_seek);
}

#[test]
fn media_seek_forward_goes_to_five_seconds() {
    let mut c = core_with(&["a"]);
    let out = c.media_event_handle(MediaEvent::SeekForward);
    assert_eq!(out.effects[2], Effect::SeekAndPlay { path: "a".to_string(), position: secs(5) });
    perform(&mut c, &out.effects);
    let out = c.media_event_handle(MediaEvent::SetPosition(secs(42)));
    assert_eq!(out.effects[2], Effect::SeekAndPlay { path: "a".to_string(), position: secs(42) });
}

#[test]
fn seek_without_songs_waits_for_next_play() {
    let mut c = Core::new();
    let out = c.daemon_event_handle(Command::Seek(Some(secs(3))));
    assert_eq!(out.response, Response::Error("没有音乐".to_string()));
    assert!(c.is_seek);
    let out = c.daemon_event_handle(Command::Play(Some("x".to_string())));
    assert_eq!(out.effects[2], Effect::SeekAndPlay { path: "x".to_string(), position: Span::zero() });
    assert_eq!(out.effects[3], Effect::ClearSeek);
}

#[test]
fn play_with_path_plays_that_file() {
    let mut c = core_with(&["a", "b"]);
    let out = c.daemon_event_handle(Command::Play(Some("new".to_string())));
    assert_eq!(out.response, Response::Success);
    assert_eq!(
        out.effects,
        vec![
            Effect::ShowPlaying { progress: Span::zero() },
            Effect::MarkPlaying,
            Effect::LoadAndPlay { path: "new".to_string() }
        ]
    );
    let out = c.daemon_event_handle(Command::Next);
    assert_eq!(out.effects[2], Effect::LoadAndPlay { path: "b".to_string() });
}

#[test]
fn status_placeholder_without_tags() {
    let mut c = core_with(&["a"]);
    let out = c.daemon_event_handle(Command::Play(None));
    perform(&mut c, &out.effects);
    c.track_loaded(Some(Span::from_parts(180, 500)), None);
    for _ in 0..100 {
        c.tick();
    }
    let out = c.daemon_event_handle(Command::Status);
    assert_eq!(
        out.response,
        Response::Status(PlayStatus {
            playing: true,
            position: 2,
            duration: 180,
            cover: None,
            music_name: "Unknow".to_string(),
            artist: "Unknow".to_string(),
        })
    );
}

#[test]
fn status_from_tags() {
    let mut c = core_with(&["a"]);
    let out = c.daemon_event_handle(Command::Play(None));
    perform(&mut c, &out.effects);
    c.track_loaded(
        Some(secs(200)),
        Some(TrackTags { title: Some("Song".to_string()), artist: None, cover: Some("/tmp/bmusic-cover.jpg".to_string()) }),
    );
    c.daemon_event_handle(Command::Pause);
    let s = c.send_status();
    assert_eq!(
        s,
        PlayStatus {
            playing: false,
            position: 0,
            duration: 200,
            cover: Some("/tmp/bmusic-cover.jpg".to_string()),
            music_name: "Song".to_string(),
            artist: "Unknown Artist".to_string(),
        }
    );
    c.track_loaded(None, Some(TrackTags { title: None, artist: Some("Band".to_string()), cover: None }));
    let s = c.send_status();
    assert_eq!(s.music_name, "Unknown");
    assert_eq!(s.artist, "Band");
    assert_eq!(s.duration, 0);
}

#[test]
fn song_end_goes_to_next_song() {
    let mut c = core_with(&["a", "b"]);
    let out = c.daemon_event_handle(Command::Play(None));
    perform(&mut c, &out.effects);
    c.track_loaded(Some(Span::from_millis(50)), None);
    assert!(c.tick().is_empty());
    let effects = c.tick();
    assert_eq!(
        effects,
        vec![
            Effect::PausePlayer,
            Effect::ShowPaused { progress: Span::from_millis(50) },
            Effect::ShowPlaying { progress: Span::zero() },
            Effect::MarkPlaying,
            Effect::LoadAndPlay { path: "b".to_string() },
        ]
    );
    assert!(!c.is_playing);
    perform(&mut c, &effects);
    assert!(c.is_playing);
    assert_eq!(c.playing_time, Span::zero());
}

#[test]
fn failed_work_leaves_play_uncommitted() {
    let mut c = core_with(&["a"]);
    c.daemon_event_handle(Command::Seek(Some(secs(7))));
    // Only the controls were updated before the work failed.
    assert!(!c.is_playing);
    assert!(c.is_seek);
    c.commit(&Effect::MarkPlaying);
    assert!(c.is_playing);
    assert!(c.is_seek);
    c.commit(&Effect::ApplyVolume);
    assert!(c.is_seek);
}

#[test]
fn volume_and_quit() {
    let mut c = core_with(&["a"]);
    let out = c.daemon_event_handle(Command::SetVolume);
    assert_eq!(out.response, Response::Success);
    assert_eq!(out.effects, vec![Effect::ApplyVolume]);
    let out = c.media_event_handle(MediaEvent::SetVolume);
    assert_eq!(out.effects, vec![Effect::ApplyVolume]);
    assert!(c.running);
    let out = c.daemon_event_handle(Command::Quit);
    assert_eq!(out.response, Response::Success);
    assert!(!c.running);
}

#[test]
fn unsupported_media_event_is_answered_with_error() {
    let mut c = Core::new();
    let out = c.media_event_handle(MediaEvent::Unsupported("Raise".to_string()));
    assert_eq!(out.response, Response::Error("Not Set Raise".to_string()));
    assert!(out.effects.is_empty());
}

#[test]
fn cover_file_names() {
    assert_eq!(cover_file_name(Some(CoverFormat::Jpeg)), "bmusic-cover.jpg");
    assert_eq!(cover_file_name(Some(CoverFormat::Png)), "bmusic-cover.png");
    assert_eq!(cover_file_name(Some(CoverFormat::Other)), "bmusic-cover.png");
    assert_eq!(cover_file_name(None), "bmusic-cover.png");
}
