use vstd::prelude::*;

use crate::ipc::{PlayStatus, Response};
use crate::manager::{next_cursor, previous_cursor, MusicManager};
use crate::time::{capped_sum, span_of, Span};
use vstd::string::StringExecFns;

verus! {

/// Work on the audio device and the media controls that a decision asks for,
/// in the order given.
#[derive(Debug, PartialEq, Eq)]
pub enum Effect {
    /// Pause the audio player.
    PausePlayer,
    /// Show the media controls as paused at `progress`.
    ShowPaused { progress: Span },
    /// Show the media controls as playing from `progress`.
    ShowPlaying { progress: Span },
    /// Decode `path`, seek to `position`, and restart the player on it.
    SeekAndPlay { path: String, position: Span },
    /// Decode `path` (which must still open) and resume the player where it stopped.
    Resume { path: String },
    /// Decode `path` from the start, read its tags and report them with
    /// `Core::track_loaded`, then restart the player on it.
    LoadAndPlay { path: String },
    /// Set the player's volume to the one that came with the request.
    ApplyVolume,
    /// Record that the daemon plays: hand back to `Core::commit` once the
    /// work before it succeeded.
    MarkPlaying,
    /// Record that the pending seek was carried out: hand back to
    /// `Core::commit` once the work before it succeeded.
    ClearSeek,
}

/// A request of a client, as the daemon acts on it. A seek carries its target,
/// or `None` where the requested time was negative or not a number.
#[derive(Debug, PartialEq, Eq)]
pub enum Command {
    Ping,
    Pause,
    Play(Option<String>),
    Next,
    Previous,
    Append(String),
    Seek(Option<Span>),
    SetVolume,
    Status,
    Quit,
}

/// An event of the system's media controls.
#[derive(Debug, PartialEq, Eq)]
pub enum MediaEvent {
    Play,
    Pause,
    Previous,
    Next,
    /// A seek backward.
    SeekBackward,
    /// A seek forward.
    SeekForward,
    SetPosition(Span),
    /// Play/pause, with whether the player is paused now.
    Toggle { player_paused: bool },
    SetVolume,
    /// An event the daemon does not handle, with its debug text.
    Unsupported(String),
}

/// The answer to send and the work to do.
#[derive(Debug)]
pub struct Outcome {
    pub response: Response,
    pub effects: Vec<Effect>,
}

/// What the tags of a loaded song give.
#[derive(Debug, PartialEq, Eq)]
pub struct TrackTags {
    pub title: Option<String>,
    pub artist: Option<String>,
    /// Where the cover picture was saved, if there is one.
    pub cover: Option<String>,
}

/// The picture formats that decide the cover file's extension.
#[derive(Debug, Clone, Copy, PartialEq, Eq)]
pub enum CoverFormat {
    Jpeg,
    Png,
    Other,
}

/// The file name of a saved cover picture: a JPEG picture is saved as `.jpg`;
/// a PNG picture, one of another format and one without a format as `.png`.
pub fn cover_file_name(format: Option<CoverFormat>) -> (name: &'static str)
    ensures
        format == Some(CoverFormat::Jpeg) ==> name@ == "bmusic-cover.jpg"@,
        format != Some(CoverFormat::Jpeg) ==> name@ == "bmusic-cover.png"@,
{
    match format {
        Some(CoverFormat::Jpeg) => "bmusic-cover.jpg",
        Some(CoverFormat::Png) => "bmusic-cover.png",
        Some(CoverFormat::Other) => "bmusic-cover.png",
        None => "bmusic-cover.png",
    }
}

/// The decisions of the daemon: the playlist, the playing position and what
/// it knows of the song that plays.
pub struct Core {
    pub music_manager: MusicManager,
    /// How far the current song has played.
    pub playing_time: Span,
    pub play_status: Option<PlayStatus>,
    /// How long the loaded song lasts, where the decoder knew.
    pub total_duration: Option<Span>,
    pub is_playing: bool,
    /// A seek waits to be carried out by the next play.
    pub is_seek: bool,
    /// The daemon keeps serving.
    pub running: bool,
}

/// What the proofs see of a `Core`.
#[verifier::ext_equal]
pub struct CoreView {
    pub playlist: Seq<String>,
    pub cursor: int,
    pub playing_time: Span,
    pub play_status: Option<PlayStatus>,
    pub total_duration: Option<Span>,
    pub is_playing: bool,
    pub is_seek: bool,
    pub running: bool,
}

impl View for Core {
    type V = CoreView;

    open spec fn view(&self) -> CoreView {
        CoreView {
            playlist: self.music_manager.playlist(),
            cursor: self.music_manager.cursor(),
            playing_time: self.playing_time,
            play_status: self.play_status,
            total_duration: self.total_duration,
            is_playing: self.is_playing,
            is_seek: self.is_seek,
            running: self.running,
        }
    }
}

/// The message of a play with nothing to play.
pub open spec fn no_music_message() -> Seq<char> {
    "没有音乐"@
}

/// The message of a seek to a negative time or to one that is not a number.
pub open spec fn bad_seek_message() -> Seq<char> {
    "无效的跳转时间"@
}

/// The message for a media event that is not handled.
pub open spec fn unsupported_message(debug: Seq<char>) -> Seq<char> {
    "Not Set "@ + debug
}

/// The response is an error with message `msg`.
pub open spec fn is_error_with(r: Response, msg: Seq<char>) -> bool {
    r matches Response::Error(m) && m@ == msg
}

/// The empty span.
pub open spec fn zero_span() -> Span {
    Span { secs: 0, nanos: 0 }
}

/// How far the position moves on each tick of the daemon's loop: 25 ms.
pub open spec fn tick_span() -> Span {
    Span { secs: 0, nanos: 25_000_000 }
}

/// The song under the cursor.
pub open spec fn current_song(v: CoreView) -> Option<String> {
    if 0 <= v.cursor < v.playlist.len() {
        Some(v.playlist[v.cursor])
    } else {
        None
    }
}

/// How a play starts `path`: at the pending seek target, by resuming where
/// a song stopped, or by loading the song from its start.
pub open spec fn play_plan(v: CoreView, path: String) -> Effect {
    if v.is_seek {
        Effect::SeekAndPlay { path, position: v.playing_time }
    } else if v.playing_time.total() != 0 {
        Effect::Resume { path }
    } else {
        Effect::LoadAndPlay { path }
    }
}

/// The state once all the work of a play succeeded: playing, the seek done;
/// unchanged with nothing to play.
pub open spec fn after_play(v: CoreView) -> CoreView {
    if current_song(v) is Some {
        CoreView { is_playing: true, is_seek: false, ..v }
    } else {
        v
    }
}

/// The work of a play: show the controls as playing, record that the daemon
/// plays, start the song, and record a pending seek as done once the song
/// was started there.
pub open spec fn play_effects(v: CoreView) -> Seq<Effect> {
    match current_song(v) {
        Some(path) => seq![
            Effect::ShowPlaying { progress: v.playing_time },
            Effect::MarkPlaying,
            play_plan(v, path),
        ] + if v.is_seek {
            seq![Effect::ClearSeek]
        } else {
            seq![]
        },
        None => seq![],
    }
}

/// The state once `e` was carried out and handed back.
pub open spec fn commit(v: CoreView, e: Effect) -> CoreView {
    match e {
        Effect::MarkPlaying => CoreView { is_playing: true, ..v },
        Effect::ClearSeek => CoreView { is_seek: false, ..v },
        _ => v,
    }
}

/// The state once all of `es` was carried out and handed back, in order.
pub open spec fn commit_all(v: CoreView, es: Seq<Effect>) -> CoreView
    decreases es.len(),
{
    if es.len() == 0 {
        v
    } else {
        commit(commit_all(v, es.drop_last()), es.last())
    }
}

/// `out` and `after` are what a play on `v` gives: success with a song to
/// play, and the "no music" error without one. The play itself changes no
/// state: the work it asks for records its own success.
pub open spec fn played(v: CoreView, out: Outcome, after: CoreView) -> bool {
    &&& after =~= v
    &&& out.effects@ =~= play_effects(v)
    &&& current_song(v) is Some ==> out.response == Response::Success
    &&& current_song(v) is None ==> is_error_with(out.response, no_music_message())
}

/// `out` and `after` are what a pause on `v` gives.
pub open spec fn paused(v: CoreView, out: Outcome, after: CoreView) -> bool {
    &&& after =~= CoreView { is_playing: false, ..v }
    &&& out.response == Response::Success
    &&& out.effects@ =~= seq![Effect::PausePlayer, Effect::ShowPaused { progress: v.playing_time }]
}

/// `out` leaves the state `v` as it is, answers `r`, and asks for no work.
pub open spec fn answered(v: CoreView, r: Response, out: Outcome, after: CoreView) -> bool {
    &&& after =~= v
    &&& out.response == r
    &&& out.effects@.len() == 0
}

/// `out` and `after` are what a volume change on `v` gives.
pub open spec fn volume_set(v: CoreView, out: Outcome, after: CoreView) -> bool {
    &&& after =~= v
    &&& out.response == Response::Success
    &&& out.effects@ =~= seq![Effect::ApplyVolume]
}

/// The state before the play of a move to the next song.
pub open spec fn skipped_forward(v: CoreView) -> CoreView {
    CoreView {
        cursor: next_cursor(v.cursor, v.playlist.len() as int),
        playing_time: zero_span(),
        ..v
    }
}

/// The state before the play of a move to the previous song.
pub open spec fn skipped_back(v: CoreView) -> CoreView {
    CoreView {
        cursor: previous_cursor(v.cursor, v.playlist.len() as int),
        playing_time: zero_span(),
        ..v
    }
}

/// The state before the play of a seek to `t`.
pub open spec fn sought(v: CoreView, t: Span) -> CoreView {
    CoreView { playing_time: t, is_seek: true, ..v }
}

/// `out` and `after` are what a seek to `target` gives on `v`: the bad-seek
/// error, with nothing changed, where there is no valid target.
pub open spec fn seek_done(v: CoreView, target: Option<Span>, out: Outcome, after: CoreView) -> bool {
    match target {
        Some(t) => played(sought(v, t), out, after),
        None => {
            &&& after =~= v
            &&& is_error_with(out.response, bad_seek_message())
            &&& out.effects@.len() == 0
        },
    }
}

/// The state before the play of `path`, added after the current song and selected.
pub open spec fn added_and_selected(v: CoreView, path: String) -> CoreView {
    let c: int = next_cursor(v.cursor, v.playlist.len() as int);
    CoreView { playlist: v.playlist.insert(c, path), cursor: c, playing_time: zero_span(), ..v }
}

/// `s` is the status that the daemon reports in state `v`: the status of the
/// loaded song with the live play flag and position, or a placeholder.
pub open spec fn reports(v: CoreView, s: PlayStatus) -> bool {
    match v.play_status {
        Some(d) => s == PlayStatus {
            playing: v.is_playing,
            position: v.playing_time.secs,
            ..d
        },
        None => {
            &&& s.playing == v.is_playing
            &&& s.position == v.playing_time.secs
            &&& s.duration == (match v.total_duration {
                Some(t) => t.secs,
                None => 0,
            })
            &&& s.cover is None
            &&& s.music_name@ == "Unknow"@
            &&& s.artist@ == "Unknow"@
        },
    }
}

/// `after` is `v` once a song was loaded with length `duration` and tags `tags`.
pub open spec fn loaded(
    v: CoreView,
    duration: Option<Span>,
    tags: Option<TrackTags>,
    after: CoreView,
) -> bool {
    match tags {
        None => after =~= CoreView { total_duration: duration, ..v },
        Some(t) => {
            &&& after =~= CoreView { total_duration: duration, play_status: after.play_status, ..v }
            &&& after.play_status matches Some(s) && {
                &&& s.playing == v.is_playing
                &&& s.position == 0
                &&& s.duration == (match duration {
                    Some(d) => d.secs,
                    None => 0,
                })
                &&& s.cover == t.cover
                &&& (t.title matches Some(x) ==> s.music_name == x)
                &&& (t.title is None ==> s.music_name@ == "Unknown"@)
                &&& (t.artist matches Some(x) ==> s.artist == x)
                &&& (t.artist is None ==> s.artist@ == "Unknown Artist"@)
            }
        },
    }
}

/// The state after the position moved on by one tick (only while playing).
pub open spec fn ticked(v: CoreView) -> CoreView {
    if v.is_playing {
        CoreView {
            playing_time: span_of(capped_sum(v.playing_time.total(), tick_span().total())),
            ..v
        }
    } else {
        v
    }
}

/// The song has played to its end.
pub open spec fn song_over(v: CoreView) -> bool {
    v.total_duration matches Some(d) && d.total() <= v.playing_time.total()
}

impl Core {
    /// The playlist is well formed and the spans are.
    pub open spec fn wf(&self) -> bool {
        &&& self.music_manager.wf()
        &&& self.playing_time.wf()
        &&& (self.total_duration matches Some(d) ==> d.wf())
    }

    /// A daemon with an empty playlist, at position zero, not playing, serving.
    pub fn new() -> (c: Self)
        ensures
            c.wf(),
            c@.playlist == Seq::<String>::empty(),
            c@.cursor == 0,
            c@.playing_time == zero_span(),
            c@.play_status is None,
            c@.total_duration is None,
            !c@.is_playing,
            !c@.is_seek,
            c@.running,
    {
        Core {
            music_manager: MusicManager::new(),
            playing_time: Span::zero(),
            play_status: None,
            total_duration: None,
            is_playing: false,
            is_seek: false,
            running: true,
        }
    }

    /// Plays the song under the cursor: seeks where a seek waits, resumes
    /// where the position is not zero, loads it from the start otherwise.
    /// That the daemon plays, and that the seek was done, are recorded only as
    /// that work is handed back to `commit`, so failed work leaves them as they were.
    pub fn play(&mut self) -> (out: Outcome)
        requires
            old(self).wf(),
        ensures
            final(self).wf(),
            played(old(self)@, out, final(self)@),
    {
        let play_time = self.playing_time;
        match self.music_manager.get_path() {
            Ok(path) => {
                let mut effects: Vec<Effect> = Vec::new();
                effects.push(Effect::ShowPlaying { progress: play_time });
                effects.push(Effect::MarkPlaying);
                if self.is_seek {
                    effects.push(Effect::SeekAndPlay { path, position: play_time });
                    effects.push(Effect::ClearSeek);
                } else if !play_time.is_zero() {
                    effects.push(Effect::Resume { path });
                } else {
                    effects.push(Effect::LoadAndPlay { path });
                }
                Outcome { response: Response::Success, effects }
            },
            Err(_) => Outcome { response: Response::Error("没有音乐".to_owned()), effects: Vec::new() },
        }
    }

    /// Pauses the player and shows the controls as paused at the position.
    pub fn pause(&mut self) -> (out: Outcome)
        requires
            old(self).wf(),
        ensures
            final(self).wf(),
            paused(old(self)@, out, final(self)@),
    {
        self.is_playing = false;
        let mut effects: Vec<Effect> = Vec::new();
        effects.push(Effect::PausePlayer);
        effects.push(Effect::ShowPaused { progress: self.playing_time });
        Outcome { response: Response::Success, effects }
    }

    /// Moves to the next song and plays it from its start.
    pub fn next(&mut self) -> (out: Outcome)
        requires
            old(self).wf(),
        ensures
            final(self).wf(),
            played(skipped_forward(old(self)@), out, final(self)@),
    {
        self.playing_time = Span::zero();
        self.music_manager.next();
        self.play()
    }

    /// Moves to the previous song and plays it from its start.
    pub fn previous(&mut self) -> (out: Outcome)
        requires
            old(self).wf(),
        ensures
            final(self).wf(),
            played(skipped_back(old(self)@), out, final(self)@),
    {
        self.playing_time = Span::zero();
        self.music_manager.previous();
        self.play()
    }

    /// Seeks to `target` and plays from there; without a valid target it
    /// answers the bad-seek error and changes nothing.
    pub fn seek(&mut self, target: Option<Span>) -> (out: Outcome)
        requires
            old(self).wf(),
            target matches Some(t) ==> t.wf(),
        ensures
            final(self).wf(),
            seek_done(old(self)@, target, out, final(self)@),
    {
        match target {
            None => Outcome {
                response: Response::Error("无效的跳转时间".to_owned()),
                effects: Vec::new(),
            },
            Some(t) => {
                self.playing_time = t;
                self.is_seek = true;
                self.play()
            },
        }
    }

    /// Sets the volume that came with the request.
    pub fn set_volume(&mut self) -> (out: Outcome)
        ensures
            volume_set(old(self)@, out, final(self)@),
    {
        let mut effects: Vec<Effect> = Vec::new();
        effects.push(Effect::ApplyVolume);
        Outcome { response: Response::Success, effects }
    }

    /// Adds a song at the end of the playlist.
    pub fn append(&mut self, path: String) -> (out: Outcome)
        requires
            old(self).wf(),
            old(self)@.playlist.len() < i32::MAX,
        ensures
            final(self).wf(),
            final(self)@ == (CoreView { playlist: old(self)@.playlist.push(path), ..old(self)@ }),
            out.response == Response::Success,
            out.effects@.len() == 0,
    {
        self.music_manager.append(path);
        Outcome { response: Response::Success, effects: Vec::new() }
    }

    /// Adds a song after the current one and plays it from its start.
    pub fn append_and_play(&mut self, path: String) -> (out: Outcome)
        requires
            old(self).wf(),
            old(self)@.playlist.len() < i32::MAX,
        ensures
            final(self).wf(),
            played(added_and_selected(old(self)@, path), out, final(self)@),
            out.response == Response::Success,
            out.effects@.len() >= 3,
            out.effects@[0] == (Effect::ShowPlaying { progress: zero_span() }),
            out.effects@[1] == Effect::MarkPlaying,
            out.effects@[2] == play_plan(added_and_selected(old(self)@, path), path),
    {
        self.playing_time = Span::zero();
        self.music_manager.append_and_next(path);
        self.play()
    }

    /// The status to report: that of the loaded song with the live play flag
    /// and position, or a placeholder where no song was loaded with tags.
    pub fn send_status(&self) -> (s: PlayStatus)
        requires
            self.wf(),
        ensures
            reports(self@, s),
            s.playing == self.is_playing,
            s.position == self.playing_time.secs,
    {
        let pos: u64 = self.playing_time.as_secs();
        match &self.play_status {
            Some(d) => {
                let mut s = d.clone();
                s.playing = self.is_playing;
                s.position = pos;
                s
            },
            None => {
                let duration: u64 = match &self.total_duration {
                    Some(t) => t.as_secs(),
                    None => 0,
                };
                PlayStatus {
                    playing: self.is_playing,
                    position: pos,
                    duration,
                    cover: None,
                    music_name: "Unknow".to_owned(),
                    artist: "Unknow".to_owned(),
                }
            },
        }
    }

    /// Takes in what loading a song from its start found: its length, and
    /// its tags where it has some, which become the status to report.
    pub fn track_loaded(&mut self, duration: Option<Span>, tags: Option<TrackTags>)
        requires
            old(self).wf(),
            duration matches Some(d) ==> d.wf(),
        ensures
            final(self).wf(),
            loaded(old(self)@, duration, tags, final(self)@),
            final(self).total_duration == duration,
            tags matches Some(t) ==> final(self).play_status matches Some(st) && st.cover == t.cover,
            tags is None ==> final(self).play_status == old(self).play_status,
    {
        self.total_duration = duration;
        match tags {
            Some(t) => {
                let secs: u64 = match &duration {
                    Some(d) => d.as_secs(),
                    None => 0,
                };
                let music_name = match t.title {
                    Some(x) => x,
                    None => "Unknown".to_owned(),
                };
                let artist = match t.artist {
                    Some(x) => x,
                    None => "Unknown Artist".to_owned(),
                };
                self.play_status = Some(
                    PlayStatus {
                        playing: self.is_playing,
                        position: 0,
                        duration: secs,
                        cover: t.cover,
                        music_name,
                        artist,
                    },
                );
            },
            None => {},
        }
    }

    /// One turn of the daemon's loop with no request or media event: the
    /// position moves on while playing, and at the end of the song the player
    /// pauses and goes on to the next song.
    pub fn tick(&mut self) -> (effects: Vec<Effect>)
        requires
            old(self).wf(),
        ensures
            final(self).wf(),
            !song_over(ticked(old(self)@)) ==> final(self)@ == ticked(old(self)@)
                && effects@.len() == 0,
            song_over(ticked(old(self)@)) ==> {
                let p = CoreView { is_playing: false, ..ticked(old(self)@) };
                &&& final(self)@ == skipped_forward(p)
                &&& effects@ == seq![
                    Effect::PausePlayer,
                    Effect::ShowPaused { progress: ticked(old(self)@).playing_time },
                ] + play_effects(skipped_forward(p))
            },
    {
        if self.is_playing {
            self.playing_time = self.playing_time.saturating_add(&Span::from_millis(25));
        }
        let mut effects: Vec<Effect> = Vec::new();
        let over = match &self.total_duration {
            Some(d) => d.le(&self.playing_time),
            None => false,
        };
        if over {
            let mut paused_out = self.pause();
            effects.append(&mut paused_out.effects);
            let mut next_out = self.next();
            effects.append(&mut next_out.effects);
        }
        effects
    }

    /// Takes back an effect that was carried out: records that the daemon
    /// plays, or that the pending seek was done; other effects change nothing.
    pub fn commit(&mut self, effect: &Effect)
        requires
            old(self).wf(),
        ensures
            final(self).wf(),
            final(self)@ =~= commit(old(self)@, *effect),
    {
        match effect {
            Effect::MarkPlaying => {
                self.is_playing = true;
            },
            Effect::ClearSeek => {
                self.is_seek = false;
            },
            _ => {},
        }
    }

    /// Acts on a client's request and gives the answer to send back.
    pub fn daemon_event_handle(&mut self, cmd: Command) -> (out: Outcome)
        requires
            old(self).wf(),
            cmd matches Command::Seek(Some(t)) ==> t.wf(),
            (cmd is Append || cmd matches Command::Play(Some(_))) ==> old(self)@.playlist.len()
                < i32::MAX,
        ensures
            final(self).wf(),
            match cmd {
                Command::Ping => answered(old(self)@, Response::Pong, out, final(self)@),
                Command::Append(p) => {
                    &&& final(self)@ =~= CoreView {
                        playlist: old(self)@.playlist.push(p),
                        ..old(self)@
                    }
                    &&& out.response == Response::Success
                    &&& out.effects@.len() == 0
                },
                Command::Play(Some(p)) => played(added_and_selected(old(self)@, p), out, final(self)@),
                Command::Play(None) => played(old(self)@, out, final(self)@),
                Command::Pause => paused(old(self)@, out, final(self)@),
                Command::Next => played(skipped_forward(old(self)@), out, final(self)@),
                Command::Previous => played(skipped_back(old(self)@), out, final(self)@),
                Command::Seek(target) => seek_done(old(self)@, target, out, final(self)@),
                Command::SetVolume => volume_set(old(self)@, out, final(self)@),
                Command::Status => {
                    &&& final(self)@ =~= old(self)@
                    &&& out.response matches Response::Status(s) && reports(old(self)@, s)
                    &&& out.effects@.len() == 0
                },
                Command::Quit => answered(
                    CoreView { running: false, ..old(self)@ },
                    Response::Success,
                    out,
                    final(self)@,
                ),
            },
    {
        match cmd {
            Command::Ping => Outcome { response: Response::Pong, effects: Vec::new() },
            Command::Append(path) => self.append(path),
            Command::Play(path) => match path {
                Some(path) => self.append_and_play(path),
                None => self.play(),
            },
            Command::Pause => self.pause(),
            Command::Next => self.next(),
            Command::Previous => self.previous(),
            Command::Seek(target) => self.seek(target),
            Command::SetVolume => self.set_volume(),
            Command::Status => Outcome {
                response: Response::Status(self.send_status()),
                effects: Vec::new(),
            },
            Command::Quit => {
                self.running = false;
                Outcome { response: Response::Success, effects: Vec::new() }
            },
        }
    }

    /// Acts on an event of the system's media controls. A seek backward asks
    /// for a negative time, which is refused; a seek forward goes to five
    /// seconds into the song.
    pub fn media_event_handle(&mut self, event: MediaEvent) -> (out: Outcome)
        requires
            old(self).wf(),
            event matches MediaEvent::SetPosition(t) ==> t.wf(),
        ensures
            final(self).wf(),
            match event {
                MediaEvent::Play => played(old(self)@, out, final(self)@),
                MediaEvent::Pause => paused(old(self)@, out, final(self)@),
                MediaEvent::Previous => played(skipped_back(old(self)@), out, final(self)@),
                MediaEvent::Next => played(skipped_forward(old(self)@), out, final(self)@),
                MediaEvent::SeekBackward => seek_done(old(self)@, None, out, final(self)@),
                MediaEvent::SeekForward => seek_done(
                    old(self)@,
                    Some(Span { secs: 5, nanos: 0 }),
                    out,
                    final(self)@,
                ),
                MediaEvent::SetPosition(t) => seek_done(old(self)@, Some(t), out, final(self)@),
                MediaEvent::Toggle { player_paused } => if player_paused {
                    played(old(self)@, out, final(self)@)
                } else {
                    paused(old(self)@, out, final(self)@)
                },
                MediaEvent::SetVolume => volume_set(old(self)@, out, final(self)@),
                MediaEvent::Unsupported(debug) => {
                    &&& final(self)@ =~= old(self)@
                    &&& is_error_with(out.response, unsupported_message(debug@))
                    &&& out.effects@.len() == 0
                },
            },
    {
        match event {
            MediaEvent::Play => self.play(),
            MediaEvent::Pause => self.pause(),
            MediaEvent::Previous => self.previous(),
            MediaEvent::Next => self.next(),
            MediaEvent::SeekBackward => self.seek(None),
            MediaEvent::SeekForward => self.seek(Some(Span::from_parts(5, 0))),
            MediaEvent::SetPosition(t) => self.seek(Some(t)),
            MediaEvent::Toggle { player_paused } => {
                if player_paused {
                    self.play()
                } else {
                    self.pause()
                }
            },
            MediaEvent::SetVolume => self.set_volume(),
            MediaEvent::Unsupported(debug) => {
                let mut msg = "Not Set ".to_owned();
                msg.append(debug.as_str());
                Outcome { response: Response::Error(msg), effects: Vec::new() }
            },
        }
    }
}

/// A play with an empty playlist is refused: it changes nothing and asks for no work.
pub proof fn law_play_without_songs_is_refused(v: CoreView)
    requires
        v.playlist.len() == 0,
    ensures
        current_song(v) is None,
        after_play(v) == v,
        play_effects(v) == Seq::<Effect>::empty(),
{
    assert(play_effects(v) =~= Seq::<Effect>::empty());
}

/// With a song under a valid cursor, a play succeeds and starts that song.
pub proof fn law_play_with_songs_succeeds(v: CoreView)
    requires
        crate::manager::valid_cursor(v.cursor, v.playlist.len() as int),
        v.playlist.len() > 0,
    ensures
        current_song(v) == Some(v.playlist[v.cursor]),
        after_play(v).is_playing,
        !after_play(v).is_seek,
        play_effects(v).len() >= 3,
        commit_all(v, play_effects(v)) == after_play(v),
{
    let path = v.playlist[v.cursor];
    let e0 = Effect::ShowPlaying { progress: v.playing_time };
    let s0 = Seq::<Effect>::empty();
    let s1 = s0.push(e0);
    let s2 = s1.push(Effect::MarkPlaying);
    let head = s2.push(play_plan(v, path));
    assert(s1.drop_last() =~= s0);
    assert(s2.drop_last() =~= s1);
    assert(head.drop_last() =~= s2);
    assert(commit_all(v, s0) == v);
    assert(commit_all(v, s1) == v);
    assert(commit_all(v, s2) =~= CoreView { is_playing: true, ..v });
    assert(commit_all(v, head) =~= CoreView { is_playing: true, ..v });
    assert(head =~= seq![e0, Effect::MarkPlaying, play_plan(v, path)]);
    if v.is_seek {
        assert(play_effects(v) =~= head.push(Effect::ClearSeek));
        assert(play_effects(v).drop_last() =~= head);
    } else {
        assert(play_effects(v) =~= head);
    }
}

/// Playing a file that was just added plays that file.
pub proof fn law_added_song_is_played(v: CoreView, path: String)
    requires
        crate::manager::valid_cursor(v.cursor, v.playlist.len() as int),
    ensures
        current_song(added_and_selected(v, path)) == Some(path),
        play_effects(added_and_selected(v, path)).len() >= 3,
        play_effects(added_and_selected(v, path))[2] == play_plan(added_and_selected(v, path), path),
{
}

/// A seek that finds a song starts it at the target of the seek.
pub proof fn law_seek_plays_from_target(v: CoreView, t: Span)
    requires
        current_song(v) is Some,
    ensures
        play_effects(sought(v, t))[2] == (Effect::SeekAndPlay {
            path: current_song(v).unwrap(),
            position: t,
        }),
        !after_play(sought(v, t)).is_seek,
        after_play(sought(v, t)).playing_time == t,
{
}

/// Moving to the next song and back (or back and then on) comes back to the same song.
pub proof fn law_next_then_previous(v: CoreView)
    requires
        crate::manager::valid_cursor(v.cursor, v.playlist.len() as int),
    ensures
        skipped_back(after_play(skipped_forward(v))).cursor == v.cursor,
        skipped_forward(after_play(skipped_back(v))).cursor == v.cursor,
{
    crate::manager::law_next_previous_inverse(v.cursor, v.playlist.len() as int);
}

/// A play after a pause resumes where the song stopped, unless a seek waits
/// or the song had not moved from its start.
pub proof fn law_play_after_pause_resumes(v: CoreView)
    requires
        current_song(v) is Some,
        !v.is_seek,
        v.playing_time.total() != 0,
    ensures
        play_effects(CoreView { is_playing: false, ..v })[2] == (Effect::Resume {
            path: current_song(v).unwrap(),
        }),
{
}

/// A play with no pending seek, on a song whose position is not at its
/// start, resumes that song where it stands, whether or not the daemon was
/// playing; it never reloads the song from its start.
pub proof fn law_moved_song_resumes(v: CoreView)
    requires
        current_song(v) is Some,
        !v.is_seek,
        v.playing_time.total() != 0,
    ensures
        play_effects(v).len() == 3,
        play_effects(v)[0] == (Effect::ShowPlaying { progress: v.playing_time }),
        play_effects(v)[1] == Effect::MarkPlaying,
        play_effects(v)[2] == (Effect::Resume { path: current_song(v).unwrap() }),
        forall|i: int| 0 <= i < play_effects(v).len() ==> !(play_effects(v)[i] is LoadAndPlay),
{
}

/// A play at the start of a song with no pending seek loads it from its start.
pub proof fn law_song_at_start_loads(v: CoreView)
    requires
        current_song(v) is Some,
        !v.is_seek,
        v.playing_time.total() == 0,
    ensures
        play_effects(v).len() == 3,
        play_effects(v)[2] == (Effect::LoadAndPlay { path: current_song(v).unwrap() }),
{
}

/// A reported status always carries the live play flag and the whole seconds
/// of the live position, whether it comes from a loaded song's tags or is a
/// placeholder.
pub proof fn law_status_is_live(v: CoreView, s: PlayStatus)
    requires
        reports(v, s),
    ensures
        s.playing == v.is_playing,
        s.position == v.playing_time.secs,
        v.play_status matches Some(d) ==> s.duration == d.duration && s.cover == d.cover
            && s.music_name == d.music_name && s.artist == d.artist,
{
}

/// Loading a song with tags reports exactly that song's cover, length, title
/// and artist, whatever was reported before; without tags the earlier status stays.
pub proof fn law_loaded_status_is_the_new_song(
    v: CoreView,
    duration: Option<Span>,
    tags: Option<TrackTags>,
    after: CoreView,
)
    requires
        loaded(v, duration, tags, after),
    ensures
        after.total_duration == duration,
        tags matches Some(t) ==> after.play_status matches Some(s) && s.cover == t.cover
            && s.position == 0 && s.playing == v.is_playing
            && (t.title matches Some(x) ==> s.music_name == x)
            && (t.artist matches Some(x) ==> s.artist == x)
            && s.duration == (match duration {
                Some(d) => d.secs,
                None => 0,
            }),
        tags is None ==> after.play_status == v.play_status,
{
}

} // verus!
