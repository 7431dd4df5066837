use crate::clock::{capped_sum, time_since};
use vstd::prelude::*;

verus! {

/// A song of the playlist.
#[derive(Debug, Clone, PartialEq)]
pub struct SongItem {
    full_path: String,
    title: String,
    position: usize,
    duration: Option<u64>,
}

/// What a song holds, as mathematical values.
pub struct SongView {
    pub full_path: Seq<char>,
    pub title: Seq<char>,
    pub position: usize,
    /// Length of the song in milliseconds, where it is known.
    pub duration: Option<u64>,
}

impl View for SongItem {
    type V = SongView;

    closed spec fn view(&self) -> SongView {
        SongView {
            full_path: self.full_path@,
            title: self.title@,
            position: self.position,
            duration: self.duration,
        }
    }
}

impl SongItem {
    /// A song from its file path, its title, its place in the playlist and
    /// its length in milliseconds, where that is known.
    pub fn new(full_path: String, title: String, position: usize, duration: Option<u64>) -> (song:
        SongItem)
        ensures
            song@ == (SongView { full_path: full_path@, title: title@, position, duration }),
    {
        SongItem { full_path, title, position, duration }
    }

    /// The path of the song's file.
    pub fn as_path(&self) -> (path: &str)
        ensures
            path@ == self@.full_path,
    {
        self.full_path.as_str()
    }

    /// The song's title.
    pub fn title(&self) -> (title: &str)
        ensures
            title@ == self@.title,
    {
        self.title.as_str()
    }

    /// The song's place in the playlist.
    pub fn position(&self) -> (position: usize)
        ensures
            position == self@.position,
    {
        self.position
    }

    /// The song's length in milliseconds, where it is known.
    pub fn duration(&self) -> (duration: Option<u64>)
        ensures
            duration == self@.duration,
    {
        self.duration
    }

    /// Whether two songs hold the same path, title, place and length.
    pub fn same_as(&self, other: &SongItem) -> (same: bool)
        ensures
            same == (self@ == other@),
    {
        let same_length: bool = match (self.duration, other.duration) {
            (Some(a), Some(b)) => a == b,
            (None, None) => true,
            _ => false,
        };
        self.full_path == other.full_path && self.title == other.title && self.position
            == other.position && same_length
    }

    /// A copy of the song.
    pub fn duplicate(&self) -> (copy: SongItem)
        ensures
            copy@ == self@,
    {
        SongItem {
            full_path: self.full_path.clone(),
            title: self.title.clone(),
            position: self.position,
            duration: self.duration,
        }
    }
}

/// The stopwatch of the song that is playing.
#[derive(Debug, Clone)]
pub struct PlaybackState {
    song: SongItem,
    start_time: u64,
    elapsed_before_pause: u64,
    is_paused: bool,
}

/// What a playback holds, as mathematical values. Times are clock readings
/// or spans in milliseconds.
pub struct PlaybackView {
    pub song: SongView,
    /// Clock reading at which the song last started or resumed.
    pub start_time: u64,
    /// Time played before the last pause.
    pub elapsed_before_pause: u64,
    pub is_paused: bool,
}

impl View for PlaybackState {
    type V = PlaybackView;

    closed spec fn view(&self) -> PlaybackView {
        PlaybackView {
            song: self.song@,
            start_time: self.start_time,
            elapsed_before_pause: self.elapsed_before_pause,
            is_paused: self.is_paused,
        }
    }
}

/// How far into the song a playback is at the clock reading `now`: while
/// paused, the time played before the pause; otherwise that time plus the
/// time since the song started or resumed.
pub open spec fn position_at(p: PlaybackView, now: u64) -> u64 {
    if p.is_paused {
        p.elapsed_before_pause
    } else {
        capped_sum(p.elapsed_before_pause, time_since(now, p.start_time) as int)
    }
}

/// The playback `p` after a pause at the clock reading `now`. A playback
/// that is paused already stays as it is.
pub open spec fn paused_at(p: PlaybackView, now: u64) -> PlaybackView {
    if p.is_paused {
        p
    } else {
        PlaybackView { elapsed_before_pause: position_at(p, now), is_paused: true, ..p }
    }
}

/// The playback `p` after resuming at the clock reading `now`. A playback
/// that is running stays as it is.
pub open spec fn resumed_at(p: PlaybackView, now: u64) -> PlaybackView {
    if p.is_paused {
        PlaybackView { start_time: now, is_paused: false, ..p }
    } else {
        p
    }
}

impl PlaybackState {
    /// Starts the stopwatch for `song` at the clock reading `now`.
    pub fn new(song: SongItem, now: u64) -> (p: PlaybackState)
        ensures
            p@ == (PlaybackView {
                song: song@,
                start_time: now,
                elapsed_before_pause: 0,
                is_paused: false,
            }),
    {
        PlaybackState { song, start_time: now, elapsed_before_pause: 0, is_paused: false }
    }

    /// Pauses at the clock reading `now`.
    pub fn pause(&mut self, now: u64)
        ensures
            final(self)@ == paused_at(old(self)@, now),
    {
        if !self.is_paused {
            let played: u64 = if now >= self.start_time { now - self.start_time } else { 0 };
            self.elapsed_before_pause = self.elapsed_before_pause.saturating_add(played);
            self.is_paused = true;
        }
    }

    /// Resumes at the clock reading `now`.
    pub fn resume(&mut self, now: u64)
        ensures
            final(self)@ == resumed_at(old(self)@, now),
    {
        if self.is_paused {
            self.start_time = now;
            self.is_paused = false;
        }
    }

    /// How far into the song the playback is at the clock reading `now`, in
    /// milliseconds.
    pub fn current_position(&self, now: u64) -> (played: u64)
        ensures
            played == position_at(self@, now),
    {
        if self.is_paused {
            self.elapsed_before_pause
        } else {
            let running: u64 = if now >= self.start_time { now - self.start_time } else { 0 };
            self.elapsed_before_pause.saturating_add(running)
        }
    }

    /// The song that is playing.
    pub fn song(&self) -> (song: &SongItem)
        ensures
            song@ == self@.song,
    {
        &self.song
    }

    /// Whether the playback is paused.
    pub fn is_paused(&self) -> (paused: bool)
        ensures
            paused == self@.is_paused,
    {
        self.is_paused
    }
}

/// A pause freezes the position: whatever the clock reads afterwards, the
/// position is the one at the moment of the pause.
pub proof fn pause_freezes_position(p: PlaybackView, at: u64, later: u64)
    ensures
        position_at(paused_at(p, at), later) == position_at(p, at),
{
}

/// Resuming does not jump: at the moment of resuming the position is the
/// one that the pause left.
pub proof fn resume_keeps_position(p: PlaybackView, at: u64)
    requires
        p.is_paused,
    ensures
        position_at(resumed_at(p, at), at) == position_at(p, at),
{
}

/// Loudest volume, in percent.
pub const MAX_VOLUME: u8 = 100;

/// Volume of a new jukebox, in percent.
pub const START_VOLUME: u8 = 50;

/// What the audio output has to do after the jukebox has decided.
#[derive(Debug, Clone, Copy, PartialEq, Eq, Structural)]
pub enum AudioOrder {
    /// Nothing.
    Nothing,
    /// Go on with the song that is paused.
    Resume,
    /// Drop what is playing and start the song of the current playback.
    Start,
    /// Pause the song that is playing.
    Pause,
    /// Drop what is playing.
    Stop,
}

/// How loud the volume is, in four levels.
#[derive(Debug, Clone, Copy, PartialEq, Eq, Structural)]
pub enum VolumeLevel {
    Muted,
    Low,
    Medium,
    High,
}

/// The level of a volume in percent: muted at 0, low up to 33, medium up to
/// 66, high above.
pub open spec fn level_of(volume: u8) -> VolumeLevel {
    if volume == 0 {
        VolumeLevel::Muted
    } else if volume <= 33 {
        VolumeLevel::Low
    } else if volume <= 66 {
        VolumeLevel::Medium
    } else {
        VolumeLevel::High
    }
}

/// Computes the level of a volume.
pub fn volume_level(volume: u8) -> (level: VolumeLevel)
    ensures
        level == level_of(volume),
{
    if volume == 0 {
        VolumeLevel::Muted
    } else if volume <= 33 {
        VolumeLevel::Low
    } else if volume <= 66 {
        VolumeLevel::Medium
    } else {
        VolumeLevel::High
    }
}

/// Splits a span in milliseconds into whole minutes and the seconds left
/// over, for a display as minutes and seconds.
pub fn minutes_and_seconds(span: u64) -> (parts: (u64, u64))
    ensures
        parts.0 == (span / 1000) / 60,
        parts.1 == (span / 1000) % 60,
{
    let total: u64 = span / 1000;
    (total / 60, total % 60)
}

/// The selection, the playlist, the playback and the volume of the music
/// player. What is heard is not its business: its decisions say what the
/// audio output has to do.
pub struct JukeboxState {
    current_selection: SongItem,
    playlist: Vec<SongItem>,
    current_playback: Option<PlaybackState>,
    volume: u8,
}

/// What a jukebox holds, as mathematical values.
pub struct JukeboxView {
    pub current_selection: SongView,
    pub playlist: Seq<SongView>,
    pub current_playback: Option<PlaybackView>,
    pub volume: u8,
}

impl View for JukeboxState {
    type V = JukeboxView;

    closed spec fn view(&self) -> JukeboxView {
        JukeboxView {
            current_selection: self.current_selection@,
            playlist: self.playlist@.map_values(|song: SongItem| song@),
            current_playback: match self.current_playback {
                Some(p) => Some(p@),
                None => None,
            },
            volume: self.volume,
        }
    }
}

/// The selection that stands in for a song where the playlist is empty.
pub open spec fn no_song() -> SongView {
    SongView { full_path: "."@, title: "No songs available"@, position: 0, duration: None }
}

/// The jukebox that a playlist opens: the first song is selected, nothing
/// plays, the volume is `START_VOLUME`.
pub open spec fn opened(playlist: Seq<SongView>) -> JukeboxView {
    JukeboxView {
        current_selection: if playlist.len() > 0 { playlist[0] } else { no_song() },
        playlist,
        current_playback: None,
        volume: START_VOLUME,
    }
}

/// The place in a playlist of `len` songs that a move by `direction` from
/// the place `position` leads to: the sum, brought into the playlist.
pub open spec fn moved_place(position: usize, direction: i32, len: nat) -> int {
    let wanted: int = position + direction;
    if wanted < 0 {
        0
    } else if wanted > len - 1 {
        len - 1
    } else {
        wanted
    }
}

/// The jukebox `v` after the selection moved by `direction` songs. With an
/// empty playlist nothing changes.
pub open spec fn selection_moved(v: JukeboxView, direction: i32) -> JukeboxView {
    if v.playlist.len() == 0 {
        v
    } else {
        JukeboxView {
            current_selection: v.playlist[moved_place(
                v.current_selection.position,
                direction,
                v.playlist.len(),
            )],
            ..v
        }
    }
}

/// Whether the play key resumes: a song is paused and it is the selected
/// one.
pub open spec fn resumes(v: JukeboxView) -> bool {
    match v.current_playback {
        Some(p) => p.song == v.current_selection && p.is_paused,
        None => false,
    }
}

/// Whether the play key can start the selected song: the playlist has a song
/// at the selection's place.
pub open spec fn can_start(v: JukeboxView) -> bool {
    v.current_selection.position < v.playlist.len()
}

/// What the play key asks of the audio output.
pub open spec fn play_order(v: JukeboxView) -> AudioOrder {
    if resumes(v) {
        AudioOrder::Resume
    } else if can_start(v) {
        AudioOrder::Start
    } else {
        AudioOrder::Nothing
    }
}

/// A playback of `song` that starts at the clock reading `now`.
pub open spec fn fresh_playback(song: SongView, now: u64) -> PlaybackView {
    PlaybackView { song, start_time: now, elapsed_before_pause: 0, is_paused: false }
}

/// The jukebox `v` after the play key at the clock reading `now`: the paused
/// selection resumes; otherwise the song at the selection's place starts from
/// its beginning; with no such song nothing changes.
pub open spec fn played(v: JukeboxView, now: u64) -> JukeboxView {
    if resumes(v) {
        JukeboxView {
            current_playback: Some(resumed_at(v.current_playback.unwrap(), now)),
            ..v
        }
    } else if can_start(v) {
        JukeboxView {
            current_playback: Some(
                fresh_playback(v.playlist[v.current_selection.position as int], now),
            ),
            ..v
        }
    } else {
        v
    }
}

/// Whether a song is playing and not paused.
pub open spec fn playing(v: JukeboxView) -> bool {
    match v.current_playback {
        Some(p) => !p.is_paused,
        None => false,
    }
}

/// The jukebox `v` after the pause key at the clock reading `now`.
pub open spec fn paused(v: JukeboxView, now: u64) -> JukeboxView {
    match v.current_playback {
        Some(p) => JukeboxView { current_playback: Some(paused_at(p, now)), ..v },
        None => v,
    }
}

/// The jukebox `v` with nothing playing.
pub open spec fn stopped(v: JukeboxView) -> JukeboxView {
    JukeboxView { current_playback: None, ..v }
}

/// The volume after turning it up by `amount`: at most `MAX_VOLUME`.
pub open spec fn louder(volume: u8, amount: u8) -> u8 {
    if volume + amount > MAX_VOLUME {
        MAX_VOLUME
    } else {
        (volume + amount) as u8
    }
}

/// The volume after turning it down by `amount`: at least zero.
pub open spec fn quieter(volume: u8, amount: u8) -> u8 {
    if volume < amount {
        0
    } else {
        (volume - amount) as u8
    }
}

/// Whether the end of a song leads on to the next one: the selection is not
/// the last song of the playlist.
pub open spec fn has_next(v: JukeboxView) -> bool {
    v.current_selection.position + 1 < v.playlist.len()
}

/// The jukebox `v` after the audio output reported, at the clock reading
/// `now`, whether the song has run to its end. Where it has, and a playback
/// exists, the selection moves on by one song and that song plays; after the
/// last song the playback stops.
pub open spec fn song_ended(v: JukeboxView, finished: bool, now: u64) -> JukeboxView {
    if !finished || v.current_playback is None {
        v
    } else if has_next(v) {
        played(selection_moved(v, 1), now)
    } else {
        stopped(v)
    }
}

/// What the end of a song asks of the audio output.
pub open spec fn end_order(v: JukeboxView, finished: bool) -> AudioOrder {
    if !finished || v.current_playback is None {
        AudioOrder::Nothing
    } else if has_next(v) {
        play_order(selection_moved(v, 1))
    } else {
        AudioOrder::Stop
    }
}

impl JukeboxState {
    /// A jukebox over the given playlist.
    pub fn new(playlist: Vec<SongItem>) -> (jukebox: JukeboxState)
        ensures
            jukebox@ == opened(playlist@.map_values(|song: SongItem| song@)),
    {
        let current_selection = if playlist.len() > 0 {
            playlist[0].duplicate()
        } else {
            proof {
                reveal_strlit(".");
                reveal_strlit("No songs available");
            }
            SongItem::new(".".to_owned(), "No songs available".to_owned(), 0, None)
        };
        JukeboxState { current_selection, playlist, current_playback: None, volume: START_VOLUME }
    }

    /// The selected song.
    pub fn current_selection(&self) -> (song: &SongItem)
        ensures
            song@ == self@.current_selection,
    {
        &self.current_selection
    }

    /// The play key at the clock reading `now` (milliseconds).
    pub fn play(&mut self, now: u64) -> (order: AudioOrder)
        ensures
            final(self)@ == played(old(self)@, now),
            order == play_order(old(self)@),
    {
        let resume: bool = match &self.current_playback {
            Some(p) => self.current_selection.same_as(p.song()) && p.is_paused(),
            None => false,
        };
        if resume {
            match self.current_playback.take() {
                Some(mut p) => {
                    p.resume(now);
                    self.current_playback = Some(p);
                },
                None => {},
            }
            return AudioOrder::Resume;
        }
        let place: usize = self.current_selection.position();
        if place < self.playlist.len() {
            let song = self.playlist[place].duplicate();
            self.current_playback = Some(PlaybackState::new(song, now));
            AudioOrder::Start
        } else {
            AudioOrder::Nothing
        }
    }

    /// The pause key at the clock reading `now` (milliseconds). The audio
    /// output has to pause if a song was playing.
    pub fn pause(&mut self, now: u64) -> (order: AudioOrder)
        ensures
            final(self)@ == paused(old(self)@, now),
            order == if playing(old(self)@) { AudioOrder::Pause } else { AudioOrder::Nothing },
    {
        match self.current_playback.take() {
            Some(mut p) => {
                let was_paused: bool = p.is_paused();
                p.pause(now);
                self.current_playback = Some(p);
                if was_paused {
                    AudioOrder::Nothing
                } else {
                    AudioOrder::Pause
                }
            },
            None => AudioOrder::Nothing,
        }
    }

    /// Ends the playback.
    pub fn stop(&mut self)
        ensures
            final(self)@ == stopped(old(self)@),
    {
        self.current_playback = None;
    }

    /// Turns the volume up.
    pub fn add_volume(&mut self, amount: u8)
        ensures
            final(self)@ == (JukeboxView {
                volume: louder(old(self)@.volume, amount),
                ..old(self)@
            }),
    {
        let raised: u8 = self.volume.saturating_add(amount);
        self.volume = if raised > MAX_VOLUME { MAX_VOLUME } else { raised };
    }

    /// Turns the volume down.
    pub fn sub_volume(&mut self, amount: u8)
        ensures
            final(self)@ == (JukeboxView {
                volume: quieter(old(self)@.volume, amount),
                ..old(self)@
            }),
    {
        self.volume = self.volume.saturating_sub(amount);
    }

    /// Moves the selection by `direction` songs, staying inside the
    /// playlist.
    pub fn move_selection(&mut self, direction: i32)
        ensures
            final(self)@ == selection_moved(old(self)@, direction),
    {
        let len: usize = self.playlist.len();
        if len == 0 {
            return;
        }
        let last: usize = len - 1;
        let place: usize = self.current_selection.position();
        let target: usize = if direction >= 0 {
            let ahead: usize = direction as usize;
            if place >= last || ahead >= last - place {
                last
            } else {
                place + ahead
            }
        } else {
            let back: u64 = (-(direction as i64)) as u64;
            let reached: usize = if back >= place as u64 { 0 } else { place - back as usize };
            if reached > last {
                last
            } else {
                reached
            }
        };
        self.current_selection = self.playlist[target].duplicate();
    }

    /// The playlist.
    pub fn playlist(&self) -> (songs: &Vec<SongItem>)
        ensures
            songs@.map_values(|song: SongItem| song@) == self@.playlist,
    {
        &self.playlist
    }

    /// The song of the current playback, if there is one.
    pub fn currently_playing(&self) -> (song: Option<&SongItem>)
        ensures
            match song {
                Some(playing) => self@.current_playback is Some
                    && self@.current_playback.unwrap().song == playing@,
                None => self@.current_playback is None,
            },
    {
        match &self.current_playback {
            Some(p) => Some(p.song()),
            None => None,
        }
    }

    /// Whether a song is playing and not paused.
    pub fn is_playing(&self) -> (running: bool)
        ensures
            running == playing(self@),
    {
        match &self.current_playback {
            Some(p) => !p.is_paused(),
            None => false,
        }
    }

    /// Takes the audio output's word, at the clock reading `now`
    /// (milliseconds), on whether the song has run to its end, and moves on.
    pub fn handle_song_end(&mut self, finished: bool, now: u64) -> (order: AudioOrder)
        ensures
            final(self)@ == song_ended(old(self)@, finished, now),
            order == end_order(old(self)@, finished),
    {
        if !finished || self.current_playback.is_none() {
            return AudioOrder::Nothing;
        }
        let place: usize = self.current_selection.position();
        if place < self.playlist.len() && place + 1 < self.playlist.len() {
            self.move_selection(1);
            self.play(now)
        } else {
            self.stop();
            AudioOrder::Stop
        }
    }

    /// How far into the song the playback is at the clock reading `now`, in
    /// milliseconds; zero if nothing plays.
    pub fn current_playback_position(&self, now: u64) -> (played: u64)
        ensures
            played == match self@.current_playback {
                Some(p) => position_at(p, now),
                None => 0,
            },
    {
        match &self.current_playback {
            Some(p) => p.current_position(now),
            None => 0,
        }
    }

    /// The volume in percent.
    pub fn volume(&self) -> (volume: u8)
        ensures
            volume == self@.volume,
    {
        self.volume
    }
}

} // verus!
