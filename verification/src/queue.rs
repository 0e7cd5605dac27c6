//! The player's state: the active playlist, the user's queue that plays ahead
//! of it, where playback stands in them, the history of what played, and the
//! transport (next, previous, jump, repeat) that moves through them.
//!
//! Times are whole milliseconds.
use vstd::prelude::*;

use crate::text::{mm_ss, mm_ss_text, round_ms_to_secs, rounded_secs};
use vstd::string::StringExecFns;

verus! {

/// What the player knows of a track it can play.
#[derive(Debug, PartialEq)]
pub struct TrackMetadata {
    pub title: String,
    pub artist: String,
    pub duration_ms: u64,
    pub path: String,
    pub image: String,
}

impl Clone for TrackMetadata {
    fn clone(&self) -> (r: Self)
        ensures
            r == *self,
    {
        TrackMetadata {
            title: self.title.clone(),
            artist: self.artist.clone(),
            duration_ms: self.duration_ms,
            path: self.path.clone(),
            image: self.image.clone(),
        }
    }
}

impl Default for TrackMetadata {
    fn default() -> (t: Self)
        ensures
            t.title@.len() == 0,
            t.artist@.len() == 0,
            t.duration_ms == 0,
            t.path@.len() == 0,
            t.image@.len() == 0,
    {
        TrackMetadata {
            title: String::new(),
            artist: String::new(),
            duration_ms: 0,
            path: String::new(),
            image: String::new(),
        }
    }
}

impl TrackMetadata {
    /// The length as `mm:ss`, rounded to whole seconds.
    pub fn duration_label(&self) -> (s: String)
        ensures
            s@ == mm_ss_text(rounded_secs(self.duration_ms as nat)),
    {
        mm_ss(round_ms_to_secs(self.duration_ms))
    }
}

/// How an entry of a list in the queue panel is marked.
#[derive(Clone, Copy, Debug, PartialEq, Eq, Structural)]
pub enum EntryMark {
    /// The entry playing now.
    Active,
    /// An entry before the playing one.
    Past,
    /// Any other entry.
    Upcoming,
}

/// Repeat setting of the transport.
#[derive(Clone, Copy, Debug, PartialEq, Eq, Structural)]
pub enum RepeatMode {
    Off,
    One,
    All,
}

impl Default for RepeatMode {
    fn default() -> (m: Self)
        ensures
            m == RepeatMode::Off,
    {
        RepeatMode::Off
    }
}

/// Which list the current track is taken from.
#[derive(Clone, Copy, Debug, PartialEq, Eq, Structural)]
pub enum QueueSource {
    Playlist,
    Queue,
}

impl Default for QueueSource {
    fn default() -> (s: Self)
        ensures
            s == QueueSource::Playlist,
    {
        QueueSource::Playlist
    }
}

/// A track that played, with the position it played from.
#[derive(Debug, PartialEq)]
pub struct HistoryEntry {
    pub source: QueueSource,
    pub playlist_index: Option<usize>,
    pub queue_index: Option<usize>,
    pub track: TrackMetadata,
}

impl Clone for HistoryEntry {
    fn clone(&self) -> (r: Self)
        ensures
            r == *self,
    {
        HistoryEntry {
            source: self.source,
            playlist_index: self.playlist_index,
            queue_index: self.queue_index,
            track: self.track.clone(),
        }
    }
}

impl Clone for Metadata {
    fn clone(&self) -> (r: Self)
        ensures
            r == *self,
    {
        Metadata {
            title: self.title.clone(),
            artist: self.artist.clone(),
            duration_ms: self.duration_ms,
            image: self.image.clone(),
        }
    }
}

impl Clone for PlayResponse {
    fn clone(&self) -> (r: Self)
        ensures
            r == *self,
    {
        PlayResponse {
            metadata: match &self.metadata {
                Some(m) => Some(m.clone()),
                None => None,
            },
        }
    }
}

/// Everything the player shows and decides on.
#[derive(Debug, PartialEq)]
pub struct PlayerState {
    pub current_view: String,
    pub is_playing: bool,
    pub current_time_ms: u64,
    pub duration_ms: u64,
    /// Volume in percent.
    pub volume: u64,
    pub metadata: Option<TrackMetadata>,
    pub is_loading: bool,
    pub is_dragging_prog: bool,
    pub active_playlist: Vec<TrackMetadata>,
    pub active_playlist_name: String,
    pub user_queue: Vec<TrackMetadata>,
    pub history: Vec<HistoryEntry>,
    pub current_playlist_index: Option<usize>,
    pub current_queue_index: Option<usize>,
    pub current_source: QueueSource,
    pub is_shuffled: bool,
    pub repeat_mode: RepeatMode,
}

impl Clone for PlayerState {
    fn clone(&self) -> (r: Self)
        ensures
            r.active_playlist@ == self.active_playlist@,
            r.user_queue@ == self.user_queue@,
            r.history@ == self.history@,
            r == (PlayerState {
                active_playlist: r.active_playlist,
                user_queue: r.user_queue,
                history: r.history,
                ..*self
            }),
    {
        let active_playlist = self.active_playlist.clone();
        let user_queue = self.user_queue.clone();
        let history = self.history.clone();
        proof {
            assert(active_playlist@ =~= self.active_playlist@);
            assert(user_queue@ =~= self.user_queue@);
            assert(history@ =~= self.history@);
        }
        PlayerState {
            current_view: self.current_view.clone(),
            is_playing: self.is_playing,
            current_time_ms: self.current_time_ms,
            duration_ms: self.duration_ms,
            volume: self.volume,
            metadata: match &self.metadata {
                Some(m) => Some(m.clone()),
                None => None,
            },
            is_loading: self.is_loading,
            is_dragging_prog: self.is_dragging_prog,
            active_playlist,
            active_playlist_name: self.active_playlist_name.clone(),
            user_queue,
            history,
            current_playlist_index: self.current_playlist_index,
            current_queue_index: self.current_queue_index,
            current_source: self.current_source,
            is_shuffled: self.is_shuffled,
            repeat_mode: self.repeat_mode,
        }
    }
}

impl Default for PlayerState {
    /// Every field empty, zero, off or absent (a player before its state is set up).
    fn default() -> (s: Self)
        ensures
            s.current_view@.len() == 0,
            !s.is_playing,
            s.current_time_ms == 0,
            s.duration_ms == 0,
            s.volume == 0,
            s.metadata is None,
            !s.is_loading,
            !s.is_dragging_prog,
            s.active_playlist@.len() == 0,
            s.active_playlist_name@.len() == 0,
            s.user_queue@.len() == 0,
            s.history@.len() == 0,
            s.current_playlist_index is None,
            s.current_queue_index is None,
            s.current_source == QueueSource::Playlist,
            !s.is_shuffled,
            s.repeat_mode == RepeatMode::Off,
    {
        PlayerState {
            current_view: String::new(),
            is_playing: false,
            current_time_ms: 0,
            duration_ms: 0,
            volume: 0,
            metadata: None,
            is_loading: false,
            is_dragging_prog: false,
            active_playlist: Vec::new(),
            active_playlist_name: String::new(),
            user_queue: Vec::new(),
            history: Vec::new(),
            current_playlist_index: None,
            current_queue_index: None,
            current_source: QueueSource::Playlist,
            is_shuffled: false,
            repeat_mode: RepeatMode::Off,
        }
    }
}

/// The entry of `list` at `index`, if `index` is one of its positions.
pub open spec fn entry_at(list: Seq<TrackMetadata>, index: Option<usize>) -> Option<TrackMetadata> {
    match index {
        Some(i) => if i < list.len() {
            Some(list[i as int])
        } else {
            None
        },
        None => None,
    }
}

/// The position just after `index` lies in a list of length `len`.
pub open spec fn has_after(index: Option<usize>, len: nat) -> bool {
    match index {
        Some(i) => i + 1 < len,
        None => false,
    }
}

/// `index` is a position other than the first.
pub open spec fn past_first(index: Option<usize>) -> bool {
    match index {
        Some(i) => i > 0,
        None => false,
    }
}

/// History entries that did not come from the user's queue.
pub open spec fn not_from_queue() -> spec_fn(HistoryEntry) -> bool {
    |e: HistoryEntry| e.source != QueueSource::Queue
}

/// History entries other than the one recorded at queue position `index`.
pub open spec fn not_queue_entry(index: usize) -> spec_fn(HistoryEntry) -> bool {
    |e: HistoryEntry| !(e.source == QueueSource::Queue && e.queue_index == Some(index))
}

/// Where `advance` takes the player.
#[derive(Clone, Copy, Debug, PartialEq, Eq, Structural)]
pub enum AdvanceStep {
    /// Repeat-one: the same track plays again from the start.
    RepeatOne,
    /// Nothing comes next: playback stops.
    Stop,
    /// Playback moves to this position; `restart` marks a wrap-around that
    /// starts the history afresh.
    Move {
        source: QueueSource,
        playlist_index: Option<usize>,
        queue_index: Option<usize>,
        restart: bool,
    },
}

/// The starting position `play_playlist` and `play_user_queue` use: the
/// requested one, held to the last entry of the list (0 for an empty list).
pub open spec fn start_position(start: usize, len: nat) -> usize {
    if len == 0 {
        0
    } else if start < len {
        start
    } else {
        (len - 1) as usize
    }
}

/// The next repeat setting in the cycle off, all, one.
pub open spec fn next_repeat(m: RepeatMode) -> RepeatMode {
    match m {
        RepeatMode::Off => RepeatMode::All,
        RepeatMode::All => RepeatMode::One,
        RepeatMode::One => RepeatMode::Off,
    }
}

fn start_index_in(start: usize, len: usize) -> (k: usize)
    ensures
        k == start_position(start, len as nat),
{
    let last = if len > 0 {
        len - 1
    } else {
        0
    };
    if start < last {
        start
    } else {
        last
    }
}

/// A copy of the history without some of the entries from the user's
/// queue: with `only_index` `None`, all of them; with `Some(i)`, those
/// recorded at queue position `i`.
fn filter_history(h: &Vec<HistoryEntry>, only_index: Option<usize>) -> (r: Vec<HistoryEntry>)
    ensures
        r@ == h@.filter(
            match only_index {
                None => not_from_queue(),
                Some(i) => not_queue_entry(i),
            },
        ),
{
    let ghost pred = match only_index {
        None => not_from_queue(),
        Some(i) => not_queue_entry(i),
    };
    let mut r: Vec<HistoryEntry> = Vec::new();
    let n = h.len();
    let mut i: usize = 0;
    while i < n
        invariant
            n == h@.len(),
            0 <= i <= n,
            pred == (match only_index {
                None => not_from_queue(),
                Some(i) => not_queue_entry(i),
            }),
            r@ == h@.take(i as int).filter(pred),
        decreases n - i,
    {
        let e = &h[i];
        proof {
            assert(h@.take(i + 1) == h@.take(i as int).push(h@[i as int]));
            h@.take(i as int).lemma_filter_push(h@[i as int], pred);
        }
        let from_queue = e.source == QueueSource::Queue;
        let drop = match only_index {
            None => from_queue,
            Some(k) => from_queue && match e.queue_index {
                Some(q) => q == k,
                None => false,
            },
        };
        if !drop {
            r.push(e.clone());
        }
        i = i + 1;
    }
    proof {
        assert(h@.take(n as int) == h@);
    }
    r
}

/// What the player does after a playback poll.
pub enum PollOutcome {
    /// Keep playing as before.
    Keep,
    /// The track ended and the next one, at `path`, is to be played.
    Play { path: String },
    /// The track ended and nothing comes next: playback is to stop.
    Stop,
}

/// Which way the mouse wheel turned over a slider.
#[derive(Clone, Copy, Debug, PartialEq, Eq, Structural)]
pub enum WheelDirection {
    /// Scrolled down: step back.
    Back,
    /// Scrolled up: step forward.
    Forward,
    /// No vertical movement.
    Still,
}

/// The four volume icons.
#[derive(Clone, Copy, Debug, PartialEq, Eq, Structural)]
pub enum VolumeLevel {
    Muted,
    Low,
    Medium,
    High,
}

/// The track information the backend answers a play request with.
#[derive(Debug)]
pub struct Metadata {
    pub title: String,
    pub artist: String,
    pub duration_ms: u64,
    pub image: String,
}

/// The backend's answer to a play request.
#[derive(Debug)]
pub struct PlayResponse {
    pub metadata: Option<Metadata>,
}

/// The mark of entry `index` of a list whose current position is `current`:
/// active and past only count while that list is the source (`in_source`),
/// except that `past_outside_source` keeps the past mark without it.
pub open spec fn entry_mark_of(index: usize, current: Option<usize>, in_source: bool, past_outside_source: bool) -> EntryMark {
    if in_source && current == Some(index) {
        EntryMark::Active
    } else if (in_source || past_outside_source) && current is Some && index < current->0 {
        EntryMark::Past
    } else {
        EntryMark::Upcoming
    }
}

/// A wheel step over the progress bar moves playback by five seconds.
pub open spec fn seek_step_ms() -> int {
    5000
}

/// A wheel step over the volume bar moves the volume by five percent.
pub open spec fn volume_step() -> int {
    5
}

/// The position a wheel step moves `time` to, kept within `0..=duration`
/// (a step forward from beyond the end lands on the end).
pub open spec fn wheel_seek_target(time: u64, duration: u64, dir: WheelDirection) -> int {
    match dir {
        WheelDirection::Back => if time >= seek_step_ms() {
            time - seek_step_ms()
        } else {
            0
        },
        WheelDirection::Forward => if time + seek_step_ms() <= duration {
            time + seek_step_ms()
        } else {
            duration as int
        },
        WheelDirection::Still => time as int,
    }
}

/// Two playback positions within 10 ms of each other count as the same
/// position for a wheel step.
pub open spec fn seek_within_tolerance(a: int, b: int) -> bool {
    -10 <= a - b <= 10
}

/// The volume a wheel step moves `volume` to, kept within `0..=100`.
pub open spec fn wheel_volume_target(volume: u64, dir: WheelDirection) -> int {
    match dir {
        WheelDirection::Back => if volume >= volume_step() {
            volume - volume_step()
        } else {
            0
        },
        WheelDirection::Forward => if volume + volume_step() <= 100 {
            volume + volume_step()
        } else {
            100
        },
        WheelDirection::Still => volume as int,
    }
}

/// The icon for a volume in percent.
pub open spec fn volume_level_of(volume: u64) -> VolumeLevel {
    if volume == 0 {
        VolumeLevel::Muted
    } else if volume < 30 {
        VolumeLevel::Low
    } else if volume < 70 {
        VolumeLevel::Medium
    } else {
        VolumeLevel::High
    }
}

/// The playing track's end is reached: less than a second of it remains.
pub open spec fn at_track_end(time: u64, duration: u64) -> bool {
    duration > 0 && time + 1000 >= duration
}

/// Restart within this many milliseconds of playback goes to the previous track.
pub open spec fn restart_threshold_ms() -> nat {
    3000
}

impl PlayerState {
    /// The track the player is on: the entry at the current position of the
    /// current source, else the last loaded metadata.
    pub open spec fn playing_track(self) -> Option<TrackMetadata> {
        let from_index = match self.current_source {
            QueueSource::Playlist => entry_at(self.active_playlist@, self.current_playlist_index),
            QueueSource::Queue => entry_at(self.user_queue@, self.current_queue_index),
        };
        if from_index is Some {
            from_index
        } else {
            self.metadata
        }
    }

    /// The state after the metadata and duration of the playing track are loaded.
    pub open spec fn with_track_loaded(self) -> PlayerState {
        PlayerState {
            metadata: self.playing_track(),
            duration_ms: match self.playing_track() {
                Some(m) => m.duration_ms,
                None => self.duration_ms,
            },
            ..self
        }
    }

    /// The history entry that records the playing track at its position.
    pub open spec fn history_record(self) -> Seq<HistoryEntry> {
        match self.playing_track() {
            Some(t) => seq![
                HistoryEntry {
                    source: self.current_source,
                    playlist_index: self.current_playlist_index,
                    queue_index: self.current_queue_index,
                    track: t,
                },
            ],
            None => Seq::empty(),
        }
    }

    /// Whether the transport offers a next track.
    pub open spec fn has_next(self) -> bool {
        match self.current_source {
            QueueSource::Playlist => {
                ||| self.user_queue@.len() > 0
                ||| has_after(self.current_playlist_index, self.active_playlist@.len())
                ||| (self.repeat_mode == RepeatMode::All && self.active_playlist@.len() > 0)
            },
            QueueSource::Queue => {
                ||| has_after(self.current_queue_index, self.user_queue@.len())
                ||| has_after(self.current_playlist_index, self.active_playlist@.len())
                ||| self.active_playlist@.len() > 0
                ||| (self.repeat_mode == RepeatMode::All && self.user_queue@.len() > 0)
            },
        }
    }

    /// Whether the transport offers a previous track (or a restart of this one).
    pub open spec fn has_prev(self) -> bool {
        if self.current_time_ms > restart_threshold_ms() {
            true
        } else {
            match self.current_source {
                QueueSource::Queue => past_first(self.current_queue_index),
                QueueSource::Playlist => past_first(self.current_playlist_index),
            }
        }
    }

    /// The state a fresh player starts in.
    pub fn new() -> (s: Self)
        ensures
            s.current_view@ == "home"@,
            !s.is_playing,
            s.current_time_ms == 0,
            s.duration_ms == 0,
            s.volume == 10,
            s.metadata is None,
            !s.is_loading,
            !s.is_dragging_prog,
            s.active_playlist@.len() == 0,
            s.active_playlist_name@.len() == 0,
            s.user_queue@.len() == 0,
            s.history@.len() == 0,
            s.current_playlist_index is None,
            s.current_queue_index is None,
            s.current_source == QueueSource::Playlist,
            !s.is_shuffled,
            s.repeat_mode == RepeatMode::Off,
    {
        PlayerState {
            current_view: "home".to_owned(),
            is_playing: false,
            current_time_ms: 0,
            duration_ms: 0,
            volume: 10,
            metadata: None,
            is_loading: false,
            is_dragging_prog: false,
            active_playlist: Vec::new(),
            active_playlist_name: String::new(),
            user_queue: Vec::new(),
            history: Vec::new(),
            current_playlist_index: None,
            current_queue_index: None,
            current_source: QueueSource::Playlist,
            is_shuffled: false,
            repeat_mode: RepeatMode::Off,
        }
    }

    /// The track the player is on.
    pub fn current_track(&self) -> (r: Option<&TrackMetadata>)
        ensures
            match r {
                Some(t) => self.playing_track() == Some(*t),
                None => self.playing_track() is None,
            },
    {
        let from_index: Option<&TrackMetadata> = match self.current_source {
            QueueSource::Playlist => match self.current_playlist_index {
                Some(i) => if i < self.active_playlist.len() {
                    Some(&self.active_playlist[i])
                } else {
                    None
                },
                None => None,
            },
            QueueSource::Queue => match self.current_queue_index {
                Some(i) => if i < self.user_queue.len() {
                    Some(&self.user_queue[i])
                } else {
                    None
                },
                None => None,
            },
        };
        match from_index {
            Some(t) => Some(t),
            None => match &self.metadata {
                Some(m) => Some(m),
                None => None,
            },
        }
    }

    /// A copy of the track the player is on.
    fn current_track_owned(&self) -> (r: Option<TrackMetadata>)
        ensures
            r == self.playing_track(),
    {
        match self.current_track() {
            Some(t) => Some(t.clone()),
            None => None,
        }
    }

    /// Loads the metadata and duration of the track the player is on.
    fn load_current_track(&mut self)
        ensures
            *final(self) == old(self).with_track_loaded(),
    {
        let m = self.current_track_owned();
        match &m {
            Some(t) => {
                self.duration_ms = t.duration_ms;
            },
            None => {},
        }
        self.metadata = m;
    }

    /// Records the track the player is on in the history.
    fn push_current_to_history(&mut self)
        ensures
            final(self).history@ == old(self).history@ + old(self).history_record(),
            *final(self) == (PlayerState { history: final(self).history, ..*old(self) }),
    {
        match self.current_track_owned() {
            Some(current) => {
                let entry = HistoryEntry {
                    source: self.current_source,
                    playlist_index: self.current_playlist_index,
                    queue_index: self.current_queue_index,
                    track: current,
                };
                self.history.push(entry);
            },
            None => {
                assert(old(self).history@ + old(self).history_record() == old(self).history@);
            },
        }
    }

    /// Where `advance` takes the player from this state.
    pub open spec fn advance_step(self) -> AdvanceStep {
        let pl_len = self.active_playlist@.len();
        let q_len = self.user_queue@.len();
        if self.repeat_mode == RepeatMode::One {
            AdvanceStep::RepeatOne
        } else {
            match self.current_source {
                QueueSource::Playlist => if q_len > 0 {
                    AdvanceStep::Move {
                        source: QueueSource::Queue,
                        playlist_index: self.current_playlist_index,
                        queue_index: Some(0),
                        restart: false,
                    }
                } else {
                    match self.current_playlist_index {
                        Some(i) => if i + 1 < pl_len {
                            AdvanceStep::Move {
                                source: QueueSource::Playlist,
                                playlist_index: Some((i + 1) as usize),
                                queue_index: self.current_queue_index,
                                restart: false,
                            }
                        } else if self.repeat_mode == RepeatMode::All && pl_len > 0 {
                            AdvanceStep::Move {
                                source: QueueSource::Playlist,
                                playlist_index: Some(0),
                                queue_index: self.current_queue_index,
                                restart: true,
                            }
                        } else {
                            AdvanceStep::Stop
                        },
                        None => AdvanceStep::Stop,
                    }
                },
                QueueSource::Queue => match self.current_queue_index {
                    Some(i) => if i + 1 < q_len {
                        AdvanceStep::Move {
                            source: QueueSource::Queue,
                            playlist_index: self.current_playlist_index,
                            queue_index: Some((i + 1) as usize),
                            restart: false,
                        }
                    } else if pl_len > 0 {
                        let next: int = match self.current_playlist_index {
                            Some(p) => p + 1,
                            None => 0,
                        };
                        if next < pl_len {
                            AdvanceStep::Move {
                                source: QueueSource::Playlist,
                                playlist_index: Some(next as usize),
                                queue_index: None,
                                restart: false,
                            }
                        } else if self.repeat_mode == RepeatMode::All {
                            AdvanceStep::Move {
                                source: QueueSource::Playlist,
                                playlist_index: Some(0),
                                queue_index: None,
                                restart: true,
                            }
                        } else {
                            AdvanceStep::Stop
                        }
                    } else if self.repeat_mode == RepeatMode::All && q_len > 0 {
                        AdvanceStep::Move {
                            source: QueueSource::Queue,
                            playlist_index: self.current_playlist_index,
                            queue_index: Some(0),
                            restart: true,
                        }
                    } else {
                        AdvanceStep::Stop
                    },
                    None => AdvanceStep::Stop,
                },
            }
        }
    }

    /// `post` is the state `advance` leaves from `pre`.
    pub open spec fn advanced(pre: PlayerState, post: PlayerState) -> bool {
        match pre.advance_step() {
            AdvanceStep::RepeatOne => post == (PlayerState {
                current_time_ms: 0,
                is_playing: true,
                ..pre
            }),
            AdvanceStep::Stop => {
                &&& post.history@ == pre.history@ + pre.history_record()
                &&& post == (PlayerState { history: post.history, is_playing: false, ..pre })
            },
            AdvanceStep::Move { source, playlist_index, queue_index, restart } => {
                &&& post.history@ == if restart {
                    Seq::<HistoryEntry>::empty()
                } else {
                    pre.history@ + pre.history_record()
                }
                &&& post == (PlayerState {
                    current_source: source,
                    current_playlist_index: playlist_index,
                    current_queue_index: queue_index,
                    current_time_ms: 0,
                    history: post.history,
                    ..pre
                }).with_track_loaded()
            },
        }
    }

    /// Clearing the user's queue keeps the entry playing from it.
    pub open spec fn keeps_queue_entry_on_clear(self) -> bool {
        self.current_source == QueueSource::Queue && entry_at(
            self.user_queue@,
            self.current_queue_index,
        ) is Some
    }

    /// The state `clear_user_queue` leaves, given its new queue `q` and history `h`.
    pub open spec fn queue_cleared(self, q: Vec<TrackMetadata>, h: Vec<HistoryEntry>) -> PlayerState {
        PlayerState {
            user_queue: q,
            history: h,
            current_queue_index: if self.keeps_queue_entry_on_clear() {
                Some(0)
            } else {
                None
            },
            ..self
        }
    }

    /// `remove_from_queue(index)` leaves the state as it is.
    pub open spec fn ignores_queue_removal(self, index: usize) -> bool {
        index >= self.user_queue@.len() || (self.current_source == QueueSource::Queue
            && self.current_queue_index == Some(index))
    }

    /// The state `remove_from_queue(index)` leaves (when it does not ignore
    /// the index), given its new queue `q` and history `h`: the queue
    /// position follows its track, and is cleared when the queue empties.
    pub open spec fn removed_from_queue(self, index: usize, q: Vec<TrackMetadata>, h: Vec<HistoryEntry>) -> PlayerState {
        let shifted = if self.current_source == QueueSource::Queue && self.current_queue_index is Some
            && index < self.current_queue_index->0 {
            Some((self.current_queue_index->0 - 1) as usize)
        } else {
            self.current_queue_index
        };
        PlayerState {
            user_queue: q,
            history: h,
            current_queue_index: if q@.len() == 0 {
                None
            } else {
                shifted
            },
            ..self
        }
    }

    /// The state `go_back` leaves.
    pub open spec fn after_go_back(self) -> PlayerState {
        if self.current_time_ms > restart_threshold_ms() {
            PlayerState { current_time_ms: 0, is_playing: true, ..self }
        } else if self.current_source == QueueSource::Queue && past_first(self.current_queue_index) {
            (PlayerState {
                current_queue_index: Some((self.current_queue_index->0 - 1) as usize),
                current_time_ms: 0,
                ..self
            }).with_track_loaded().with_playing()
        } else if self.current_source == QueueSource::Playlist && past_first(
            self.current_playlist_index,
        ) {
            (PlayerState {
                current_playlist_index: Some((self.current_playlist_index->0 - 1) as usize),
                current_time_ms: 0,
                ..self
            }).with_track_loaded().with_playing()
        } else {
            PlayerState { current_time_ms: 0, ..self }
        }
    }

    /// `post` is the state `go_back` leaves from `pre`, having answered `r`.
    pub open spec fn went_back(pre: PlayerState, r: bool, post: PlayerState) -> bool {
        &&& r == pre.has_prev()
        &&& post == pre.after_go_back()
    }

    /// `post` is the state `jump_to_playlist(index)` leaves from `pre`: out of
    /// range nothing changes; otherwise the playing track goes into the
    /// history and the entry plays.
    pub open spec fn jumped_in_playlist(pre: PlayerState, index: usize, post: PlayerState) -> bool {
        if index >= pre.active_playlist@.len() {
            post == pre
        } else {
            &&& post.history@ == pre.history@ + pre.history_record()
            &&& post == (PlayerState { history: post.history, ..pre }).jumped(
                QueueSource::Playlist,
                index,
            )
        }
    }

    /// `post` is the state `jump_to_queue(index)` leaves from `pre`: out of
    /// range, or on the entry already playing from the queue, nothing
    /// changes; otherwise the playing track goes into the history and the
    /// entry plays.
    pub open spec fn jumped_in_queue(pre: PlayerState, index: usize, post: PlayerState) -> bool {
        if index >= pre.user_queue@.len() || (pre.current_source == QueueSource::Queue
            && pre.current_queue_index == Some(index)) {
            post == pre
        } else {
            &&& post.history@ == pre.history@ + pre.history_record()
            &&& post == (PlayerState { history: post.history, ..pre }).jumped(
                QueueSource::Queue,
                index,
            )
        }
    }

    /// `post` is the state `remove_from_queue(index)` leaves from `pre`.
    pub open spec fn queue_entry_removed(pre: PlayerState, index: usize, post: PlayerState) -> bool {
        if pre.ignores_queue_removal(index) {
            post == pre
        } else {
            &&& post.user_queue@ == pre.user_queue@.remove(index as int)
            &&& post.history@ == pre.history@.filter(not_queue_entry(index))
            &&& post == pre.removed_from_queue(index, post.user_queue, post.history)
        }
    }

    /// The same state, playing.
    pub open spec fn with_playing(self) -> PlayerState {
        PlayerState { is_playing: true, ..self }
    }

    /// The state with playback set to start the track at `source`/`index`
    /// (the other list's position cleared) and the track loaded.
    pub open spec fn jumped(self, source: QueueSource, index: usize) -> PlayerState {
        (match source {
            QueueSource::Playlist => PlayerState {
                current_source: QueueSource::Playlist,
                current_playlist_index: Some(index),
                current_queue_index: None,
                current_time_ms: 0,
                ..self
            },
            QueueSource::Queue => PlayerState {
                current_source: QueueSource::Queue,
                current_queue_index: Some(index),
                current_playlist_index: None,
                current_time_ms: 0,
                ..self
            },
        }).with_track_loaded().with_playing()
    }

    fn plan_advance(&self) -> (a: AdvanceStep)
        ensures
            a == self.advance_step(),
    {
        let pl_len = self.active_playlist.len();
        let q_len = self.user_queue.len();
        if self.repeat_mode == RepeatMode::One {
            return AdvanceStep::RepeatOne;
        }
        match self.current_source {
            QueueSource::Playlist => {
                if q_len > 0 {
                    AdvanceStep::Move {
                        source: QueueSource::Queue,
                        playlist_index: self.current_playlist_index,
                        queue_index: Some(0),
                        restart: false,
                    }
                } else {
                    match self.current_playlist_index {
                        Some(i) => {
                            if pl_len > 0 && i < pl_len - 1 {
                                AdvanceStep::Move {
                                    source: QueueSource::Playlist,
                                    playlist_index: Some(i + 1),
                                    queue_index: self.current_queue_index,
                                    restart: false,
                                }
                            } else if self.repeat_mode == RepeatMode::All && pl_len > 0 {
                                AdvanceStep::Move {
                                    source: QueueSource::Playlist,
                                    playlist_index: Some(0),
                                    queue_index: self.current_queue_index,
                                    restart: true,
                                }
                            } else {
                                AdvanceStep::Stop
                            }
                        },
                        None => AdvanceStep::Stop,
                    }
                }
            },
            QueueSource::Queue => {
                match self.current_queue_index {
                    Some(i) => {
                        if q_len > 0 && i < q_len - 1 {
                            AdvanceStep::Move {
                                source: QueueSource::Queue,
                                playlist_index: self.current_playlist_index,
                                queue_index: Some(i + 1),
                                restart: false,
                            }
                        } else if pl_len > 0 {
                            let next: Option<usize> = match self.current_playlist_index {
                                Some(p) => if p < pl_len - 1 {
                                    Some(p + 1)
                                } else {
                                    None
                                },
                                None => Some(0),
                            };
                            match next {
                                Some(n) => AdvanceStep::Move {
                                    source: QueueSource::Playlist,
                                    playlist_index: Some(n),
                                    queue_index: None,
                                    restart: false,
                                },
                                None => if self.repeat_mode == RepeatMode::All {
                                    AdvanceStep::Move {
                                        source: QueueSource::Playlist,
                                        playlist_index: Some(0),
                                        queue_index: None,
                                        restart: true,
                                    }
                                } else {
                                    AdvanceStep::Stop
                                },
                            }
                        } else if self.repeat_mode == RepeatMode::All && q_len > 0 {
                            AdvanceStep::Move {
                                source: QueueSource::Queue,
                                playlist_index: self.current_playlist_index,
                                queue_index: Some(0),
                                restart: true,
                            }
                        } else {
                            AdvanceStep::Stop
                        }
                    },
                    None => AdvanceStep::Stop,
                }
            },
        }
    }

    /// Moves to the next track: repeat-one restarts the track; otherwise the
    /// track is recorded in the history and playback goes to the user's queue
    /// first, then on through the playlist, wrapping around under repeat-all,
    /// and stops when nothing comes next.
    pub fn advance(&mut self)
        ensures
            PlayerState::advanced(*old(self), *final(self)),
    {
        let step = self.plan_advance();
        match step {
            AdvanceStep::RepeatOne => {
                self.current_time_ms = 0;
                self.is_playing = true;
            },
            AdvanceStep::Stop => {
                self.push_current_to_history();
                self.is_playing = false;
            },
            AdvanceStep::Move { source, playlist_index, queue_index, restart } => {
                self.push_current_to_history();
                self.current_source = source;
                self.current_playlist_index = playlist_index;
                self.current_queue_index = queue_index;
                if restart {
                    self.history.clear();
                }
                self.current_time_ms = 0;
                self.load_current_track();
            },
        }
    }

    /// Goes back: a track that has played for more than three seconds
    /// restarts; otherwise the previous entry of the current list plays.
    /// Answers whether there was somewhere to go back to.
    pub fn go_back(&mut self) -> (r: bool)
        ensures
            PlayerState::went_back(*old(self), r, *final(self)),
    {
        if self.current_time_ms > 3000 {
            self.current_time_ms = 0;
            if !self.is_playing {
                self.is_playing = true;
            }
            return true;
        }
        if self.current_source == QueueSource::Queue {
            match self.current_queue_index {
                Some(idx) => {
                    if idx > 0 {
                        self.current_queue_index = Some(idx - 1);
                        self.current_time_ms = 0;
                        self.load_current_track();
                        self.is_playing = true;
                        return true;
                    }
                },
                None => {},
            }
            self.current_time_ms = 0;
            return false;
        }
        match self.current_playlist_index {
            Some(idx) => {
                if idx > 0 {
                    self.current_playlist_index = Some(idx - 1);
                    self.current_time_ms = 0;
                    self.load_current_track();
                    self.is_playing = true;
                    return true;
                }
            },
            None => {},
        }
        self.current_time_ms = 0;
        false
    }

    /// Whether there is a next track to go to.
    pub fn next_track_exists(&self) -> (b: bool)
        ensures
            b == self.has_next(),
    {
        let pl_len = self.active_playlist.len();
        let q_len = self.user_queue.len();
        match self.current_source {
            QueueSource::Playlist => {
                if q_len > 0 {
                    return true;
                }
                match self.current_playlist_index {
                    Some(idx) => if pl_len > 0 && idx < pl_len - 1 {
                        return true;
                    },
                    None => {},
                }
                self.repeat_mode == RepeatMode::All && pl_len > 0
            },
            QueueSource::Queue => {
                match self.current_queue_index {
                    Some(idx) => if q_len > 0 && idx < q_len - 1 {
                        return true;
                    },
                    None => {},
                }
                match self.current_playlist_index {
                    Some(idx) => if pl_len > 0 && idx < pl_len - 1 {
                        return true;
                    },
                    None => {},
                }
                pl_len > 0 || (self.repeat_mode == RepeatMode::All && q_len > 0)
            },
        }
    }

    /// Whether there is a previous track to go to, or the track would restart.
    pub fn prev_track_exists(&self) -> (b: bool)
        ensures
            b == self.has_prev(),
    {
        if self.current_time_ms > 3000 {
            return true;
        }
        match self.current_source {
            QueueSource::Queue => match self.current_queue_index {
                Some(idx) => idx > 0,
                None => false,
            },
            QueueSource::Playlist => match self.current_playlist_index {
                Some(idx) => idx > 0,
                None => false,
            },
        }
    }

    /// Starts the playlist `tracks` (named `name`) at `start_index`, held to
    /// its last entry; the history starts afresh.
    pub fn play_playlist(&mut self, tracks: Vec<TrackMetadata>, name: String, start_index: usize)
        ensures
            final(self).history@.len() == 0,
            *final(self) == (PlayerState {
                active_playlist: tracks,
                active_playlist_name: name,
                current_source: QueueSource::Playlist,
                current_playlist_index: Some(start_position(start_index, tracks@.len())),
                current_queue_index: None,
                history: final(self).history,
                current_time_ms: 0,
                is_playing: true,
                ..*old(self)
            }).with_track_loaded(),
    {
        let k = start_index_in(start_index, tracks.len());
        self.active_playlist = tracks;
        self.active_playlist_name = name;
        self.current_source = QueueSource::Playlist;
        self.current_playlist_index = Some(k);
        self.current_queue_index = None;
        self.history.clear();
        self.current_time_ms = 0;
        self.is_playing = true;
        self.load_current_track();
    }

    /// Replaces the user's queue with `tracks` and plays it from
    /// `start_index`, held to its last entry; the history starts afresh.
    pub fn play_user_queue(&mut self, tracks: Vec<TrackMetadata>, start_index: usize)
        ensures
            final(self).history@.len() == 0,
            *final(self) == (PlayerState {
                user_queue: tracks,
                current_source: QueueSource::Queue,
                current_queue_index: Some(start_position(start_index, tracks@.len())),
                current_playlist_index: None,
                history: final(self).history,
                current_time_ms: 0,
                is_playing: true,
                ..*old(self)
            }).with_track_loaded(),
    {
        let k = start_index_in(start_index, tracks.len());
        self.user_queue = tracks;
        self.current_source = QueueSource::Queue;
        self.current_queue_index = Some(k);
        self.current_playlist_index = None;
        self.history.clear();
        self.current_time_ms = 0;
        self.is_playing = true;
        self.load_current_track();
    }

    /// Appends `track` to the user's queue; when the player had no track and
    /// this is the queue's only entry, it becomes the playing track.
    pub fn add_to_queue(&mut self, track: TrackMetadata)
        ensures
            final(self).user_queue@ == old(self).user_queue@.push(track),
            ({
                let pushed = PlayerState { user_queue: final(self).user_queue, ..*old(self) };
                if pushed.playing_track() is None && pushed.user_queue@.len() == 1 {
                    *final(self) == (PlayerState {
                        current_source: QueueSource::Queue,
                        current_queue_index: Some(0),
                        current_playlist_index: None,
                        ..pushed
                    }).with_track_loaded().with_playing()
                } else {
                    *final(self) == pushed
                }
            }),
    {
        self.user_queue.push(track);
        let none_playing = match self.current_track() {
            Some(_) => false,
            None => true,
        };
        if none_playing && self.user_queue.len() == 1 {
            self.current_source = QueueSource::Queue;
            self.current_queue_index = Some(0);
            self.current_playlist_index = None;
            self.load_current_track();
            self.is_playing = true;
        }
    }

    /// Empties the user's queue, keeping only the track playing from it (if
    /// any) as its single entry; queue entries leave the history.
    pub fn clear_user_queue(&mut self)
        ensures
            final(self).history@ == old(self).history@.filter(not_from_queue()),
            old(self).keeps_queue_entry_on_clear() ==> final(self).user_queue@ == seq![
                old(self).user_queue@[old(self).current_queue_index->0 as int],
            ],
            !old(self).keeps_queue_entry_on_clear() ==> final(self).user_queue@.len() == 0,
            *final(self) == old(self).queue_cleared(final(self).user_queue, final(self).history),
    {
        let h = filter_history(&self.history, None);
        if self.current_source == QueueSource::Queue {
            match self.current_queue_index {
                Some(idx) => {
                    if idx < self.user_queue.len() {
                        let current = self.user_queue[idx].clone();
                        self.user_queue.clear();
                        self.user_queue.push(current);
                        self.current_queue_index = Some(0);
                        self.history = h;
                        return;
                    }
                },
                None => {},
            }
        }
        self.user_queue.clear();
        self.current_queue_index = None;
        self.history = h;
    }

    /// Removes entry `index` of the user's queue, unless it is out of range
    /// or is the track playing from the queue. The queue position follows its
    /// track; history entries recorded at that queue position are dropped.
    pub fn remove_from_queue(&mut self, index: usize)
        ensures
            PlayerState::queue_entry_removed(*old(self), index, *final(self)),
    {
        if index >= self.user_queue.len() {
            return;
        }
        if self.current_source == QueueSource::Queue {
            match self.current_queue_index {
                Some(current_idx) => {
                    if index == current_idx {
                        return;
                    }
                    if index < current_idx {
                        self.current_queue_index = Some(current_idx - 1);
                    }
                },
                None => {},
            }
        }
        let h = filter_history(&self.history, Some(index));
        self.history = h;
        self.user_queue.remove(index);
        if self.user_queue.len() == 0 {
            self.current_queue_index = None;
        }
    }

    /// Cycles the repeat setting: off, all, one, off.
    pub fn toggle_repeat(&mut self)
        ensures
            *final(self) == (PlayerState { repeat_mode: next_repeat(old(self).repeat_mode), ..*old(self) }),
    {
        self.repeat_mode = match self.repeat_mode {
            RepeatMode::Off => RepeatMode::All,
            RepeatMode::All => RepeatMode::One,
            RepeatMode::One => RepeatMode::Off,
        };
    }

    /// Flips shuffle on or off.
    pub fn toggle_shuffle(&mut self)
        ensures
            *final(self) == (PlayerState { is_shuffled: !old(self).is_shuffled, ..*old(self) }),
    {
        self.is_shuffled = !self.is_shuffled;
    }

    /// Plays entry `index` of the active playlist (ignored when out of range),
    /// recording the current track in the history.
    pub fn jump_to_playlist(&mut self, index: usize)
        ensures
            PlayerState::jumped_in_playlist(*old(self), index, *final(self)),
    {
        if index >= self.active_playlist.len() {
            return;
        }
        self.push_current_to_history();
        self.current_source = QueueSource::Playlist;
        self.current_playlist_index = Some(index);
        self.current_queue_index = None;
        self.current_time_ms = 0;
        self.load_current_track();
        self.is_playing = true;
    }

    /// Plays entry `index` of the user's queue (ignored when out of range or
    /// already playing), recording the current track in the history.
    pub fn jump_to_queue(&mut self, index: usize)
        ensures
            PlayerState::jumped_in_queue(*old(self), index, *final(self)),
    {
        if index >= self.user_queue.len() {
            return;
        }
        if self.current_source == QueueSource::Queue {
            match self.current_queue_index {
                Some(q) => if q == index {
                    return;
                },
                None => {},
            }
        }
        self.push_current_to_history();
        self.current_source = QueueSource::Queue;
        self.current_queue_index = Some(index);
        self.current_playlist_index = None;
        self.current_time_ms = 0;
        self.load_current_track();
        self.is_playing = true;
    }

    /// Number of entries in the user's queue.
    pub fn user_queue_len(&self) -> (n: usize)
        ensures
            n == self.user_queue@.len(),
    {
        self.user_queue.len()
    }

    /// Number of entries in the active playlist.
    pub fn playlist_len(&self) -> (n: usize)
        ensures
            n == self.active_playlist@.len(),
    {
        self.active_playlist.len()
    }

    /// The playback position as `mm:ss`, rounded to whole seconds.
    pub fn format_time(&self) -> (s: String)
        ensures
            s@ == mm_ss_text(rounded_secs(self.current_time_ms as nat)),
    {
        Self::format_secs(self.current_time_ms)
    }

    /// The track length as `mm:ss`, rounded to whole seconds.
    pub fn format_duration(&self) -> (s: String)
        ensures
            s@ == mm_ss_text(rounded_secs(self.duration_ms as nat)),
    {
        Self::format_secs(self.duration_ms)
    }

    fn format_secs(ms: u64) -> (s: String)
        ensures
            s@ == mm_ss_text(rounded_secs(ms as nat)),
    {
        mm_ss(round_ms_to_secs(ms))
    }

    /// Takes a playback position reported by the backend. When the track is
    /// within a second of its end the player advances, and answers what to
    /// play next or that playback is to stop.
    pub fn poll_tick(&mut self, time_ms: u64) -> (out: PollOutcome)
        ensures
            ({
                let ticked = PlayerState { current_time_ms: time_ms, ..*old(self) };
                if at_track_end(time_ms, old(self).duration_ms) {
                    &&& PlayerState::advanced(ticked, *final(self))
                    &&& match out {
                        PollOutcome::Keep => final(self).is_playing && final(self).playing_track() is None,
                        PollOutcome::Play { path } => final(self).is_playing
                            && final(self).playing_track() is Some
                            && path@ == final(self).playing_track()->0.path@,
                        PollOutcome::Stop => !final(self).is_playing,
                    }
                } else {
                    &&& *final(self) == ticked
                    &&& out is Keep
                }
            }),
    {
        self.current_time_ms = time_ms;
        let ends = self.duration_ms > 0 && (self.duration_ms <= 1000 || time_ms >= self.duration_ms
            - 1000);
        if !ends {
            return PollOutcome::Keep;
        }
        self.advance();
        if self.is_playing {
            match self.current_track() {
                Some(track) => PollOutcome::Play { path: track.path.clone() },
                None => PollOutcome::Keep,
            }
        } else {
            PollOutcome::Stop
        }
    }

    /// A wheel step over the progress bar: moves playback five seconds back
    /// or forward within the track, and answers the new position when it
    /// moved by more than the seek tolerance (it is then to be sent to the
    /// backend); smaller moves are ignored.
    pub fn seek_by_wheel(&mut self, dir: WheelDirection) -> (r: Option<u64>)
        ensures
            ({
                let o = *old(self);
                let target = wheel_seek_target(o.current_time_ms, o.duration_ms, dir);
                if o.duration_ms == 0 || seek_within_tolerance(target, o.current_time_ms as int) {
                    &&& r is None
                    &&& *final(self) == o
                } else {
                    &&& r == Some(target as u64)
                    &&& *final(self) == (PlayerState { current_time_ms: target as u64, ..o })
                }
            }),
    {
        let duration = self.duration_ms;
        if duration == 0 {
            return None;
        }
        let current = self.current_time_ms;
        let target = match dir {
            WheelDirection::Back => if current >= 5000 {
                current - 5000
            } else {
                0
            },
            WheelDirection::Forward => if current >= duration || duration - current <= 5000 {
                duration
            } else {
                current + 5000
            },
            WheelDirection::Still => current,
        };
        let moved = if target >= current {
            target - current > 10
        } else {
            current - target > 10
        };
        if moved {
            self.current_time_ms = target;
            Some(target)
        } else {
            None
        }
    }

    /// A wheel step over the volume bar: moves the volume five percent down
    /// or up within 0..=100, and answers whether it changed.
    pub fn volume_by_wheel(&mut self, dir: WheelDirection) -> (changed: bool)
        ensures
            ({
                let o = *old(self);
                let target = wheel_volume_target(o.volume, dir);
                &&& changed == (target != o.volume)
                &&& *final(self) == (PlayerState { volume: target as u64, ..o })
            }),
    {
        let current = self.volume;
        let target = match dir {
            WheelDirection::Back => if current >= 5 {
                current - 5
            } else {
                0
            },
            WheelDirection::Forward => if current <= 95 {
                current + 5
            } else {
                100
            },
            WheelDirection::Still => current,
        };
        if target != current {
            self.volume = target;
            true
        } else {
            false
        }
    }

    /// The volume icon to show.
    pub fn volume_level(&self) -> (l: VolumeLevel)
        ensures
            l == volume_level_of(self.volume),
    {
        if self.volume == 0 {
            VolumeLevel::Muted
        } else if self.volume < 30 {
            VolumeLevel::Low
        } else if self.volume < 70 {
            VolumeLevel::Medium
        } else {
            VolumeLevel::High
        }
    }

    /// A play request for a file was sent: the player shows it is loading.
    pub fn begin_play_request(&mut self)
        ensures
            *final(self) == (PlayerState { is_loading: true, ..*old(self) }),
    {
        self.is_loading = true;
    }

    /// The backend answered the play request for `path`: with metadata, the
    /// file becomes the playing track from its start; without, loading ends.
    pub fn finish_play_request(&mut self, path: String, metadata: Option<Metadata>)
        ensures
            match metadata {
                Some(m) => {
                    &&& final(self).metadata is Some
                    &&& final(self).metadata->0 == (TrackMetadata {
                        title: m.title,
                        artist: m.artist,
                        duration_ms: m.duration_ms,
                        path: path,
                        image: m.image,
                    })
                    &&& *final(self) == (PlayerState {
                        metadata: final(self).metadata,
                        duration_ms: m.duration_ms,
                        current_time_ms: 0,
                        is_playing: true,
                        is_loading: false,
                        ..*old(self)
                    })
                },
                None => *final(self) == (PlayerState { is_loading: false, ..*old(self) }),
            },
    {
        match metadata {
            Some(m) => {
                let d = m.duration_ms;
                self.metadata = Some(
                    TrackMetadata {
                        title: m.title,
                        artist: m.artist,
                        duration_ms: d,
                        path: path,
                        image: m.image,
                    },
                );
                self.duration_ms = d;
                self.current_time_ms = 0;
                self.is_playing = true;
                self.is_loading = false;
            },
            None => {
                self.is_loading = false;
            },
        }
    }

    /// How entry `index` of the user's queue is marked in the queue panel.
    pub fn queue_entry_mark(&self, index: usize) -> (m: EntryMark)
        ensures
            m == entry_mark_of(
                index,
                self.current_queue_index,
                self.current_source == QueueSource::Queue,
                false,
            ),
    {
        let in_queue = self.current_source == QueueSource::Queue;
        match self.current_queue_index {
            Some(c) => if in_queue && c == index {
                EntryMark::Active
            } else if in_queue && index < c {
                EntryMark::Past
            } else {
                EntryMark::Upcoming
            },
            None => EntryMark::Upcoming,
        }
    }

    /// How entry `index` of the active playlist is marked in the queue panel;
    /// entries before the playlist position stay marked past while the queue plays.
    pub fn playlist_entry_mark(&self, index: usize) -> (m: EntryMark)
        ensures
            m == entry_mark_of(
                index,
                self.current_playlist_index,
                self.current_source == QueueSource::Playlist,
                true,
            ),
    {
        let in_playlist = self.current_source == QueueSource::Playlist;
        match self.current_playlist_index {
            Some(c) => if in_playlist && c == index {
                EntryMark::Active
            } else if index < c {
                EntryMark::Past
            } else {
                EntryMark::Upcoming
            },
            None => EntryMark::Upcoming,
        }
    }

    /// The heading of the playlist section of the queue panel.
    pub fn playlist_section_label(&self) -> (s: String)
        ensures
            s@ == if self.active_playlist_name@.len() == 0 {
                "Lista de reproduccion"@
            } else {
                "Desde: "@ + self.active_playlist_name@
            },
    {
        if self.active_playlist_name.as_str().is_empty() {
            "Lista de reproduccion".to_owned()
        } else {
            let mut s = "Desde: ".to_owned();
            s.append(self.active_playlist_name.as_str());
            s
        }
    }

    /// Adds a track chosen from disk to the user's queue, and answers whether
    /// the player was idle (no queue, no track), so that the file is to be
    /// played now.
    pub fn enqueue_track(&mut self, track: TrackMetadata) -> (start: bool)
        ensures
            start == (old(self).user_queue@.len() == 0 && old(self).playing_track() is None),
            final(self).user_queue@ == old(self).user_queue@.push(track),
            ({
                let pushed = PlayerState { user_queue: final(self).user_queue, ..*old(self) };
                if pushed.playing_track() is None && pushed.user_queue@.len() == 1 {
                    *final(self) == (PlayerState {
                        current_source: QueueSource::Queue,
                        current_queue_index: Some(0),
                        current_playlist_index: None,
                        ..pushed
                    }).with_track_loaded().with_playing()
                } else {
                    *final(self) == pushed
                }
            }),
    {
        let was_empty = self.user_queue.len() == 0 && match self.current_track() {
            Some(_) => false,
            None => true,
        };
        self.add_to_queue(track);
        was_empty
    }
}

} // verus!
