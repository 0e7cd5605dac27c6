//! Properties that relate several operations of the library, proved from
//! their contracts.
use vstd::prelude::*;

use crate::queue::{
    entry_at, next_repeat, not_queue_entry, AdvanceStep, past_first, restart_threshold_ms, start_position,
    HistoryEntry, PlayerState, QueueSource, RepeatMode, TrackMetadata,
};
use crate::rate_limit::{event_now, limiter_run, limiter_step, LimiterEvent, RateLimiter, SendDecision};
use crate::xspf::{
    has_rel, lemma_filter_empty, lemma_filter_filter, meta_added, meta_lookup, moved, other_rel, Meta,
    Track,
};

verus! {

// ---------------------------------------------------------------------------
// Track meta entries
// ---------------------------------------------------------------------------

/// Reading a meta key right after setting it gives the value just set.
pub proof fn law_meta_reads_back_added(before: Seq<Meta>, key: Seq<char>, value: Seq<char>, after: Seq<Meta>)
    requires
        meta_added(before, key, value, after),
    ensures
        meta_lookup(after, key) == Some(value),
        after.filter(has_rel(key)).len() == 1,
{
    let kept = before.filter(other_rel(key));
    assert(after == kept.push(after.last()));
    kept.lemma_filter_push(after.last(), has_rel(key));
    lemma_filter_disjoint(before, other_rel(key), has_rel(key));
    assert(after.filter(has_rel(key)) == kept.filter(has_rel(key)).push(after.last()));
}

/// Filtering by `p` and then by a predicate that excludes `p` keeps nothing.
proof fn lemma_filter_disjoint(s: Seq<Meta>, p: spec_fn(Meta) -> bool, q: spec_fn(Meta) -> bool)
    requires
        forall|m: Meta| #[trigger] q(m) ==> !p(m),
    ensures
        s.filter(p).filter(q).len() == 0,
{
    let fp = s.filter(p);
    lemma_filter_empty(fp, q);
    assert forall|j: int| 0 <= j < fp.len() implies !q(#[trigger] fp[j]) by {
        s.lemma_filter_pred(p, j);
    }
}

/// Setting a meta key leaves what every other key reads unchanged.
pub proof fn law_meta_add_keeps_other_keys(
    before: Seq<Meta>,
    key: Seq<char>,
    value: Seq<char>,
    after: Seq<Meta>,
    other: Seq<char>,
)
    requires
        meta_added(before, key, value, after),
        other != key,
    ensures
        meta_lookup(after, other) == meta_lookup(before, other),
{
    let kept = before.filter(other_rel(key));
    assert(after == kept.push(after.last()));
    kept.lemma_filter_push(after.last(), has_rel(other));
    assert(!has_rel(other)(after.last()));
    assert forall|m: Meta| #[trigger] has_rel(other)(m) implies other_rel(key)(m) by {}
    lemma_filter_filter(before, other_rel(key), has_rel(other));
}

// ---------------------------------------------------------------------------
// Playlist edits
// ---------------------------------------------------------------------------

/// Moving a track from `from` to `to` and then from `to` back to `from`
/// restores the track list.
pub proof fn law_move_track_undone(tracks: Seq<Track>, from: int, to: int)
    ensures
        moved(moved(tracks, from, to), to, from) == tracks,
{
    if 0 <= from < tracks.len() && 0 <= to < tracks.len() {
        let m = tracks.remove(from).insert(to, tracks[from]);
        assert(m[to] == tracks[from]);
        assert(m.remove(to) == tracks.remove(from));
        assert(tracks.remove(from).insert(from, tracks[from]) == tracks);
    }
}

/// Moving a track changes the order of the tracks, never which tracks there are.
pub proof fn law_move_track_permutes(tracks: Seq<Track>, from: int, to: int)
    ensures
        moved(tracks, from, to).to_multiset() == tracks.to_multiset(),
        moved(tracks, from, to).len() == tracks.len(),
{
    broadcast use vstd::seq_lib::group_to_multiset_ensures;

    if 0 <= from < tracks.len() && 0 <= to < tracks.len() {
        let x = tracks[from];
        let r = tracks.remove(from);
        let m = r.insert(to, x);
        assert(m.remove(to) == r);
        assert(m[to] == x);
        let a = m.to_multiset();
        let b = tracks.to_multiset();
        assert(a.remove(x) == r.to_multiset());
        assert(b.remove(x) == r.to_multiset());
        assert(m.contains(x));
        assert(tracks.contains(x));
        assert forall|y: Track| #[trigger] a.count(y) == b.count(y) by {
            if y != x {
                assert(a.remove(x).count(y) == a.count(y));
                assert(b.remove(x).count(y) == b.count(y));
            } else {
                assert(a.remove(x).count(y) == a.count(y) - 1);
                assert(b.remove(x).count(y) == b.count(y) - 1);
            }
        }
        assert(a =~= b);
    }
}

/// Removing the last track right after adding one gives back that track and
/// the former track list.
pub proof fn law_remove_undoes_add(tracks: Seq<Track>, t: Track)
    ensures
        tracks.push(t)[tracks.len() as int] == t,
        tracks.push(t).remove(tracks.len() as int) == tracks,
{
    assert(tracks.push(t).remove(tracks.len() as int) == tracks);
}

// ---------------------------------------------------------------------------
// Transport
// ---------------------------------------------------------------------------

/// Three presses of the repeat button bring the setting back.
pub proof fn law_repeat_cycles(m: RepeatMode)
    ensures
        next_repeat(next_repeat(next_repeat(m))) == m,
        next_repeat(m) != m,
{
}

/// Going back when `prev_track_exists` is false only rewinds the track;
/// when it is true the player ends up playing.
pub proof fn law_go_back_without_prev_only_rewinds(s: PlayerState)
    ensures
        !s.has_prev() ==> s.after_go_back() == (PlayerState { current_time_ms: 0, ..s }),
        s.has_prev() ==> s.after_go_back().is_playing,
{
}

/// Pressing shuffle twice restores the setting.
pub proof fn law_shuffle_twice_restores(s: PlayerState)
    ensures
        (PlayerState {
            is_shuffled: !(PlayerState { is_shuffled: !s.is_shuffled, ..s }).is_shuffled,
            ..(PlayerState { is_shuffled: !s.is_shuffled, ..s })
        }) == s,
{
}

/// Moving through the lists (advance, go back) never changes the lists
/// themselves nor the repeat and shuffle settings.
pub proof fn law_transport_keeps_lists(pre: PlayerState, post: PlayerState)
    requires
        PlayerState::advanced(pre, post) || post == pre.after_go_back(),
    ensures
        post.active_playlist == pre.active_playlist,
        post.user_queue == pre.user_queue,
        post.repeat_mode == pre.repeat_mode,
        post.is_shuffled == pre.is_shuffled,
{
}

/// When no next track exists, advancing (other than under repeat-one) stops playback.
pub proof fn law_advance_stops_without_next(pre: PlayerState, post: PlayerState)
    requires
        PlayerState::advanced(pre, post),
        !pre.has_next(),
        pre.repeat_mode != RepeatMode::One,
    ensures
        !post.is_playing,
        post.playing_track() == pre.playing_track(),
{
    assert(pre.advance_step() is Stop);
}

/// Playing from the playlist at a set position, advancing moves on (does not
/// stop) whenever `next_track_exists` says a next track exists.
pub proof fn law_advance_moves_when_next_exists(pre: PlayerState, post: PlayerState)
    requires
        PlayerState::advanced(pre, post),
        pre.has_next(),
        pre.repeat_mode != RepeatMode::One,
        pre.current_source == QueueSource::Playlist,
        pre.current_playlist_index is Some,
    ensures
        pre.advance_step() is Move,
        post.is_playing == pre.is_playing,
        post.current_time_ms == 0,
{
}

/// Under repeat-one, advancing replays the same track from its start.
pub proof fn law_advance_repeat_one(pre: PlayerState, post: PlayerState)
    requires
        PlayerState::advanced(pre, post),
        pre.repeat_mode == RepeatMode::One,
    ensures
        post.playing_track() == pre.playing_track(),
        post.is_playing,
        post.current_time_ms == 0,
{
}

/// Within the playlist (empty queue, no repeat-one), advancing and then going
/// back returns to the track that was playing.
pub proof fn law_go_back_undoes_advance(pre: PlayerState, mid: PlayerState)
    requires
        PlayerState::advanced(pre, mid),
        pre.current_source == QueueSource::Playlist,
        pre.user_queue@.len() == 0,
        pre.repeat_mode != RepeatMode::One,
        pre.current_playlist_index is Some,
        pre.current_playlist_index->0 + 1 < pre.active_playlist@.len(),
        pre.active_playlist@.len() <= usize::MAX,
    ensures
        mid.after_go_back().current_playlist_index == pre.current_playlist_index,
        mid.after_go_back().current_source == QueueSource::Playlist,
        mid.after_go_back().playing_track() == pre.playing_track(),
        mid.after_go_back().is_playing,
{
    let i = pre.current_playlist_index->0;
    assert(pre.advance_step() == AdvanceStep::Move {
        source: QueueSource::Playlist,
        playlist_index: Some((i + 1) as usize),
        queue_index: pre.current_queue_index,
        restart: false,
    });
    assert(mid.current_playlist_index == Some((i + 1) as usize));
    assert(mid.current_time_ms == 0);
    assert(mid.active_playlist == pre.active_playlist);
}

/// Jumping to an entry of the playlist or of the queue makes it the playing track.
pub proof fn law_jump_plays_entry(s: PlayerState, index: usize)
    ensures
        index < s.active_playlist@.len() ==> s.jumped(QueueSource::Playlist, index).playing_track()
            == Some(s.active_playlist@[index as int]),
        index < s.user_queue@.len() ==> s.jumped(QueueSource::Queue, index).playing_track() == Some(
            s.user_queue@[index as int],
        ),
{
}

/// Starting a non-empty playlist plays its entry at the (held) start position.
pub proof fn law_play_playlist_plays_start(
    s: PlayerState,
    tracks: Vec<TrackMetadata>,
    name: String,
    start_index: usize,
    h: Vec<HistoryEntry>,
)
    requires
        tracks@.len() > 0,
    ensures
        (PlayerState {
            active_playlist: tracks,
            active_playlist_name: name,
            current_source: QueueSource::Playlist,
            current_playlist_index: Some(start_position(start_index, tracks@.len())),
            current_queue_index: None,
            history: h,
            current_time_ms: 0,
            is_playing: true,
            ..s
        }).with_track_loaded().playing_track() == Some(
            tracks@[start_position(start_index, tracks@.len()) as int],
        ),
{
}

/// Removing an entry from the user's queue never changes the playing track.
pub proof fn law_remove_from_queue_keeps_playing_track(
    o: PlayerState,
    index: usize,
    q: Vec<TrackMetadata>,
    h: Vec<HistoryEntry>,
)
    requires
        !o.ignores_queue_removal(index),
        q@ == o.user_queue@.remove(index as int),
    ensures
        o.removed_from_queue(index, q, h).playing_track() == o.playing_track(),
{
    let n = o.removed_from_queue(index, q, h);
    if o.current_source == QueueSource::Queue && o.current_queue_index is Some {
        let c = o.current_queue_index->0;
        if c < o.user_queue@.len() {
            if index < c {
                assert(q@[c - 1] == o.user_queue@[c as int]);
            } else {
                assert(q@[c as int] == o.user_queue@[c as int]);
            }
        }
    }
}

/// Clearing the user's queue never changes the playing track.
pub proof fn law_clear_queue_keeps_playing_track(o: PlayerState, q: Vec<TrackMetadata>, h: Vec<HistoryEntry>)
    requires
        o.keeps_queue_entry_on_clear() ==> q@ == seq![o.user_queue@[o.current_queue_index->0 as int]],
        !o.keeps_queue_entry_on_clear() ==> q@.len() == 0,
    ensures
        o.queue_cleared(q, h).playing_track() == o.playing_track(),
{
}

/// A fresh player offers neither a next nor a previous track.
pub proof fn law_fresh_player_has_no_neighbours(s: PlayerState)
    requires
        s.active_playlist@.len() == 0,
        s.user_queue@.len() == 0,
        s.current_playlist_index is None,
        s.current_queue_index is None,
        s.current_time_ms == 0,
    ensures
        !s.has_next(),
        !s.has_prev(),
{
}

/// Without repeat-all, advancing never wraps around: the history is only
/// added to, and the playlist position either stays where it is or moves to
/// the entry just after it (to the first entry when there was none).
pub proof fn law_advance_wraps_only_under_repeat_all(pre: PlayerState, post: PlayerState)
    requires
        PlayerState::advanced(pre, post),
        pre.repeat_mode != RepeatMode::All,
        pre.active_playlist@.len() <= usize::MAX,
    ensures
        post.history@.len() >= pre.history@.len(),
        post.history@.subrange(0, pre.history@.len() as int) == pre.history@,
        post.current_playlist_index == pre.current_playlist_index || (pre.current_playlist_index is None
            && post.current_playlist_index == Some(0usize)) || (pre.current_playlist_index is Some
            && post.current_playlist_index is Some && post.current_playlist_index->0
            == pre.current_playlist_index->0 + 1),
{
    let n = pre.history@.len() as int;
    match pre.advance_step() {
        AdvanceStep::RepeatOne => {},
        AdvanceStep::Stop => {
            assert(post.history@.subrange(0, n) =~= pre.history@);
        },
        AdvanceStep::Move { .. } => {
            assert(post.history@.subrange(0, n) =~= pre.history@);
        },
    }
}

/// Outside repeat-one, advancing from the playlist while the user's queue
/// has entries plays the queue's first entry; the playlist keeps its
/// position for later.
pub proof fn law_advance_plays_queue_first(pre: PlayerState, post: PlayerState)
    requires
        PlayerState::advanced(pre, post),
        pre.repeat_mode != RepeatMode::One,
        pre.current_source == QueueSource::Playlist,
        pre.user_queue@.len() > 0,
    ensures
        post.current_source == QueueSource::Queue,
        post.current_queue_index == Some(0usize),
        post.current_playlist_index == pre.current_playlist_index,
        post.metadata == Some(pre.user_queue@[0]),
        post.duration_ms == pre.user_queue@[0].duration_ms,
        post.current_time_ms == 0,
        post.is_playing == pre.is_playing,
{
}

/// Outside repeat-one, advancing from a queue entry that has another after it
/// plays that next entry.
pub proof fn law_advance_next_queue_entry(pre: PlayerState, post: PlayerState, i: usize)
    requires
        PlayerState::advanced(pre, post),
        pre.repeat_mode != RepeatMode::One,
        pre.current_source == QueueSource::Queue,
        pre.current_queue_index == Some(i),
        i + 1 < pre.user_queue@.len(),
        pre.user_queue@.len() <= usize::MAX,
    ensures
        post.current_source == QueueSource::Queue,
        post.current_queue_index == Some((i + 1) as usize),
        post.current_playlist_index == pre.current_playlist_index,
        post.metadata == Some(pre.user_queue@[i + 1]),
        post.duration_ms == pre.user_queue@[i + 1].duration_ms,
        post.current_time_ms == 0,
        post.is_playing == pre.is_playing,
{
}

/// Outside repeat-one and with nothing queued, advancing from a playlist
/// entry that has another after it plays that next entry.
pub proof fn law_advance_next_playlist_entry(pre: PlayerState, post: PlayerState, i: usize)
    requires
        PlayerState::advanced(pre, post),
        pre.repeat_mode != RepeatMode::One,
        pre.current_source == QueueSource::Playlist,
        pre.user_queue@.len() == 0,
        pre.current_playlist_index == Some(i),
        i + 1 < pre.active_playlist@.len(),
        pre.active_playlist@.len() <= usize::MAX,
    ensures
        post.current_source == QueueSource::Playlist,
        post.current_playlist_index == Some((i + 1) as usize),
        post.metadata == Some(pre.active_playlist@[i + 1]),
        post.duration_ms == pre.active_playlist@[i + 1].duration_ms,
        post.current_time_ms == 0,
        post.is_playing == pre.is_playing,
{
}

/// Outside repeat-one, after the last entry of the user's queue the playlist
/// resumes at the entry just after its position (at its first entry when it
/// had no position), if there is one.
pub proof fn law_advance_resumes_playlist_after_queue(pre: PlayerState, post: PlayerState, i: usize, n: usize)
    requires
        PlayerState::advanced(pre, post),
        pre.repeat_mode != RepeatMode::One,
        pre.current_source == QueueSource::Queue,
        pre.current_queue_index == Some(i),
        i + 1 >= pre.user_queue@.len(),
        n == match pre.current_playlist_index {
            Some(p) => p + 1,
            None => 0,
        },
        n < pre.active_playlist@.len(),
    ensures
        post.current_source == QueueSource::Playlist,
        post.current_playlist_index == Some(n),
        post.current_queue_index is None,
        post.metadata == Some(pre.active_playlist@[n as int]),
        post.duration_ms == pre.active_playlist@[n as int].duration_ms,
        post.current_time_ms == 0,
        post.is_playing == pre.is_playing,
{
}

/// Under repeat-all, once the playlist has no entry after its position (and
/// nothing further is queued), advancing starts the playlist again from its
/// first entry with a fresh history.
pub proof fn law_advance_repeat_all_wraps_playlist(pre: PlayerState, post: PlayerState, i: usize, p: usize)
    requires
        PlayerState::advanced(pre, post),
        pre.repeat_mode == RepeatMode::All,
        pre.active_playlist@.len() > 0,
        pre.current_playlist_index == Some(p),
        p + 1 >= pre.active_playlist@.len(),
        pre.current_source == QueueSource::Playlist ==> pre.user_queue@.len() == 0,
        pre.current_source == QueueSource::Queue ==> pre.current_queue_index == Some(i) && i + 1
            >= pre.user_queue@.len(),
    ensures
        post.current_source == QueueSource::Playlist,
        post.current_playlist_index == Some(0usize),
        post.metadata == Some(pre.active_playlist@[0]),
        post.duration_ms == pre.active_playlist@[0].duration_ms,
        post.history@.len() == 0,
        post.current_time_ms == 0,
{
}

/// Under repeat-all with an empty playlist, advancing past the last entry of
/// the user's queue starts the queue again from its first entry with a fresh
/// history.
pub proof fn law_advance_repeat_all_wraps_queue(pre: PlayerState, post: PlayerState, i: usize)
    requires
        PlayerState::advanced(pre, post),
        pre.repeat_mode == RepeatMode::All,
        pre.active_playlist@.len() == 0,
        pre.current_source == QueueSource::Queue,
        pre.current_queue_index == Some(i),
        i + 1 == pre.user_queue@.len(),
    ensures
        post.current_source == QueueSource::Queue,
        post.current_queue_index == Some(0usize),
        post.metadata == Some(pre.user_queue@[0]),
        post.duration_ms == pre.user_queue@[0].duration_ms,
        post.history@.len() == 0,
        post.current_time_ms == 0,
{
}

/// With repeat off, advancing from the last entry of the user's queue, when
/// the playlist has no entry after its position, stops playback and stays on
/// that entry, which goes into the history.
pub proof fn law_advance_stops_after_last_queue_entry(pre: PlayerState, post: PlayerState, i: usize)
    requires
        PlayerState::advanced(pre, post),
        pre.repeat_mode == RepeatMode::Off,
        pre.current_source == QueueSource::Queue,
        pre.current_queue_index == Some(i),
        i + 1 == pre.user_queue@.len(),
        pre.active_playlist@.len() == 0 || (pre.current_playlist_index is Some
            && pre.current_playlist_index->0 + 1 >= pre.active_playlist@.len()),
    ensures
        !post.is_playing,
        post.current_source == QueueSource::Queue,
        post.current_queue_index == Some(i),
        post.current_playlist_index == pre.current_playlist_index,
        post.metadata == pre.metadata,
        post.duration_ms == pre.duration_ms,
        post.current_time_ms == pre.current_time_ms,
        post.history@ == pre.history@.push(
            HistoryEntry {
                source: QueueSource::Queue,
                playlist_index: pre.current_playlist_index,
                queue_index: Some(i),
                track: pre.user_queue@[i as int],
            },
        ),
{
    assert(pre.advance_step() == AdvanceStep::Stop);
}

/// With repeat off and nothing queued, advancing from the last entry of the
/// playlist stops playback and stays on that entry, which goes into the
/// history.
pub proof fn law_advance_stops_after_last_playlist_entry(pre: PlayerState, post: PlayerState, i: usize)
    requires
        PlayerState::advanced(pre, post),
        pre.repeat_mode == RepeatMode::Off,
        pre.current_source == QueueSource::Playlist,
        pre.user_queue@.len() == 0,
        pre.current_playlist_index == Some(i),
        i + 1 == pre.active_playlist@.len(),
    ensures
        !post.is_playing,
        post.current_source == QueueSource::Playlist,
        post.current_playlist_index == Some(i),
        post.current_queue_index == pre.current_queue_index,
        post.metadata == pre.metadata,
        post.duration_ms == pre.duration_ms,
        post.history@ == pre.history@.push(
            HistoryEntry {
                source: QueueSource::Playlist,
                playlist_index: Some(i),
                queue_index: pre.current_queue_index,
                track: pre.active_playlist@[i as int],
            },
        ),
{
    assert(pre.advance_step() == AdvanceStep::Stop);
}

/// Within the first three seconds of a queue entry other than the first,
/// going back plays the entry just before it, loaded from its start.
pub proof fn law_go_back_plays_previous_queue_entry(pre: PlayerState, r: bool, post: PlayerState, i: usize)
    requires
        PlayerState::went_back(pre, r, post),
        pre.current_time_ms <= 3000,
        pre.current_source == QueueSource::Queue,
        pre.current_queue_index == Some(i),
        0 < i < pre.user_queue@.len(),
    ensures
        r,
        post.current_source == QueueSource::Queue,
        post.current_queue_index == Some((i - 1) as usize),
        post.metadata == Some(pre.user_queue@[i - 1]),
        post.duration_ms == pre.user_queue@[i - 1].duration_ms,
        post.current_time_ms == 0,
        post.is_playing,
        post.user_queue == pre.user_queue,
        post.history == pre.history,
{
}

/// Within the first three seconds of a playlist entry other than the first,
/// going back plays the entry just before it, loaded from its start.
pub proof fn law_go_back_plays_previous_playlist_entry(pre: PlayerState, r: bool, post: PlayerState, i: usize)
    requires
        PlayerState::went_back(pre, r, post),
        pre.current_time_ms <= 3000,
        pre.current_source == QueueSource::Playlist,
        pre.current_playlist_index == Some(i),
        0 < i < pre.active_playlist@.len(),
    ensures
        r,
        post.current_source == QueueSource::Playlist,
        post.current_playlist_index == Some((i - 1) as usize),
        post.metadata == Some(pre.active_playlist@[i - 1]),
        post.duration_ms == pre.active_playlist@[i - 1].duration_ms,
        post.current_time_ms == 0,
        post.is_playing,
        post.active_playlist == pre.active_playlist,
        post.history == pre.history,
{
}

/// Within the first three seconds of the first entry of its list (or with no
/// position in it), going back only rewinds: it answers false and nothing
/// else changes.
pub proof fn law_go_back_at_first_entry_only_rewinds(pre: PlayerState, r: bool, post: PlayerState)
    requires
        PlayerState::went_back(pre, r, post),
        pre.current_time_ms <= 3000,
        pre.current_source == QueueSource::Queue ==> (pre.current_queue_index is None
            || pre.current_queue_index == Some(0usize)),
        pre.current_source == QueueSource::Playlist ==> (pre.current_playlist_index is None
            || pre.current_playlist_index == Some(0usize)),
    ensures
        !r,
        post == (PlayerState { current_time_ms: 0, ..pre }),
{
}

/// After more than three seconds of playback, going back restarts the track
/// where the player is, and plays it.
pub proof fn law_go_back_restarts_late(pre: PlayerState, r: bool, post: PlayerState)
    requires
        PlayerState::went_back(pre, r, post),
        pre.current_time_ms > 3000,
    ensures
        r,
        post.current_time_ms == 0,
        post.is_playing,
        post.current_source == pre.current_source,
        post.current_playlist_index == pre.current_playlist_index,
        post.current_queue_index == pre.current_queue_index,
        post.metadata == pre.metadata,
        post.duration_ms == pre.duration_ms,
{
}

/// Jumping to an entry of the active playlist plays it from its start, with
/// its metadata and duration loaded; the lists stay as they are.
pub proof fn law_jump_to_playlist_loads_entry(pre: PlayerState, index: usize, post: PlayerState)
    requires
        PlayerState::jumped_in_playlist(pre, index, post),
        index < pre.active_playlist@.len(),
    ensures
        post.is_playing,
        post.current_source == QueueSource::Playlist,
        post.current_playlist_index == Some(index),
        post.current_queue_index is None,
        post.current_time_ms == 0,
        post.metadata == Some(pre.active_playlist@[index as int]),
        post.duration_ms == pre.active_playlist@[index as int].duration_ms,
        post.active_playlist == pre.active_playlist,
        post.user_queue == pre.user_queue,
{
}

/// Jumping to an entry of the user's queue other than the one already
/// playing from it plays that entry from its start, with its metadata and
/// duration loaded; the lists stay as they are.
pub proof fn law_jump_to_queue_loads_entry(pre: PlayerState, index: usize, post: PlayerState)
    requires
        PlayerState::jumped_in_queue(pre, index, post),
        index < pre.user_queue@.len(),
        !(pre.current_source == QueueSource::Queue && pre.current_queue_index == Some(index)),
    ensures
        post.is_playing,
        post.current_source == QueueSource::Queue,
        post.current_queue_index == Some(index),
        post.current_playlist_index is None,
        post.current_time_ms == 0,
        post.metadata == Some(pre.user_queue@[index as int]),
        post.duration_ms == pre.user_queue@[index as int].duration_ms,
        post.active_playlist == pre.active_playlist,
        post.user_queue == pre.user_queue,
{
}

/// A jump to a position out of range, or to the queue entry already playing,
/// changes nothing.
pub proof fn law_jump_ignored_changes_nothing(
    pre: PlayerState,
    index: usize,
    after_playlist: PlayerState,
    after_queue: PlayerState,
)
    requires
        PlayerState::jumped_in_playlist(pre, index, after_playlist),
        PlayerState::jumped_in_queue(pre, index, after_queue),
    ensures
        index >= pre.active_playlist@.len() ==> after_playlist == pre,
        index >= pre.user_queue@.len() || (pre.current_source == QueueSource::Queue
            && pre.current_queue_index == Some(index)) ==> after_queue == pre,
{
}

/// Removing a queue position out of range, or the entry playing from the
/// queue, changes nothing.
pub proof fn law_remove_from_queue_ignored_changes_nothing(pre: PlayerState, index: usize, post: PlayerState)
    requires
        PlayerState::queue_entry_removed(pre, index, post),
        index >= pre.user_queue@.len() || (pre.current_source == QueueSource::Queue
            && pre.current_queue_index == Some(index)),
    ensures
        post == pre,
{
}

/// Removing an entry of the user's queue drops from the history exactly the
/// entries recorded at that queue position, and keeps every other entry.
pub proof fn law_remove_from_queue_prunes_history(pre: PlayerState, index: usize, post: PlayerState)
    requires
        PlayerState::queue_entry_removed(pre, index, post),
        index < pre.user_queue@.len(),
        !(pre.current_source == QueueSource::Queue && pre.current_queue_index == Some(index)),
    ensures
        post.history@.len() <= pre.history@.len(),
        forall|k: int|
            0 <= k < post.history@.len() ==> !(#[trigger] post.history@[k].source == QueueSource::Queue
                && post.history@[k].queue_index == Some(index)),
        forall|k: int|
            0 <= k < pre.history@.len() && !(pre.history@[k].source == QueueSource::Queue
                && pre.history@[k].queue_index == Some(index)) ==> post.history@.contains(
                #[trigger] pre.history@[k],
            ),
        forall|e: HistoryEntry| #[trigger] post.history@.contains(e) ==> pre.history@.contains(e),
{
    let p = not_queue_entry(index);
    assert(post.history@ == pre.history@.filter(p));
    assert forall|k: int| 0 <= k < post.history@.len() implies !(
    #[trigger] post.history@[k].source == QueueSource::Queue && post.history@[k].queue_index == Some(
        index,
    )) by {
        pre.history@.lemma_filter_pred(p, k);
    }
    assert forall|k: int|
        0 <= k < pre.history@.len() && !(pre.history@[k].source == QueueSource::Queue
            && pre.history@[k].queue_index == Some(index)) implies post.history@.contains(
        #[trigger] pre.history@[k],
    ) by {
        pre.history@.lemma_filter_contains(p, k);
    }
    assert forall|e: HistoryEntry| #[trigger] post.history@.contains(e) implies pre.history@.contains(e) by {
        pre.history@.lemma_filter_contains_rev(p, e);
    }
}

/// Removing an entry of the user's queue that is in range and is not the one
/// playing from it takes exactly that entry out.
pub proof fn law_remove_from_queue_drops_entry(pre: PlayerState, index: usize, post: PlayerState)
    requires
        PlayerState::queue_entry_removed(pre, index, post),
        index < pre.user_queue@.len(),
        !(pre.current_source == QueueSource::Queue && pre.current_queue_index == Some(index)),
    ensures
        post.user_queue@ == pre.user_queue@.remove(index as int),
        post.user_queue@.len() + 1 == pre.user_queue@.len(),
{
}

/// Removing another entry of the user's queue while the queue plays keeps
/// the playing entry: its position follows it, and playback goes on.
pub proof fn law_remove_from_queue_follows_playing_entry(
    pre: PlayerState,
    index: usize,
    post: PlayerState,
    c: usize,
)
    requires
        PlayerState::queue_entry_removed(pre, index, post),
        pre.current_source == QueueSource::Queue,
        pre.current_queue_index == Some(c),
        c < pre.user_queue@.len(),
        index < pre.user_queue@.len(),
        index != c,
    ensures
        post.current_source == QueueSource::Queue,
        post.current_queue_index == Some(if index < c { (c - 1) as usize } else { c }),
        post.user_queue@[post.current_queue_index->0 as int] == pre.user_queue@[c as int],
        post.metadata == pre.metadata,
        post.duration_ms == pre.duration_ms,
        post.is_playing == pre.is_playing,
{
    if index < c {
        assert(post.user_queue@[c - 1] == pre.user_queue@[c as int]);
    } else {
        assert(post.user_queue@[c as int] == pre.user_queue@[c as int]);
    }
}

// ---------------------------------------------------------------------------
// Rate limiting
// ---------------------------------------------------------------------------

/// Every operation of the rate limiter keeps a timer running exactly while a
/// value is held back.
pub proof fn law_rate_limiter_timer_tracks_pending<V>(
    pre: RateLimiter<V>,
    now: u64,
    value: V,
    post: RateLimiter<V>,
    d: SendDecision<V>,
)
    requires
        pre.wf(),
        RateLimiter::sent(pre, now, value, post, d),
    ensures
        post.wf(),
{
}

/// The timer going off and a flush both leave no timer and nothing held back.
pub proof fn law_rate_limiter_fire_and_flush_settle<V>(
    pre: RateLimiter<V>,
    now: u64,
    fired: RateLimiter<V>,
    r: Option<V>,
    flushed: RateLimiter<V>,
    cancel: bool,
)
    requires
        RateLimiter::fired(pre, now, fired, r),
        RateLimiter::flushed(pre, now, flushed, cancel),
    ensures
        fired.wf(),
        flushed.wf(),
        pre.wf() ==> (cancel <==> r is Some),
{
}

/// Of several values held back before the timer goes off, the timer passes on
/// the latest.
pub proof fn law_rate_limiter_latest_wins<V>(
    s0: RateLimiter<V>,
    t1: u64,
    v1: V,
    s1: RateLimiter<V>,
    d1: SendDecision<V>,
    t2: u64,
    v2: V,
    s2: RateLimiter<V>,
    d2: SendDecision<V>,
)
    requires
        RateLimiter::sent(s0, t1, v1, s1, d1),
        !(d1 is Fire),
        RateLimiter::sent(s1, t2, v2, s2, d2),
        !(d2 is Fire),
    ensures
        s2.pending == Some(v2),
        d2 is Hold,
{
}

/// A value passed on at once by `send` comes at least `interval_ms` after the
/// previous value was passed on.
pub proof fn law_rate_limiter_spacing<V>(
    pre: RateLimiter<V>,
    now: u64,
    value: V,
    post: RateLimiter<V>,
    d: SendDecision<V>,
)
    requires
        RateLimiter::sent(pre, now, value, post, d),
        d is Fire,
        pre.last_fire_ms is Some,
    ensures
        now >= pre.last_fire_ms->0 + pre.interval_ms,
{
}

/// What holds at every state of a run that starts settled, with times in the lower half of `u64`.
pub open spec fn run_invariant<V>(s0: RateLimiter<V>, s: RateLimiter<V>, deadline: int) -> bool {
    &&& s.interval_ms == s0.interval_ms
    &&& s.wf()
    &&& (s.last_fire_ms is Some ==> s.last_fire_ms->0 <= u64::MAX / 2)
    &&& (s.timer_armed ==> s.last_fire_ms is Some && deadline >= s.last_fire_ms->0 + s.interval_ms)
}

/// A run starts settled, with times that cannot overflow their sums.
pub open spec fn run_premises<V>(
    states: Seq<RateLimiter<V>>,
    events: Seq<LimiterEvent<V>>,
    called: Seq<Option<V>>,
    deadlines: Seq<int>,
) -> bool {
    &&& limiter_run(states, events, called, deadlines)
    &&& states[0].pending is None
    &&& !states[0].timer_armed
    &&& states[0].interval_ms <= u64::MAX / 2
    &&& (states[0].last_fire_ms is Some ==> states[0].last_fire_ms->0 <= u64::MAX / 2)
    &&& forall|k: int| 0 <= k < events.len() ==> event_now(#[trigger] events[k]) <= u64::MAX / 2
}

proof fn lemma_step_keeps_invariant<V>(
    s0: RateLimiter<V>,
    pre: RateLimiter<V>,
    e: LimiterEvent<V>,
    post: RateLimiter<V>,
    called: Option<V>,
    dl_pre: int,
    dl_post: int,
)
    requires
        run_invariant(s0, pre, dl_pre),
        limiter_step(pre, e, post, called, dl_pre, dl_post),
        s0.interval_ms <= u64::MAX / 2,
        event_now(e) <= u64::MAX / 2,
    ensures
        run_invariant(s0, post, dl_post),
        called is Some ==> {
            &&& (pre.last_fire_ms is None || event_now(e) >= pre.last_fire_ms->0 + pre.interval_ms)
            &&& post.last_fire_ms == Some(event_now(e))
        },
        called is None ==> post.last_fire_ms == pre.last_fire_ms,
{
    match e {
        LimiterEvent::Send { now, value } => {
            let d = choose|d: SendDecision<V>| RateLimiter::sent(pre, now, value, post, d);
            assert(RateLimiter::sent(pre, now, value, post, d));
        },
        LimiterEvent::Timer { now } => {},
    }
}

proof fn lemma_run_invariant<V>(
    states: Seq<RateLimiter<V>>,
    events: Seq<LimiterEvent<V>>,
    called: Seq<Option<V>>,
    deadlines: Seq<int>,
    k: int,
)
    requires
        run_premises(states, events, called, deadlines),
        0 <= k <= events.len(),
    ensures
        run_invariant(states[0], states[k], deadlines[k]),
    decreases k,
{
    if k > 0 {
        lemma_run_invariant(states, events, called, deadlines, k - 1);
        assert(limiter_step(states[k - 1], events[k - 1], states[k], called[k - 1], deadlines[k - 1], deadlines[k]));
        assert(event_now(events[k - 1]) <= u64::MAX / 2);
        lemma_step_keeps_invariant(
            states[0],
            states[k - 1],
            events[k - 1],
            states[k],
            called[k - 1],
            deadlines[k - 1],
            deadlines[k],
        );
    }
}

proof fn lemma_quiet_gap<V>(
    states: Seq<RateLimiter<V>>,
    events: Seq<LimiterEvent<V>>,
    called: Seq<Option<V>>,
    deadlines: Seq<int>,
    i: int,
    j: int,
)
    requires
        run_premises(states, events, called, deadlines),
        0 <= i < j <= events.len(),
        called[i] is Some,
        forall|k: int| i < k < j ==> #[trigger] called[k] is None,
    ensures
        states[j].last_fire_ms == Some(event_now(events[i])),
    decreases j - i,
{
    if j == i + 1 {
        lemma_run_invariant(states, events, called, deadlines, i);
        assert(limiter_step(states[i], events[i], states[i + 1], called[i], deadlines[i], deadlines[i + 1]));
        assert(event_now(events[i]) <= u64::MAX / 2);
        lemma_step_keeps_invariant(states[0], states[i], events[i], states[i + 1], called[i], deadlines[i], deadlines[i + 1]);
    } else {
        lemma_quiet_gap(states, events, called, deadlines, i, j - 1);
        lemma_run_invariant(states, events, called, deadlines, j - 1);
        assert(limiter_step(states[j - 1], events[j - 1], states[j], called[j - 1], deadlines[j - 1], deadlines[j]));
        assert(called[j - 1] is None);
        assert(event_now(events[j - 1]) <= u64::MAX / 2);
        lemma_step_keeps_invariant(states[0], states[j - 1], events[j - 1], states[j], called[j - 1], deadlines[j - 1], deadlines[j]);
    }
}

/// Over any run of sends and timer firings (timers never going off before
/// their deadline, no flush), two successive values handed to the callback
/// are at least `interval_ms` apart.
pub proof fn law_rate_limiter_run_spacing<V>(
    states: Seq<RateLimiter<V>>,
    events: Seq<LimiterEvent<V>>,
    called: Seq<Option<V>>,
    deadlines: Seq<int>,
    i: int,
    j: int,
)
    requires
        run_premises(states, events, called, deadlines),
        0 <= i < j < events.len(),
        called[i] is Some,
        called[j] is Some,
        forall|k: int| i < k < j ==> #[trigger] called[k] is None,
    ensures
        event_now(events[j]) >= event_now(events[i]) + states[0].interval_ms,
{
    lemma_quiet_gap(states, events, called, deadlines, i, j);
    lemma_run_invariant(states, events, called, deadlines, j);
    assert(limiter_step(states[j], events[j], states[j + 1], called[j], deadlines[j], deadlines[j + 1]));
    assert(event_now(events[j]) <= u64::MAX / 2);
    lemma_step_keeps_invariant(states[0], states[j], events[j], states[j + 1], called[j], deadlines[j], deadlines[j + 1]);
}

/// Over any run that starts with nothing held back, a value the timer hands
/// to the callback is the value of the send just before it, the latest one.
pub proof fn law_rate_limiter_run_latest<V>(
    states: Seq<RateLimiter<V>>,
    events: Seq<LimiterEvent<V>>,
    called: Seq<Option<V>>,
    deadlines: Seq<int>,
    i: int,
)
    requires
        limiter_run(states, events, called, deadlines),
        states[0].pending is None,
        0 <= i < events.len(),
        events[i] is Timer,
        called[i] is Some,
    ensures
        i > 0,
        events[i - 1] is Send,
        called[i] == Some(events[i - 1]->Send_value),
        called[i - 1] is None,
{
    assert(limiter_step(states[i], events[i], states[i + 1], called[i], deadlines[i], deadlines[i + 1]));
    assert(states[i].pending is Some);
    if i > 0 {
        assert(limiter_step(states[i - 1], events[i - 1], states[i], called[i - 1], deadlines[i - 1], deadlines[i]));
        match events[i - 1] {
            LimiterEvent::Send { now, value } => {
                let pre = states[i - 1];
                let post = states[i];
                let d = choose|d: SendDecision<V>| RateLimiter::sent(pre, now, value, post, d);
                assert(RateLimiter::sent(pre, now, value, post, d));
            },
            LimiterEvent::Timer { now } => {},
        }
    }
}

} // verus!
