use player_core::queue::{
    EntryMark, HistoryEntry, Metadata, PlayerState, PollOutcome, QueueSource, RepeatMode, TrackMetadata,
    VolumeLevel, WheelDirection,
};

fn tm(name: &str, duration_ms: u64) -> TrackMetadata {
    TrackMetadata {
        title: name.to_string(),
        artist: format!("{name} artist"),
        duration_ms,
        path: format!("/music/{name}.opus"),
        image: String::new(),
    }
}

fn list(names: &[&str]) -> Vec<TrackMetadata> {
    names.iter().map(|n| tm(n, 180_000)).collect()
}

fn playing(p: &PlayerState) -> Option<String> {
    p.current_track().map(|t| t.title.clone())
}

#[test]
fn new_player_defaults() {
    let p = PlayerState::new();
    assert_eq!(p.current_view, "home");
    assert!(!p.is_playing);
    assert_eq!(p.volume, 10);
    assert_eq!(p.current_source, QueueSource::Playlist);
    assert_eq!(p.repeat_mode, RepeatMode::Off);
    assert!(p.current_track().is_none());
    assert!(!p.next_track_exists());
    assert!(!p.prev_track_exists());
    assert_eq!(p.playlist_len(), 0);
    assert_eq!(p.user_queue_len(), 0);
}

#[test]
fn play_playlist_starts_at_the_held_index() {
    let mut p = PlayerState::new();
    p.play_playlist(list(&["a", "b", "c"]), "Mix".to_string(), 7);
    assert_eq!(p.current_playlist_index, Some(2));
    assert_eq!(playing(&p).as_deref(), Some("c"));
    assert!(p.is_playing);
    assert_eq!(p.duration_ms, 180_000);
    assert_eq!(p.active_playlist_name, "Mix");
    assert_eq!(p.metadata.as_ref().map(|m| m.title.as_str()), Some("c"));
}

#[test]
fn play_empty_playlist_keeps_old_metadata() {
    let mut p = PlayerState::new();
    p.play_playlist(Vec::new(), "Empty".to_string(), 3);
    assert_eq!(p.current_playlist_index, Some(0));
    assert!(p.current_track().is_none());
    assert!(p.is_playing);
}

#[test]
fn advance_walks_the_playlist_and_stops_at_its_end() {
    let mut p = PlayerState::new();
    p.play_playlist(list(&["a", "b"]), String::new(), 0);
    assert!(p.next_track_exists());
    p.advance();
    assert_eq!(playing(&p).as_deref(), Some("b"));
    assert_eq!(p.history.len(), 1);
    assert_eq!(p.history[0].track.title, "a");
    assert!(!p.next_track_exists());
    p.advance();
    assert!(!p.is_playing);
    assert_eq!(playing(&p).as_deref(), Some("b"));
    assert_eq!(p.history.len(), 2);
}

#[test]
fn advance_wraps_under_repeat_all_and_restarts_history() {
    let mut p = PlayerState::new();
    p.play_playlist(list(&["a", "b"]), String::new(), 1);
    p.toggle_repeat();
    assert_eq!(p.repeat_mode, RepeatMode::All);
    assert!(p.next_track_exists());
    p.advance();
    assert_eq!(p.current_playlist_index, Some(0));
    assert_eq!(playing(&p).as_deref(), Some("a"));
    assert!(p.history.is_empty());
}

#[test]
fn advance_under_repeat_one_restarts_the_track() {
    let mut p = PlayerState::new();
    p.play_playlist(list(&["a", "b"]), String::new(), 0);
    p.repeat_mode = RepeatMode::One;
    p.current_time_ms = 42_000;
    p.is_playing = false;
    p.advance();
    assert_eq!(playing(&p).as_deref(), Some("a"));
    assert_eq!(p.current_time_ms, 0);
    assert!(p.is_playing);
    assert!(p.history.is_empty());
}

#[test]
fn queue_plays_before_the_rest_of_the_playlist() {
    let mut p = PlayerState::new();
    p.play_playlist(list(&["a", "b", "c"]), String::new(), 0);
    p.add_to_queue(tm("q1", 1000));
    p.add_to_queue(tm("q2", 2000));
    assert_eq!(playing(&p).as_deref(), Some("a"));
    p.advance();
    assert_eq!(p.current_source, QueueSource::Queue);
    assert_eq!(playing(&p).as_deref(), Some("q1"));
    assert_eq!(p.duration_ms, 1000);
    p.advance();
    assert_eq!(playing(&p).as_deref(), Some("q2"));
    p.advance();
    assert_eq!(p.current_source, QueueSource::Playlist);
    assert_eq!(playing(&p).as_deref(), Some("b"));
    assert_eq!(p.current_queue_index, None);
}

#[test]
fn queue_without_playlist_stops_or_wraps() {
    let mut p = PlayerState::new();
    p.play_user_queue(list(&["x", "y"]), 1);
    assert_eq!(playing(&p).as_deref(), Some("y"));
    assert!(!p.next_track_exists());
    p.advance();
    assert!(!p.is_playing);

    let mut r = PlayerState::new();
    r.play_user_queue(list(&["x", "y"]), 1);
    r.repeat_mode = RepeatMode::All;
    assert!(r.next_track_exists());
    r.advance();
    assert_eq!(playing(&r).as_deref(), Some("x"));
    assert!(r.history.is_empty());
}

#[test]
fn go_back_restarts_after_three_seconds() {
    let mut p = PlayerState::new();
    p.play_playlist(list(&["a", "b"]), String::new(), 1);
    p.current_time_ms = 3_001;
    p.is_playing = false;
    assert!(p.prev_track_exists());
    assert!(p.go_back());
    assert_eq!(p.current_time_ms, 0);
    assert!(p.is_playing);
    assert_eq!(playing(&p).as_deref(), Some("b"));
}

#[test]
fn go_back_moves_to_the_previous_entry() {
    let mut p = PlayerState::new();
    p.play_playlist(list(&["a", "b"]), String::new(), 1);
    p.current_time_ms = 3_000;
    assert!(p.prev_track_exists());
    assert!(p.go_back());
    assert_eq!(playing(&p).as_deref(), Some("a"));
    assert_eq!(p.current_time_ms, 0);
    assert!(!p.prev_track_exists());
    assert!(!p.go_back());
    assert_eq!(playing(&p).as_deref(), Some("a"));
}

#[test]
fn go_back_after_advance_returns() {
    let mut p = PlayerState::new();
    p.play_playlist(list(&["a", "b", "c"]), String::new(), 1);
    p.advance();
    assert_eq!(playing(&p).as_deref(), Some("c"));
    assert!(p.go_back());
    assert_eq!(playing(&p).as_deref(), Some("b"));
}

#[test]
fn go_back_in_the_queue() {
    let mut p = PlayerState::new();
    p.play_user_queue(list(&["x", "y"]), 1);
    assert!(p.go_back());
    assert_eq!(playing(&p).as_deref(), Some("x"));
    assert!(!p.go_back());
}

#[test]
fn jump_to_playlist_records_history() {
    let mut p = PlayerState::new();
    p.play_playlist(list(&["a", "b", "c"]), String::new(), 0);
    p.jump_to_playlist(2);
    assert_eq!(playing(&p).as_deref(), Some("c"));
    assert_eq!(p.history.len(), 1);
    assert_eq!(p.history[0].playlist_index, Some(0));
    p.jump_to_playlist(3);
    assert_eq!(playing(&p).as_deref(), Some("c"));
    assert_eq!(p.history.len(), 1);
}

#[test]
fn jump_to_queue_ignores_the_playing_entry() {
    let mut p = PlayerState::new();
    p.play_playlist(list(&["a"]), String::new(), 0);
    p.add_to_queue(tm("q1", 1));
    p.add_to_queue(tm("q2", 2));
    p.jump_to_queue(1);
    assert_eq!(playing(&p).as_deref(), Some("q2"));
    assert_eq!(p.current_playlist_index, None);
    assert_eq!(p.history.len(), 1);
    p.jump_to_queue(1);
    assert_eq!(p.history.len(), 1);
    p.jump_to_queue(9);
    assert_eq!(playing(&p).as_deref(), Some("q2"));
}

#[test]
fn add_to_queue_on_an_idle_player_starts_playing() {
    let mut p = PlayerState::new();
    p.add_to_queue(tm("q1", 5000));
    assert_eq!(p.current_source, QueueSource::Queue);
    assert_eq!(p.current_queue_index, Some(0));
    assert_eq!(playing(&p).as_deref(), Some("q1"));
    assert_eq!(p.duration_ms, 5000);
    assert!(p.is_playing);
    p.add_to_queue(tm("q2", 1));
    assert_eq!(playing(&p).as_deref(), Some("q1"));
    assert_eq!(p.user_queue_len(), 2);
}

#[test]
fn clear_user_queue_keeps_the_playing_entry() {
    let mut p = PlayerState::new();
    p.play_user_queue(list(&["x", "y", "z"]), 1);
    p.advance();
    assert_eq!(playing(&p).as_deref(), Some("z"));
    p.history.push(HistoryEntry {
        source: QueueSource::Playlist,
        playlist_index: Some(0),
        queue_index: None,
        track: tm("old", 1),
    });
    p.clear_user_queue();
    assert_eq!(p.user_queue_len(), 1);
    assert_eq!(p.current_queue_index, Some(0));
    assert_eq!(playing(&p).as_deref(), Some("z"));
    assert_eq!(p.history.len(), 1);
    assert_eq!(p.history[0].source, QueueSource::Playlist);
}

#[test]
fn clear_user_queue_while_on_the_playlist_empties_it() {
    let mut p = PlayerState::new();
    p.play_playlist(list(&["a"]), String::new(), 0);
    p.add_to_queue(tm("q", 1));
    p.clear_user_queue();
    assert_eq!(p.user_queue_len(), 0);
    assert_eq!(p.current_queue_index, None);
    assert_eq!(playing(&p).as_deref(), Some("a"));
}

#[test]
fn remove_from_queue_follows_the_playing_entry() {
    let mut p = PlayerState::new();
    p.play_user_queue(list(&["x", "y", "z"]), 2);
    p.remove_from_queue(0);
    assert_eq!(p.current_queue_index, Some(1));
    assert_eq!(playing(&p).as_deref(), Some("z"));
    p.remove_from_queue(1);
    assert_eq!(p.user_queue_len(), 2);
    p.remove_from_queue(5);
    assert_eq!(p.user_queue_len(), 2);
}

#[test]
fn remove_from_queue_drops_history_at_that_position() {
    let mut p = PlayerState::new();
    p.play_user_queue(list(&["x", "y", "z"]), 0);
    p.advance();
    p.advance();
    assert_eq!(p.history.len(), 2);
    p.remove_from_queue(0);
    assert_eq!(p.history.len(), 1);
    assert_eq!(p.history[0].queue_index, Some(1));
    assert_eq!(playing(&p).as_deref(), Some("z"));
    assert_eq!(p.current_queue_index, Some(1));
}

#[test]
fn remove_last_queue_entry_clears_position() {
    let mut p = PlayerState::new();
    p.play_playlist(list(&["a"]), String::new(), 0);
    p.add_to_queue(tm("q", 1));
    p.current_queue_index = Some(0);
    p.remove_from_queue(0);
    assert_eq!(p.user_queue_len(), 0);
    assert_eq!(p.current_queue_index, None);
}

#[test]
fn toggle_repeat_cycles_and_shuffle_flips() {
    let mut p = PlayerState::new();
    p.toggle_repeat();
    assert_eq!(p.repeat_mode, RepeatMode::All);
    p.toggle_repeat();
    assert_eq!(p.repeat_mode, RepeatMode::One);
    p.toggle_repeat();
    assert_eq!(p.repeat_mode, RepeatMode::Off);
    p.toggle_shuffle();
    assert!(p.is_shuffled);
    p.toggle_shuffle();
    assert!(!p.is_shuffled);
}

#[test]
fn format_time_rounds_to_seconds() {
    let mut p = PlayerState::new();
    p.current_time_ms = 65_499;
    assert_eq!(p.format_time(), "01:05");
    p.current_time_ms = 65_500;
    assert_eq!(p.format_time(), "01:06");
    p.duration_ms = 0;
    assert_eq!(p.format_duration(), "00:00");
    p.duration_ms = 6_000_000;
    assert_eq!(p.format_duration(), "100:00");
}

#[test]
fn poll_tick_before_the_end_only_records_the_time() {
    let mut p = PlayerState::new();
    p.play_playlist(list(&["a", "b"]), String::new(), 0);
    assert!(matches!(p.poll_tick(10_000), PollOutcome::Keep));
    assert_eq!(p.current_time_ms, 10_000);
    assert_eq!(playing(&p).as_deref(), Some("a"));
}

#[test]
fn poll_tick_at_the_end_plays_the_next_track() {
    let mut p = PlayerState::new();
    p.play_playlist(list(&["a", "b"]), String::new(), 0);
    match p.poll_tick(179_000) {
        PollOutcome::Play { path } => assert_eq!(path, "/music/b.opus"),
        _ => panic!("expected the next track"),
    }
    assert_eq!(p.current_time_ms, 0);
    assert!(matches!(p.poll_tick(179_500), PollOutcome::Stop));
    assert!(!p.is_playing);
}

#[test]
fn poll_tick_without_duration_never_ends() {
    let mut p = PlayerState::new();
    assert!(matches!(p.poll_tick(500), PollOutcome::Keep));
    assert_eq!(p.current_time_ms, 500);
}

#[test]
fn seek_by_wheel_steps_five_seconds_within_the_track() {
    let mut p = PlayerState::new();
    assert_eq!(p.seek_by_wheel(WheelDirection::Forward), None);
    p.duration_ms = 12_000;
    assert_eq!(p.seek_by_wheel(WheelDirection::Forward), Some(5_000));
    assert_eq!(p.seek_by_wheel(WheelDirection::Forward), Some(10_000));
    assert_eq!(p.seek_by_wheel(WheelDirection::Forward), Some(12_000));
    assert_eq!(p.seek_by_wheel(WheelDirection::Forward), None);
    assert_eq!(p.seek_by_wheel(WheelDirection::Back), Some(7_000));
    p.current_time_ms = 3_000;
    assert_eq!(p.seek_by_wheel(WheelDirection::Back), Some(0));
    assert_eq!(p.seek_by_wheel(WheelDirection::Back), None);
    assert_eq!(p.seek_by_wheel(WheelDirection::Still), None);
    p.current_time_ms = 20_000;
    assert_eq!(p.seek_by_wheel(WheelDirection::Forward), Some(12_000));
}

#[test]
fn volume_by_wheel_and_levels() {
    let mut p = PlayerState::new();
    assert_eq!(p.volume_level(), VolumeLevel::Low);
    assert!(p.volume_by_wheel(WheelDirection::Back));
    assert_eq!(p.volume, 5);
    assert!(p.volume_by_wheel(WheelDirection::Back));
    assert_eq!(p.volume, 0);
    assert_eq!(p.volume_level(), VolumeLevel::Muted);
    assert!(!p.volume_by_wheel(WheelDirection::Back));
    p.volume = 97;
    assert!(p.volume_by_wheel(WheelDirection::Forward));
    assert_eq!(p.volume, 100);
    assert!(!p.volume_by_wheel(WheelDirection::Forward));
    assert_eq!(p.volume_level(), VolumeLevel::High);
    p.volume = 30;
    assert_eq!(p.volume_level(), VolumeLevel::Medium);
    p.volume = 69;
    assert_eq!(p.volume_level(), VolumeLevel::Medium);
    p.volume = 70;
    assert_eq!(p.volume_level(), VolumeLevel::High);
    assert!(!p.volume_by_wheel(WheelDirection::Still));
}

#[test]
fn play_request_with_and_without_metadata() {
    let mut p = PlayerState::new();
    p.begin_play_request();
    assert!(p.is_loading);
    p.finish_play_request("/m/a.opus".to_string(), None);
    assert!(!p.is_loading);
    assert!(p.metadata.is_none());

    p.begin_play_request();
    p.current_time_ms = 9;
    p.finish_play_request(
        "/m/a.opus".to_string(),
        Some(Metadata {
            title: "A".to_string(),
            artist: "B".to_string(),
            duration_ms: 200_000,
            image: String::new(),
        }),
    );
    assert!(!p.is_loading);
    assert!(p.is_playing);
    assert_eq!(p.current_time_ms, 0);
    assert_eq!(p.duration_ms, 200_000);
    let m = p.metadata.as_ref().unwrap();
    assert_eq!(m.path, "/m/a.opus");
    assert_eq!(m.title, "A");
    assert_eq!(playing(&p).as_deref(), Some("A"));
}

#[test]
fn next_track_exists_from_the_queue_with_a_playlist() {
    let mut p = PlayerState::new();
    p.play_playlist(list(&["a"]), String::new(), 0);
    p.add_to_queue(tm("q", 1));
    p.jump_to_queue(0);
    assert!(p.next_track_exists());
    p.advance();
    assert_eq!(p.current_source, QueueSource::Playlist);
    assert_eq!(playing(&p).as_deref(), Some("a"));
}

#[test]
fn queue_panel_marks() {
    let mut p = PlayerState::new();
    p.play_playlist(list(&["a", "b", "c"]), String::new(), 1);
    assert_eq!(p.playlist_entry_mark(0), EntryMark::Past);
    assert_eq!(p.playlist_entry_mark(1), EntryMark::Active);
    assert_eq!(p.playlist_entry_mark(2), EntryMark::Upcoming);
    p.add_to_queue(tm("q1", 1));
    p.add_to_queue(tm("q2", 1));
    p.advance();
    assert_eq!(p.current_source, QueueSource::Queue);
    assert_eq!(p.queue_entry_mark(0), EntryMark::Active);
    assert_eq!(p.queue_entry_mark(1), EntryMark::Upcoming);
    assert_eq!(p.playlist_entry_mark(0), EntryMark::Past);
    assert_eq!(p.playlist_entry_mark(1), EntryMark::Upcoming);
    p.advance();
    assert_eq!(p.queue_entry_mark(0), EntryMark::Past);
}

#[test]
fn playlist_section_label_names_the_playlist() {
    let mut p = PlayerState::new();
    assert_eq!(p.playlist_section_label(), "Lista de reproduccion");
    p.play_playlist(list(&["a"]), "Rock".to_string(), 0);
    assert_eq!(p.playlist_section_label(), "Desde: Rock");
}

#[test]
fn enqueue_track_reports_an_idle_player() {
    let mut p = PlayerState::new();
    assert!(p.enqueue_track(tm("q1", 1)));
    assert_eq!(playing(&p).as_deref(), Some("q1"));
    assert!(!p.enqueue_track(tm("q2", 1)));
    assert_eq!(p.user_queue_len(), 2);
}

#[test]
fn duration_label_rounds() {
    assert_eq!(tm("a", 65_500).duration_label(), "01:06");
    assert_eq!(tm("a", 0).duration_label(), "00:00");
}

#[test]
fn transport_keeps_the_lists() {
    let mut p = PlayerState::new();
    p.play_playlist(list(&["a", "b"]), String::new(), 0);
    p.add_to_queue(tm("q", 1));
    p.toggle_repeat();
    p.advance();
    p.advance();
    p.go_back();
    p.advance();
    assert_eq!(p.playlist_len(), 2);
    assert_eq!(p.user_queue_len(), 1);
    assert_eq!(p.repeat_mode, RepeatMode::All);
    assert!(!p.is_shuffled);
}

#[test]
fn go_back_without_previous_only_rewinds() {
    let mut p = PlayerState::new();
    p.play_playlist(list(&["a", "b"]), String::new(), 0);
    p.current_time_ms = 2_000;
    p.is_playing = false;
    assert!(!p.go_back());
    assert_eq!(p.current_time_ms, 0);
    assert!(!p.is_playing);
    assert_eq!(playing(&p).as_deref(), Some("a"));
}

#[test]
fn seek_by_wheel_ignores_moves_within_ten_ms() {
    let mut p = PlayerState::new();
    p.duration_ms = 60_000;
    p.current_time_ms = 59_995;
    assert_eq!(p.seek_by_wheel(WheelDirection::Forward), None);
    assert_eq!(p.current_time_ms, 59_995);
    p.current_time_ms = 59_989;
    assert_eq!(p.seek_by_wheel(WheelDirection::Forward), Some(60_000));
    p.current_time_ms = 8;
    assert_eq!(p.seek_by_wheel(WheelDirection::Back), None);
    assert_eq!(p.current_time_ms, 8);
}

#[test]
fn player_state_clone_default_and_equality() {
    let mut p = PlayerState::new();
    p.play_playlist(list(&["a", "b"]), "L".to_string(), 1);
    let c = p.clone();
    assert_eq!(c, p);
    assert_eq!(tm("x", 1), tm("x", 1));
    assert_ne!(tm("x", 1), tm("x", 2));
    let d = PlayerState::default();
    assert_eq!(d.current_view, "");
    assert_eq!(d.volume, 0);
    assert!(d.metadata.is_none());
    assert_eq!(d.current_source, QueueSource::Playlist);
}
