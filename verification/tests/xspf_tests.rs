use player_core::xspf::{default_version, Meta, Playlist, Track, TrackList};

fn meta(rel: &str, value: &str) -> Meta {
    Meta { rel: rel.to_string(), value: value.to_string() }
}

#[test]
fn track_new_sets_location_and_title_only() {
    let t = Track::new("/music/a.opus", "A");
    assert_eq!(t.location.as_deref(), Some("/music/a.opus"));
    assert_eq!(t.title.as_deref(), Some("A"));
    assert!(t.creator.is_none());
    assert!(t.album.is_none());
    assert!(t.duration.is_none());
    assert!(t.metas.is_empty());
}

#[test]
fn track_builders_set_one_field_each() {
    let t = Track::new("x", "y").with_creator("Daft Punk").with_album("Discovery").with_duration(320_000);
    assert_eq!(t.creator.as_deref(), Some("Daft Punk"));
    assert_eq!(t.album.as_deref(), Some("Discovery"));
    assert_eq!(t.duration, Some(320_000));
    assert_eq!(t.location.as_deref(), Some("x"));
    assert_eq!(t.title.as_deref(), Some("y"));
}

#[test]
fn add_meta_then_meta_reads_the_value() {
    let mut t = Track::new("x", "y");
    t.add_meta("bitrate", "320");
    assert_eq!(t.meta("bitrate"), Some("320"));
    assert_eq!(t.bitrate(), Some("320"));
    assert_eq!(t.meta("format"), None);
}

#[test]
fn add_meta_replaces_every_entry_with_the_key_and_keeps_the_others() {
    let mut t = Track::default();
    t.metas = vec![meta("size", "1"), meta("format", "opus"), meta("size", "2"), meta("channels", "2")];
    t.add_meta("size", "3");
    let rels: Vec<&str> = t.metas.iter().map(|m| m.rel.as_str()).collect();
    assert_eq!(rels, vec!["format", "channels", "size"]);
    assert_eq!(t.size(), Some("3"));
    assert_eq!(t.format(), Some("opus"));
    assert_eq!(t.channels(), Some("2"));
}

#[test]
fn meta_gives_the_first_entry_with_the_key() {
    let mut t = Track::default();
    t.metas = vec![meta("samplerate", "48000"), meta("samplerate", "44100")];
    assert_eq!(t.samplerate(), Some("48000"));
    assert_eq!(t.meta(""), None);
}

#[test]
fn duration_fmt_shows_minutes_and_padded_seconds() {
    assert_eq!(Track::new("a", "b").with_duration(187_000).duration_fmt(), "3:07");
    assert_eq!(Track::new("a", "b").with_duration(187_999).duration_fmt(), "3:07");
    assert_eq!(Track::new("a", "b").with_duration(0).duration_fmt(), "0:00");
    assert_eq!(Track::new("a", "b").with_duration(59_999).duration_fmt(), "0:59");
    assert_eq!(Track::new("a", "b").with_duration(3_600_000).duration_fmt(), "60:00");
    assert_eq!(Track::new("a", "b").with_duration(6_000_000).duration_fmt(), "100:00");
}

#[test]
fn duration_fmt_without_duration() {
    assert_eq!(Track::new("a", "b").duration_fmt(), "--:--");
}

#[test]
fn default_version_is_one() {
    assert_eq!(default_version(), "1");
}

#[test]
fn playlist_new_fills_the_header() {
    let p = Playlist::new("Mix");
    assert_eq!(p.version, "1");
    assert_eq!(p.xmlns.as_deref(), Some("http://xspf.org/ns/0/"));
    assert_eq!(p.title.as_deref(), Some("Mix"));
    assert!(p.date.is_some());
    assert!(p.location.is_none());
    assert!(p.identifier.is_none());
    assert!(p.annotation.is_none());
    assert!(p.track_list.tracks.is_empty());
}

#[test]
fn playlist_default_is_empty() {
    let p = Playlist::default();
    assert_eq!(p.version, "");
    assert!(p.title.is_none());
    assert!(p.track_list.tracks.is_empty());
    assert!(TrackList::default().tracks.is_empty());
}

fn titled(n: &[&str]) -> Playlist {
    let mut p = Playlist::new("p");
    for t in n {
        p.add_track(Track::new("loc", t));
    }
    p
}

fn titles(p: &Playlist) -> Vec<String> {
    p.track_list.tracks.iter().map(|t| t.title.clone().unwrap()).collect()
}

#[test]
fn add_track_appends() {
    let p = titled(&["a", "b", "c"]);
    assert_eq!(titles(&p), vec!["a", "b", "c"]);
}

#[test]
fn remove_track_in_range_and_out_of_range() {
    let mut p = titled(&["a", "b", "c"]);
    let r = p.remove_track(1);
    assert_eq!(r.unwrap().title.as_deref(), Some("b"));
    assert_eq!(titles(&p), vec!["a", "c"]);
    assert!(p.remove_track(2).is_none());
    assert_eq!(titles(&p), vec!["a", "c"]);
}

#[test]
fn remove_undoes_add() {
    let mut p = titled(&["a", "b"]);
    p.add_track(Track::new("l", "new"));
    let r = p.remove_track(2).unwrap();
    assert_eq!(r.title.as_deref(), Some("new"));
    assert_eq!(titles(&p), vec!["a", "b"]);
}

#[test]
fn move_track_forward_and_back() {
    let mut p = titled(&["a", "b", "c", "d"]);
    p.move_track(0, 2);
    assert_eq!(titles(&p), vec!["b", "c", "a", "d"]);
    p.move_track(2, 0);
    assert_eq!(titles(&p), vec!["a", "b", "c", "d"]);
    p.move_track(3, 1);
    assert_eq!(titles(&p), vec!["a", "d", "b", "c"]);
}

#[test]
fn move_track_out_of_range_does_nothing() {
    let mut p = titled(&["a", "b"]);
    p.move_track(0, 2);
    p.move_track(5, 0);
    assert_eq!(titles(&p), vec!["a", "b"]);
}

#[test]
fn set_title_replaces_title() {
    let mut p = titled(&["a"]);
    p.set_title("Nueva");
    assert_eq!(p.title.as_deref(), Some("Nueva"));
    assert_eq!(titles(&p), vec!["a"]);
}

#[test]
fn playlist_clone_keeps_everything() {
    let mut p = titled(&["a", "b"]);
    p.track_list.tracks[0].add_meta("size", "9");
    let c = p.clone();
    assert_eq!(c.title, p.title);
    assert_eq!(c.date, p.date);
    assert_eq!(titles(&c), titles(&p));
    assert_eq!(c.track_list.tracks[0].size(), Some("9"));
    let m = Meta::default();
    assert!(m.rel.is_empty() && m.value.is_empty());
}

#[test]
fn playlist_edits_leave_the_header_alone() {
    let mut p = titled(&["a", "b"]);
    p.annotation = Some("note".to_string());
    p.move_track(0, 1);
    assert!(p.remove_track(9).is_none());
    p.set_title("t");
    assert_eq!(p.version, "1");
    assert_eq!(p.annotation.as_deref(), Some("note"));
    assert_eq!(p.xmlns.as_deref(), Some("http://xspf.org/ns/0/"));
}
