use player_core::media::{
    calculate_duration, channel_count, complete_metadata, extract_simple_metadata,
    output_channels, output_sample_rate, track_metadata_from, update_from_tag, MetadataRevision,
    SampleBuffer, SimpleMetadata, StandardTag,
};

fn title(s: &str) -> StandardTag {
    StandardTag::TrackTitle(s.to_string())
}

fn artist(s: &str) -> StandardTag {
    StandardTag::Artist(s.to_string())
}

#[test]
fn no_revision_gives_nothing() {
    let m = extract_simple_metadata(None);
    assert!(m.title.is_none());
    assert!(m.artist.is_none());
    assert!(m.duration_ms.is_none());
}

#[test]
fn last_media_tag_wins() {
    let rev = MetadataRevision {
        media_tags: vec![title("T1"), StandardTag::Other, artist("A1"), title("T2")],
        per_track: vec![vec![title("P"), artist("PA")]],
    };
    let m = extract_simple_metadata(Some(&rev));
    assert_eq!(m.title.as_deref(), Some("T2"));
    assert_eq!(m.artist.as_deref(), Some("A1"));
}

#[test]
fn track_tags_fill_what_the_media_lacks_first_one_wins() {
    let rev = MetadataRevision {
        media_tags: vec![title("Media title")],
        per_track: vec![vec![StandardTag::Other], vec![artist("First"), title("Ignored")], vec![artist("Second")]],
    };
    let m = extract_simple_metadata(Some(&rev));
    assert_eq!(m.title.as_deref(), Some("Media title"));
    assert_eq!(m.artist.as_deref(), Some("First"));
}

#[test]
fn update_from_tag_only_fills_gaps() {
    let mut t = None;
    let mut a = Some("kept".to_string());
    update_from_tag(&title("new"), &mut t, &mut a);
    update_from_tag(&artist("other"), &mut t, &mut a);
    update_from_tag(&title("later"), &mut t, &mut a);
    assert_eq!(t.as_deref(), Some("new"));
    assert_eq!(a.as_deref(), Some("kept"));
}

#[test]
fn calculate_duration_in_milliseconds() {
    assert_eq!(calculate_duration(Some(441_000), 44_100), Some(10_000));
    assert_eq!(calculate_duration(Some(1), 48_000), Some(0));
    assert_eq!(calculate_duration(Some(72_000), 48_000), Some(1_500));
    assert_eq!(calculate_duration(None, 48_000), None);
    assert_eq!(calculate_duration(Some(u64::MAX), 1), Some(u64::MAX));
}

#[test]
fn complete_metadata_fills_defaults() {
    let empty = SimpleMetadata { title: None, artist: None, duration_ms: None };
    let m = complete_metadata(empty, Some("song".to_string()), None, 44_100);
    assert_eq!(m.title.as_deref(), Some("song"));
    assert_eq!(m.artist.as_deref(), Some("Desconocido"));
    assert_eq!(m.duration_ms, Some(0));

    let empty = SimpleMetadata { title: None, artist: None, duration_ms: None };
    let m = complete_metadata(empty, None, Some(88_200), 44_100);
    assert_eq!(m.title.as_deref(), Some("Desconocido"));
    assert_eq!(m.duration_ms, Some(2_000));

    let tagged = SimpleMetadata { title: Some("T".to_string()), artist: Some("A".to_string()), duration_ms: None };
    let m = complete_metadata(tagged, Some("file".to_string()), Some(48_000), 48_000);
    assert_eq!(m.title.as_deref(), Some("T"));
    assert_eq!(m.artist.as_deref(), Some("A"));
    assert_eq!(m.duration_ms, Some(1_000));
}

#[test]
fn output_format_fallbacks() {
    assert_eq!(channel_count(None), 2);
    assert_eq!(channel_count(Some(6)), 6);
    assert_eq!(channel_count(Some(65_537)), 1);
    assert_eq!(output_channels(0), 2);
    assert_eq!(output_channels(1), 1);
    assert_eq!(output_sample_rate(0), 44_100);
    assert_eq!(output_sample_rate(48_000), 48_000);
}

#[test]
fn track_metadata_from_encodes_the_cover() {
    let meta = SimpleMetadata { title: Some("T".to_string()), artist: None, duration_ms: Some(1234) };
    let t = track_metadata_from(&meta, "/a.opus", Some(b"Man"));
    assert_eq!(t.title, "T");
    assert_eq!(t.artist, "");
    assert_eq!(t.duration_ms, 1234);
    assert_eq!(t.path, "/a.opus");
    assert_eq!(t.image, "TWFu");
    let t = track_metadata_from(&meta, "/a.opus", Some(b"Ma"));
    assert_eq!(t.image, "TWE=");
    let none = SimpleMetadata { title: None, artist: None, duration_ms: None };
    let t = track_metadata_from(&none, "/b", None);
    assert_eq!(t.image, "");
    assert_eq!(t.title, "");
    assert_eq!(t.duration_ms, 0);
}

#[test]
fn sample_buffer_hands_out_samples_in_order() {
    let mut b: SampleBuffer<i16> = SampleBuffer::new();
    assert!(b.needs_refuel());
    assert_eq!(b.current_span_len(), None);
    b.refill(vec![1, 2, 3]);
    assert_eq!(b.current_span_len(), Some(3));
    assert!(!b.needs_refuel());
    assert_eq!(b.take(), 1);
    assert_eq!(b.take(), 2);
    assert_eq!(b.current_span_len(), Some(1));
    assert_eq!(b.take(), 3);
    assert!(b.needs_refuel());
    assert_eq!(b.current_span_len(), Some(0));
    b.refill(vec![9]);
    assert_eq!(b.take(), 9);
}

#[test]
fn unknown_frame_count_at_zero_rate() {
    assert_eq!(calculate_duration(None, 0), None);
    let empty = SimpleMetadata { title: None, artist: None, duration_ms: None };
    let m = complete_metadata(empty, None, None, 0);
    assert_eq!(m.duration_ms, Some(0));
}

#[test]
fn metadata_or_empty_cases() {
    use_metadata_or_empty();
}

fn use_metadata_or_empty() {
    let t = player_core::media::metadata_or_empty("/x.opus", None);
    assert_eq!(t.path, "/x.opus");
    assert_eq!(t.title, "");
    assert_eq!(t.duration_ms, 0);
    let no_rate = player_core::media::DecodedFile {
        tags: SimpleMetadata { title: Some("T".to_string()), artist: None, duration_ms: None },
        file_stem: Some("x".to_string()),
        num_frames: Some(10),
        sample_rate: None,
        cover: None,
    };
    let t = player_core::media::metadata_or_empty("/x.opus", Some(no_rate));
    assert_eq!(t.title, "");
    assert_eq!(t.artist, "");
    assert_eq!(t.path, "/x.opus");
    let ok = player_core::media::DecodedFile {
        tags: SimpleMetadata { title: None, artist: None, duration_ms: None },
        file_stem: Some("x".to_string()),
        num_frames: Some(96_000),
        sample_rate: Some(48_000),
        cover: Some(b"Man".to_vec()),
    };
    let t = player_core::media::metadata_or_empty("/x.opus", Some(ok));
    assert_eq!(t.title, "x");
    assert_eq!(t.artist, "Desconocido");
    assert_eq!(t.duration_ms, 2_000);
    assert_eq!(t.image, "TWFu");
}
