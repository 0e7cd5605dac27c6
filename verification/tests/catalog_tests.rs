use player_core::catalog::{
    continue_items, heatmap_data, playlist_tracks, playlists_data, quick_access_items, rank_badge,
    recent_items, suggested_songs, summary_metrics, time_filters, top_artists, top_songs, RankBadge,
};

#[test]
fn home_page_data() {
    let quick = quick_access_items();
    assert_eq!(quick.len(), 5);
    assert_eq!(quick[0].title, "Tus Me Gusta");
    assert_eq!(quick[4].icon, "💪");
    assert!(quick.iter().all(|q| q.cover_url.is_none()));
    let recent = recent_items();
    assert_eq!(recent.len(), 6);
    assert_eq!(recent[1].subtitle, "Daft Punk");
    let cont = continue_items();
    assert_eq!(cont.len(), 6);
    assert_eq!(cont[5].title, "Jazz Lounge");
}

#[test]
fn playlist_page_data() {
    let lists = playlists_data();
    assert_eq!(lists.len(), 6);
    assert_eq!(lists.iter().map(|p| p.id).collect::<Vec<_>>(), vec![1, 2, 3, 4, 5, 6]);
    assert_eq!(lists[2].song_count, 89);
    assert!(lists[0].is_downloaded);
    let tracks = playlist_tracks();
    assert_eq!(tracks.len(), 8);
    assert_eq!(tracks[7].title, "Save Your Tears");
    assert_eq!(tracks[7].number, 8);
    let songs = suggested_songs();
    assert_eq!(songs.len(), 5);
    assert_eq!(songs[1].title, "Don't Start Now");
}

#[test]
fn statistics_page_data() {
    let filters = time_filters();
    assert_eq!(filters.iter().map(|f| f.value).collect::<Vec<_>>(), vec!["7d", "30d", "year", "all"]);
    assert_eq!(summary_metrics().len(), 3);
    assert_eq!(summary_metrics()[2].value, "23 días");
    assert_eq!(top_songs()[0].plays, "142");
    assert_eq!(top_artists()[4].name, "Fleetwood Mac");
    let heat = heatmap_data();
    assert_eq!(heat.len(), 5);
    assert!(heat.iter().all(|row| row.len() == 7));
    assert_eq!(heat[2][2].level, 5);
}

#[test]
fn rank_badges() {
    assert_eq!(rank_badge(1), RankBadge::Gold);
    assert_eq!(rank_badge(2), RankBadge::Silver);
    assert_eq!(rank_badge(3), RankBadge::Bronze);
    assert_eq!(rank_badge(4), RankBadge::Plain);
    assert_eq!(rank_badge(0), RankBadge::Plain);
}
