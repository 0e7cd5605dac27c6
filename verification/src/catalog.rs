//! The sample catalog the interface shows before a library is loaded: home
//! page shortcuts and carousels, playlists, a playlist's tracks, suggestions
//! and listening statistics.
use vstd::prelude::*;

verus! {

/// A shortcut tile of the home page.
#[derive(Clone, Debug, PartialEq)]
pub struct QuickAccessItem {
    pub title: &'static str,
    pub icon: &'static str,
    pub cover_url: Option<&'static str>,
}

/// An entry of a home page carousel.
#[derive(Clone, Debug, PartialEq)]
pub struct CarouselItemData {
    pub title: &'static str,
    pub subtitle: &'static str,
    pub cover_url: Option<&'static str>,
    pub icon: &'static str,
}

/// A playlist card of the playlists page.
#[derive(Clone, Debug, PartialEq)]
pub struct Playlist {
    pub id: usize,
    pub title: &'static str,
    pub author: &'static str,
    pub song_count: usize,
    pub duration: &'static str,
    pub cover_url: Option<&'static str>,
    pub is_downloaded: bool,
}

/// A row of a playlist's track table.
#[derive(Clone, Debug, PartialEq)]
pub struct PlaylistTrack {
    pub number: usize,
    pub title: &'static str,
    pub artist: &'static str,
    pub duration: &'static str,
    pub cover_url: Option<&'static str>,
}

/// A suggested song under a playlist.
#[derive(Clone, Debug, PartialEq)]
pub struct SuggestedSong {
    pub title: &'static str,
    pub artist: &'static str,
    pub cover_url: Option<&'static str>,
}

/// A period the statistics page can cover.
#[derive(Clone, Debug, PartialEq)]
pub struct TimeFilter {
    pub label: &'static str,
    pub value: &'static str,
}

/// A summary figure of the statistics page.
#[derive(Clone, Debug, PartialEq)]
pub struct StatMetric {
    pub label: &'static str,
    pub value: &'static str,
    pub sub: &'static str,
    pub icon_svg: &'static str,
}

/// An entry of the most played songs.
#[derive(Clone, Debug, PartialEq)]
pub struct TopSong {
    pub rank: usize,
    pub title: &'static str,
    pub artist: &'static str,
    pub plays: &'static str,
    pub cover_url: Option<&'static str>,
}

/// An entry of the most listened artists.
#[derive(Clone, Debug, PartialEq)]
pub struct TopArtist {
    pub rank: usize,
    pub name: &'static str,
    pub time: &'static str,
    pub cover_url: Option<&'static str>,
}

/// A cell of the listening-activity heat map (level 0 to 5).
#[derive(Clone, Debug, PartialEq)]
pub struct HeatmapCell {
    pub level: u8,
}

/// The medal a position in a top list gets.
#[derive(Clone, Copy, Debug, PartialEq, Eq, Structural)]
pub enum RankBadge {
    Gold,
    Silver,
    Bronze,
    Plain,
}

/// The medal for a rank: gold, silver and bronze for the first three.
pub open spec fn badge_of(rank: usize) -> RankBadge {
    if rank == 1 {
        RankBadge::Gold
    } else if rank == 2 {
        RankBadge::Silver
    } else if rank == 3 {
        RankBadge::Bronze
    } else {
        RankBadge::Plain
    }
}

/// The medal shown next to a song or artist at `rank`.
pub fn rank_badge(rank: usize) -> (b: RankBadge)
    ensures
        b == badge_of(rank),
{
    match rank {
        1 => RankBadge::Gold,
        2 => RankBadge::Silver,
        3 => RankBadge::Bronze,
        _ => RankBadge::Plain,
    }
}

/// The shortcut tiles of the home page.
pub fn quick_access_items() -> (r: Vec<QuickAccessItem>)
    ensures
        r@ == seq![
            QuickAccessItem {
                title: "Tus Me Gusta",
                icon: "♥",
                cover_url: None,
            },
            QuickAccessItem {
                title: "Lo más escuchado",
                icon: "📈",
                cover_url: None,
            },
            QuickAccessItem {
                title: "Historial",
                icon: "🕐",
                cover_url: None,
            },
            QuickAccessItem {
                title: "Descubrimiento",
                icon: "✨",
                cover_url: None,
            },
            QuickAccessItem {
                title: "Entrenamiento",
                icon: "💪",
                cover_url: None,
            },
        ],
{
    vec![
        QuickAccessItem {
            title: "Tus Me Gusta",
            icon: "♥",
            cover_url: None,
        },
        QuickAccessItem {
            title: "Lo más escuchado",
            icon: "📈",
            cover_url: None,
        },
        QuickAccessItem {
            title: "Historial",
            icon: "🕐",
            cover_url: None,
        },
        QuickAccessItem {
            title: "Descubrimiento",
            icon: "✨",
            cover_url: None,
        },
        QuickAccessItem {
            title: "Entrenamiento",
            icon: "💪",
            cover_url: None,
        },
    ]
}

/// The "recently played" carousel.
pub fn recent_items() -> (r: Vec<CarouselItemData>)
    ensures
        r@ == seq![
            CarouselItemData {
                title: "After Hours",
                subtitle: "The Weeknd",
                cover_url: None,
                icon: "🎵",
            },
            CarouselItemData {
                title: "Random Access Memories",
                subtitle: "Daft Punk",
                cover_url: None,
                icon: "🎹",
            },
            CarouselItemData {
                title: "Currents",
                subtitle: "Tame Impala",
                cover_url: None,
                icon: "🎸",
            },
            CarouselItemData {
                title: "Rumours",
                subtitle: "Fleetwood Mac",
                cover_url: None,
                icon: "🥁",
            },
            CarouselItemData {
                title: "Blue Train",
                subtitle: "John Coltrane",
                cover_url: None,
                icon: "🎺",
            },
            CarouselItemData {
                title: "Kind of Blue",
                subtitle: "Miles Davis",
                cover_url: None,
                icon: "🎷",
            },
        ],
{
    vec![
        CarouselItemData {
            title: "After Hours",
            subtitle: "The Weeknd",
            cover_url: None,
            icon: "🎵",
        },
        CarouselItemData {
            title: "Random Access Memories",
            subtitle: "Daft Punk",
            cover_url: None,
            icon: "🎹",
        },
        CarouselItemData {
            title: "Currents",
            subtitle: "Tame Impala",
            cover_url: None,
            icon: "🎸",
        },
        CarouselItemData {
            title: "Rumours",
            subtitle: "Fleetwood Mac",
            cover_url: None,
            icon: "🥁",
        },
        CarouselItemData {
            title: "Blue Train",
            subtitle: "John Coltrane",
            cover_url: None,
            icon: "🎺",
        },
        CarouselItemData {
            title: "Kind of Blue",
            subtitle: "Miles Davis",
            cover_url: None,
            icon: "🎷",
        },
    ]
}

/// The "continue listening" carousel.
pub fn continue_items() -> (r: Vec<CarouselItemData>)
    ensures
        r@ == seq![
            CarouselItemData {
                title: "Mix Diario 1",
                subtitle: "Hecho para ti",
                cover_url: None,
                icon: "🔀",
            },
            CarouselItemData {
                title: "Descubre Indie",
                subtitle: "Playlist",
                cover_url: None,
                icon: "🎧",
            },
            CarouselItemData {
                title: "Lo-Fi Beats",
                subtitle: "Para estudiar",
                cover_url: None,
                icon: "📚",
            },
            CarouselItemData {
                title: "Rock Clásico",
                subtitle: "Playlist",
                cover_url: None,
                icon: "🎸",
            },
            CarouselItemData {
                title: "Electrónica 2026",
                subtitle: "Actualizado",
                cover_url: None,
                icon: "⚡",
            },
            CarouselItemData {
                title: "Jazz Lounge",
                subtitle: "Relajación",
                cover_url: None,
                icon: "🎺",
            },
        ],
{
    vec![
        CarouselItemData {
            title: "Mix Diario 1",
            subtitle: "Hecho para ti",
            cover_url: None,
            icon: "🔀",
        },
        CarouselItemData {
            title: "Descubre Indie",
            subtitle: "Playlist",
            cover_url: None,
            icon: "🎧",
        },
        CarouselItemData {
            title: "Lo-Fi Beats",
            subtitle: "Para estudiar",
            cover_url: None,
            icon: "📚",
        },
        CarouselItemData {
            title: "Rock Clásico",
            subtitle: "Playlist",
            cover_url: None,
            icon: "🎸",
        },
        CarouselItemData {
            title: "Electrónica 2026",
            subtitle: "Actualizado",
            cover_url: None,
            icon: "⚡",
        },
        CarouselItemData {
            title: "Jazz Lounge",
            subtitle: "Relajación",
            cover_url: None,
            icon: "🎺",
        },
    ]
}

/// The playlists of the playlists page.
pub fn playlists_data() -> (r: Vec<Playlist>)
    ensures
        r@ == seq![
            Playlist {
                id: 1,
                title: "Vibes nocturnas",
                author: "Tu",
                song_count: 24,
                duration: "1h 42m",
                cover_url: None,
                is_downloaded: true,
            },
            Playlist {
                id: 2,
                title: "Gym Power",
                author: "Tu",
                song_count: 56,
                duration: "3h 10m",
                cover_url: None,
                is_downloaded: false,
            },
            Playlist {
                id: 3,
                title: "Lo-Fi Study",
                author: "Tu",
                song_count: 89,
                duration: "4h 25m",
                cover_url: None,
                is_downloaded: true,
            },
            Playlist {
                id: 4,
                title: "Road Trip",
                author: "Tu",
                song_count: 32,
                duration: "2h 05m",
                cover_url: None,
                is_downloaded: false,
            },
            Playlist {
                id: 5,
                title: "Jazz Lounge",
                author: "Tu",
                song_count: 18,
                duration: "1h 20m",
                cover_url: None,
                is_downloaded: false,
            },
            Playlist {
                id: 6,
                title: "Electro 2026",
                author: "Tu",
                song_count: 45,
                duration: "2h 48m",
                cover_url: None,
                is_downloaded: true,
            },
        ],
{
    vec![
        Playlist {
            id: 1,
            title: "Vibes nocturnas",
            author: "Tu",
            song_count: 24,
            duration: "1h 42m",
            cover_url: None,
            is_downloaded: true,
        },
        Playlist {
            id: 2,
            title: "Gym Power",
            author: "Tu",
            song_count: 56,
            duration: "3h 10m",
            cover_url: None,
            is_downloaded: false,
        },
        Playlist {
            id: 3,
            title: "Lo-Fi Study",
            author: "Tu",
            song_count: 89,
            duration: "4h 25m",
            cover_url: None,
            is_downloaded: true,
        },
        Playlist {
            id: 4,
            title: "Road Trip",
            author: "Tu",
            song_count: 32,
            duration: "2h 05m",
            cover_url: None,
            is_downloaded: false,
        },
        Playlist {
            id: 5,
            title: "Jazz Lounge",
            author: "Tu",
            song_count: 18,
            duration: "1h 20m",
            cover_url: None,
            is_downloaded: false,
        },
        Playlist {
            id: 6,
            title: "Electro 2026",
            author: "Tu",
            song_count: 45,
            duration: "2h 48m",
            cover_url: None,
            is_downloaded: true,
        },
    ]
}

/// The tracks of the opened playlist.
pub fn playlist_tracks() -> (r: Vec<PlaylistTrack>)
    ensures
        r@ == seq![
            PlaylistTrack {
                number: 1,
                title: "Blinding Lights",
                artist: "The Weeknd",
                duration: "3:20",
                cover_url: None,
            },
            PlaylistTrack {
                number: 2,
                title: "Levitating",
                artist: "Dua Lipa",
                duration: "3:23",
                cover_url: None,
            },
            PlaylistTrack {
                number: 3,
                title: "Stay",
                artist: "The Kid LAROI",
                duration: "2:21",
                cover_url: None,
            },
            PlaylistTrack {
                number: 4,
                title: "Peaches",
                artist: "Justin Bieber",
                duration: "3:18",
                cover_url: None,
            },
            PlaylistTrack {
                number: 5,
                title: "Good 4 U",
                artist: "Olivia Rodrigo",
                duration: "2:58",
                cover_url: None,
            },
            PlaylistTrack {
                number: 6,
                title: "Montero",
                artist: "Lil Nas X",
                duration: "2:17",
                cover_url: None,
            },
            PlaylistTrack {
                number: 7,
                title: "Kiss Me More",
                artist: "Doja Cat",
                duration: "3:28",
                cover_url: None,
            },
            PlaylistTrack {
                number: 8,
                title: "Save Your Tears",
                artist: "The Weeknd",
                duration: "3:35",
                cover_url: None,
            },
        ],
{
    vec![
        PlaylistTrack {
            number: 1,
            title: "Blinding Lights",
            artist: "The Weeknd",
            duration: "3:20",
            cover_url: None,
        },
        PlaylistTrack {
            number: 2,
            title: "Levitating",
            artist: "Dua Lipa",
            duration: "3:23",
            cover_url: None,
        },
        PlaylistTrack {
            number: 3,
            title: "Stay",
            artist: "The Kid LAROI",
            duration: "2:21",
            cover_url: None,
        },
        PlaylistTrack {
            number: 4,
            title: "Peaches",
            artist: "Justin Bieber",
            duration: "3:18",
            cover_url: None,
        },
        PlaylistTrack {
            number: 5,
            title: "Good 4 U",
            artist: "Olivia Rodrigo",
            duration: "2:58",
            cover_url: None,
        },
        PlaylistTrack {
            number: 6,
            title: "Montero",
            artist: "Lil Nas X",
            duration: "2:17",
            cover_url: None,
        },
        PlaylistTrack {
            number: 7,
            title: "Kiss Me More",
            artist: "Doja Cat",
            duration: "3:28",
            cover_url: None,
        },
        PlaylistTrack {
            number: 8,
            title: "Save Your Tears",
            artist: "The Weeknd",
            duration: "3:35",
            cover_url: None,
        },
    ]
}

/// The songs suggested under a playlist.
pub fn suggested_songs() -> (r: Vec<SuggestedSong>)
    ensures
        r@ == seq![
            SuggestedSong {
                title: "After Hours",
                artist: "The Weeknd",
                cover_url: None,
            },
            SuggestedSong {
                title: "Don't Start Now",
                artist: "Dua Lipa",
                cover_url: None,
            },
            SuggestedSong {
                title: "Watermelon Sugar",
                artist: "Harry Styles",
                cover_url: None,
            },
            SuggestedSong {
                title: "Circles",
                artist: "Post Malone",
                cover_url: None,
            },
            SuggestedSong {
                title: "Heat Waves",
                artist: "Glass Animals",
                cover_url: None,
            },
        ],
{
    vec![
        SuggestedSong {
            title: "After Hours",
            artist: "The Weeknd",
            cover_url: None,
        },
        SuggestedSong {
            title: "Don't Start Now",
            artist: "Dua Lipa",
            cover_url: None,
        },
        SuggestedSong {
            title: "Watermelon Sugar",
            artist: "Harry Styles",
            cover_url: None,
        },
        SuggestedSong {
            title: "Circles",
            artist: "Post Malone",
            cover_url: None,
        },
        SuggestedSong {
            title: "Heat Waves",
            artist: "Glass Animals",
            cover_url: None,
        },
    ]
}

/// The periods of the statistics page.
pub fn time_filters() -> (r: Vec<TimeFilter>)
    ensures
        r@ == seq![
            TimeFilter { label: "Últimos 7 días", value: "7d" },
            TimeFilter { label: "Últimos 30 días", value: "30d" },
            TimeFilter { label: "Este año", value: "year" },
            TimeFilter { label: "Histórico", value: "all" },
        ],
{
    vec![
        TimeFilter { label: "Últimos 7 días", value: "7d" },
        TimeFilter { label: "Últimos 30 días", value: "30d" },
        TimeFilter { label: "Este año", value: "year" },
        TimeFilter { label: "Histórico", value: "all" },
    ]
}

/// The summary figures of the statistics page.
pub fn summary_metrics() -> (r: Vec<StatMetric>)
    ensures
        r@ == seq![
            StatMetric {
                label: "Tiempo total",
                value: "342h 18m",
                sub: "+12% vs mes anterior",
                icon_svg: "<svg viewBox='0 0 24 24'><circle cx='12' cy='12' r='10'/><polyline points='12 6 12 12 16 14'/></svg>",
            },
            StatMetric {
                label: "Canciones y artistas",
                value: "1,247 / 312",
                sub: "Canciones reproducidas / Artistas distintos",
                icon_svg: "<svg viewBox='0 0 24 24'><path d='M9 18V5l12-2v13'/><circle cx='6' cy='18' r='3'/><circle cx='18' cy='16' r='3'/></svg>",
            },
            StatMetric {
                label: "Racha actual",
                value: "23 días",
                sub: "Récord: 45 días",
                icon_svg: "<svg viewBox='0 0 24 24'><path d='M13 2L3 14h9l-1 8 10-12h-9l1-8z'/></svg>",
            },
        ],
{
    vec![
        StatMetric {
            label: "Tiempo total",
            value: "342h 18m",
            sub: "+12% vs mes anterior",
            icon_svg: "<svg viewBox='0 0 24 24'><circle cx='12' cy='12' r='10'/><polyline points='12 6 12 12 16 14'/></svg>",
        },
        StatMetric {
            label: "Canciones y artistas",
            value: "1,247 / 312",
            sub: "Canciones reproducidas / Artistas distintos",
            icon_svg: "<svg viewBox='0 0 24 24'><path d='M9 18V5l12-2v13'/><circle cx='6' cy='18' r='3'/><circle cx='18' cy='16' r='3'/></svg>",
        },
        StatMetric {
            label: "Racha actual",
            value: "23 días",
            sub: "Récord: 45 días",
            icon_svg: "<svg viewBox='0 0 24 24'><path d='M13 2L3 14h9l-1 8 10-12h-9l1-8z'/></svg>",
        },
    ]
}

/// The most played songs.
pub fn top_songs() -> (r: Vec<TopSong>)
    ensures
        r@ == seq![
            TopSong { rank: 1, title: "Blinding Lights", artist: "The Weeknd", plays: "142", cover_url: None },
            TopSong { rank: 2, title: "Levitating", artist: "Dua Lipa", plays: "118", cover_url: None },
            TopSong { rank: 3, title: "Stay", artist: "The Kid LAROI", plays: "97", cover_url: None },
            TopSong { rank: 4, title: "Peaches", artist: "Justin Bieber", plays: "84", cover_url: None },
            TopSong { rank: 5, title: "Good 4 U", artist: "Olivia Rodrigo", plays: "76", cover_url: None },
        ],
{
    vec![
        TopSong { rank: 1, title: "Blinding Lights", artist: "The Weeknd", plays: "142", cover_url: None },
        TopSong { rank: 2, title: "Levitating", artist: "Dua Lipa", plays: "118", cover_url: None },
        TopSong { rank: 3, title: "Stay", artist: "The Kid LAROI", plays: "97", cover_url: None },
        TopSong { rank: 4, title: "Peaches", artist: "Justin Bieber", plays: "84", cover_url: None },
        TopSong { rank: 5, title: "Good 4 U", artist: "Olivia Rodrigo", plays: "76", cover_url: None },
    ]
}

/// The most listened artists.
pub fn top_artists() -> (r: Vec<TopArtist>)
    ensures
        r@ == seq![
            TopArtist { rank: 1, name: "The Weeknd", time: "48h 12m", cover_url: None },
            TopArtist { rank: 2, name: "Daft Punk", time: "36h 45m", cover_url: None },
            TopArtist { rank: 3, name: "Tame Impala", time: "29h 30m", cover_url: None },
            TopArtist { rank: 4, name: "Dua Lipa", time: "22h 15m", cover_url: None },
            TopArtist { rank: 5, name: "Fleetwood Mac", time: "18h 40m", cover_url: None },
        ],
{
    vec![
        TopArtist { rank: 1, name: "The Weeknd", time: "48h 12m", cover_url: None },
        TopArtist { rank: 2, name: "Daft Punk", time: "36h 45m", cover_url: None },
        TopArtist { rank: 3, name: "Tame Impala", time: "29h 30m", cover_url: None },
        TopArtist { rank: 4, name: "Dua Lipa", time: "22h 15m", cover_url: None },
        TopArtist { rank: 5, name: "Fleetwood Mac", time: "18h 40m", cover_url: None },
    ]
}

/// Listening activity by week (rows) and weekday (cells), as levels.
pub fn heatmap_data() -> (r: Vec<Vec<HeatmapCell>>)
    ensures
        r@.len() == 5,
        r@[0]@.map_values(|c: HeatmapCell| c.level) == seq![0u8, 1u8, 2u8, 3u8, 1u8, 0u8, 2u8],
        r@[1]@.map_values(|c: HeatmapCell| c.level) == seq![1u8, 3u8, 4u8, 2u8, 3u8, 1u8, 0u8],
        r@[2]@.map_values(|c: HeatmapCell| c.level) == seq![2u8, 4u8, 5u8, 4u8, 2u8, 1u8, 1u8],
        r@[3]@.map_values(|c: HeatmapCell| c.level) == seq![1u8, 2u8, 3u8, 5u8, 4u8, 2u8, 0u8],
        r@[4]@.map_values(|c: HeatmapCell| c.level) == seq![0u8, 1u8, 2u8, 3u8, 2u8, 1u8, 0u8],
{
    vec![
        vec![
            HeatmapCell { level: 0 },
            HeatmapCell { level: 1 },
            HeatmapCell { level: 2 },
            HeatmapCell { level: 3 },
            HeatmapCell { level: 1 },
            HeatmapCell { level: 0 },
            HeatmapCell { level: 2 },
        ],
        vec![
            HeatmapCell { level: 1 },
            HeatmapCell { level: 3 },
            HeatmapCell { level: 4 },
            HeatmapCell { level: 2 },
            HeatmapCell { level: 3 },
            HeatmapCell { level: 1 },
            HeatmapCell { level: 0 },
        ],
        vec![
            HeatmapCell { level: 2 },
            HeatmapCell { level: 4 },
            HeatmapCell { level: 5 },
            HeatmapCell { level: 4 },
            HeatmapCell { level: 2 },
            HeatmapCell { level: 1 },
            HeatmapCell { level: 1 },
        ],
        vec![
            HeatmapCell { level: 1 },
            HeatmapCell { level: 2 },
            HeatmapCell { level: 3 },
            HeatmapCell { level: 5 },
            HeatmapCell { level: 4 },
            HeatmapCell { level: 2 },
            HeatmapCell { level: 0 },
        ],
        vec![
            HeatmapCell { level: 0 },
            HeatmapCell { level: 1 },
            HeatmapCell { level: 2 },
            HeatmapCell { level: 3 },
            HeatmapCell { level: 2 },
            HeatmapCell { level: 1 },
            HeatmapCell { level: 0 },
        ],
    ]
}

} // verus!
