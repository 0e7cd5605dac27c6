//! What the player reads of an audio file once a decoder has opened it: the
//! title and artist chosen from its tags, the defaults for what is missing,
//! the duration, the output format, and the cursor over decoded samples.
//!
//! The decoder itself lives outside this library; it hands over its tags,
//! frame count and sample rate as plain values. Durations are milliseconds.
use vstd::prelude::*;

use base64::Engine;

use crate::queue::TrackMetadata;
use crate::xspf::opt_text;

verus! {

/// The standard tags the player looks at; any other tag is `Other`.
pub enum StandardTag {
    TrackTitle(String),
    Artist(String),
    Other,
}

/// The current metadata revision of a file: the tags of the media as a
/// whole, and the tags of each of its tracks.
pub struct MetadataRevision {
    pub media_tags: Vec<StandardTag>,
    pub per_track: Vec<Vec<StandardTag>>,
}

/// Title, artist and duration of an audio file.
#[derive(Debug)]
pub struct SimpleMetadata {
    pub title: Option<String>,
    pub artist: Option<String>,
    pub duration_ms: Option<u64>,
}

impl Clone for SimpleMetadata {
    fn clone(&self) -> (r: Self)
        ensures
            r == *self,
    {
        SimpleMetadata {
            title: self.title.clone(),
            artist: self.artist.clone(),
            duration_ms: self.duration_ms,
        }
    }
}

/// Which of the two tags is meant.
#[derive(Clone, Copy, Debug, PartialEq, Eq, Structural)]
pub enum TagKind {
    Title,
    Artist,
}

/// The text a tag gives for `kind`, if it is of that kind.
pub open spec fn tag_text(t: StandardTag, kind: TagKind) -> Option<Seq<char>> {
    match (t, kind) {
        (StandardTag::TrackTitle(v), TagKind::Title) => Some(v@),
        (StandardTag::Artist(v), TagKind::Artist) => Some(v@),
        _ => None,
    }
}

/// The text of the last tag of `kind` in `tags`.
pub open spec fn last_of(tags: Seq<StandardTag>, kind: TagKind) -> Option<Seq<char>>
    decreases tags.len(),
{
    if tags.len() == 0 {
        None
    } else {
        match tag_text(tags.last(), kind) {
            Some(x) => Some(x),
            None => last_of(tags.drop_last(), kind),
        }
    }
}

/// The text of the first tag of `kind` in `tags`.
pub open spec fn first_of(tags: Seq<StandardTag>, kind: TagKind) -> Option<Seq<char>>
    decreases tags.len(),
{
    if tags.len() == 0 {
        None
    } else {
        match first_of(tags.drop_last(), kind) {
            Some(x) => Some(x),
            None => tag_text(tags.last(), kind),
        }
    }
}

/// The text of the first tag of `kind` over the tracks' tags, in order.
pub open spec fn first_of_tracks(tracks: Seq<Vec<StandardTag>>, kind: TagKind) -> Option<
    Seq<char>,
>
    decreases tracks.len(),
{
    if tracks.len() == 0 {
        None
    } else {
        match first_of_tracks(tracks.drop_last(), kind) {
            Some(x) => Some(x),
            None => first_of(tracks.last()@, kind),
        }
    }
}

/// `a`, or else `b`.
pub open spec fn or_else<T>(a: Option<T>, b: Option<T>) -> Option<T> {
    if a is Some {
        a
    } else {
        b
    }
}

/// The text for `kind` that a revision gives: the last such media tag, or
/// else the first such tag of the tracks.
pub open spec fn revision_text(rev: Option<MetadataRevision>, kind: TagKind) -> Option<Seq<char>> {
    match rev {
        None => None,
        Some(r) => or_else(last_of(r.media_tags@, kind), first_of_tracks(r.per_track@, kind)),
    }
}

/// Milliseconds of `frames` frames at `sample_rate` frames per second,
/// rounded down and held to `u64::MAX`.
pub open spec fn frames_ms(frames: u64, sample_rate: u32) -> u64 {
    let ms = frames as int * 1000 / sample_rate as int;
    if ms > u64::MAX {
        u64::MAX
    } else {
        ms as u64
    }
}

/// The name given to what has no title or artist.
pub open spec fn unknown_text() -> Seq<char> {
    "Desconocido"@
}

/// The character of a six-bit value in the standard Base64 alphabet
/// (`A-Z`, `a-z`, `0-9`, `+`, `/`).
pub open spec fn base64_digit(v: int) -> char {
    if v < 26 {
        (v + 65) as char
    } else if v < 52 {
        (v - 26 + 97) as char
    } else if v < 62 {
        (v - 52 + 48) as char
    } else if v == 62 {
        '+'
    } else {
        '/'
    }
}

/// The standard, padded Base64 text of `bytes` (RFC 4648): each group of
/// three bytes becomes four characters of six bits each; a last group of
/// one or two bytes is padded with `=`.
pub open spec fn base64_standard(bytes: Seq<u8>) -> Seq<char>
    decreases bytes.len(),
{
    if bytes.len() == 0 {
        Seq::empty()
    } else if bytes.len() == 1 {
        let a = bytes[0] as int;
        seq![base64_digit(a / 4), base64_digit((a % 4) * 16), '=', '=']
    } else if bytes.len() == 2 {
        let a = bytes[0] as int;
        let b = bytes[1] as int;
        seq![base64_digit(a / 4), base64_digit((a % 4) * 16 + b / 16), base64_digit((b % 16) * 4), '=']
    } else {
        let a = bytes[0] as int;
        let b = bytes[1] as int;
        let c = bytes[2] as int;
        seq![
            base64_digit(a / 4),
            base64_digit((a % 4) * 16 + b / 16),
            base64_digit((b % 16) * 4 + c / 64),
            base64_digit(c % 64),
        ] + base64_standard(bytes.skip(3))
    }
}

/// Base64 text of `bytes` with the standard alphabet and padding
/// (`base64::engine::general_purpose::STANDARD.encode`): the RFC 4648
/// encoding that `base64_standard` spells out, four characters per started
/// group of three bytes (the length `encoded_len` in the crate computes). The
/// crate panics when that length overflows `usize`, which `requires` leaves out.
#[verifier::external_body]
fn encode_base64(bytes: &[u8]) -> (s: String)
    requires
        bytes@.len() / 3 * 4 + 4 <= usize::MAX,
    ensures
        s@ == base64_standard(bytes@),
        s@.len() == 4 * ((bytes@.len() + 2) / 3),
{
    base64::engine::general_purpose::STANDARD.encode(bytes)
}

fn tag_value(t: &StandardTag, kind: TagKind) -> (r: Option<String>)
    ensures
        opt_text(r) == tag_text(*t, kind),
{
    match (t, kind) {
        (StandardTag::TrackTitle(v), TagKind::Title) => Some(v.clone()),
        (StandardTag::Artist(v), TagKind::Artist) => Some(v.clone()),
        _ => None,
    }
}

/// Fills in `title` and `artist` from `tag` where they are still missing.
pub fn update_from_tag(tag: &StandardTag, title: &mut Option<String>, artist: &mut Option<String>)
    ensures
        opt_text(*final(title)) == or_else(opt_text(*old(title)), tag_text(*tag, TagKind::Title)),
        opt_text(*final(artist)) == or_else(opt_text(*old(artist)), tag_text(*tag, TagKind::Artist)),
        *old(title) is Some ==> *final(title) == *old(title),
        *old(artist) is Some ==> *final(artist) == *old(artist),
{
    match tag {
        StandardTag::TrackTitle(v) => {
            if title.is_none() {
                *title = Some(v.clone());
            }
        },
        StandardTag::Artist(v) => {
            if artist.is_none() {
                *artist = Some(v.clone());
            }
        },
        StandardTag::Other => {},
    }
}

/// Title and artist of a file from its current metadata revision (none
/// without one): the last title and artist tags of the media win; what they
/// leave missing comes from the first such tags of the tracks. The duration
/// is left unknown.
pub fn extract_simple_metadata(rev: Option<&MetadataRevision>) -> (m: SimpleMetadata)
    ensures
        opt_text(m.title) == revision_text(
            match rev {
                Some(r) => Some(*r),
                None => None,
            },
            TagKind::Title,
        ),
        opt_text(m.artist) == revision_text(
            match rev {
                Some(r) => Some(*r),
                None => None,
            },
            TagKind::Artist,
        ),
        m.duration_ms is None,
{
    let mut title: Option<String> = None;
    let mut artist: Option<String> = None;
    match rev {
        None => {},
        Some(r) => {
            let tags = &r.media_tags;
            let n = tags.len();
            let mut i: usize = 0;
            while i < n
                invariant
                    n == tags@.len(),
                    0 <= i <= n,
                    opt_text(title) == last_of(tags@.take(i as int), TagKind::Title),
                    opt_text(artist) == last_of(tags@.take(i as int), TagKind::Artist),
                decreases n - i,
            {
                proof {
                    assert(tags@.take(i + 1).drop_last() == tags@.take(i as int));
                    assert(tags@.take(i + 1).last() == tags@[i as int]);
                }
                match &tags[i] {
                    StandardTag::TrackTitle(v) => {
                        title = Some(v.clone());
                    },
                    StandardTag::Artist(v) => {
                        artist = Some(v.clone());
                    },
                    StandardTag::Other => {},
                }
                i = i + 1;
            }
            proof {
                assert(tags@.take(n as int) == tags@);
            }
            let ghost media_title = opt_text(title);
            let ghost media_artist = opt_text(artist);
            if title.is_none() || artist.is_none() {
                let tracks = &r.per_track;
                let tn = tracks.len();
                let mut j: usize = 0;
                while j < tn
                    invariant
                        tn == tracks@.len(),
                        0 <= j <= tn,
                        opt_text(title) == or_else(
                            media_title,
                            first_of_tracks(tracks@.take(j as int), TagKind::Title),
                        ),
                        opt_text(artist) == or_else(
                            media_artist,
                            first_of_tracks(tracks@.take(j as int), TagKind::Artist),
                        ),
                    decreases tn - j,
                {
                    let track_tags = &tracks[j];
                    let kn = track_tags.len();
                    let mut k: usize = 0;
                    while k < kn
                        invariant
                            kn == track_tags@.len(),
                            0 <= k <= kn,
                            opt_text(title) == or_else(
                                media_title,
                                or_else(
                                    first_of_tracks(tracks@.take(j as int), TagKind::Title),
                                    first_of(track_tags@.take(k as int), TagKind::Title),
                                ),
                            ),
                            opt_text(artist) == or_else(
                                media_artist,
                                or_else(
                                    first_of_tracks(tracks@.take(j as int), TagKind::Artist),
                                    first_of(track_tags@.take(k as int), TagKind::Artist),
                                ),
                            ),
                        decreases kn - k,
                    {
                        proof {
                            assert(track_tags@.take(k + 1).drop_last() == track_tags@.take(
                                k as int,
                            ));
                            assert(track_tags@.take(k + 1).last() == track_tags@[k as int]);
                        }
                        update_from_tag(&track_tags[k], &mut title, &mut artist);
                        k = k + 1;
                    }
                    proof {
                        assert(track_tags@.take(kn as int) == track_tags@);
                        assert(tracks@.take(j + 1).drop_last() == tracks@.take(j as int));
                        assert(tracks@.take(j + 1).last() == tracks@[j as int]);
                    }
                    j = j + 1;
                }
                proof {
                    assert(tracks@.take(tn as int) == tracks@);
                }
            }
        },
    }
    SimpleMetadata { title, artist, duration_ms: None }
}

/// Length of `num_frames` frames at `sample_rate`, when the frame count is
/// known (a known count at a zero rate has no length).
pub fn calculate_duration(num_frames: Option<u64>, sample_rate: u32) -> (d: Option<u64>)
    requires
        num_frames is Some ==> sample_rate > 0,
    ensures
        d == match num_frames {
            Some(n) => Some(frames_ms(n, sample_rate)),
            None => None,
        },
{
    match num_frames {
        Some(n) => {
            let wide: u128 = n as u128;
            let rate: u128 = sample_rate as u128;
            assert(wide * 1000 <= u64::MAX as u128 * 1000) by (nonlinear_arith)
                requires
                    wide <= u64::MAX,
            ;
            let ms: u128 = wide * 1000 / rate;
            if ms > u64::MAX as u128 {
                Some(u64::MAX)
            } else {
                Some(ms as u64)
            }
        },
        None => None,
    }
}

/// The title of an opened file: its tag, else the file's stem, else "Desconocido".
pub open spec fn completed_title(extracted: SimpleMetadata, file_stem: Option<String>) -> Seq<char> {
    match opt_text(extracted.title) {
        Some(t) => t,
        None => match opt_text(file_stem) {
            Some(s) => s,
            None => unknown_text(),
        },
    }
}

/// The artist of an opened file: its tag, else "Desconocido".
pub open spec fn completed_artist(extracted: SimpleMetadata) -> Seq<char> {
    match opt_text(extracted.artist) {
        Some(a) => a,
        None => unknown_text(),
    }
}

/// The duration of an opened file: the length of its frames, 0 when unknown.
pub open spec fn completed_duration(num_frames: Option<u64>, sample_rate: u32) -> u64 {
    match num_frames {
        Some(n) => frames_ms(n, sample_rate),
        None => 0,
    }
}

/// What a decoder read of an opened file: its tags, the file's stem, the
/// default track's frame count and sample rate, and the cover art.
pub struct DecodedFile {
    pub tags: SimpleMetadata,
    pub file_stem: Option<String>,
    pub num_frames: Option<u64>,
    pub sample_rate: Option<u32>,
    pub cover: Option<Vec<u8>>,
}

/// The metadata of an opened file: the title defaults to the file's stem
/// (or "Desconocido" when it has none), the artist to "Desconocido", and the
/// duration is the length of the default track (0 when its frame count is
/// unknown).
pub fn complete_metadata(
    extracted: SimpleMetadata,
    file_stem: Option<String>,
    num_frames: Option<u64>,
    sample_rate: u32,
) -> (m: SimpleMetadata)
    requires
        num_frames is Some ==> sample_rate > 0,
    ensures
        opt_text(m.title) == Some(completed_title(extracted, file_stem)),
        opt_text(m.artist) == Some(completed_artist(extracted)),
        m.duration_ms == Some(completed_duration(num_frames, sample_rate)),
{
    let file_name = match file_stem {
        Some(s) => s,
        None => "Desconocido".to_owned(),
    };
    let title = match extracted.title {
        Some(t) => Some(t),
        None => Some(file_name),
    };
    let artist = match extracted.artist {
        Some(a) => Some(a),
        None => Some("Desconocido".to_owned()),
    };
    let total = match calculate_duration(num_frames, sample_rate) {
        Some(d) => d,
        None => 0,
    };
    SimpleMetadata { title, artist, duration_ms: Some(total) }
}

/// The channel count of a track's audio parameters (truncated to 16 bits), 2 when unknown.
pub fn channel_count(count: Option<usize>) -> (c: u16)
    ensures
        c == match count {
            Some(n) => n as u16,
            None => 2,
        },
{
    match count {
        Some(n) => n as u16,
        None => 2,
    }
}

/// The channel count a source reports to the mixer: never zero, 2 in place of 0.
pub fn output_channels(channels: u16) -> (c: u16)
    ensures
        c == if channels == 0 {
            2
        } else {
            channels
        },
        c > 0,
{
    if channels == 0 {
        2
    } else {
        channels
    }
}

/// The sample rate a source reports to the mixer: never zero, 44100 in place of 0.
pub fn output_sample_rate(sample_rate: u32) -> (r: u32)
    ensures
        r == if sample_rate == 0 {
            44100
        } else {
            sample_rate
        },
        r > 0,
{
    if sample_rate == 0 {
        44100
    } else {
        sample_rate
    }
}

/// The track entry the player keeps for a file at `path`: missing title and
/// artist become empty, a missing duration 0, and the cover art, if any, is
/// carried as Base64 text (empty without one).
pub fn track_metadata_from(meta: &SimpleMetadata, path: &str, cover: Option<&[u8]>) -> (t:
    TrackMetadata)
    requires
        match cover {
            Some(b) => b@.len() / 3 * 4 + 4 <= usize::MAX,
            None => true,
        },
    ensures
        t.title@ == match opt_text(meta.title) {
            Some(s) => s,
            None => Seq::<char>::empty(),
        },
        t.artist@ == match opt_text(meta.artist) {
            Some(s) => s,
            None => Seq::<char>::empty(),
        },
        t.duration_ms == match meta.duration_ms {
            Some(d) => d,
            None => 0,
        },
        t.path@ == path@,
        t.image@ == match cover {
            Some(b) => base64_standard(b@),
            None => Seq::<char>::empty(),
        },
{
    let image = match cover {
        Some(b) => encode_base64(b),
        None => String::new(),
    };
    let title = match &meta.title {
        Some(s) => s.clone(),
        None => String::new(),
    };
    let artist = match &meta.artist {
        Some(s) => s.clone(),
        None => String::new(),
    };
    let duration_ms = match meta.duration_ms {
        Some(d) => d,
        None => 0,
    };
    TrackMetadata { title, artist, duration_ms, path: path.to_owned(), image }
}

/// The track entry the backend answers for the file at `path`. A file that
/// could not be opened (`None`), or whose track has no sample rate, gives an
/// empty entry that keeps the path; otherwise the entry of the completed
/// metadata, with the cover as Base64.
pub fn metadata_or_empty(path: &str, decoded: Option<DecodedFile>) -> (t: TrackMetadata)
    requires
        match decoded {
            Some(d) => {
                &&& (d.num_frames is Some && d.sample_rate is Some) ==> d.sample_rate->0 > 0
                &&& d.cover is Some ==> d.cover->0@.len() / 3 * 4 + 4 <= usize::MAX
            },
            None => true,
        },
    ensures
        t.path@ == path@,
        match decoded {
            Some(d) if d.sample_rate is Some => {
                &&& t.title@ == completed_title(d.tags, d.file_stem)
                &&& t.artist@ == completed_artist(d.tags)
                &&& t.duration_ms == completed_duration(d.num_frames, d.sample_rate->0)
                &&& t.image@ == match d.cover {
                    Some(b) => base64_standard(b@),
                    None => Seq::<char>::empty(),
                }
            },
            _ => {
                &&& t.title@.len() == 0
                &&& t.artist@.len() == 0
                &&& t.duration_ms == 0
                &&& t.image@.len() == 0
            },
        },
{
    match decoded {
        Some(d) => match d.sample_rate {
            Some(sample_rate) => {
                let meta = complete_metadata(d.tags, d.file_stem, d.num_frames, sample_rate);
                match &d.cover {
                    Some(b) => track_metadata_from(&meta, path, Some(b.as_slice())),
                    None => track_metadata_from(&meta, path, None),
                }
            },
            None => TrackMetadata {
                title: String::new(),
                artist: String::new(),
                duration_ms: 0,
                path: path.to_owned(),
                image: String::new(),
            },
        },
        None => TrackMetadata {
            title: String::new(),
            artist: String::new(),
            duration_ms: 0,
            path: path.to_owned(),
            image: String::new(),
        },
    }
}

/// Decoded samples of the current packet and the position of the next one to hand out.
pub struct SampleBuffer<T> {
    pub samples: Option<Vec<T>>,
    pub pos: usize,
}

impl<T: Copy> SampleBuffer<T> {
    /// A buffer before the first packet is decoded.
    pub fn new() -> (b: Self)
        ensures
            b.samples is None,
            b.pos == 0,
    {
        SampleBuffer { samples: None, pos: 0 }
    }

    /// The buffer holds no sample left to hand out: the next packet is to be decoded.
    pub fn needs_refuel(&self) -> (r: bool)
        ensures
            r == match self.samples {
                Some(s) => self.pos >= s@.len(),
                None => true,
            },
    {
        match &self.samples {
            Some(s) => self.pos >= s.len(),
            None => true,
        }
    }

    /// The samples of a newly decoded packet replace the buffer's content.
    pub fn refill(&mut self, samples: Vec<T>)
        ensures
            final(self).samples == Some(samples),
            final(self).pos == 0,
    {
        self.samples = Some(samples);
        self.pos = 0;
    }

    /// Hands out the next sample.
    pub fn take(&mut self) -> (x: T)
        requires
            old(self).samples is Some,
            old(self).pos < old(self).samples->0@.len(),
        ensures
            x == old(self).samples->0@[old(self).pos as int],
            final(self).samples == old(self).samples,
            final(self).pos == old(self).pos + 1,
    {
        let buf = self.samples.as_ref().unwrap();
        let x = buf[self.pos];
        let n = buf.len();
        assert(self.pos < n);
        self.pos = self.pos + 1;
        x
    }

    /// How many samples of the current packet are still to be handed out.
    pub fn current_span_len(&self) -> (r: Option<usize>)
        ensures
            r == match self.samples {
                Some(s) => Some(
                    if self.pos < s@.len() {
                        (s@.len() - self.pos) as usize
                    } else {
                        0usize
                    },
                ),
                None => None,
            },
    {
        match &self.samples {
            Some(s) => Some(s.len().saturating_sub(self.pos)),
            None => None,
        }
    }
}

} // verus!
