//! The XSPF playlist model: a playlist header, its track list, tracks and
//! their `<meta rel="...">` entries, with the edits the player makes to them.
use vstd::prelude::*;

use crate::clock::local_now_rfc3339;
use crate::text::{min_sec, min_sec_text, push_char};

verus! {

/// One `<meta rel="key">value</meta>` entry of a track.
#[derive(Debug)]
pub struct Meta {
    pub rel: String,
    pub value: String,
}

impl Clone for Meta {
    fn clone(&self) -> (r: Self)
        ensures
            r == *self,
    {
        Meta { rel: self.rel.clone(), value: self.value.clone() }
    }
}

/// A `<track>` of an XSPF playlist; `duration` is in milliseconds.
#[derive(Debug)]
pub struct Track {
    pub location: Option<String>,
    pub title: Option<String>,
    pub creator: Option<String>,
    pub album: Option<String>,
    pub duration: Option<u64>,
    pub metas: Vec<Meta>,
}

/// The `<trackList>` of a playlist.
#[derive(Debug)]
pub struct TrackList {
    pub tracks: Vec<Track>,
}

/// The `<playlist>` header of an XSPF document with its track list.
#[derive(Debug)]
pub struct Playlist {
    pub version: String,
    pub xmlns: Option<String>,
    pub title: Option<String>,
    pub location: Option<String>,
    pub identifier: Option<String>,
    pub date: Option<String>,
    pub annotation: Option<String>,
    pub track_list: TrackList,
}

impl Clone for Track {
    fn clone(&self) -> (r: Self)
        ensures
            r.location == self.location,
            r.title == self.title,
            r.creator == self.creator,
            r.album == self.album,
            r.duration == self.duration,
            r.metas@ == self.metas@,
    {
        let mut metas: Vec<Meta> = Vec::new();
        let n = self.metas.len();
        let mut i: usize = 0;
        while i < n
            invariant
                n == self.metas@.len(),
                0 <= i <= n,
                metas@ == self.metas@.take(i as int),
            decreases n - i,
        {
            metas.push(self.metas[i].clone());
            proof {
                assert(self.metas@.take(i + 1) == self.metas@.take(i as int).push(self.metas@[i as int]));
            }
            i = i + 1;
        }
        proof {
            assert(self.metas@.take(n as int) == self.metas@);
        }
        Track {
            location: self.location.clone(),
            title: self.title.clone(),
            creator: self.creator.clone(),
            album: self.album.clone(),
            duration: self.duration,
            metas,
        }
    }
}

/// `b` carries the same fields as `a` (`Track::clone`'s result).
pub open spec fn same_track(a: Track, b: Track) -> bool {
    &&& b.location == a.location
    &&& b.title == a.title
    &&& b.creator == a.creator
    &&& b.album == a.album
    &&& b.duration == a.duration
    &&& b.metas@ == a.metas@
}

impl Clone for TrackList {
    fn clone(&self) -> (r: Self)
        ensures
            r.tracks@.len() == self.tracks@.len(),
            forall|i: int| 0 <= i < self.tracks@.len() ==> same_track(self.tracks@[i], #[trigger] r.tracks@[i]),
    {
        let mut tracks: Vec<Track> = Vec::new();
        let n = self.tracks.len();
        let mut i: usize = 0;
        while i < n
            invariant
                n == self.tracks@.len(),
                0 <= i <= n,
                tracks@.len() == i,
                forall|k: int| 0 <= k < i ==> same_track(self.tracks@[k], #[trigger] tracks@[k]),
            decreases n - i,
        {
            tracks.push(self.tracks[i].clone());
            i = i + 1;
        }
        TrackList { tracks }
    }
}

impl Clone for Playlist {
    fn clone(&self) -> (r: Self)
        ensures
            r.version == self.version,
            r.xmlns == self.xmlns,
            r.title == self.title,
            r.location == self.location,
            r.identifier == self.identifier,
            r.date == self.date,
            r.annotation == self.annotation,
            r.track_list.tracks@.len() == self.track_list.tracks@.len(),
            forall|i: int|
                0 <= i < self.track_list.tracks@.len() ==> same_track(
                    self.track_list.tracks@[i],
                    #[trigger] r.track_list.tracks@[i],
                ),
    {
        Playlist {
            version: self.version.clone(),
            xmlns: self.xmlns.clone(),
            title: self.title.clone(),
            location: self.location.clone(),
            identifier: self.identifier.clone(),
            date: self.date.clone(),
            annotation: self.annotation.clone(),
            track_list: self.track_list.clone(),
        }
    }
}

impl Default for Meta {
    fn default() -> (m: Self)
        ensures
            m.rel@.len() == 0,
            m.value@.len() == 0,
    {
        Meta { rel: String::new(), value: String::new() }
    }
}

impl Default for Track {
    fn default() -> (t: Self)
        ensures
            t.location is None,
            t.title is None,
            t.creator is None,
            t.album is None,
            t.duration is None,
            t.metas@.len() == 0,
    {
        Track {
            location: None,
            title: None,
            creator: None,
            album: None,
            duration: None,
            metas: Vec::new(),
        }
    }
}

impl Default for TrackList {
    fn default() -> (l: Self)
        ensures
            l.tracks@.len() == 0,
    {
        TrackList { tracks: Vec::new() }
    }
}

impl Default for Playlist {
    fn default() -> (p: Self)
        ensures
            p.version@.len() == 0,
            p.xmlns is None,
            p.title is None,
            p.location is None,
            p.identifier is None,
            p.date is None,
            p.annotation is None,
            p.track_list.tracks@.len() == 0,
    {
        Playlist {
            version: String::new(),
            xmlns: None,
            title: None,
            location: None,
            identifier: None,
            date: None,
            annotation: None,
            track_list: TrackList { tracks: Vec::new() },
        }
    }
}

/// Compares two string slices (`<str as PartialEq>::eq`).
#[verifier::external_body]
fn str_eq(a: &str, b: &str) -> (r: bool)
    ensures
        r == (a@ == b@),
{
    a == b
}

/// The option's text, as a sequence of characters.
pub open spec fn opt_text(o: Option<String>) -> Option<Seq<char>> {
    match o {
        Some(s) => Some(s@),
        None => None,
    }
}

/// Whether a meta entry carries the key `key`.
pub open spec fn has_rel(key: Seq<char>) -> spec_fn(Meta) -> bool {
    |m: Meta| m.rel@ == key
}

/// Whether a meta entry carries a key other than `key`.
pub open spec fn other_rel(key: Seq<char>) -> spec_fn(Meta) -> bool {
    |m: Meta| m.rel@ != key
}

/// The value of the first meta entry with key `key`, if any.
pub open spec fn meta_lookup(metas: Seq<Meta>, key: Seq<char>) -> Option<Seq<char>> {
    let hits = metas.filter(has_rel(key));
    if hits.len() == 0 {
        None
    } else {
        Some(hits[0].value@)
    }
}

/// `after` holds the meta entries `Track::add_meta(key, value)` leaves from
/// `before`: the entries with other keys, in order, then the new one.
pub open spec fn meta_added(before: Seq<Meta>, key: Seq<char>, value: Seq<char>, after: Seq<Meta>) -> bool {
    &&& after.len() == before.filter(other_rel(key)).len() + 1
    &&& after.drop_last() == before.filter(other_rel(key))
    &&& after.last().rel@ == key
    &&& after.last().value@ == value
}

/// The track list `Playlist::move_track(from, to)` leaves.
pub open spec fn moved(tracks: Seq<Track>, from: int, to: int) -> Seq<Track> {
    if 0 <= from < tracks.len() && 0 <= to < tracks.len() {
        tracks.remove(from).insert(to, tracks[from])
    } else {
        tracks
    }
}

/// The text `duration_fmt` shows for a duration in milliseconds.
pub open spec fn duration_text(duration: Option<u64>) -> Seq<char> {
    match duration {
        Some(ms) => min_sec_text((ms / 1000) as nat),
        None => seq!['-', '-', ':', '-', '-'],
    }
}

/// No entry of `s` satisfies `p` exactly when filtering by `p` leaves nothing.
pub proof fn lemma_filter_empty<A>(s: Seq<A>, p: spec_fn(A) -> bool)
    ensures
        (s.filter(p).len() == 0) <==> (forall|j: int| 0 <= j < s.len() ==> !p(#[trigger] s[j])),
    decreases s.len(),
{
    reveal(Seq::filter);
    if s.len() > 0 {
        lemma_filter_empty(s.drop_last(), p);
        assert forall|j: int| 0 <= j < s.len() - 1 implies #[trigger] s.drop_last()[j] == s[j] by {}
        if s.filter(p).len() == 0 {
            assert forall|j: int| 0 <= j < s.len() implies !p(#[trigger] s[j]) by {
                if j < s.len() - 1 {
                    assert(s.drop_last()[j] == s[j]);
                }
            }
        }
    }
}

/// The first entry kept by a filter is the first entry that satisfies it.
pub proof fn lemma_filter_first<A>(s: Seq<A>, p: spec_fn(A) -> bool, i: int)
    requires
        0 <= i < s.len(),
        p(s[i]),
        forall|j: int| 0 <= j < i ==> !p(#[trigger] s[j]),
    ensures
        s.filter(p).len() > 0,
        s.filter(p)[0] == s[i],
    decreases s.len(),
{
    reveal(Seq::filter);
    let d = s.drop_last();
    if i < s.len() - 1 {
        assert forall|j: int| 0 <= j < i implies !p(#[trigger] d[j]) by {
            assert(d[j] == s[j]);
        }
        lemma_filter_first(d, p, i);
    } else {
        lemma_filter_empty(d, p);
        assert forall|j: int| 0 <= j < d.len() implies !p(#[trigger] d[j]) by {
            assert(d[j] == s[j]);
        }
    }
}

/// Filtering twice, the second time by a stronger predicate, is filtering once by it.
pub proof fn lemma_filter_filter<A>(s: Seq<A>, p: spec_fn(A) -> bool, q: spec_fn(A) -> bool)
    requires
        forall|a: A| #[trigger] q(a) ==> p(a),
    ensures
        s.filter(p).filter(q) == s.filter(q),
    decreases s.len(),
{
    reveal(Seq::filter);
    if s.len() > 0 {
        lemma_filter_filter(s.drop_last(), p, q);
        let fp = s.filter(p);
        if p(s.last()) {
            assert(fp.drop_last() == s.drop_last().filter(p));
            assert(fp.last() == s.last());
        } else {
            assert(!q(s.last()));
        }
    }
}

/// `XSPF` documents read without a `version` attribute get version "1".
pub fn default_version() -> (v: String)
    ensures
        v@ == seq!['1'],
{
    let mut v = String::new();
    push_char(&mut v, '1');
    v
}

impl Track {
    /// A track with a location and a title and nothing else.
    pub fn new(location: &str, title: &str) -> (t: Self)
        ensures
            opt_text(t.location) == Some(location@),
            opt_text(t.title) == Some(title@),
            t.creator is None,
            t.album is None,
            t.duration is None,
            t.metas@.len() == 0,
    {
        Track {
            location: Some(location.to_owned()),
            title: Some(title.to_owned()),
            creator: None,
            album: None,
            duration: None,
            metas: Vec::new(),
        }
    }

    /// The same track with `creator` set.
    pub fn with_creator(self, creator: &str) -> (t: Self)
        ensures
            opt_text(t.creator) == Some(creator@),
            t.location == self.location,
            t.title == self.title,
            t.album == self.album,
            t.duration == self.duration,
            t.metas == self.metas,
    {
        let mut t = self;
        t.creator = Some(creator.to_owned());
        t
    }

    /// The same track with `album` set.
    pub fn with_album(self, album: &str) -> (t: Self)
        ensures
            opt_text(t.album) == Some(album@),
            t.location == self.location,
            t.title == self.title,
            t.creator == self.creator,
            t.duration == self.duration,
            t.metas == self.metas,
    {
        let mut t = self;
        t.album = Some(album.to_owned());
        t
    }

    /// The same track with `duration` (milliseconds) set.
    pub fn with_duration(self, ms: u64) -> (t: Self)
        ensures
            t.duration == Some(ms),
            t.location == self.location,
            t.title == self.title,
            t.creator == self.creator,
            t.album == self.album,
            t.metas == self.metas,
    {
        let mut t = self;
        t.duration = Some(ms);
        t
    }

    /// Sets the meta entry `rel` to `value`: every entry with that key is
    /// dropped, the others keep their order, and the new entry goes last.
    pub fn add_meta(&mut self, rel: &str, value: &str)
        ensures
            meta_added(old(self).metas@, rel@, value@, final(self).metas@),
            final(self).location == old(self).location,
            final(self).title == old(self).title,
            final(self).creator == old(self).creator,
            final(self).album == old(self).album,
            final(self).duration == old(self).duration,
    {
        let mut kept: Vec<Meta> = Vec::new();
        let n = self.metas.len();
        let mut i: usize = 0;
        while i < n
            invariant
                n == self.metas@.len(),
                self == old(self),
                0 <= i <= n,
                kept@ == self.metas@.take(i as int).filter(other_rel(rel@)),
            decreases n - i,
        {
            let m = &self.metas[i];
            proof {
                assert(self.metas@.take(i + 1) == self.metas@.take(i as int).push(self.metas@[i as int]));
                self.metas@.take(i as int).lemma_filter_push(self.metas@[i as int], other_rel(rel@));
            }
            if !str_eq(m.rel.as_str(), rel) {
                kept.push(m.clone());
            }
            i = i + 1;
        }
        proof {
            assert(self.metas@.take(n as int) == self.metas@);
        }
        let ghost before = kept@;
        kept.push(Meta { rel: rel.to_owned(), value: value.to_owned() });
        assert(kept@.drop_last() == before);
        self.metas = kept;
    }

    /// The value of the first meta entry with key `key`.
    pub fn meta(&self, key: &str) -> (r: Option<&str>)
        ensures
            match r {
                Some(v) => meta_lookup(self.metas@, key@) == Some(v@),
                None => meta_lookup(self.metas@, key@) is None,
            },
    {
        let n = self.metas.len();
        let mut i: usize = 0;
        while i < n
            invariant
                n == self.metas@.len(),
                0 <= i <= n,
                forall|j: int| 0 <= j < i ==> !has_rel(key@)(#[trigger] self.metas@[j]),
            decreases n - i,
        {
            if str_eq(self.metas[i].rel.as_str(), key) {
                proof {
                    lemma_filter_first(self.metas@, has_rel(key@), i as int);
                }
                return Some(self.metas[i].value.as_str());
            }
            i = i + 1;
        }
        proof {
            lemma_filter_empty(self.metas@, has_rel(key@));
        }
        None
    }

    /// The `bitrate` meta entry.
    pub fn bitrate(&self) -> (r: Option<&str>)
        ensures
            match r {
                Some(v) => meta_lookup(self.metas@, "bitrate"@) == Some(v@),
                None => meta_lookup(self.metas@, "bitrate"@) is None,
            },
    {
        self.meta("bitrate")
    }

    /// The `channels` meta entry.
    pub fn channels(&self) -> (r: Option<&str>)
        ensures
            match r {
                Some(v) => meta_lookup(self.metas@, "channels"@) == Some(v@),
                None => meta_lookup(self.metas@, "channels"@) is None,
            },
    {
        self.meta("channels")
    }

    /// The `format` meta entry.
    pub fn format(&self) -> (r: Option<&str>)
        ensures
            match r {
                Some(v) => meta_lookup(self.metas@, "format"@) == Some(v@),
                None => meta_lookup(self.metas@, "format"@) is None,
            },
    {
        self.meta("format")
    }

    /// The `samplerate` meta entry.
    pub fn samplerate(&self) -> (r: Option<&str>)
        ensures
            match r {
                Some(v) => meta_lookup(self.metas@, "samplerate"@) == Some(v@),
                None => meta_lookup(self.metas@, "samplerate"@) is None,
            },
    {
        self.meta("samplerate")
    }

    /// The `size` meta entry.
    pub fn size(&self) -> (r: Option<&str>)
        ensures
            match r {
                Some(v) => meta_lookup(self.metas@, "size"@) == Some(v@),
                None => meta_lookup(self.metas@, "size"@) is None,
            },
    {
        self.meta("size")
    }

    /// The duration as `minutes:ss` of whole seconds, or `--:--` when unknown.
    pub fn duration_fmt(&self) -> (s: String)
        ensures
            s@ == duration_text(self.duration),
    {
        match self.duration {
            Some(ms) => min_sec(ms / 1000),
            None => {
                let mut s = String::new();
                push_char(&mut s, '-');
                push_char(&mut s, '-');
                push_char(&mut s, ':');
                push_char(&mut s, '-');
                push_char(&mut s, '-');
                s
            },
        }
    }
}

impl Playlist {
    /// A new, empty XSPF playlist with the given title, dated now.
    pub fn new(title: &str) -> (p: Self)
        ensures
            p.version@ == seq!['1'],
            opt_text(p.xmlns) == Some("http://xspf.org/ns/0/"@),
            opt_text(p.title) == Some(title@),
            p.date is Some,
            p.location is None,
            p.identifier is None,
            p.annotation is None,
            p.track_list.tracks@.len() == 0,
    {
        Playlist {
            version: default_version(),
            xmlns: Some("http://xspf.org/ns/0/".to_owned()),
            title: Some(title.to_owned()),
            location: None,
            identifier: None,
            date: Some(local_now_rfc3339()),
            annotation: None,
            track_list: TrackList { tracks: Vec::new() },
        }
    }

    /// Appends a track at the end of the track list.
    pub fn add_track(&mut self, track: Track)
        ensures
            final(self).track_list.tracks@ == old(self).track_list.tracks@.push(track),
            *final(self) == (Playlist { track_list: final(self).track_list, ..*old(self) }),
    {
        self.track_list.tracks.push(track);
    }

    /// Takes out the track at `index`, if there is one; the others keep their order.
    pub fn remove_track(&mut self, index: usize) -> (r: Option<Track>)
        ensures
            index < old(self).track_list.tracks@.len() ==> {
                &&& r == Some(old(self).track_list.tracks@[index as int])
                &&& final(self).track_list.tracks@ == old(self).track_list.tracks@.remove(index as int)
            },
            index >= old(self).track_list.tracks@.len() ==> {
                &&& r is None
                &&& *final(self) == *old(self)
            },
            *final(self) == (Playlist { track_list: final(self).track_list, ..*old(self) }),
    {
        if index < self.track_list.tracks.len() {
            Some(self.track_list.tracks.remove(index))
        } else {
            None
        }
    }

    /// Moves the track at `from` so that it ends up at position `to`; nothing
    /// happens unless both positions are in the list.
    pub fn move_track(&mut self, from: usize, to: usize)
        ensures
            final(self).track_list.tracks@ == moved(
                old(self).track_list.tracks@,
                from as int,
                to as int,
            ),
            *final(self) == (Playlist { track_list: final(self).track_list, ..*old(self) }),
    {
        if from < self.track_list.tracks.len() && to < self.track_list.tracks.len() {
            let track = self.track_list.tracks.remove(from);
            self.track_list.tracks.insert(to, track);
        }
    }

    /// Replaces the title.
    pub fn set_title(&mut self, title: &str)
        ensures
            opt_text(final(self).title) == Some(title@),
            *final(self) == (Playlist { title: final(self).title, ..*old(self) }),
    {
        self.title = Some(title.to_owned());
    }
}

} // verus!
