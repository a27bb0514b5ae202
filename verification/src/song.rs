//! A song of the music database or of the play queue, as the views use it.
use vstd::prelude::*;

use crate::text::{eq_ignoring_ascii_case, text_eq_ignore_ascii_case};

verus! {

/// A song: its file, its main tags, its length in seconds, its id in the
/// play queue (when it is queued) and all other tags as key/value pairs.
pub struct Song {
    pub file: String,
    pub title: Option<String>,
    pub artist: Option<String>,
    pub duration: Option<u64>,
    pub place_id: Option<u32>,
    pub tags: Vec<(String, String)>,
}

/// The contents of a [`Song`] as plain values.
pub struct SongView {
    pub file: Seq<char>,
    pub title: Option<Seq<char>>,
    pub artist: Option<Seq<char>>,
    pub duration: Option<u64>,
    pub place_id: Option<u32>,
    pub tags: Seq<(Seq<char>, Seq<char>)>,
}

/// The text of an optional string.
pub open spec fn opt_text(o: Option<String>) -> Option<Seq<char>> {
    match o {
        Some(s) => Some(s@),
        None => None,
    }
}

/// The text of an optional string, or `default` when there is none.
pub open spec fn text_or(o: Option<Seq<char>>, default: Seq<char>) -> Seq<char> {
    match o {
        Some(s) => s,
        None => default,
    }
}

/// The texts of a list of tags.
pub open spec fn tag_texts(t: Seq<(String, String)>) -> Seq<(Seq<char>, Seq<char>)> {
    t.map_values(|p: (String, String)| (p.0@, p.1@))
}

impl View for Song {
    type V = SongView;

    open spec fn view(&self) -> SongView {
        SongView {
            file: self.file@,
            title: opt_text(self.title),
            artist: opt_text(self.artist),
            duration: self.duration,
            place_id: self.place_id,
            tags: tag_texts(self.tags@),
        }
    }
}

/// The views of a list of songs.
pub open spec fn song_views(s: Seq<Song>) -> Seq<SongView> {
    s.map_values(|x: Song| x@)
}

fn clone_opt_string(o: &Option<String>) -> (r: Option<String>)
    ensures
        opt_text(r) == opt_text(*o),
{
    match o {
        Some(s) => Some(s.clone()),
        None => None,
    }
}

impl Song {
    /// A copy of the song.
    pub fn duplicate(&self) -> (r: Song)
        ensures
            r@ == self@,
    {
        let mut tags: Vec<(String, String)> = Vec::new();
        let mut i: usize = 0;
        while i < self.tags.len()
            invariant
                i <= self.tags@.len(),
                tags@.len() == i,
                tag_texts(tags@) == tag_texts(self.tags@).subrange(0, i as int),
            decreases self.tags@.len() - i,
        {
            let k = self.tags[i].0.clone();
            let v = self.tags[i].1.clone();
            let ghost prev = tags@;
            tags.push((k, v));
            proof {
                assert(tags@ == prev.push((k, v)));
                assert forall|j: int| 0 <= j <= i implies #[trigger] tag_texts(tags@)[j] == tag_texts(self.tags@)[j] by {
                    if j < i {
                        assert(tags@[j] == prev[j]);
                        assert(tag_texts(prev)[j] == tag_texts(self.tags@).subrange(0, i as int)[j]);
                    }
                }
            }
            i = i + 1;
            assert(tag_texts(tags@) =~= tag_texts(self.tags@).subrange(0, i as int));
        }
        assert(tag_texts(tags@) =~= tag_texts(self.tags@));
        Song {
            file: self.file.clone(),
            title: clone_opt_string(&self.title),
            artist: clone_opt_string(&self.artist),
            duration: self.duration,
            place_id: self.place_id,
            tags,
        }
    }
}

/// Copies a list of songs.
pub fn duplicate_songs(v: &Vec<Song>) -> (r: Vec<Song>)
    ensures
        song_views(r@) == song_views(v@),
{
    let mut r: Vec<Song> = Vec::new();
    let mut i: usize = 0;
    while i < v.len()
        invariant
            i <= v@.len(),
            r@.len() == i,
            song_views(r@) == song_views(v@).subrange(0, i as int),
        decreases v@.len() - i,
    {
        let d = v[i].duplicate();
        let ghost prev = r@;
        r.push(d);
        proof {
            assert forall|j: int| 0 <= j <= i implies #[trigger] song_views(r@)[j] == song_views(v@)[j] by {
                if j < i {
                    assert(r@[j] == prev[j]);
                    assert(song_views(prev)[j] == song_views(v@).subrange(0, i as int)[j]);
                }
            }
        }
        i = i + 1;
        assert(song_views(r@) =~= song_views(v@).subrange(0, i as int));
    }
    assert(song_views(r@) =~= song_views(v@));
    r
}

/// The value of the first tag whose key equals `key`, ASCII case ignored.
pub open spec fn tag_lookup(tags: Seq<(Seq<char>, Seq<char>)>, key: Seq<char>) -> Option<Seq<char>>
    decreases tags.len(),
{
    if tags.len() == 0 {
        None
    } else if eq_ignoring_ascii_case(tags[0].0, key) {
        Some(tags[0].1)
    } else {
        tag_lookup(tags.drop_first(), key)
    }
}

/// The value of tag `key` of a song, or `default` when it has none.
pub open spec fn tag_or(s: SongView, key: Seq<char>, default: Seq<char>) -> Seq<char> {
    text_or(tag_lookup(s.tags, key), default)
}

/// The value of tag `key` of a song, if it has one.
pub fn find_tag<'a>(song: &'a Song, key: &str) -> (r: Option<&'a String>)
    ensures
        match r {
            Some(v) => tag_lookup(song@.tags, key@) == Some(v@),
            None => tag_lookup(song@.tags, key@) is None,
        },
{
    let mut i: usize = 0;
    assert(song@.tags.skip(0) =~= song@.tags);
    while i < song.tags.len()
        invariant
            i <= song.tags@.len(),
            tag_lookup(song@.tags, key@) == tag_lookup(song@.tags.skip(i as int), key@),
        decreases song.tags@.len() - i,
    {
        let ghost rest = song@.tags.skip(i as int);
        assert(rest[0] == song@.tags[i as int]);
        if text_eq_ignore_ascii_case(song.tags[i].0.as_str(), key) {
            return Some(&song.tags[i].1);
        }
        assert(rest.drop_first() =~= song@.tags.skip(i + 1));
        i = i + 1;
    }
    None
}

/// The value of tag `key` of a song, or "Unknown".
pub fn song_tag<'a>(song: &'a Song, key: &str) -> (r: &'a str)
    ensures
        r@ == tag_or(song@, key@, "Unknown"@),
{
    match find_tag(song, key) {
        Some(v) => v.as_str(),
        None => "Unknown",
    }
}

/// The value of tag `key` of a song, or the empty text.
pub fn song_tag_or_empty<'a>(song: &'a Song, key: &str) -> (r: &'a str)
    ensures
        r@ == tag_or(song@, key@, ""@),
{
    match find_tag(song, key) {
        Some(v) => v.as_str(),
        None => "",
    }
}

/// An owned copy of the value of tag `key` of a song, if it has one.
pub fn song_tag_owned(song: &Song, key: &str) -> (r: Option<String>)
    ensures
        opt_text(r) == tag_lookup(song@.tags, key@),
{
    match find_tag(song, key) {
        Some(v) => Some(v.clone()),
        None => None,
    }
}

/// The text of an optional string, or `default`.
pub fn text_or_default<'a>(o: &'a Option<String>, default: &'a str) -> (r: &'a str)
    ensures
        r@ == text_or(opt_text(*o), default@),
{
    match o {
        Some(s) => s.as_str(),
        None => default,
    }
}

/// The artist of a song, or "Unknown".
pub open spec fn artist_or_unknown(s: SongView) -> Seq<char> {
    text_or(s.artist, "Unknown"@)
}

/// The title of a song, or "Unknown".
pub open spec fn title_or_unknown(s: SongView) -> Seq<char> {
    text_or(s.title, "Unknown"@)
}

/// The album tag of a song, or "Unknown".
pub open spec fn album_or_unknown(s: SongView) -> Seq<char> {
    tag_or(s, "Album"@, "Unknown"@)
}

/// The views of songs after one more song.
pub proof fn lemma_views_push(v: Seq<Song>, x: Song)
    ensures
        song_views(v.push(x)) == song_views(v).push(x@),
{
    assert(song_views(v.push(x)) =~= song_views(v).push(x@));
}

/// Filtering one more element of a sequence.
pub proof fn lemma_filter_take_step<A>(s: Seq<A>, i: int, p: spec_fn(A) -> bool)
    requires
        0 <= i < s.len(),
    ensures
        s.take(i + 1).filter(p) == (if p(s[i]) {
            s.take(i).filter(p).push(s[i])
        } else {
            s.take(i).filter(p)
        }),
{
    assert(s.take(i + 1) =~= s.take(i).push(s[i]));
    s.take(i).lemma_filter_push(s[i], p);
}

/// Filtering the whole of a sequence.
pub proof fn lemma_take_all<A>(s: Seq<A>)
    ensures
        s.take(s.len() as int) == s,
{
    assert(s.take(s.len() as int) =~= s);
}

} // verus!
