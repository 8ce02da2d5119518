//! From what probing an audio file found to the track that enters the queue.

use vstd::prelude::*;

use crate::audio_queue::{text_view, AudioQueue, AudioTrack};

verus! {

/// The file name of a path without its extension, when it has one.
pub uninterp spec fn file_stem_of(path: Seq<char>) -> Option<Seq<char>>;

/// Relies on std::path::Path::file_stem: the last component of the path
/// without its final extension, or none when the path has no file name.
#[verifier::external_body]
fn file_stem(path: &str) -> (r: Option<String>)
    ensures
        text_view(r) == file_stem_of(path@),
{
    std::path::Path::new(path).file_stem().and_then(|n| n.to_str()).map(|n| n.to_string())
}

pub open spec fn is_title_key(k: Seq<char>) -> bool {
    k == "TITLE"@ || k == "TIT2"@ || k == "TITLE\x00"@
}

pub open spec fn is_artist_key(k: Seq<char>) -> bool {
    k == "ARTIST"@ || k == "TPE1"@ || k == "ARTIST\x00"@
}

pub open spec fn tag_views(tags: Seq<(String, String)>) -> Seq<(Seq<char>, Seq<char>)> {
    tags.map_values(|p: (String, String)| (p.0@, p.1@))
}

/// The value of the last of the first `n` tags whose key names a title (or,
/// with `title` false, an artist).
pub open spec fn last_tagged(tags: Seq<(Seq<char>, Seq<char>)>, title: bool, n: nat) -> Option<Seq<char>>
    decreases n,
{
    if n == 0 {
        None
    } else {
        let k = tags[n - 1].0;
        if (title && is_title_key(k)) || (!title && is_artist_key(k)) {
            Some(tags[n - 1].1)
        } else {
            last_tagged(tags, title, (n - 1) as nat)
        }
    }
}

/// Whole milliseconds of `n_frames` frames at `rate` frames per second, when
/// both are known and the rate is not zero; at most `u64::MAX`.
pub open spec fn duration_of(n_frames: Option<u64>, rate: Option<u32>) -> Option<u64> {
    match (n_frames, rate) {
        (Some(n), Some(r)) => if r == 0 {
            None
        } else if n * 1000 / (r as int) > u64::MAX {
            Some(u64::MAX)
        } else {
            Some((n * 1000 / (r as int)) as u64)
        },
        _ => None,
    }
}

fn key_matches(k: &String, title: bool) -> (r: bool)
    ensures
        r == ((title && is_title_key(k@)) || (!title && is_artist_key(k@))),
{
    if title {
        *k == String::from_str("TITLE") || *k == String::from_str("TIT2") || *k == String::from_str("TITLE\x00")
    } else {
        *k == String::from_str("ARTIST") || *k == String::from_str("TPE1") || *k == String::from_str("ARTIST\x00")
    }
}

/// The value of the last tag whose key names a title (or an artist).
pub fn find_tag(tags: &Vec<(String, String)>, title: bool) -> (r: Option<String>)
    ensures
        text_view(r) == last_tagged(tag_views(tags@), title, tags@.len()),
{
    let mut found: Option<String> = None;
    let mut i: usize = 0;
    while i < tags.len()
        invariant
            i <= tags@.len(),
            text_view(found) == last_tagged(tag_views(tags@), title, i as nat),
        decreases tags@.len() - i,
    {
        if key_matches(&tags[i].0, title) {
            found = Some(tags[i].1.clone());
        }
        i += 1;
    }
    found
}

/// Milliseconds of `n_frames` frames at `rate` frames per second; see
/// `duration_of`.
pub fn duration_ms(n_frames: Option<u64>, rate: Option<u32>) -> (r: Option<u64>)
    ensures
        r == duration_of(n_frames, rate),
{
    match (n_frames, rate) {
        (Some(n), Some(rate)) => {
            if rate == 0 {
                None
            } else {
                let ms: u128 = (n as u128) * 1000 / (rate as u128);
                if ms > u64::MAX as u128 {
                    Some(u64::MAX)
                } else {
                    Some(ms as u64)
                }
            }
        },
        _ => None,
    }
}

impl AudioQueue {
    /// The track for the audio file at `path`, from what probing it found: its
    /// tags as (key, value) pairs, its frame count and its sample rate. The
    /// title is the last title tag, else the file stem of the path, else
    /// "Unknown Title"; the artist is the last artist tag, else
    /// "Unknown Artist". The position is zero until the track is queued.
    pub fn track_from_probe(
        path: String,
        tags: &Vec<(String, String)>,
        n_frames: Option<u64>,
        rate: Option<u32>,
    ) -> (r: AudioTrack)
        ensures
            r.path == path,
            r.title.is_some() && r.title.unwrap()@ == match last_tagged(tag_views(tags@), true, tags@.len()) {
                Some(t) => t,
                None => match file_stem_of(path@) {
                    Some(s) => s,
                    None => "Unknown Title"@,
                },
            },
            r.artist.is_some() && r.artist.unwrap()@ == match last_tagged(tag_views(tags@), false, tags@.len()) {
                Some(a) => a,
                None => "Unknown Artist"@,
            },
            r.duration_ms == duration_of(n_frames, rate),
            r.position == 0,
    {
        let title = match find_tag(tags, true) {
            Some(t) => t,
            None => match file_stem(path.as_str()) {
                Some(s) => s,
                None => String::from_str("Unknown Title"),
            },
        };
        let artist = match find_tag(tags, false) {
            Some(a) => a,
            None => String::from_str("Unknown Artist"),
        };
        AudioTrack {
            path,
            title: Some(title),
            artist: Some(artist),
            duration_ms: duration_ms(n_frames, rate),
            position: 0,
        }
    }
}

} // verus!
