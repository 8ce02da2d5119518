//! The queue as text: the listing shown to the user and the extended M3U
//! playlist format, written and read.

use vstd::prelude::*;

use crate::audio_queue::{text_view, AudioQueue, AudioTrack, QueueView, TrackView};
use crate::text::{decimal, push_decimal};

verus! {

/// The rule printed above and below a listing.
pub const RULE: &'static str = "──────────────────────────────────────────────────";

/// The final component of a path, when it has one.
pub uninterp spec fn file_name_of(path: Seq<char>) -> Option<Seq<char>>;

/// Relies on std::path::Path::file_name: the last component of the path, or
/// none when the path ends in `..` or is a root or empty.
#[verifier::external_body]
fn file_name(path: &str) -> (r: Option<String>)
    ensures
        text_view(r) == file_name_of(path@),
{
    std::path::Path::new(path).file_name().and_then(|n| n.to_str()).map(|n| n.to_string())
}

/// A duration in milliseconds, rounded to tenths of a second.
pub open spec fn rounded_tenths(ms: u64) -> nat {
    (ms / 100 + if ms % 100 >= 50 { 1int } else { 0int }) as nat
}

/// A duration in milliseconds, rounded to whole seconds.
pub open spec fn rounded_seconds(ms: u64) -> nat {
    (ms / 1000 + if ms % 1000 >= 500 { 1int } else { 0int }) as nat
}

/// The title a listing shows: the track's own, else the file name of its path
/// (`file_name`), else "Unknown".
pub open spec fn shown_title(t: TrackView, file_name: Option<Seq<char>>) -> Seq<char> {
    match t.title {
        Some(x) => x,
        None => match file_name {
            Some(f) => f,
            None => "Unknown"@,
        },
    }
}

pub open spec fn shown_artist(t: TrackView) -> Seq<char> {
    match t.artist {
        Some(a) => a,
        None => "Unknown Artist"@,
    }
}

/// " (12.5s)" for a known duration, nothing for an unknown one.
pub open spec fn shown_duration(d: Option<u64>) -> Seq<char> {
    match d {
        Some(ms) => " ("@ + decimal(rounded_tenths(ms) / 10) + "."@ + decimal(rounded_tenths(ms) % 10)
            + "s)"@,
        None => Seq::empty(),
    }
}

/// A one-based index, padded on the left to two characters.
pub open spec fn padded_number(n: nat) -> Seq<char> {
    if n < 10 {
        " "@ + decimal(n)
    } else {
        decimal(n)
    }
}

/// The listing line of track `t` at `index`, marked when it is current.
pub open spec fn track_line(t: TrackView, index: nat, current: bool, file_name: Option<Seq<char>>) -> Seq<char> {
    (if current { "▶ "@ } else { "  "@ }) + " "@ + padded_number(index + 1) + "."@ + " - "@
        + shown_title(t, file_name) + " - "@ + shown_artist(t) + shown_duration(t.duration_ms) + "\n"@
}

/// The listing lines of the first `n` tracks.
pub open spec fn track_lines(ts: Seq<TrackView>, current: Option<usize>, n: nat) -> Seq<char>
    decreases n,
{
    if n == 0 {
        Seq::empty()
    } else {
        let i = (n - 1) as nat;
        track_lines(ts, current, i) + track_line(ts[i as int], i, current == Some(i as usize), file_name_of(ts[i as int].path))
    }
}

/// What `display_queue` prints for a queue.
pub open spec fn listing(q: QueueView) -> Seq<char> {
    if q.tracks.len() == 0 {
        "Queue is empty\n"@
    } else {
        "Current Queue:\n"@ + RULE@ + "\n"@ + track_lines(q.tracks, q.current, q.tracks.len()) + RULE@ + "\n"@
    }
}

/// The `#EXTINF` line of a track that has a title, an artist and a duration.
pub open spec fn extinf_line(t: TrackView) -> Seq<char> {
    match (t.title, t.artist, t.duration_ms) {
        (Some(title), Some(artist), Some(ms)) => "#EXTINF:"@ + decimal(rounded_seconds(ms)) + ","@ + artist + " - "@
            + title + "\n"@,
        _ => Seq::empty(),
    }
}

/// The playlist entries of the first `n` tracks.
pub open spec fn playlist_lines(ts: Seq<TrackView>, n: nat) -> Seq<char>
    decreases n,
{
    if n == 0 {
        Seq::empty()
    } else {
        let i = (n - 1) as int;
        playlist_lines(ts, (n - 1) as nat) + extinf_line(ts[i]) + ts[i].path + "\n"@
    }
}

/// The extended M3U text of a queue.
pub open spec fn playlist(q: QueueView) -> Seq<char> {
    "#EXTM3U\n"@ + playlist_lines(q.tracks, q.tracks.len())
}

fn push_number_column(out: &mut String, index: usize, current: bool)
    requires
        index < usize::MAX,
    ensures
        final(out)@ == old(out)@ + ((if current { "▶ "@ } else { "  "@ }) + " "@ + padded_number((index + 1) as nat) + "."@),
{
    if current {
        out.append("▶ ");
    } else {
        out.append("  ");
    }
    out.append(" ");
    if index + 1 < 10 {
        out.append(" ");
    }
    push_decimal(out, (index + 1) as u64);
    out.append(".");
    assert(out@ =~= old(out)@ + ((if current { "▶ "@ } else { "  "@ }) + " "@ + padded_number((index + 1) as nat) + "."@));
}

fn push_names(out: &mut String, track: &AudioTrack, file_name: &Option<String>)
    ensures
        final(out)@ == old(out)@ + (" - "@ + shown_title(track@, text_view(*file_name)) + " - "@ + shown_artist(track@)),
{
    out.append(" - ");
    match &track.title {
        Some(t) => out.append(t.as_str()),
        None => match file_name {
            Some(f) => out.append(f.as_str()),
            None => out.append("Unknown"),
        },
    }
    out.append(" - ");
    match &track.artist {
        Some(a) => out.append(a.as_str()),
        None => out.append("Unknown Artist"),
    }
    assert(out@ =~= old(out)@ + (" - "@ + shown_title(track@, text_view(*file_name)) + " - "@ + shown_artist(track@)));
}

fn push_duration(out: &mut String, duration_ms: Option<u64>)
    ensures
        final(out)@ == old(out)@ + shown_duration(duration_ms),
{
    if let Some(ms) = duration_ms {
        let tenths: u64 = ms / 100 + if ms % 100 >= 50 { 1 } else { 0 };
        out.append(" (");
        push_decimal(out, tenths / 10);
        out.append(".");
        push_decimal(out, tenths % 10);
        out.append("s)");
    }
    assert(out@ =~= old(out)@ + shown_duration(duration_ms));
}

/// Append the listing line of `track` to `out`; `file_name` is the last
/// component of the track's path, used when it has no title.
pub fn push_track_line(out: &mut String, track: &AudioTrack, index: usize, current: bool, file_name: Option<String>)
    requires
        index < usize::MAX,
    ensures
        final(out)@ == old(out)@ + track_line(track@, index as nat, current, text_view(file_name)),
{
    push_number_column(out, index, current);
    push_names(out, track, &file_name);
    push_duration(out, track.duration_ms);
    out.append("\n");
    assert(out@ =~= old(out)@ + track_line(track@, index as nat, current, text_view(file_name)));
}

/// The lines of a text, without their line endings.
pub uninterp spec fn lines_of(text: Seq<char>) -> Seq<Seq<char>>;

/// A text without its leading and trailing white space.
pub uninterp spec fn trimmed(s: Seq<char>) -> Seq<char>;

/// Relies on str::lines: the lines of the text, split at "\n" or "\r\n",
/// without the line endings.
#[verifier::external_body]
fn split_lines(text: &str) -> (r: Vec<String>)
    ensures
        r@.map_values(|l: String| l@) == lines_of(text@),
{
    text.lines().map(|l| l.to_string()).collect()
}

/// Relies on str::trim: the text without leading and trailing white space.
#[verifier::external_body]
fn trim_text(s: &str) -> (r: String)
    ensures
        r@ == trimmed(s@),
{
    s.trim().to_string()
}

/// The path that a trimmed playlist line names: none for a blank line, nor for
/// a line that begins with '#' (the header, `#EXTINF` and comments).
pub open spec fn entry_of(line: Seq<char>) -> Option<Seq<char>> {
    if line.len() == 0 || line[0] == '#' {
        None
    } else {
        Some(line)
    }
}

/// The paths that the first `n` of `lines` name, in order.
pub open spec fn entries_of(lines: Seq<Seq<char>>, n: nat) -> Seq<Seq<char>>
    decreases n,
{
    if n == 0 {
        Seq::empty()
    } else {
        let prev = entries_of(lines, (n - 1) as nat);
        match entry_of(trimmed(lines[n - 1])) {
            Some(p) => prev.push(p),
            None => prev,
        }
    }
}

/// The path that one trimmed playlist line names, if any.
pub fn playlist_entry(line: &str) -> (r: Option<String>)
    ensures
        text_view(r) == entry_of(line@),
{
    if line.unicode_len() == 0 {
        None
    } else if line.get_char(0) == '#' {
        None
    } else {
        Some(String::from_str(line))
    }
}

/// The track paths of an extended M3U text, in order: each line is trimmed,
/// and blank lines and lines that begin with '#' name none.
pub fn playlist_entries(text: &str) -> (r: Vec<String>)
    ensures
        r@.map_values(|p: String| p@) == entries_of(lines_of(text@), lines_of(text@).len()),
{
    let lines = split_lines(text);
    let ghost ls = lines_of(text@);
    assert(lines@.len() == ls.len());
    let mut out: Vec<String> = Vec::new();
    let mut i: usize = 0;
    while i < lines.len()
        invariant
            i <= lines@.len(),
            lines@.map_values(|l: String| l@) == ls,
            out@.map_values(|p: String| p@) == entries_of(ls, i as nat),
        decreases lines@.len() - i,
    {
        let line = trim_text(lines[i].as_str());
        assert(lines@[i as int]@ == ls[i as int]);
        let ghost before = out@;
        if let Some(p) = playlist_entry(line.as_str()) {
            out.push(p);
            assert(out@.map_values(|p: String| p@) =~= before.map_values(|p: String| p@).push(p@));
        }
        i += 1;
    }
    out
}

impl AudioQueue {
    /// The queue as text: a header, one line per track with the current one
    /// marked, and a closing rule; or a note that the queue is empty.
    pub fn display_queue(&self) -> (r: String)
        ensures
            r@ == listing(self@),
    {
        if self.tracks.len() == 0 {
            return String::from_str("Queue is empty\n");
        }
        let mut out = String::from_str("Current Queue:\n");
        out.append(RULE);
        out.append("\n");
        let ghost head = out@;
        let n = self.tracks.len();
        let mut i: usize = 0;
        while i < n
            invariant
                n == self.tracks@.len(),
                i <= n,
                out@ == head + track_lines(self@.tracks, self@.current, i as nat),
            decreases n - i,
        {
            let track = &self.tracks[i];
            let name = if track.title.is_none() {
                file_name(track.path.as_str())
            } else {
                None
            };
            let current = match self.current_position {
                Some(c) => c == i,
                None => false,
            };
            push_track_line(&mut out, track, i, current, name);
            assert(self@.tracks[i as int] == track@);
            assert(track_line(track@, i as nat, current, text_view(name))
                == track_line(track@, i as nat, current, file_name_of(track@.path)));
            i += 1;
        }
        out.append(RULE);
        out.append("\n");
        out
    }

    /// The queue as an extended M3U playlist: the header, then per track an
    /// `#EXTINF` line when its title, artist and duration are all known, and
    /// its path.
    pub fn playlist_text(&self) -> (r: String)
        ensures
            r@ == playlist(self@),
    {
        let mut out = String::from_str("#EXTM3U\n");
        let n = self.tracks.len();
        let mut i: usize = 0;
        while i < n
            invariant
                n == self.tracks@.len(),
                i <= n,
                out@ == "#EXTM3U\n"@ + playlist_lines(self@.tracks, i as nat),
            decreases n - i,
        {
            let track = &self.tracks[i];
            assert(self@.tracks[i as int] == track@);
            let ghost before = out@;
            match (&track.title, &track.artist, track.duration_ms) {
                (Some(title), Some(artist), Some(ms)) => {
                    let seconds: u64 = ms / 1000 + if ms % 1000 >= 500 { 1 } else { 0 };
                    out.append("#EXTINF:");
                    push_decimal(&mut out, seconds);
                    out.append(",");
                    out.append(artist.as_str());
                    out.append(" - ");
                    out.append(title.as_str());
                    out.append("\n");
                },
                _ => {},
            }
            assert(out@ =~= before + extinf_line(track@));
            out.append(track.path.as_str());
            out.append("\n");
            i += 1;
            assert(out@ =~= "#EXTM3U\n"@ + playlist_lines(self@.tracks, i as nat));
        }
        out
    }
}

} // verus!
