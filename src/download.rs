//! Where a downloaded audio file goes, and how long it plays.

use vstd::prelude::*;

verus! {

/// The directory that downloaded audio is stored in.
pub open spec fn audio_dir_text() -> Seq<char> {
    seq!['.', '/', 'd', 'a', 't', 'a']
}

/// The file name used when a URL gives none.
pub open spec fn fallback_name() -> Seq<char> {
    seq!['t', 'm', 'p', '.', 'b', 'i', 'n']
}

/// The last segment of a URL's path as reqwest's URL parser splits it, or
/// `None` when the text does not parse as a URL with a path.
pub uninterp spec fn url_last_segment(url: Seq<char>) -> Option<Seq<char>>;

/// The whole seconds in `n_frames` ticks of `numer / denom` seconds each,
/// wrapped to 64 bits.
pub open spec fn timebase_seconds(n_frames: u64, numer: u32, denom: u32) -> int {
    (n_frames as int * numer as int / denom as int) % 0x1_0000_0000_0000_0000
}

/// Relies on `reqwest::Url::parse` and `Url::path_segments`: the text of the
/// last path segment, or `None` when the URL does not parse or has no path
/// segments.
#[verifier::external_body]
fn last_path_segment(url: &str) -> (r: Option<String>)
    ensures
        match r {
            Some(s) => url_last_segment(url@) == Some(s@),
            None => url_last_segment(url@) is None,
        },
{
    reqwest::Url::parse(url).ok().and_then(|u| u.path_segments().and_then(|s| s.last()).map(|s| s.to_string()))
}

/// Relies on `symphonia::core::units::TimeBase::calc_time`, read out as its
/// `seconds` field: the floor of `n_frames * numer / denom`, wrapping on
/// overflow (exact below 2^52 through the float division, by integer
/// division above). `TimeBase::new` panics on a zero numerator or
/// denominator.
#[verifier::external_body]
fn frames_to_seconds(n_frames: u64, numer: u32, denom: u32) -> (r: u64)
    requires
        numer > 0,
        denom > 0,
    ensures
        r as int == timebase_seconds(n_frames, numer, denom),
{
    symphonia::core::units::TimeBase::new(numer, denom).calc_time(n_frames).seconds
}

/// The directory that downloaded audio is stored in.
pub fn audio_dir() -> (r: String)
    ensures
        r@ == audio_dir_text(),
{
    let mut s = String::new();
    s.push('.');
    s.push('/');
    s.push('d');
    s.push('a');
    s.push('t');
    s.push('a');
    assert(s@ =~= audio_dir_text());
    s
}

/// The local path for a file named `segment`: the segment inside the audio
/// directory, or the fallback name when the segment is missing or empty.
pub open spec fn audio_path_for(segment: Option<Seq<char>>) -> Seq<char> {
    let name = match segment {
        Some(s) => if s.len() > 0 { s } else { fallback_name() },
        None => fallback_name(),
    };
    audio_dir_text() + seq!['/'] + name
}

fn push_all(s: &mut String, t: &String)
    ensures
        final(s)@ == old(s)@ + t@,
{
    let mut it: usize = 0;
    let n = t.as_str().unicode_len();
    let ghost start = s@;
    while it < n
        invariant
            n == t@.len(),
            it <= n,
            s@ == start + t@.take(it as int),
        decreases n - it,
    {
        let c = t.as_str().get_char(it);
        s.push(c);
        assert(t@.take(it + 1) =~= t@.take(it as int).push(c));
        it += 1;
    }
    assert(t@.take(n as int) =~= t@);
}

/// The local path for a downloaded file whose URL ends in `segment`.
pub fn audio_file_path(segment: Option<String>) -> (r: String)
    ensures
        r@ == audio_path_for(match segment { Some(s) => Some(s@), None => None }),
{
    let mut path = audio_dir();
    path.push('/');
    let named = match &segment {
        Some(s) => s.as_str().unicode_len() > 0,
        None => false,
    };
    if named {
        match &segment {
            Some(s) => push_all(&mut path, s),
            None => {},
        }
    } else {
        path.push('t');
        path.push('m');
        path.push('p');
        path.push('.');
        path.push('b');
        path.push('i');
        path.push('n');
    }
    assert(path@ =~= audio_path_for(match segment { Some(s) => Some(s@), None => None }));
    path
}

/// The local path for the audio fetched from `url`, named from the last
/// segment of its path.
pub fn download_target(url: &str) -> (r: String)
    ensures
        r@ == audio_path_for(url_last_segment(url@)),
{
    let seg = last_path_segment(url);
    audio_file_path(seg)
}

/// The length in seconds of a stream of `n_frames` frames at `time_base`
/// (numerator, denominator); zero when either is unknown or the time base
/// has a zero part.
pub open spec fn stream_seconds(n_frames: Option<u64>, time_base: Option<(u32, u32)>) -> int {
    match (n_frames, time_base) {
        (Some(n), Some((numer, denom))) => if numer > 0 && denom > 0 {
            timebase_seconds(n, numer, denom)
        } else {
            0
        },
        _ => 0,
    }
}

/// The length in seconds of a probed audio track.
pub fn stream_duration(n_frames: Option<u64>, time_base: Option<(u32, u32)>) -> (r: u64)
    ensures
        r as int == stream_seconds(n_frames, time_base),
{
    match (n_frames, time_base) {
        (Some(n), Some((numer, denom))) => if numer > 0 && denom > 0 {
            frames_to_seconds(n, numer, denom)
        } else {
            0
        },
        _ => 0,
    }
}

/// A length in seconds as an episode record holds it, saturated at the
/// largest `i32`.
pub fn duration_field(seconds: u64) -> (r: i32)
    ensures
        r == (if seconds <= i32::MAX as u64 { seconds as i32 } else { i32::MAX }),
{
    if seconds <= i32::MAX as u64 {
        seconds as i32
    } else {
        i32::MAX
    }
}

} // verus!
