//! Pod and episode records as the store holds them.

use vstd::prelude::*;

verus! {

/// A subscribed feed. `downloaded` means its episode list has been fetched
/// at least once.
#[derive(PartialEq, Eq, Debug)]
pub struct Pod {
    pub id: i32,
    pub title: String,
    pub url: String,
    pub downloaded: bool,
}

impl Clone for Pod {
    fn clone(&self) -> (r: Self)
        ensures
            r == *self,
    {
        Pod { id: self.id, title: self.title.clone(), url: self.url.clone(), downloaded: self.downloaded }
    }
}

/// One episode of a pod. `uid` is the feed's stable identifier of the item,
/// `timestamp_ms` the saved listening position in milliseconds, `duration`
/// the length of the audio in seconds once it is known.
#[derive(PartialEq, Eq, Debug)]
pub struct Episode {
    pub id: i32,
    pub uid: String,
    pub pod_id: i32,
    pub title: String,
    pub url: String,
    pub audio_url: String,
    pub description: String,
    pub audio_filepath: Option<String>,
    pub downloaded: bool,
    pub played: bool,
    pub timestamp_ms: u64,
    pub pub_timestamp: i64,
    pub duration: Option<i32>,
}

fn clone_opt_string(s: &Option<String>) -> (r: Option<String>)
    ensures
        r == *s,
{
    match s {
        Some(v) => Some(v.clone()),
        None => None,
    }
}

impl Clone for Episode {
    fn clone(&self) -> (r: Self)
        ensures
            r == *self,
    {
        Episode {
            id: self.id,
            uid: self.uid.clone(),
            pod_id: self.pod_id,
            title: self.title.clone(),
            url: self.url.clone(),
            audio_url: self.audio_url.clone(),
            description: self.description.clone(),
            audio_filepath: clone_opt_string(&self.audio_filepath),
            downloaded: self.downloaded,
            played: self.played,
            timestamp_ms: self.timestamp_ms,
            pub_timestamp: self.pub_timestamp,
            duration: self.duration,
        }
    }
}

impl Episode {
    /// An episode is downloaded exactly when its audio file and its duration
    /// are both known.
    pub open spec fn wf(&self) -> bool {
        self.downloaded <==> (self.audio_filepath is Some && self.duration is Some)
    }

    /// Marks the episode downloaded to `filepath`, lasting `duration` seconds.
    pub fn mark_downloaded(&mut self, filepath: String, duration: i32)
        ensures
            *final(self) == (Episode {
                audio_filepath: Some(filepath),
                downloaded: true,
                duration: Some(duration),
                ..*old(self)
            }),
            final(self).wf(),
    {
        self.audio_filepath = Some(filepath);
        self.downloaded = true;
        self.duration = Some(duration);
    }
}

/// The record that the store inserts for a newly seen feed item.
#[derive(PartialEq, Eq, Debug)]
pub struct NewEpisode {
    pub uid: String,
    pub pod_id: i32,
    pub title: String,
    pub url: String,
    pub audio_url: String,
    pub description: String,
    pub audio_filepath: Option<String>,
    pub downloaded: bool,
    pub played: bool,
    pub timestamp_ms: u64,
    pub pub_timestamp: i64,
    pub duration: Option<i32>,
}

/// What a new episode record holds, with its texts as character sequences.
pub struct NewEpisodeView {
    pub uid: Seq<char>,
    pub pod_id: i32,
    pub title: Seq<char>,
    pub url: Seq<char>,
    pub audio_url: Seq<char>,
    pub description: Seq<char>,
    pub pub_timestamp: i64,
}

impl NewEpisode {
    /// A new record is not downloaded, has no audio file, is unplayed, starts
    /// at position zero and has no known duration.
    pub open spec fn fresh(&self) -> bool {
        &&& self.audio_filepath is None
        &&& !self.downloaded
        &&& !self.played
        &&& self.timestamp_ms == 0
        &&& self.duration is None
    }
}

impl View for NewEpisode {
    type V = NewEpisodeView;

    open spec fn view(&self) -> NewEpisodeView {
        NewEpisodeView {
            uid: self.uid@,
            pod_id: self.pod_id,
            title: self.title@,
            url: self.url@,
            audio_url: self.audio_url@,
            description: self.description@,
            pub_timestamp: self.pub_timestamp,
        }
    }
}

impl Clone for NewEpisode {
    fn clone(&self) -> (r: Self)
        ensures
            r == *self,
    {
        NewEpisode {
            uid: self.uid.clone(),
            pod_id: self.pod_id,
            title: self.title.clone(),
            url: self.url.clone(),
            audio_url: self.audio_url.clone(),
            description: self.description.clone(),
            audio_filepath: clone_opt_string(&self.audio_filepath),
            downloaded: self.downloaded,
            played: self.played,
            timestamp_ms: self.timestamp_ms,
            pub_timestamp: self.pub_timestamp,
            duration: self.duration,
        }
    }
}

} // verus!
