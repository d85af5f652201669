//! Turning a fetched feed document into the episode records to insert,
//! skipping items whose `uid` the pod already has.

use vstd::prelude::*;
use crate::model::{Episode, NewEpisode, NewEpisodeView, Pod};

verus! {

/// One item of a feed, with the fields the player reads, as the parser gives
/// them.
#[derive(PartialEq, Eq, Debug)]
pub struct FeedItem {
    pub guid: Option<String>,
    pub title: Option<String>,
    pub link: Option<String>,
    pub enclosure_url: Option<String>,
    pub pub_date: Option<String>,
}

/// A feed item with its texts as character sequences.
pub struct FeedEntry {
    pub guid: Option<Seq<char>>,
    pub title: Option<Seq<char>>,
    pub link: Option<Seq<char>>,
    pub enclosure_url: Option<Seq<char>>,
    pub pub_date: Option<Seq<char>>,
}

pub open spec fn opt_text(s: Option<String>) -> Option<Seq<char>> {
    match s {
        Some(t) => Some(t@),
        None => None,
    }
}

impl View for FeedItem {
    type V = FeedEntry;

    open spec fn view(&self) -> FeedEntry {
        FeedEntry {
            guid: opt_text(self.guid),
            title: opt_text(self.title),
            link: opt_text(self.link),
            enclosure_url: opt_text(self.enclosure_url),
            pub_date: opt_text(self.pub_date),
        }
    }
}

pub open spec fn entries_of(items: Seq<FeedItem>) -> Seq<FeedEntry> {
    items.map_values(|i: FeedItem| i@)
}

/// The items that rss finds in a feed document, or `None` when it cannot
/// read the document.
pub uninterp spec fn channel_entries(body: Seq<u8>) -> Option<Seq<FeedEntry>>;

/// The Unix time, in seconds, of an RFC 2822 date as chrono reads it, or
/// `None` when chrono rejects the text.
pub uninterp spec fn rfc2822_unix_seconds(date: Seq<char>) -> Option<i64>;

/// Relies on `rss::Channel::read_from`: it parses the RSS document in `body`,
/// and each item's guid value, title, link, enclosure url and pubDate text
/// are handed over unchanged, in document order.
#[verifier::external_body]
fn read_channel(body: &[u8]) -> (r: Option<Vec<FeedItem>>)
    ensures
        match r {
            Some(items) => channel_entries(body@) == Some(entries_of(items@)),
            None => channel_entries(body@) is None,
        },
{
    rss::Channel::read_from(body).ok().map(|c| c.items().iter().map(|i| FeedItem {
        guid: i.guid().map(|g| g.value().to_string()),
        title: i.title().map(|t| t.to_string()),
        link: i.link().map(|t| t.to_string()),
        enclosure_url: i.enclosure().map(|e| e.url().to_string()),
        pub_date: i.pub_date().map(|t| t.to_string()),
    }).collect())
}

/// Relies on `chrono::DateTime::parse_from_rfc2822`, read out with
/// `DateTime::timestamp`: the Unix time of the date, or `None` when it does
/// not parse.
#[verifier::external_body]
fn parse_pub_date(date: &str) -> (r: Option<i64>)
    ensures
        r == rfc2822_unix_seconds(date@),
{
    chrono::DateTime::parse_from_rfc2822(date).ok().map(|d| d.timestamp())
}

/// The record for a feed entry published at `published`: an entry without a
/// guid, a title, an enclosure or a readable date is skipped; a missing link
/// becomes empty text.
pub open spec fn entry_record(pod_id: i32, e: FeedEntry, published: Option<i64>) -> Option<NewEpisodeView> {
    if e.guid is Some && e.title is Some && e.enclosure_url is Some && published is Some {
        Some(NewEpisodeView {
            uid: e.guid.unwrap(),
            pod_id,
            title: e.title.unwrap(),
            url: match e.link { Some(l) => l, None => Seq::empty() },
            audio_url: e.enclosure_url.unwrap(),
            description: Seq::empty(),
            pub_timestamp: published.unwrap(),
        })
    } else {
        None
    }
}

pub open spec fn opt_record(r: Option<NewEpisode>) -> Option<NewEpisodeView> {
    match r {
        Some(n) => Some(n@),
        None => None,
    }
}

/// The record to insert for `item` of pod `pod_id`, given the Unix time its
/// publication date reads as.
pub fn new_episode_from_item(pod_id: i32, item: &FeedItem, published: Option<i64>) -> (r: Option<NewEpisode>)
    ensures
        opt_record(r) == entry_record(pod_id, item@, published),
        r matches Some(n) ==> n.fresh(),
{
    match (&item.guid, &item.title, &item.enclosure_url, published) {
        (Some(guid), Some(title), Some(enclosure), Some(ts)) => {
            let url = match &item.link {
                Some(l) => l.clone(),
                None => String::new(),
            };
            Some(NewEpisode {
                uid: guid.clone(),
                pod_id,
                title: title.clone(),
                url,
                audio_url: enclosure.clone(),
                description: String::new(),
                audio_filepath: None,
                downloaded: false,
                played: false,
                timestamp_ms: 0,
                pub_timestamp: ts,
                duration: None,
            })
        },
        _ => None,
    }
}

/// The publication time of an entry, as chrono reads its date.
pub open spec fn entry_published(e: FeedEntry) -> Option<i64> {
    match e.pub_date {
        Some(d) => rfc2822_unix_seconds(d),
        None => None,
    }
}

/// The records for `entries`, in order, the skipped ones left out.
pub open spec fn entry_records(pod_id: i32, entries: Seq<FeedEntry>) -> Seq<NewEpisodeView>
    decreases entries.len(),
{
    if entries.len() == 0 {
        Seq::empty()
    } else {
        let rest = entry_records(pod_id, entries.drop_last());
        match entry_record(pod_id, entries.last(), entry_published(entries.last())) {
            Some(n) => rest.push(n),
            None => rest,
        }
    }
}

pub open spec fn views_of(v: Seq<NewEpisode>) -> Seq<NewEpisodeView> {
    v.map_values(|n: NewEpisode| n@)
}

/// The records for the items of a feed, in order; items without a guid, a
/// title, an enclosure or a readable publication date are skipped.
pub fn episodes_from_items(pod_id: i32, items: &Vec<FeedItem>) -> (r: Vec<NewEpisode>)
    ensures
        views_of(r@) == entry_records(pod_id, entries_of(items@)),
        forall|k: int| 0 <= k < r@.len() ==> (#[trigger] r@[k]).fresh(),
{
    let mut out: Vec<NewEpisode> = Vec::new();
    let mut i: usize = 0;
    while i < items.len()
        invariant
            i <= items.len(),
            views_of(out@) == entry_records(pod_id, entries_of(items@.take(i as int))),
            forall|k: int| 0 <= k < out@.len() ==> (#[trigger] out@[k]).fresh(),
        decreases items.len() - i,
    {
        let item = &items[i];
        let published = match &item.pub_date {
            Some(d) => parse_pub_date(d.as_str()),
            None => None,
        };
        let rec = new_episode_from_item(pod_id, item, published);
        let ghost before = out@;
        match rec {
            Some(n) => out.push(n),
            None => {},
        }
        proof {
            let e = entries_of(items@.take(i + 1));
            assert(e.drop_last() =~= entries_of(items@.take(i as int)));
            assert(e.last() == items@[i as int]@);
            assert(views_of(out@) =~= entry_records(pod_id, e));
        }
        i += 1;
    }
    assert(items@.take(items.len() as int) =~= items@);
    out
}

/// Whether candidate `i` is new: its uid is neither among `existing` nor on
/// an earlier candidate.
pub open spec fn is_new(existing: Seq<Seq<char>>, cands: Seq<NewEpisodeView>, i: int) -> bool {
    &&& !existing.contains(cands[i].uid)
    &&& forall|j: int| 0 <= j < i ==> (#[trigger] cands[j]).uid != cands[i].uid
}

/// The new candidates, in order.
pub open spec fn fresh_records(existing: Seq<Seq<char>>, cands: Seq<NewEpisodeView>) -> Seq<NewEpisodeView>
    decreases cands.len(),
{
    if cands.len() == 0 {
        Seq::empty()
    } else {
        let rest = fresh_records(existing, cands.drop_last());
        if is_new(existing, cands, cands.len() - 1) {
            rest.push(cands.last())
        } else {
            rest
        }
    }
}

pub open spec fn uids_of(records: Seq<NewEpisodeView>) -> Seq<Seq<char>> {
    records.map_values(|n: NewEpisodeView| n.uid)
}

pub open spec fn text_of(v: Seq<String>) -> Seq<Seq<char>> {
    v.map_values(|s: String| s@)
}

fn contains_text(v: &Vec<String>, s: &String) -> (r: bool)
    ensures
        r == text_of(v@).contains(s@),
{
    let mut i: usize = 0;
    while i < v.len()
        invariant
            i <= v.len(),
            forall|k: int| 0 <= k < i ==> v@[k]@ != s@,
        decreases v.len() - i,
    {
        if v[i] == *s {
            assert(text_of(v@)[i as int] == s@);
            return true;
        }
        i += 1;
    }
    proof {
        if text_of(v@).contains(s@) {
            let k = choose|k: int| 0 <= k < text_of(v@).len() && text_of(v@)[k] == s@;
            assert(v@[k]@ == s@);
        }
    }
    false
}

fn uid_before(cands: &Vec<NewEpisode>, i: usize) -> (r: bool)
    requires
        i < cands.len(),
    ensures
        r == exists|j: int| 0 <= j < i && (#[trigger] views_of(cands@)[j]).uid == cands@[i as int].uid@,
{
    let mut j: usize = 0;
    while j < i
        invariant
            j <= i < cands.len(),
            forall|k: int| 0 <= k < j ==> (#[trigger] views_of(cands@)[k]).uid != cands@[i as int].uid@,
        decreases i - j,
    {
        if cands[j].uid == cands[i].uid {
            assert(views_of(cands@)[j as int].uid == cands@[i as int].uid@);
            return true;
        }
        j += 1;
    }
    false
}

/// The candidates whose uid is neither among `existing` nor on an earlier
/// candidate, in order.
pub fn select_new(existing: &Vec<String>, cands: &Vec<NewEpisode>) -> (r: Vec<NewEpisode>)
    ensures
        views_of(r@) == fresh_records(text_of(existing@), views_of(cands@)),
        (forall|j: int| 0 <= j < cands@.len() ==> (#[trigger] cands@[j]).fresh())
            ==> forall|k: int| 0 <= k < r@.len() ==> (#[trigger] r@[k]).fresh(),
{
    let ghost ex = text_of(existing@);
    let mut out: Vec<NewEpisode> = Vec::new();
    let mut i: usize = 0;
    while i < cands.len()
        invariant
            i <= cands.len(),
            ex == text_of(existing@),
            views_of(out@) == fresh_records(ex, views_of(cands@).take(i as int)),
            (forall|j: int| 0 <= j < cands@.len() ==> (#[trigger] cands@[j]).fresh())
                ==> forall|k: int| 0 <= k < out@.len() ==> (#[trigger] out@[k]).fresh(),
        decreases cands.len() - i,
    {
        let known = contains_text(existing, &cands[i].uid);
        let dup = uid_before(cands, i);
        let ghost c = views_of(cands@).take(i + 1);
        proof {
            assert(c.drop_last() =~= views_of(cands@).take(i as int));
            assert(c[i as int] == views_of(cands@)[i as int]);
            assert(is_new(ex, c, i as int) == (!known && !dup)) by {
                if dup {
                    let j = choose|j: int| 0 <= j < i && (#[trigger] views_of(cands@)[j]).uid == cands@[i as int].uid@;
                    assert(c[j] == views_of(cands@)[j]);
                }
                if !dup {
                    assert forall|j: int| 0 <= j < i implies (#[trigger] c[j]).uid != c[i as int].uid by {
                        assert(c[j] == views_of(cands@)[j]);
                    }
                }
            }
        }
        if !known && !dup {
            out.push(cands[i].clone());
        }
        proof {
            assert(views_of(out@) =~= fresh_records(ex, c));
        }
        i += 1;
    }
    assert(views_of(cands@).take(cands.len() as int) =~= views_of(cands@));
    out
}

/// The uids of stored episodes.
pub open spec fn episode_uids(eps: Seq<Episode>) -> Seq<Seq<char>> {
    eps.map_values(|e: Episode| e.uid@)
}

fn uids_of_episodes(eps: &Vec<Episode>) -> (r: Vec<String>)
    ensures
        text_of(r@) == episode_uids(eps@),
{
    let mut out: Vec<String> = Vec::new();
    let mut i: usize = 0;
    while i < eps.len()
        invariant
            i <= eps.len(),
            out@.len() == i,
            forall|k: int| 0 <= k < i ==> (#[trigger] out@[k])@ == eps@[k].uid@,
        decreases eps.len() - i,
    {
        out.push(eps[i].uid.clone());
        i += 1;
    }
    assert(text_of(out@) =~= episode_uids(eps@));
    out
}

/// What the worker stores after reading a pod's feed: the records to insert,
/// and whether the pod is now to be marked as fetched.
#[derive(PartialEq, Eq, Debug)]
pub struct FeedPlan {
    pub new_episodes: Vec<NewEpisode>,
    pub mark_pod_downloaded: bool,
}

/// Why a fetched feed could not be used.
#[derive(PartialEq, Eq, Structural, Clone, Copy, Debug)]
pub enum FeedError {
    /// The document is not a feed the parser can read.
    Unreadable,
}

/// The plan for the items of pod `pod`'s feed, given the episodes stored for
/// it: the records of the items whose uid is new, and the pod marked as
/// fetched if it was not yet.
pub fn plan_from_items(pod: &Pod, existing: &Vec<Episode>, items: &Vec<FeedItem>) -> (r: FeedPlan)
    ensures
        views_of(r.new_episodes@) == fresh_records(
            episode_uids(existing@),
            entry_records(pod.id, entries_of(items@)),
        ),
        forall|k: int| 0 <= k < r.new_episodes@.len() ==> (#[trigger] r.new_episodes@[k]).fresh(),
        r.mark_pod_downloaded == !pod.downloaded,
{
    let uids = uids_of_episodes(existing);
    let cands = episodes_from_items(pod.id, items);
    let new_episodes = select_new(&uids, &cands);
    FeedPlan { new_episodes, mark_pod_downloaded: !pod.downloaded }
}

/// The plan for a fetched feed document `body` of pod `pod`, or an error when
/// the document cannot be read.
pub fn plan_feed(pod: &Pod, existing: &Vec<Episode>, body: &[u8]) -> (r: Result<FeedPlan, FeedError>)
    ensures
        match channel_entries(body@) {
            None => r == Err::<FeedPlan, FeedError>(FeedError::Unreadable),
            Some(entries) => r matches Ok(plan) && {
                &&& views_of(plan.new_episodes@) == fresh_records(
                    episode_uids(existing@),
                    entry_records(pod.id, entries),
                )
                &&& forall|k: int| 0 <= k < plan.new_episodes@.len() ==> (#[trigger] plan.new_episodes@[k]).fresh()
                &&& plan.mark_pod_downloaded == !pod.downloaded
            },
        },
{
    match read_channel(body) {
        Some(items) => Ok(plan_from_items(pod, existing, &items)),
        None => Err(FeedError::Unreadable),
    }
}

proof fn lemma_is_new_prefix(e: Seq<Seq<char>>, c: Seq<NewEpisodeView>, i: int)
    requires
        0 <= i < c.len() - 1,
    ensures
        is_new(e, c.drop_last(), i) == is_new(e, c, i),
{
    assert forall|j: int| 0 <= j < i implies c.drop_last()[j] == c[j] by {}
    assert(c.drop_last()[i] == c[i]);
}

proof fn lemma_new_ones_kept(e: Seq<Seq<char>>, c: Seq<NewEpisodeView>, i: int)
    requires
        0 <= i < c.len(),
        is_new(e, c, i),
    ensures
        uids_of(fresh_records(e, c)).contains(c[i].uid),
    decreases c.len(),
{
    let f = fresh_records(e, c);
    if i == c.len() - 1 {
        assert(f == fresh_records(e, c.drop_last()).push(c.last()));
        assert(uids_of(f)[f.len() - 1] == c[i].uid);
    } else {
        lemma_is_new_prefix(e, c, i);
        lemma_new_ones_kept(e, c.drop_last(), i);
        assert(c.drop_last()[i] == c[i]);
        let p = fresh_records(e, c.drop_last());
        let k = choose|k: int| 0 <= k < uids_of(p).len() && uids_of(p)[k] == c[i].uid;
        if is_new(e, c, c.len() - 1) {
            assert(f == p.push(c.last()));
            assert(uids_of(f)[k] == uids_of(p)[k]);
        } else {
            assert(f == p);
        }
    }
}

proof fn lemma_none_new(e: Seq<Seq<char>>, c: Seq<NewEpisodeView>)
    requires
        forall|i: int| 0 <= i < c.len() ==> !is_new(e, c, i),
    ensures
        fresh_records(e, c).len() == 0,
    decreases c.len(),
{
    if c.len() > 0 {
        assert forall|i: int| 0 <= i < c.drop_last().len() implies !is_new(e, c.drop_last(), i) by {
            lemma_is_new_prefix(e, c, i);
        }
        lemma_none_new(e, c.drop_last());
        assert(!is_new(e, c, c.len() - 1));
    }
}

/// Fetching a feed again with the same content inserts nothing: once the
/// records that the first fetch found new are stored, none of the same
/// feed's records is new.
pub proof fn lemma_fetch_idempotent(existing: Seq<Seq<char>>, pod_id: i32, entries: Seq<FeedEntry>)
    ensures
        ({
            let cands = entry_records(pod_id, entries);
            let first = fresh_records(existing, cands);
            fresh_records(existing + uids_of(first), cands).len() == 0
        }),
{
    let c = entry_records(pod_id, entries);
    let first = fresh_records(existing, c);
    let stored = existing + uids_of(first);
    assert forall|i: int| 0 <= i < c.len() implies !is_new(stored, c, i) by {
        if is_new(existing, c, i) {
            lemma_new_ones_kept(existing, c, i);
            let k = choose|k: int| 0 <= k < uids_of(first).len() && uids_of(first)[k] == c[i].uid;
            assert(stored[existing.len() + k] == c[i].uid);
        } else if existing.contains(c[i].uid) {
            let k = choose|k: int| 0 <= k < existing.len() && existing[k] == c[i].uid;
            assert(stored[k] == c[i].uid);
        }
    }
    lemma_none_new(stored, c);
}

} // verus!
