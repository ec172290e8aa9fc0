//! The records of the store, and what is computed on them.
//!
//! Reading and writing the store is the caller's part. A record's `id` is
//! given by the store: an episode that has not been stored carries 0.

use vstd::prelude::*;
use crate::feed::EpisodeView;

verus! {

/// A feed as the store holds it.
#[derive(Debug)]
pub struct Feed {
    pub id: u32,
    pub url: String,
    pub name: String,
}

/// The mathematical value of a [`Feed`].
pub struct FeedRecord {
    pub id: u32,
    pub url: Seq<char>,
    pub name: Seq<char>,
}

impl View for Feed {
    type V = FeedRecord;

    open spec fn view(&self) -> FeedRecord {
        FeedRecord { id: self.id, url: self.url@, name: self.name@ }
    }
}

/// An episode as the store holds it.
#[derive(Debug)]
pub struct Episode {
    pub id: u32,
    pub url: String,
    pub title: String,
    pub description: String,
}

/// The mathematical value of an [`Episode`].
pub struct EpisodeRecord {
    pub id: u32,
    pub url: Seq<char>,
    pub title: Seq<char>,
    pub description: Seq<char>,
}

impl View for Episode {
    type V = EpisodeRecord;

    open spec fn view(&self) -> EpisodeRecord {
        EpisodeRecord {
            id: self.id,
            url: self.url@,
            title: self.title@,
            description: self.description@,
        }
    }
}

/// The characters of a column; none where the column could not be read.
pub open spec fn column_text(column: Option<String>) -> Seq<char> {
    match column {
        Some(text) => text@,
        None => Seq::empty(),
    }
}

/// The number in a column; 0 where the column could not be read.
pub open spec fn column_number(column: Option<u32>) -> u32 {
    match column {
        Some(number) => number,
        None => 0,
    }
}

/// The record that an episode of a feed is stored as, before the store has
/// given it an `id`.
pub open spec fn unstored(episode: EpisodeView) -> EpisodeRecord {
    EpisodeRecord { id: 0, url: episode.url, title: episode.title, description: episode.description }
}

fn text_or_empty(column: Option<String>) -> (text: String)
    ensures
        text@ == column_text(column),
{
    match column {
        Some(text) => text,
        None => String::new(),
    }
}

impl Feed {
    /// A feed from the columns of a row. A column that could not be read
    /// counts as 0 or as empty.
    pub fn from_columns(id: Option<u32>, url: Option<String>, name: Option<String>) -> (feed: Feed)
        ensures
            feed@ == (FeedRecord {
                id: column_number(id),
                url: column_text(url),
                name: column_text(name),
            }),
    {
        Feed {
            id: match id {
                Some(number) => number,
                None => 0,
            },
            url: text_or_empty(url),
            name: text_or_empty(name),
        }
    }
}

impl Episode {
    /// An episode from the columns of a row. A column that could not be read
    /// counts as 0 or as empty.
    pub fn from_columns(
        id: Option<u32>,
        url: Option<String>,
        title: Option<String>,
        description: Option<String>,
    ) -> (episode: Episode)
        ensures
            episode@ == (EpisodeRecord {
                id: column_number(id),
                url: column_text(url),
                title: column_text(title),
                description: column_text(description),
            }),
    {
        Episode {
            id: match id {
                Some(number) => number,
                None => 0,
            },
            url: text_or_empty(url),
            title: text_or_empty(title),
            description: text_or_empty(description),
        }
    }
}

/// The records to store for the episodes of a feed, in the same order.
pub fn new_records(episodes: &Vec<crate::feed::Episode>) -> (records: Vec<Episode>)
    ensures
        records@.len() == episodes@.len(),
        forall|i: int| 0 <= i < episodes@.len() ==> (#[trigger] records@[i])@ == unstored(episodes@[i]@),
{
    let mut records: Vec<Episode> = Vec::new();
    let mut i: usize = 0;
    while i < episodes.len()
        invariant
            i <= episodes.len(),
            records@.len() == i,
            forall|k: int| 0 <= k < i ==> (#[trigger] records@[k])@ == unstored(episodes@[k]@),
        decreases episodes.len() - i,
    {
        let episode = &episodes[i];
        records.push(
            Episode {
                id: 0,
                url: episode.url().to_owned(),
                title: episode.title().to_owned(),
                description: episode.description().to_owned(),
            },
        );
        i += 1;
    }
    records
}

/// The titles of the episodes, in the same order.
pub fn episode_titles(episodes: &Vec<Episode>) -> (titles: Vec<String>)
    ensures
        titles@.len() == episodes@.len(),
        forall|i: int| 0 <= i < episodes@.len() ==> (#[trigger] titles@[i])@ == episodes@[i]@.title,
{
    let mut titles: Vec<String> = Vec::new();
    let mut i: usize = 0;
    while i < episodes.len()
        invariant
            i <= episodes.len(),
            titles@.len() == i,
            forall|k: int| 0 <= k < i ==> (#[trigger] titles@[k])@ == episodes@[k]@.title,
        decreases episodes.len() - i,
    {
        titles.push(episodes[i].title.clone());
        i += 1;
    }
    titles
}

/// The names of the feeds, in the same order.
pub fn feed_names(feeds: &Vec<Feed>) -> (names: Vec<String>)
    ensures
        names@.len() == feeds@.len(),
        forall|i: int| 0 <= i < feeds@.len() ==> (#[trigger] names@[i])@ == feeds@[i]@.name,
{
    let mut names: Vec<String> = Vec::new();
    let mut i: usize = 0;
    while i < feeds.len()
        invariant
            i <= feeds.len(),
            names@.len() == i,
            forall|k: int| 0 <= k < i ==> (#[trigger] names@[k])@ == feeds@[k]@.name,
        decreases feeds.len() - i,
    {
        names.push(feeds[i].name.clone());
        i += 1;
    }
    names
}

/// Each feed's name with its `id`, in the same order.
pub fn feed_entries(feeds: &Vec<Feed>) -> (entries: Vec<(String, u32)>)
    ensures
        entries@.len() == feeds@.len(),
        forall|i: int|
            0 <= i < feeds@.len() ==> (#[trigger] entries@[i]).0@ == feeds@[i]@.name && entries@[i].1
                == feeds@[i]@.id,
{
    let mut entries: Vec<(String, u32)> = Vec::new();
    let mut i: usize = 0;
    while i < feeds.len()
        invariant
            i <= feeds.len(),
            entries@.len() == i,
            forall|k: int|
                0 <= k < i ==> (#[trigger] entries@[k]).0@ == feeds@[k]@.name && entries@[k].1
                    == feeds@[k]@.id,
        decreases feeds.len() - i,
    {
        entries.push((feeds[i].name.clone(), feeds[i].id));
        i += 1;
    }
    entries
}

/// Each episode's title with its `id`, in the same order.
pub fn episode_entries(episodes: &Vec<Episode>) -> (entries: Vec<(String, u32)>)
    ensures
        entries@.len() == episodes@.len(),
        forall|i: int|
            0 <= i < episodes@.len() ==> (#[trigger] entries@[i]).0@ == episodes@[i]@.title
                && entries@[i].1 == episodes@[i]@.id,
{
    let mut entries: Vec<(String, u32)> = Vec::new();
    let mut i: usize = 0;
    while i < episodes.len()
        invariant
            i <= episodes.len(),
            entries@.len() == i,
            forall|k: int|
                0 <= k < i ==> (#[trigger] entries@[k]).0@ == episodes@[k]@.title && entries@[k].1
                    == episodes@[k]@.id,
        decreases episodes.len() - i,
    {
        entries.push((episodes[i].title.clone(), episodes[i].id));
        i += 1;
    }
    entries
}

} // verus!
