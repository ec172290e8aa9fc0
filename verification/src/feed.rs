//! From a feed document to its episodes.
//!
//! A document is accepted when its root element is `rss` with the attribute
//! `version="2.0"`. Each `channel` child of that root contributes its `item`
//! children, in the order of the text; an item becomes an episode when it
//! carries an enclosure with a URL. Two points that feeds in the wild
//! disagree on are settled by a [`ParsePolicy`], never silently.

use vstd::prelude::*;
use crate::loader::{load, loaded, Fetched, LoadError};
use crate::reader::{parse, parsed_nodes, readable, ParseError};
use crate::text::str_eq;
use crate::xml::{
    attribute_value, first_element_child, first_text, is_element_named, str_view, NodeView,
    XmlDocument,
};

verus! {

/// `std::path::PathBuf`: the path of a file. It is only carried.
#[verifier::external_type_specification]
#[verifier::external_body]
pub struct ExPathBuf(std::path::PathBuf);

/// Where a feed's document comes from.
pub enum Feed {
    /// An address to request.
    Url(String),
    /// A file to read.
    Path(std::path::PathBuf),
}

/// What to do when a document holds more than one `channel`.
#[derive(Clone, Copy, Debug, PartialEq, Eq, Structural)]
pub enum ChannelPolicy {
    /// Take the items of every channel, one channel after the other.
    Concatenate,
    /// Take the first channel and pass over the others.
    FirstOnly,
}

/// What an item's title has to do with keeping the item.
#[derive(Clone, Copy, Debug, PartialEq, Eq, Structural)]
pub enum TitlePolicy {
    /// The title is never looked at: an item without one has an empty title.
    Unchecked,
    /// An item is dropped if it holds a `title` element without text.
    RejectEmpty,
    /// An item is dropped unless it ends up with a title that is not empty.
    Required,
}

/// The two choices that govern a parse.
#[derive(Clone, Copy, Debug, PartialEq, Eq, Structural)]
pub struct ParsePolicy {
    pub channels: ChannelPolicy,
    pub titles: TitlePolicy,
}

impl Default for ParsePolicy {
    /// All channels, and no item with an empty `title` element.
    fn default() -> (policy: ParsePolicy)
        ensures
            policy.channels == ChannelPolicy::Concatenate,
            policy.titles == TitlePolicy::RejectEmpty,
    {
        ParsePolicy { channels: ChannelPolicy::Concatenate, titles: TitlePolicy::RejectEmpty }
    }
}

/// Why a document is not taken for a feed.
#[derive(Clone, Copy, Debug, PartialEq, Eq, Structural)]
pub enum ValidationError {
    /// There is no root element, or its name is not `rss`.
    WrongRootTag,
    /// The root has no `version` attribute, or its value is not `2.0`.
    UnsupportedVersion,
}

/// The mathematical value of an [`Episode`].
pub struct EpisodeView {
    pub url: Seq<char>,
    pub title: Seq<char>,
    pub description: Seq<char>,
}

/// One playable item of a feed. Its media URL is never empty.
#[derive(Debug, PartialEq)]
pub struct Episode {
    url: String,
    title: String,
    description: String,
}

impl View for Episode {
    type V = EpisodeView;

    closed spec fn view(&self) -> EpisodeView {
        EpisodeView { url: self.url@, title: self.title@, description: self.description@ }
    }
}

/// The view of an episode that may be missing.
pub open spec fn episode_view(episode: Option<Episode>) -> Option<EpisodeView> {
    match episode {
        Some(e) => Some(e@),
        None => None,
    }
}

/// The views of a list of episodes.
pub open spec fn episodes_view(episodes: Seq<Episode>) -> Seq<EpisodeView> {
    episodes.map_values(|e: Episode| e@)
}

impl Episode {
    #[verifier::type_invariant]
    spec fn playable(self) -> bool {
        self.url@.len() > 0
    }

    /// An episode with these fields, or nothing if `url` is empty.
    pub fn new(title: String, description: String, url: String) -> (made: Option<Episode>)
        ensures
            made is Some <==> url@.len() > 0,
            made matches Some(e) ==> e@ == (EpisodeView {
                url: url@,
                title: title@,
                description: description@,
            }),
    {
        if url.as_str().is_empty() {
            None
        } else {
            Some(Episode { url, title, description })
        }
    }

    /// The address of the media file.
    pub fn url(&self) -> (url: &str)
        ensures
            url@ == self@.url,
            url@.len() > 0,
    {
        proof {
            use_type_invariant(self);
        }
        self.url.as_str()
    }

    /// The title; empty where the item had none.
    pub fn title(&self) -> (title: &str)
        ensures
            title@ == self@.title,
    {
        self.title.as_str()
    }

    /// The description; empty where the item had none.
    pub fn description(&self) -> (description: &str)
        ensures
            description@ == self@.description,
    {
        self.description.as_str()
    }
}

impl Clone for Episode {
    fn clone(&self) -> (copy: Episode)
        ensures
            copy@ == self@,
    {
        proof {
            use_type_invariant(self);
        }
        Episode {
            url: self.url.clone(),
            title: self.title.clone(),
            description: self.description.clone(),
        }
    }
}

/// The mathematical value of a [`Channel`].
pub struct ChannelView {
    pub title: Seq<char>,
    pub description: Seq<char>,
    pub link: Seq<char>,
}

/// What a feed says of itself. A field that the feed does not give is empty.
#[derive(Debug, PartialEq, Eq)]
pub struct Channel {
    pub title: String,
    pub description: String,
    pub link: String,
}

impl View for Channel {
    type V = ChannelView;

    open spec fn view(&self) -> ChannelView {
        ChannelView { title: self.title@, description: self.description@, link: self.link@ }
    }
}

/// The channel of which nothing is known.
pub open spec fn empty_channel() -> ChannelView {
    ChannelView { title: Seq::empty(), description: Seq::empty(), link: Seq::empty() }
}

impl Default for Channel {
    fn default() -> (channel: Channel)
        ensures
            channel@ == empty_channel(),
    {
        Channel { title: String::new(), description: String::new(), link: String::new() }
    }
}

/// The mathematical value of a [`ParsedFeed`].
pub struct FeedView {
    pub channel: ChannelView,
    pub episodes: Seq<EpisodeView>,
}

/// What one pass over a document gives: the channel's fields and the
/// episodes, in the order of the text.
#[derive(Debug, PartialEq)]
pub struct ParsedFeed {
    pub channel: Channel,
    pub episodes: Vec<Episode>,
}

impl View for ParsedFeed {
    type V = FeedView;

    open spec fn view(&self) -> FeedView {
        FeedView { channel: self.channel@, episodes: episodes_view(self.episodes@) }
    }
}

/// The feed of a document that holds nothing usable.
pub open spec fn empty_feed() -> FeedView {
    FeedView { channel: empty_channel(), episodes: Seq::empty() }
}

/// The root element of a document: the first element below the root node.
pub open spec fn root_element(nodes: Seq<NodeView>) -> Option<usize> {
    first_element_child(nodes, 0)
}

/// The verdict on a document's root: the position of its `rss` element, or
/// the reason why the document is no feed.
pub open spec fn validated_root(nodes: Seq<NodeView>) -> Result<usize, ValidationError> {
    match root_element(nodes) {
        None => Err(ValidationError::WrongRootTag),
        Some(root) => if nodes[root as int].name != "rss"@ {
            Err(ValidationError::WrongRootTag)
        } else if attribute_value(nodes[root as int].attributes, "version"@) != Some("2.0"@) {
            Err(ValidationError::UnsupportedVersion)
        } else {
            Ok(root)
        },
    }
}

/// Checks that the root element is `rss` and carries `version="2.0"`, and
/// gives its position.
pub fn validate_root(doc: &XmlDocument) -> (verdict: Result<usize, ValidationError>)
    ensures
        verdict == validated_root(doc@),
        verdict matches Ok(root) ==> is_element_named(doc@, root, "rss"@),
{
    match doc.first_element_child(0) {
        None => Err(ValidationError::WrongRootTag),
        Some(root) => {
            if !doc.is_element_named(root, "rss") {
                return Err(ValidationError::WrongRootTag);
            }
            match doc.node(root).attribute("version") {
                Some(version) => {
                    if str_eq(version, "2.0") {
                        Ok(root)
                    } else {
                        Err(ValidationError::UnsupportedVersion)
                    }
                },
                None => Err(ValidationError::UnsupportedVersion),
            }
        },
    }
}

/// What a scan over an item's children has gathered so far.
pub struct ItemScan {
    pub title: Seq<char>,
    pub description: Seq<char>,
    pub url: Option<Seq<char>>,
    /// Set once a child has shown that the item must be dropped.
    pub dropped: bool,
}

/// The scan before any child was seen.
pub open spec fn scan_start() -> ItemScan {
    ItemScan { title: Seq::empty(), description: Seq::empty(), url: None, dropped: false }
}

/// The scan after one more child.
///
/// A `title` with text sets the title; without text it drops the item under
/// [`TitlePolicy::RejectEmpty`] and is passed over otherwise. A `description`
/// with text sets the description. An `enclosure` sets the URL to its `url`
/// attribute, and drops the item if it has none. Any other child is passed
/// over. A later child of the same name overrides an earlier one.
pub open spec fn scan_child(
    nodes: Seq<NodeView>,
    scan: ItemScan,
    child: usize,
    titles: TitlePolicy,
) -> ItemScan {
    if is_element_named(nodes, child, "title"@) {
        let text = first_text(nodes, child);
        if text is Some && text.unwrap().len() > 0 {
            ItemScan { title: text.unwrap(), ..scan }
        } else if titles == TitlePolicy::RejectEmpty {
            ItemScan { dropped: true, ..scan }
        } else {
            scan
        }
    } else if is_element_named(nodes, child, "description"@) {
        match first_text(nodes, child) {
            Some(text) => ItemScan { description: text, ..scan },
            None => scan,
        }
    } else if is_element_named(nodes, child, "enclosure"@) {
        match attribute_value(nodes[child as int].attributes, "url"@) {
            Some(url) => ItemScan { url: Some(url), ..scan },
            None => ItemScan { dropped: true, ..scan },
        }
    } else {
        scan
    }
}

/// The scan after all of `children`, taken in order.
pub open spec fn scan_children(nodes: Seq<NodeView>, children: Seq<usize>, titles: TitlePolicy) -> ItemScan
    decreases children.len(),
{
    if children.len() == 0 {
        scan_start()
    } else {
        scan_child(nodes, scan_children(nodes, children.drop_last(), titles), children.last(), titles)
    }
}

/// The episode that a finished scan stands for, if any: none where the item
/// was dropped on the way, where no URL was found or the URL is empty, or
/// where a title is required and missing.
pub open spec fn scan_episode(scan: ItemScan, titles: TitlePolicy) -> Option<EpisodeView> {
    if scan.dropped || scan.url is None || scan.url.unwrap().len() == 0 {
        None
    } else if titles == TitlePolicy::Required && scan.title.len() == 0 {
        None
    } else {
        Some(EpisodeView { url: scan.url.unwrap(), title: scan.title, description: scan.description })
    }
}

/// The episode of the item at `item`, if the item is kept.
pub open spec fn item_episode(nodes: Seq<NodeView>, item: usize, titles: TitlePolicy) -> Option<
    EpisodeView,
> {
    if item < nodes.len() {
        scan_episode(scan_children(nodes, nodes[item as int].children, titles), titles)
    } else {
        None
    }
}

/// Turns the item at `item` into an episode, or into nothing where the rules
/// drop it.
pub fn item_to_episode(doc: &XmlDocument, item: usize, titles: TitlePolicy) -> (episode: Option<
    Episode,
>)
    ensures
        episode_view(episode) == item_episode(doc@, item, titles),
{
    if item >= doc.len() {
        return None;
    }
    let children = &doc.node(item).children;
    let mut title: &str = "";
    let mut description: &str = "";
    let mut url: Option<&str> = None;
    let mut dropped = false;
    proof {
        reveal_strlit("");
        assert(""@ =~= Seq::<char>::empty());
        assert(children@.take(0).len() == 0);
    }
    let mut i: usize = 0;
    while i < children.len()
        invariant
            i <= children.len(),
            item < doc@.len(),
            children@ == doc@[item as int].children,
            scan_children(doc@, children@.take(i as int), titles) == (ItemScan {
                title: title@,
                description: description@,
                url: str_view(url),
                dropped,
            }),
        decreases children.len() - i,
    {
        let child = children[i];
        proof {
            let next = children@.take(i + 1);
            assert(next.drop_last() =~= children@.take(i as int));
            assert(next.last() == child);
        }
        if doc.is_element_named(child, "title") {
            match doc.first_text(child) {
                Some(text) => {
                    if !text.is_empty() {
                        title = text;
                    } else if titles == TitlePolicy::RejectEmpty {
                        dropped = true;
                    }
                },
                None => {
                    if titles == TitlePolicy::RejectEmpty {
                        dropped = true;
                    }
                },
            }
        } else if doc.is_element_named(child, "description") {
            match doc.first_text(child) {
                Some(text) => {
                    description = text;
                },
                None => {},
            }
        } else if doc.is_element_named(child, "enclosure") {
            match doc.node(child).attribute("url") {
                Some(value) => {
                    url = Some(value);
                },
                None => {
                    dropped = true;
                },
            }
        }
        i += 1;
    }
    assert(children@.take(children.len() as int) =~= children@);
    if dropped {
        return None;
    }
    match url {
        None => None,
        Some(address) => {
            if titles == TitlePolicy::Required && title.is_empty() {
                return None;
            }
            Episode::new(title.to_owned(), description.to_owned(), address.to_owned())
        },
    }
}

/// The feed after one more child of a channel.
///
/// A `title`, `description` or `link` that bears text sets that field of the
/// channel, so that of several the last one stands. An `item` adds its
/// episode, if it has one, behind those already found. Any other child is
/// passed over.
pub open spec fn scan_channel_child(
    nodes: Seq<NodeView>,
    feed: FeedView,
    child: usize,
    titles: TitlePolicy,
) -> FeedView {
    if is_element_named(nodes, child, "title"@) {
        match first_text(nodes, child) {
            Some(text) => FeedView { channel: ChannelView { title: text, ..feed.channel }, ..feed },
            None => feed,
        }
    } else if is_element_named(nodes, child, "description"@) {
        match first_text(nodes, child) {
            Some(text) => FeedView {
                channel: ChannelView { description: text, ..feed.channel },
                ..feed
            },
            None => feed,
        }
    } else if is_element_named(nodes, child, "link"@) {
        match first_text(nodes, child) {
            Some(text) => FeedView { channel: ChannelView { link: text, ..feed.channel }, ..feed },
            None => feed,
        }
    } else if is_element_named(nodes, child, "item"@) {
        match item_episode(nodes, child, titles) {
            Some(episode) => FeedView { episodes: feed.episodes.push(episode), ..feed },
            None => feed,
        }
    } else {
        feed
    }
}

/// The feed after all of `children`, taken in order, starting from `feed`.
pub open spec fn scan_channel(
    nodes: Seq<NodeView>,
    feed: FeedView,
    children: Seq<usize>,
    titles: TitlePolicy,
) -> FeedView
    decreases children.len(),
{
    if children.len() == 0 {
        feed
    } else {
        scan_channel_child(
            nodes,
            scan_channel(nodes, feed, children.drop_last(), titles),
            children.last(),
            titles,
        )
    }
}

/// The feed after the channel at `channel`, starting from `feed`.
pub open spec fn channel_feed(
    nodes: Seq<NodeView>,
    feed: FeedView,
    channel: usize,
    titles: TitlePolicy,
) -> FeedView {
    if channel < nodes.len() {
        scan_channel(nodes, feed, nodes[channel as int].children, titles)
    } else {
        feed
    }
}

/// Those of `children` that are `channel` elements, in order.
pub open spec fn channels_in(nodes: Seq<NodeView>, children: Seq<usize>) -> Seq<usize>
    decreases children.len(),
{
    if children.len() == 0 {
        Seq::empty()
    } else {
        let before = channels_in(nodes, children.drop_last());
        if is_element_named(nodes, children.last(), "channel"@) {
            before.push(children.last())
        } else {
            before
        }
    }
}

/// The channels that a policy lets through: all of them, or the first.
pub open spec fn admitted(channels: Seq<usize>, policy: ChannelPolicy) -> Seq<usize> {
    match policy {
        ChannelPolicy::Concatenate => channels,
        ChannelPolicy::FirstOnly => channels.take(
            if channels.len() > 0 {
                1
            } else {
                0
            },
        ),
    }
}

/// The feed after all of `channels`, taken in order.
pub open spec fn read_channels(nodes: Seq<NodeView>, channels: Seq<usize>, titles: TitlePolicy) -> FeedView
    decreases channels.len(),
{
    if channels.len() == 0 {
        empty_feed()
    } else {
        channel_feed(
            nodes,
            read_channels(nodes, channels.drop_last(), titles),
            channels.last(),
            titles,
        )
    }
}

/// The channels of the `rss` element at `root` that are read under a policy.
pub open spec fn feed_channels(nodes: Seq<NodeView>, root: usize, policy: ChannelPolicy) -> Seq<usize> {
    admitted(channels_in(nodes, nodes[root as int].children), policy)
}

/// What a document holds as a feed: nothing unless its root is valid, else
/// what its channels give.
pub open spec fn feed_of(nodes: Seq<NodeView>, policy: ParsePolicy) -> FeedView {
    match validated_root(nodes) {
        Ok(root) => read_channels(nodes, feed_channels(nodes, root, policy.channels), policy.titles),
        Err(_) => empty_feed(),
    }
}

/// Reads the channel at `channel` into `feed`: its fields override those
/// read before, its episodes follow those found before.
pub fn read_channel(doc: &XmlDocument, feed: ParsedFeed, channel: usize, titles: TitlePolicy) -> (read:
    ParsedFeed)
    ensures
        read@ == channel_feed(doc@, feed@, channel, titles),
{
    if channel >= doc.len() {
        return feed;
    }
    let ghost start = feed@;
    let mut feed = feed;
    let children = &doc.node(channel).children;
    proof {
        assert(children@.take(0).len() == 0);
    }
    let mut i: usize = 0;
    while i < children.len()
        invariant
            i <= children.len(),
            channel < doc@.len(),
            children@ == doc@[channel as int].children,
            feed@ == scan_channel(doc@, start, children@.take(i as int), titles),
        decreases children.len() - i,
    {
        let child = children[i];
        proof {
            let next = children@.take(i + 1);
            assert(next.drop_last() =~= children@.take(i as int));
            assert(next.last() == child);
        }
        if doc.is_element_named(child, "title") {
            match doc.first_text(child) {
                Some(text) => {
                    feed.channel.title = text.to_owned();
                },
                None => {},
            }
        } else if doc.is_element_named(child, "description") {
            match doc.first_text(child) {
                Some(text) => {
                    feed.channel.description = text.to_owned();
                },
                None => {},
            }
        } else if doc.is_element_named(child, "link") {
            match doc.first_text(child) {
                Some(text) => {
                    feed.channel.link = text.to_owned();
                },
                None => {},
            }
        } else if doc.is_element_named(child, "item") {
            match item_to_episode(doc, child, titles) {
                Some(episode) => {
                    let ghost before = feed.episodes@;
                    feed.episodes.push(episode);
                    assert(episodes_view(feed.episodes@) =~= episodes_view(before).push(episode@));
                },
                None => {},
            }
        }
        i += 1;
    }
    assert(children@.take(children.len() as int) =~= children@);
    feed
}

/// Reads a document as a feed, in one pass: the channel's fields and the
/// episodes of its items, in the order of the text. A document whose root is
/// not valid gives an empty feed.
pub fn read_feed(doc: &XmlDocument, policy: ParsePolicy) -> (feed: ParsedFeed)
    ensures
        feed@ == feed_of(doc@, policy),
{
    let mut feed = ParsedFeed { channel: Channel::default(), episodes: Vec::new() };
    assert(feed@.episodes =~= Seq::empty());
    let root = match validate_root(doc) {
        Ok(root) => root,
        Err(_) => {
            return feed;
        },
    };
    let children = &doc.node(root).children;
    let mut seen = false;
    proof {
        assert(children@.take(0).len() == 0);
        assert(admitted(Seq::<usize>::empty(), policy.channels) =~= Seq::empty());
    }
    let mut i: usize = 0;
    while i < children.len()
        invariant
            i <= children.len(),
            root < doc@.len(),
            children@ == doc@[root as int].children,
            seen == (channels_in(doc@, children@.take(i as int)).len() > 0),
            feed@ == read_channels(
                doc@,
                admitted(channels_in(doc@, children@.take(i as int)), policy.channels),
                policy.titles,
            ),
        decreases children.len() - i,
    {
        let child = children[i];
        proof {
            let next = children@.take(i + 1);
            assert(next.drop_last() =~= children@.take(i as int));
            assert(next.last() == child);
        }
        if doc.is_element_named(child, "channel") {
            let ghost before = channels_in(doc@, children@.take(i as int));
            let ghost after = before.push(child);
            if !seen || policy.channels == ChannelPolicy::Concatenate {
                proof {
                    assert(admitted(after, policy.channels).drop_last() =~= admitted(
                        before,
                        policy.channels,
                    ));
                    assert(admitted(after, policy.channels).last() == child);
                }
                feed = read_channel(doc, feed, child, policy.titles);
            } else {
                assert(admitted(after, policy.channels) =~= admitted(before, policy.channels));
            }
            seen = true;
        }
        i += 1;
    }
    assert(children@.take(children.len() as int) =~= children@);
    feed
}

/// The episodes that the outcome of a parse gives: those of the document's
/// feed, and none where the text could not be read.
pub open spec fn parsed_episodes(nodes: Option<Seq<NodeView>>, policy: ParsePolicy) -> Seq<EpisodeView> {
    if readable(nodes) {
        feed_of(nodes.unwrap(), policy).episodes
    } else {
        Seq::empty()
    }
}

/// The episodes of a parsed document; none where the parse failed.
pub fn feed_episodes(parsed: Result<XmlDocument, ParseError>, policy: ParsePolicy) -> (episodes: Vec<
    Episode,
>)
    ensures
        parsed matches Ok(doc) ==> episodes_view(episodes@) == feed_of(doc@, policy).episodes,
        parsed is Err ==> episodes@.len() == 0,
{
    match parsed {
        Ok(doc) => read_feed(&doc, policy).episodes,
        Err(_) => Vec::new(),
    }
}

/// The episodes of a feed given as text, in the order of the text.
///
/// Text that is not well-formed XML, a root that is not `rss`, a version
/// other than `2.0` and a feed without channels all give an empty list: none
/// of them is an error.
pub fn parse_xml_string(xml: &str, policy: ParsePolicy) -> (episodes: Vec<Episode>)
    ensures
        episodes_view(episodes@) == parsed_episodes(parsed_nodes(xml@), policy),
{
    let episodes = feed_episodes(parse(xml), policy);
    assert(episodes_view(episodes@) =~= parsed_episodes(parsed_nodes(xml@), policy));
    episodes
}

/// The view of a list of episodes that may be an error.
pub open spec fn fetched_view(episodes: Result<Vec<Episode>, LoadError>) -> Result<
    Seq<EpisodeView>,
    LoadError,
> {
    match episodes {
        Ok(list) => Ok(episodes_view(list@)),
        Err(e) => Err(e),
    }
}

/// The episodes that a fetch gives for a feed: those of the text that was
/// obtained, or the reason why none was.
pub open spec fn fetched_episodes(feed: Feed, fetched: Fetched, policy: ParsePolicy) -> Result<
    Seq<EpisodeView>,
    LoadError,
> {
    match loaded(feed, fetched) {
        Ok(text) => Ok(parsed_episodes(parsed_nodes(text), policy)),
        Err(e) => Err(e),
    }
}

/// The episodes of `feed`, from what was fetched for it.
///
/// A fetch that obtained no text is an error. A text that is no feed is
/// not: it gives an empty list.
pub fn get_episodes(feed: Feed, fetched: Fetched, policy: ParsePolicy) -> (episodes: Result<
    Vec<Episode>,
    LoadError,
>)
    ensures
        fetched_view(episodes) == fetched_episodes(feed, fetched, policy),
{
    match load(&feed, fetched) {
        Ok(text) => Ok(parse_xml_string(text.as_str(), policy)),
        Err(e) => Err(e),
    }
}

} // verus!
