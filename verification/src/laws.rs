//! What holds of every document, proved from the definitions in
//! [`crate::feed`].

use vstd::prelude::*;
use crate::feed::{
    admitted, channels_in, empty_feed, feed_channels, feed_of, item_episode, parsed_episodes,
    read_channels, root_element, scan_channel, scan_child, scan_children, validated_root,
    ChannelPolicy, EpisodeView, FeedView, ParsePolicy, TitlePolicy, ValidationError,
};
use crate::reader::parsed_nodes;
use crate::xml::{attribute_value, first_text, is_element_named, NodeView};

verus! {

/// Those of `children` that are `item` elements, in order.
pub open spec fn items_in(nodes: Seq<NodeView>, children: Seq<usize>) -> Seq<usize>
    decreases children.len(),
{
    if children.len() == 0 {
        Seq::empty()
    } else {
        let before = items_in(nodes, children.drop_last());
        if is_element_named(nodes, children.last(), "item"@) {
            before.push(children.last())
        } else {
            before
        }
    }
}

/// The items of the channel at `channel`, in order.
pub open spec fn channel_items(nodes: Seq<NodeView>, channel: usize) -> Seq<usize> {
    if channel < nodes.len() {
        items_in(nodes, nodes[channel as int].children)
    } else {
        Seq::empty()
    }
}

/// The items of `channels`, one channel after the other.
pub open spec fn items_of(nodes: Seq<NodeView>, channels: Seq<usize>) -> Seq<usize>
    decreases channels.len(),
{
    if channels.len() == 0 {
        Seq::empty()
    } else {
        items_of(nodes, channels.drop_last()) + channel_items(nodes, channels.last())
    }
}

/// The items of a document in the order of the text: those of the channels
/// that the policy admits, and none where the root is not valid.
pub open spec fn document_items(nodes: Seq<NodeView>, policy: ChannelPolicy) -> Seq<usize> {
    match validated_root(nodes) {
        Ok(root) => items_of(nodes, feed_channels(nodes, root, policy)),
        Err(_) => Seq::empty(),
    }
}

/// The episodes of those of `items` that are kept, in order.
pub open spec fn kept_episodes(nodes: Seq<NodeView>, items: Seq<usize>, titles: TitlePolicy) -> Seq<
    EpisodeView,
>
    decreases items.len(),
{
    if items.len() == 0 {
        Seq::empty()
    } else {
        let before = kept_episodes(nodes, items.drop_last(), titles);
        match item_episode(nodes, items.last(), titles) {
            Some(episode) => before.push(episode),
            None => before,
        }
    }
}

/// The `url` attribute of each `enclosure` among `children`, in order; an
/// enclosure without the attribute stands as `None`.
pub open spec fn enclosure_urls(nodes: Seq<NodeView>, children: Seq<usize>) -> Seq<Option<Seq<char>>>
    decreases children.len(),
{
    if children.len() == 0 {
        Seq::empty()
    } else {
        let before = enclosure_urls(nodes, children.drop_last());
        if is_element_named(nodes, children.last(), "enclosure"@) {
            before.push(attribute_value(nodes[children.last() as int].attributes, "url"@))
        } else {
            before
        }
    }
}

/// Whether one of `urls` is missing.
pub open spec fn has_none(urls: Seq<Option<Seq<char>>>) -> bool {
    exists|k: int| 0 <= k < urls.len() && urls[k] is None
}

/// Whether the item at `item` has no enclosure, or an enclosure without a
/// `url` attribute.
pub open spec fn lacks_url(nodes: Seq<NodeView>, item: usize) -> bool {
    item < nodes.len() ==> {
        let urls = enclosure_urls(nodes, nodes[item as int].children);
        urls.len() == 0 || has_none(urls)
    }
}

/// Whether the item at `item` has an enclosure, each of its enclosures has a
/// `url` attribute, and the last of these is not empty.
pub open spec fn carries_url(nodes: Seq<NodeView>, item: usize) -> bool {
    item < nodes.len() && {
        let urls = enclosure_urls(nodes, nodes[item as int].children);
        &&& urls.len() > 0
        &&& !has_none(urls)
        &&& urls.last().unwrap().len() > 0
    }
}

/// The text of each `title` among `children`, in order; a title without a
/// text node stands as `None`.
pub open spec fn title_texts(nodes: Seq<NodeView>, children: Seq<usize>) -> Seq<Option<Seq<char>>>
    decreases children.len(),
{
    if children.len() == 0 {
        Seq::empty()
    } else {
        let before = title_texts(nodes, children.drop_last());
        if is_element_named(nodes, children.last(), "title"@) {
            before.push(first_text(nodes, children.last()))
        } else {
            before
        }
    }
}

/// Whether a text is there and is not empty.
pub open spec fn filled(text: Option<Seq<char>>) -> bool {
    text is Some && text.unwrap().len() > 0
}

/// Whether one of `texts` is missing or empty.
pub open spec fn has_blank(texts: Seq<Option<Seq<char>>>) -> bool {
    exists|k: int| 0 <= k < texts.len() && !filled(texts[k])
}

/// Whether one of `texts` is there and is not empty.
pub open spec fn has_filled(texts: Seq<Option<Seq<char>>>) -> bool {
    exists|k: int| 0 <= k < texts.len() && filled(texts[k])
}

/// Whether the titles of the item at `item` let the item through: always
/// where titles are not checked; where empty titles are rejected, if none of
/// its `title` elements lacks text; where a title is required, if one of
/// them has text.
pub open spec fn title_passes(nodes: Seq<NodeView>, item: usize, titles: TitlePolicy) -> bool {
    item < nodes.len() && {
        let texts = title_texts(nodes, nodes[item as int].children);
        match titles {
            TitlePolicy::Unchecked => true,
            TitlePolicy::RejectEmpty => !has_blank(texts),
            TitlePolicy::Required => has_filled(texts),
        }
    }
}

proof fn names_differ()
    ensures
        "title"@ != "description"@,
        "title"@ != "link"@,
        "title"@ != "item"@,
        "title"@ != "enclosure"@,
        "description"@ != "link"@,
        "description"@ != "item"@,
        "description"@ != "enclosure"@,
        "link"@ != "item"@,
{
    reveal_strlit("title");
    reveal_strlit("description");
    reveal_strlit("link");
    reveal_strlit("item");
    reveal_strlit("enclosure");
    assert("title"@.len() == 5);
    assert("description"@.len() == 11);
    assert("link"@.len() == 4);
    assert("item"@.len() == 4);
    assert("enclosure"@.len() == 9);
    assert("link"@[0] != "item"@[0]);
}

/// What the scan of an item has found, said of its enclosures and titles.
proof fn scan_follows_children(nodes: Seq<NodeView>, children: Seq<usize>, titles: TitlePolicy)
    ensures
        scan_children(nodes, children, titles).dropped <==> has_none(enclosure_urls(nodes, children)) || (
        titles == TitlePolicy::RejectEmpty && has_blank(title_texts(nodes, children))),
        enclosure_urls(nodes, children).len() == 0 ==> scan_children(nodes, children, titles).url is None,
        enclosure_urls(nodes, children).len() > 0 && !has_none(enclosure_urls(nodes, children))
            ==> scan_children(nodes, children, titles).url == enclosure_urls(nodes, children).last(),
        scan_children(nodes, children, titles).title.len() > 0 <==> has_filled(
            title_texts(nodes, children),
        ),
    decreases children.len(),
{
    names_differ();
    if children.len() > 0 {
        scan_follows_children(nodes, children.drop_last(), titles);
        let last = children.last();
        let urls_before = enclosure_urls(nodes, children.drop_last());
        let urls = enclosure_urls(nodes, children);
        let texts_before = title_texts(nodes, children.drop_last());
        let texts = title_texts(nodes, children);
        let earlier = scan_children(nodes, children.drop_last(), titles);
        let scan = scan_children(nodes, children, titles);
        assert(scan == scan_child(nodes, earlier, last, titles));
        if is_element_named(nodes, last, "enclosure"@) {
            let url = attribute_value(nodes[last as int].attributes, "url"@);
            assert(urls == urls_before.push(url));
            assert(texts == texts_before);
            assert(urls.last() == url);
            if has_none(urls_before) {
                let k = choose|k: int| 0 <= k < urls_before.len() && urls_before[k] is None;
                assert(urls[k] is None);
            }
            if has_none(urls) {
                let k = choose|k: int| 0 <= k < urls.len() && urls[k] is None;
                if k < urls_before.len() {
                    assert(urls_before[k] is None);
                }
            } else if url is None {
                assert(urls[urls.len() - 1] is None);
            }
        } else if is_element_named(nodes, last, "title"@) {
            let text = first_text(nodes, last);
            assert(urls == urls_before);
            assert(texts == texts_before.push(text));
            assert(texts[texts.len() - 1] == text);
            if has_blank(texts_before) {
                let k = choose|k: int| 0 <= k < texts_before.len() && !filled(texts_before[k]);
                assert(!filled(texts[k]));
            }
            if has_filled(texts_before) {
                let k = choose|k: int| 0 <= k < texts_before.len() && filled(texts_before[k]);
                assert(filled(texts[k]));
            }
            if has_blank(texts) {
                let k = choose|k: int| 0 <= k < texts.len() && !filled(texts[k]);
                if k < texts_before.len() {
                    assert(!filled(texts_before[k]));
                }
            }
            if has_filled(texts) {
                let k = choose|k: int| 0 <= k < texts.len() && filled(texts[k]);
                if k < texts_before.len() {
                    assert(filled(texts_before[k]));
                }
            }
        } else {
            assert(urls == urls_before);
            assert(texts == texts_before);
        }
    }
}

/// An item gives an episode exactly when it carries a URL and its titles
/// pass; the episode then has the URL of the item's last enclosure.
pub proof fn item_is_kept_exactly_when(nodes: Seq<NodeView>, item: usize, titles: TitlePolicy)
    ensures
        item_episode(nodes, item, titles) is Some <==> carries_url(nodes, item) && title_passes(
            nodes,
            item,
            titles,
        ),
        item_episode(nodes, item, titles) matches Some(episode) ==> Some(episode.url)
            == enclosure_urls(nodes, nodes[item as int].children).last(),
{
    if item < nodes.len() {
        scan_follows_children(nodes, nodes[item as int].children, titles);
    }
}

/// An item without an enclosure, or with an enclosure that has no `url`
/// attribute, gives no episode, whatever the policy on titles.
pub proof fn item_without_url_is_dropped(nodes: Seq<NodeView>, item: usize, titles: TitlePolicy)
    requires
        lacks_url(nodes, item),
    ensures
        item_episode(nodes, item, titles) is None,
{
    item_is_kept_exactly_when(nodes, item, titles);
}

/// Where titles are not checked, an item whose enclosures all have a URL,
/// the last of them not empty, gives an episode with that URL.
pub proof fn item_with_url_is_kept(nodes: Seq<NodeView>, item: usize)
    requires
        carries_url(nodes, item),
    ensures
        item_episode(nodes, item, TitlePolicy::Unchecked) matches Some(episode) && Some(episode.url)
            == enclosure_urls(nodes, nodes[item as int].children).last(),
{
    item_is_kept_exactly_when(nodes, item, TitlePolicy::Unchecked);
}

/// Every episode has a media URL that is not empty.
pub proof fn episode_has_url(nodes: Seq<NodeView>, item: usize, titles: TitlePolicy)
    ensures
        item_episode(nodes, item, titles) matches Some(episode) ==> episode.url.len() > 0,
{
}

proof fn kept_episodes_of_both(
    nodes: Seq<NodeView>,
    first: Seq<usize>,
    second: Seq<usize>,
    titles: TitlePolicy,
)
    ensures
        kept_episodes(nodes, first + second, titles) == kept_episodes(nodes, first, titles)
            + kept_episodes(nodes, second, titles),
    decreases second.len(),
{
    if second.len() == 0 {
        assert(first + second =~= first);
        assert(kept_episodes(nodes, first, titles) + kept_episodes(nodes, second, titles)
            =~= kept_episodes(nodes, first, titles));
    } else {
        kept_episodes_of_both(nodes, first, second.drop_last(), titles);
        assert((first + second).drop_last() =~= first + second.drop_last());
        assert((first + second).last() == second.last());
        assert(kept_episodes(nodes, first + second, titles) =~= kept_episodes(nodes, first, titles)
            + kept_episodes(nodes, second, titles));
    }
}

proof fn channel_adds_kept_episodes(
    nodes: Seq<NodeView>,
    feed: FeedView,
    children: Seq<usize>,
    titles: TitlePolicy,
)
    ensures
        scan_channel(nodes, feed, children, titles).episodes == feed.episodes + kept_episodes(
            nodes,
            items_in(nodes, children),
            titles,
        ),
    decreases children.len(),
{
    names_differ();
    if children.len() == 0 {
        assert(feed.episodes + kept_episodes(nodes, items_in(nodes, children), titles)
            =~= feed.episodes);
    } else {
        channel_adds_kept_episodes(nodes, feed, children.drop_last(), titles);
        let before = items_in(nodes, children.drop_last());
        if is_element_named(nodes, children.last(), "item"@) {
            assert(before.push(children.last()).drop_last() =~= before);
        }
        assert(scan_channel(nodes, feed, children, titles).episodes =~= feed.episodes
            + kept_episodes(nodes, items_in(nodes, children), titles));
    }
}

proof fn channels_give_kept_episodes(nodes: Seq<NodeView>, channels: Seq<usize>, titles: TitlePolicy)
    ensures
        read_channels(nodes, channels, titles).episodes == kept_episodes(
            nodes,
            items_of(nodes, channels),
            titles,
        ),
    decreases channels.len(),
{
    if channels.len() > 0 {
        let before = read_channels(nodes, channels.drop_last(), titles);
        channels_give_kept_episodes(nodes, channels.drop_last(), titles);
        let last = channels.last();
        if last < nodes.len() {
            channel_adds_kept_episodes(nodes, before, nodes[last as int].children, titles);
        }
        kept_episodes_of_both(
            nodes,
            items_of(nodes, channels.drop_last()),
            channel_items(nodes, last),
            titles,
        );
        assert(kept_episodes(nodes, Seq::<usize>::empty(), titles) =~= Seq::empty());
        assert(read_channels(nodes, channels, titles).episodes =~= kept_episodes(
            nodes,
            items_of(nodes, channels),
            titles,
        ));
    }
}

/// The episodes of a document are those of its items that are kept, in the
/// order in which the items stand in the text: nothing else comes out, and
/// nothing changes place.
pub proof fn episodes_follow_items(nodes: Seq<NodeView>, policy: ParsePolicy)
    ensures
        feed_of(nodes, policy).episodes == kept_episodes(
            nodes,
            document_items(nodes, policy.channels),
            policy.titles,
        ),
{
    match validated_root(nodes) {
        Ok(root) => {
            channels_give_kept_episodes(
                nodes,
                feed_channels(nodes, root, policy.channels),
                policy.titles,
            );
        },
        Err(_) => {},
    }
}

/// Where every one of `items` gives an episode, there are as many episodes
/// as items, and the episode at each place is that of the item at that place.
pub proof fn kept_items_keep_their_places(nodes: Seq<NodeView>, items: Seq<usize>, titles: TitlePolicy)
    requires
        forall|k: int| 0 <= k < items.len() ==> item_episode(nodes, #[trigger] items[k], titles) is Some,
    ensures
        kept_episodes(nodes, items, titles).len() == items.len(),
        forall|k: int|
            0 <= k < items.len() ==> Some(#[trigger] kept_episodes(nodes, items, titles)[k])
                == item_episode(nodes, items[k], titles),
    decreases items.len(),
{
    if items.len() > 0 {
        let front = items.drop_last();
        assert forall|k: int| 0 <= k < front.len() implies item_episode(
            nodes,
            #[trigger] front[k],
            titles,
        ) is Some by {
            assert(front[k] == items[k]);
        }
        kept_items_keep_their_places(nodes, front, titles);
        assert(item_episode(nodes, items[items.len() - 1], titles) is Some);
    }
}

/// A feed with N items, each carrying an enclosure URL that is not empty,
/// gives exactly N episodes where titles are not checked, the episode at
/// each place being that of the item at that place.
pub proof fn every_item_with_url_gives_an_episode(nodes: Seq<NodeView>, channels: ChannelPolicy)
    requires
        forall|k: int|
            0 <= k < document_items(nodes, channels).len() ==> carries_url(
                nodes,
                #[trigger] document_items(nodes, channels)[k],
            ),
    ensures
        ({
            let policy = ParsePolicy { channels, titles: TitlePolicy::Unchecked };
            let items = document_items(nodes, channels);
            let episodes = feed_of(nodes, policy).episodes;
            &&& episodes.len() == items.len()
            &&& forall|k: int|
                0 <= k < items.len() ==> Some(#[trigger] episodes[k]) == item_episode(
                    nodes,
                    items[k],
                    TitlePolicy::Unchecked,
                )
        }),
{
    let policy = ParsePolicy { channels, titles: TitlePolicy::Unchecked };
    let items = document_items(nodes, channels);
    episodes_follow_items(nodes, policy);
    assert forall|k: int| 0 <= k < items.len() implies item_episode(
        nodes,
        #[trigger] items[k],
        TitlePolicy::Unchecked,
    ) is Some by {
        item_with_url_is_kept(nodes, items[k]);
    }
    kept_items_keep_their_places(nodes, items, TitlePolicy::Unchecked);
}

/// A feed with N items, each carrying a URL and passing on its titles, gives
/// exactly N episodes, the episode at each place being that of the item at
/// that place.
pub proof fn every_kept_item_gives_an_episode(nodes: Seq<NodeView>, policy: ParsePolicy)
    requires
        forall|k: int|
            0 <= k < document_items(nodes, policy.channels).len() ==> carries_url(
                nodes,
                #[trigger] document_items(nodes, policy.channels)[k],
            ) && title_passes(nodes, document_items(nodes, policy.channels)[k], policy.titles),
    ensures
        feed_of(nodes, policy).episodes.len() == document_items(nodes, policy.channels).len(),
        forall|k: int|
            0 <= k < document_items(nodes, policy.channels).len() ==> Some(
                #[trigger] feed_of(nodes, policy).episodes[k],
            ) == item_episode(nodes, document_items(nodes, policy.channels)[k], policy.titles),
{
    let items = document_items(nodes, policy.channels);
    episodes_follow_items(nodes, policy);
    assert forall|k: int| 0 <= k < items.len() implies item_episode(
        nodes,
        #[trigger] items[k],
        policy.titles,
    ) is Some by {
        item_is_kept_exactly_when(nodes, items[k], policy.titles);
    }
    kept_items_keep_their_places(nodes, items, policy.titles);
}

/// An item that gives no episode leaves no trace: the episodes are those of
/// the list without it.
pub proof fn dropped_item_leaves_no_trace(
    nodes: Seq<NodeView>,
    before: Seq<usize>,
    item: usize,
    after: Seq<usize>,
    titles: TitlePolicy,
)
    requires
        item_episode(nodes, item, titles) is None,
    ensures
        kept_episodes(nodes, before.push(item) + after, titles) == kept_episodes(
            nodes,
            before + after,
            titles,
        ),
{
    kept_episodes_of_both(nodes, before.push(item), after, titles);
    kept_episodes_of_both(nodes, before, after, titles);
    assert(before.push(item).drop_last() =~= before);
}

proof fn items_of_both(nodes: Seq<NodeView>, first: Seq<usize>, second: Seq<usize>)
    ensures
        items_of(nodes, first + second) == items_of(nodes, first) + items_of(nodes, second),
    decreases second.len(),
{
    if second.len() == 0 {
        assert(first + second =~= first);
        assert(items_of(nodes, first) + items_of(nodes, second) =~= items_of(nodes, first));
    } else {
        items_of_both(nodes, first, second.drop_last());
        assert((first + second).drop_last() =~= first + second.drop_last());
        assert((first + second).last() == second.last());
        assert(items_of(nodes, first + second) =~= items_of(nodes, first) + items_of(nodes, second));
    }
}

/// Reading the first channel only gives the episodes that stand first when
/// all channels are read.
pub proof fn first_channel_comes_first(nodes: Seq<NodeView>, titles: TitlePolicy)
    ensures
        feed_of(nodes, ParsePolicy { channels: ChannelPolicy::FirstOnly, titles }).episodes.is_prefix_of(
            feed_of(nodes, ParsePolicy { channels: ChannelPolicy::Concatenate, titles }).episodes,
        ),
{
    let first_only = ParsePolicy { channels: ChannelPolicy::FirstOnly, titles };
    let concatenate = ParsePolicy { channels: ChannelPolicy::Concatenate, titles };
    episodes_follow_items(nodes, first_only);
    episodes_follow_items(nodes, concatenate);
    match validated_root(nodes) {
        Ok(root) => {
            let all = channels_in(nodes, nodes[root as int].children);
            let first = admitted(all, ChannelPolicy::FirstOnly);
            let rest = all.skip(first.len() as int);
            assert(all =~= first + rest);
            items_of_both(nodes, first, rest);
            kept_episodes_of_both(nodes, items_of(nodes, first), items_of(nodes, rest), titles);
        },
        Err(_) => {},
    }
}

/// A document whose root element is missing or is not named `rss` gives an
/// empty feed, whatever else it holds.
pub proof fn wrong_root_gives_nothing(nodes: Seq<NodeView>, policy: ParsePolicy)
    requires
        !(root_element(nodes) matches Some(root) && nodes[root as int].name == "rss"@),
    ensures
        validated_root(nodes) == Err::<usize, ValidationError>(ValidationError::WrongRootTag),
        feed_of(nodes, policy) == empty_feed(),
        parsed_episodes(Some(nodes), policy).len() == 0,
{
}

/// A document whose `rss` element has no `version` attribute, or one whose
/// value is not `2.0`, gives an empty feed.
pub proof fn wrong_version_gives_nothing(nodes: Seq<NodeView>, policy: ParsePolicy)
    requires
        root_element(nodes) matches Some(root) && nodes[root as int].name == "rss"@
            && attribute_value(nodes[root as int].attributes, "version"@) != Some("2.0"@),
    ensures
        validated_root(nodes) == Err::<usize, ValidationError>(ValidationError::UnsupportedVersion),
        feed_of(nodes, policy) == empty_feed(),
        parsed_episodes(Some(nodes), policy).len() == 0,
{
}

/// A valid `rss` element without a `channel` among its children gives an
/// empty feed.
pub proof fn no_channel_gives_nothing(nodes: Seq<NodeView>, policy: ParsePolicy)
    requires
        validated_root(nodes) matches Ok(root) && channels_in(nodes, nodes[root as int].children).len()
            == 0,
    ensures
        feed_of(nodes, policy) == empty_feed(),
        parsed_episodes(Some(nodes), policy).len() == 0,
{
    let root = validated_root(nodes)->Ok_0;
    assert(admitted(channels_in(nodes, nodes[root as int].children), policy.channels).len() == 0);
}

/// Text that is not well-formed gives no episodes.
pub proof fn malformed_text_gives_nothing(text: Seq<char>, policy: ParsePolicy)
    requires
        parsed_nodes(text) is None,
    ensures
        parsed_episodes(parsed_nodes(text), policy).len() == 0,
{
}

/// Parsing one text twice gives the same episodes in the same order: any two
/// lists that are the episodes of one text under one policy are equal.
pub proof fn parsing_twice_gives_the_same(
    text: Seq<char>,
    policy: ParsePolicy,
    first: Seq<EpisodeView>,
    second: Seq<EpisodeView>,
)
    requires
        first == parsed_episodes(parsed_nodes(text), policy),
        second == parsed_episodes(parsed_nodes(text), policy),
    ensures
        first == second,
{
}

} // verus!
