//! What the controller does with each message it receives.
//!
//! The controller itself talks to the screen, the store and the player.
//! Which of these it has to call for a message, and in what order, is
//! decided here.

use vstd::prelude::*;

verus! {

/// A message to the controller.
pub enum ControllerMessage {
    LoadFeeds,
    UpdatePlayState,
    UpdateStopPlayer,
    DeleteFeed(u32),
    AddNewFeed(String, String),
    UpdatePlayEpisode(u32),
    UpdateSelectedFeed(u32),
    ReloadFeedEpisodes(u32),
}

/// One thing for the controller to do.
pub enum Step {
    /// Store a feed under a name and a URL.
    AddFeed(String, String),
    /// Remove a feed and its episodes from the store.
    RemoveFeed(u32),
    /// Fetch a feed and store its episodes in place of the old ones.
    ReloadEpisodes(u32),
    /// Show the feeds of the store.
    ShowFeeds,
    /// Show the episodes of a feed.
    ShowEpisodes(u32),
    /// Show an episode's title and description, and play its file.
    PlayEpisode(u32),
    /// Pause the player, or let it go on.
    TogglePlay,
    /// Stop the player.
    StopPlayer,
}

/// The steps that a message asks for, in order.
pub open spec fn plan(message: ControllerMessage) -> Seq<Step> {
    match message {
        ControllerMessage::LoadFeeds => seq![Step::ShowFeeds],
        ControllerMessage::UpdatePlayState => seq![Step::TogglePlay],
        ControllerMessage::UpdateStopPlayer => seq![Step::StopPlayer],
        ControllerMessage::DeleteFeed(feed) => seq![Step::RemoveFeed(feed), Step::ShowFeeds],
        ControllerMessage::AddNewFeed(name, url) => seq![Step::AddFeed(name, url), Step::ShowFeeds],
        ControllerMessage::UpdatePlayEpisode(episode) => seq![Step::PlayEpisode(episode)],
        ControllerMessage::UpdateSelectedFeed(feed) => seq![Step::ShowEpisodes(feed)],
        ControllerMessage::ReloadFeedEpisodes(feed) => seq![
            Step::ReloadEpisodes(feed),
            Step::ShowEpisodes(feed),
        ],
    }
}

/// The steps to take for `message`, in order.
pub fn steps(message: ControllerMessage) -> (steps: Vec<Step>)
    ensures
        steps@ == plan(message),
{
    let mut steps: Vec<Step> = Vec::new();
    match message {
        ControllerMessage::LoadFeeds => {
            steps.push(Step::ShowFeeds);
        },
        ControllerMessage::UpdatePlayState => {
            steps.push(Step::TogglePlay);
        },
        ControllerMessage::UpdateStopPlayer => {
            steps.push(Step::StopPlayer);
        },
        ControllerMessage::DeleteFeed(feed) => {
            steps.push(Step::RemoveFeed(feed));
            steps.push(Step::ShowFeeds);
        },
        ControllerMessage::AddNewFeed(name, url) => {
            steps.push(Step::AddFeed(name, url));
            steps.push(Step::ShowFeeds);
        },
        ControllerMessage::UpdatePlayEpisode(episode) => {
            steps.push(Step::PlayEpisode(episode));
        },
        ControllerMessage::UpdateSelectedFeed(feed) => {
            steps.push(Step::ShowEpisodes(feed));
        },
        ControllerMessage::ReloadFeedEpisodes(feed) => {
            steps.push(Step::ReloadEpisodes(feed));
            steps.push(Step::ShowEpisodes(feed));
        },
    }
    assert(steps@ =~= plan(message));
    steps
}

/// The message that a filled-in form for a new feed gives: none unless both
/// the name and the URL are given.
pub open spec fn new_feed(name: String, url: String) -> Option<ControllerMessage> {
    if name@.len() == 0 || url@.len() == 0 {
        None
    } else {
        Some(ControllerMessage::AddNewFeed(name, url))
    }
}

/// The message to send for a new feed with this name and URL, if the form
/// may be sent.
pub fn new_feed_message(name: String, url: String) -> (message: Option<ControllerMessage>)
    ensures
        message == new_feed(name, url),
{
    if name.as_str().is_empty() || url.as_str().is_empty() {
        None
    } else {
        Some(ControllerMessage::AddNewFeed(name, url))
    }
}

} // verus!
