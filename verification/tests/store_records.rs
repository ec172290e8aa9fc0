use podcast_core::db::{
    episode_entries, episode_titles, feed_entries, feed_names, new_records, Episode, Feed,
};

#[test]
fn columns_that_could_not_be_read_count_as_empty() {
    let e = Episode::from_columns(None, None, None, None);
    assert_eq!(e.id, 0);
    assert_eq!(e.url, "");
    assert_eq!(e.title, "");
    assert_eq!(e.description, "");
    let f = Feed::from_columns(None, None, None);
    assert_eq!(f.id, 0);
    assert_eq!(f.url, "");
    assert_eq!(f.name, "");
}

#[test]
fn columns_that_were_read_are_kept() {
    let e = Episode::from_columns(
        Some(7),
        Some("u".to_string()),
        Some("t".to_string()),
        Some("d".to_string()),
    );
    assert_eq!((e.id, e.url.as_str(), e.title.as_str(), e.description.as_str()), (7, "u", "t", "d"));
    let f = Feed::from_columns(Some(3), Some("http://x".to_string()), None);
    assert_eq!((f.id, f.url.as_str(), f.name.as_str()), (3, "http://x", ""));
}

#[test]
fn new_records_carry_no_id_and_keep_the_order() {
    let episodes = vec![
        podcast_core::feed::Episode::new("A".to_string(), "a".to_string(), "1".to_string()).unwrap(),
        podcast_core::feed::Episode::new("B".to_string(), String::new(), "2".to_string()).unwrap(),
    ];
    let records = new_records(&episodes);
    assert_eq!(records.len(), 2);
    assert_eq!((records[0].id, records[0].title.as_str(), records[0].url.as_str()), (0, "A", "1"));
    assert_eq!(records[0].description, "a");
    assert_eq!((records[1].id, records[1].title.as_str(), records[1].url.as_str()), (0, "B", "2"));
    assert_eq!(new_records(&vec![]).len(), 0);
}

#[test]
fn titles_and_names_come_in_the_order_of_the_records() {
    let episodes = vec![
        Episode::from_columns(Some(2), None, Some("Two".to_string()), None),
        Episode::from_columns(Some(1), None, Some("One".to_string()), None),
    ];
    assert_eq!(episode_titles(&episodes), vec!["Two", "One"]);
    let feeds = vec![
        Feed::from_columns(Some(1), None, Some("Alpha".to_string())),
        Feed::from_columns(Some(2), None, None),
    ];
    assert_eq!(feed_names(&feeds), vec!["Alpha", ""]);
}

#[test]
fn entries_pair_each_label_with_its_id() {
    let episodes = vec![
        Episode::from_columns(Some(2), None, Some("Two".to_string()), None),
        Episode::from_columns(Some(1), None, Some("One".to_string()), None),
    ];
    assert_eq!(
        episode_entries(&episodes),
        vec![("Two".to_string(), 2), ("One".to_string(), 1)]
    );
    let feeds = vec![Feed::from_columns(Some(5), Some("u".to_string()), Some("Alpha".to_string()))];
    assert_eq!(feed_entries(&feeds), vec![("Alpha".to_string(), 5)]);
    assert_eq!(feed_entries(&vec![]), vec![]);
}
