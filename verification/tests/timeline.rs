use toot::app;
use toot::model::{Account, Attachment, Counters, ImageHandle, Mastodon, Post, Status};
use toot::pages::public::{Message, Public, TimelineType};
use toot::utils::{Cache, FetchAction, FetchReply};
use toot::widgets::status::{Avatar, Message as Intent, ResolvedStatus};

fn client() -> Mastodon {
    Mastodon { base: "https://example.social".to_string(), token: "SECRET-REDACTED".to_string() }
}

fn counters() -> Counters {
    Counters {
        replies: 0,
        reblogs: 0,
        favourites: 0,
        reblogged: false,
        favourited: false,
        bookmarked: false,
    }
}

fn status(id: &str, author: &str, previews: &[&str]) -> Status {
    Status {
        post: Post {
            id: id.to_string(),
            account: Account {
                display_name: author.to_string(),
                username: author.to_lowercase(),
                avatar: format!("http://x/{}.png", author.to_lowercase()),
            },
            content: format!("<p>{}</p>", id),
            media_attachments: previews
                .iter()
                .map(|p| Attachment { preview_url: p.to_string(), url: None })
                .collect(),
            tags: vec![],
            counters: counters(),
        },
        reblog: None,
    }
}

/// Performs what a timeline asked for: caches the status, and fetches the
/// images for which `serve` has bytes.
fn perform(cache: &mut Cache, tasks: Vec<app::Message>, serve: &dyn Fn(&str) -> Option<Vec<u8>>) {
    for task in tasks {
        match task {
            app::Message::CacheStatus(status) => cache.put_status(status),
            app::Message::Fetch(urls) => {
                for url in urls {
                    if cache.request_image(&url, 0) == FetchAction::Start {
                        if let Some(body) = serve(&url) {
                            cache.complete_image(&url, FetchReply::Response { status: 200, body });
                        }
                    }
                }
            }
            other => panic!("unexpected task {:?}", other),
        }
    }
}

#[test]
fn three_statuses_appear_in_order_once_cached() {
    let mut timeline = Public::new(client(), TimelineType::Public);
    let mut cache = Cache::new();
    let a = status("A", "Ada", &["http://x/a1.png", "http://x/a2.png"]);
    let b = status("B", "Bob", &["http://x/b1.png"]);
    let c = status("C", "Cyd", &[]);

    let mut tasks = Vec::new();
    tasks.extend(timeline.update(Message::AppendStatus(a.clone())));
    tasks.extend(timeline.update(Message::AppendStatus(b.clone())));
    tasks.extend(timeline.update(Message::AppendStatus(c.clone())));
    assert_eq!(timeline.ids(), vec!["A", "B", "C"]);
    assert_eq!(timeline.len(), 3);

    // Nothing has reached the cache yet: every status is pending.
    assert_eq!(timeline.view(&cache), vec![]);

    // The statuses are cached, and of the images only those of A arrive.
    perform(&mut cache, tasks, &|url| {
        if url == "http://x/ada.png" || url.starts_with("http://x/a") {
            Some(url.as_bytes().to_vec())
        } else {
            None
        }
    });
    let shown = timeline.view(&cache);
    assert_eq!(shown.len(), 3);
    match &shown[0] {
        ResolvedStatus::Post(post) => {
            assert_eq!(post.id, "A");
            assert_eq!(
                post.avatar,
                Avatar::Cached(ImageHandle { bytes: b"http://x/ada.png".to_vec() })
            );
            assert_eq!(post.attachments.len(), 2);
            assert_eq!(post.attachments[0].image.bytes, b"http://x/a1.png".to_vec());
            assert_eq!(post.attachments[1].image.bytes, b"http://x/a2.png".to_vec());
            assert!(post.has_media);
        }
        other => panic!("unexpected {:?}", other),
    }
    match &shown[1] {
        ResolvedStatus::Post(post) => {
            assert_eq!(post.id, "B");
            assert_eq!(post.avatar, Avatar::Fallback);
            assert_eq!(post.attachments, vec![]);
            assert!(post.has_media);
        }
        other => panic!("unexpected {:?}", other),
    }
    match &shown[2] {
        ResolvedStatus::Post(post) => {
            assert_eq!(post.id, "C");
            assert_eq!(post.avatar, Avatar::Fallback);
            assert_eq!(post.attachments, vec![]);
            assert!(!post.has_media);
        }
        other => panic!("unexpected {:?}", other),
    }
}

#[test]
fn pending_statuses_are_skipped_not_errors() {
    let mut timeline = Public::new(client(), TimelineType::Local);
    let mut cache = Cache::new();
    for id in ["1", "2", "3"] {
        timeline.update(Message::AppendStatus(status(id, "Ada", &[])));
    }
    cache.put_status(status("2", "Ada", &[]));
    let shown = timeline.view(&cache);
    assert_eq!(shown.len(), 1);
    assert_eq!(shown[0].post().id, "2");
    cache.put_status(status("3", "Ada", &[]));
    cache.put_status(status("1", "Ada", &[]));
    let ids: Vec<String> = timeline.view(&cache).iter().map(|s| s.post().id.clone()).collect();
    assert_eq!(ids, vec!["1", "2", "3"]);
}

#[test]
fn appending_the_same_status_twice_is_a_no_op_on_the_sequence() {
    let mut timeline = Public::new(client(), TimelineType::Public);
    timeline.update(Message::AppendStatus(status("A", "Ada", &[])));
    timeline.update(Message::AppendStatus(status("B", "Bob", &[])));
    let before = timeline.ids();
    let tasks = timeline.update(Message::AppendStatus(status("A", "Ada", &[])));
    assert_eq!(timeline.ids(), before);
    assert_eq!(timeline.len(), 2);
    assert_eq!(timeline.get(0).map(|s| s.as_str()), Some("A"));
    assert_eq!(timeline.get(1).map(|s| s.as_str()), Some("B"));
    assert_eq!(timeline.get(2), None);
    // The cache is still told, so that fresher counters replace older ones.
    assert_eq!(
        tasks,
        vec![
            app::Message::CacheStatus(status("A", "Ada", &[])),
            app::Message::Fetch(vec!["http://x/ada.png".to_string()]),
        ]
    );
}

#[test]
fn append_issues_cache_and_fetch_tasks() {
    let mut timeline = Public::new(client(), TimelineType::Remote);
    let mut boost = status("9", "Ada", &["http://x/p.png"]);
    boost.post.media_attachments[0].url = Some("http://x/full.png".to_string());
    boost.reblog = Some(status("8", "Bob", &["http://x/q.png"]).post);
    let tasks = timeline.update(Message::AppendStatus(boost.clone()));
    assert_eq!(
        tasks,
        vec![
            app::Message::CacheStatus(boost),
            app::Message::Fetch(vec![
                "http://x/ada.png".to_string(),
                "http://x/p.png".to_string(),
                "http://x/full.png".to_string(),
                "http://x/bob.png".to_string(),
                "http://x/q.png".to_string(),
            ]),
        ]
    );
}

#[test]
fn subscription_is_active_only_while_empty() {
    for feed in [TimelineType::Public, TimelineType::Local, TimelineType::Remote] {
        let mut timeline = Public::new(client(), feed);
        assert_eq!(timeline.subscription(), Some(feed));
        timeline.update(Message::SetClient(client()));
        assert_eq!(timeline.subscription(), Some(feed));
        timeline.update(Message::AppendStatus(status("A", "Ada", &[])));
        assert_eq!(timeline.subscription(), None);
        timeline.update(Message::AppendStatus(status("B", "Ada", &[])));
        assert_eq!(timeline.subscription(), None);
    }
}

#[test]
fn set_client_replaces_the_credentials_only() {
    let mut timeline = Public::new(
        Mastodon { base: String::new(), token: String::new() },
        TimelineType::Public,
    );
    assert!(!timeline.is_authenticated());
    timeline.update(Message::AppendStatus(status("A", "Ada", &[])));
    let tasks = timeline.update(Message::SetClient(client()));
    assert_eq!(tasks, vec![]);
    assert!(timeline.is_authenticated());
    assert_eq!(timeline.mastodon(), &client());
    assert_eq!(timeline.ids(), vec!["A"]);
}

#[test]
fn intents_of_shown_statuses_are_passed_on() {
    let mut timeline = Public::new(client(), TimelineType::Public);
    let tasks = timeline.update(Message::Status(Intent::OpenLink("http://x/".to_string())));
    assert_eq!(tasks, vec![app::Message::Open("http://x/".to_string())]);
    let tasks = timeline.update(Message::Status(Intent::Boost("1".to_string())));
    assert_eq!(tasks, vec![app::Message::Status(Intent::Boost("1".to_string()))]);
    let tasks = timeline.update(Message::Status(Intent::Reply("2".to_string())));
    assert_eq!(tasks, vec![app::Message::Status(Intent::Reply("2".to_string()))]);
    let tasks = timeline.update(Message::Status(Intent::Bookmark("3".to_string())));
    assert_eq!(tasks, vec![app::Message::Status(Intent::Bookmark("3".to_string()))]);
    assert_eq!(timeline.len(), 0);
}
