use toot::model::{Account, Attachment, Counters, ImageHandle, Post, Status};
use toot::utils::{
    classify, extract_status_images, Cache, Delivery, FetchAction, FetchError, FetchReply,
    ImageCache,
};

fn ok(body: &[u8]) -> FetchReply {
    FetchReply::Response { status: 200, body: body.to_vec() }
}

fn post(id: &str, favourites: u64) -> Post {
    Post {
        id: id.to_string(),
        account: Account {
            display_name: "Ada".to_string(),
            username: "ada".to_string(),
            avatar: "http://x/ada.png".to_string(),
        },
        content: "<p>hi</p>".to_string(),
        media_attachments: vec![],
        tags: vec![],
        counters: Counters {
            replies: 0,
            reblogs: 0,
            favourites,
            reblogged: false,
            favourited: false,
            bookmarked: false,
        },
    }
}

/// A stand-in for the network that counts how often it is asked.
struct Network {
    calls: u32,
}

impl Network {
    fn get(&mut self, _url: &str) -> FetchReply {
        self.calls += 1;
        ok(b"png-bytes")
    }
}

#[test]
fn two_requests_in_flight_make_one_network_call() {
    let mut cache = ImageCache::new();
    let mut network = Network { calls: 0 };
    let url = "http://x/img.png";

    let first = cache.request(url, 1);
    let second = cache.request(url, 2);
    assert_eq!(first, FetchAction::Start);
    assert_eq!(second, FetchAction::Join);
    assert!(cache.is_pending(url));
    assert_eq!(cache.get(url), None);

    // Only the caller that was told to start goes to the network.
    let reply = network.get(url);
    let delivery = cache.complete(url, reply).expect("a fetch was under way");
    assert_eq!(network.calls, 1);
    assert_eq!(delivery.waiters, vec![1, 2]);
    assert_eq!(delivery.outcome, Ok(ImageHandle { bytes: b"png-bytes".to_vec() }));

    // Both callers read the same handle from then on, without a fetch.
    assert!(!cache.is_pending(url));
    assert_eq!(cache.request(url, 3), FetchAction::Hit(ImageHandle { bytes: b"png-bytes".to_vec() }));
    assert_eq!(cache.get(url), Some(&ImageHandle { bytes: b"png-bytes".to_vec() }));
    assert_eq!(network.calls, 1);
}

#[test]
fn many_requests_start_exactly_one_fetch() {
    let mut cache = ImageCache::new();
    let mut starts = 0;
    for waiter in 0..50u64 {
        if cache.request("http://x/a.png", waiter) == FetchAction::Start {
            starts += 1;
        }
        if cache.request("http://x/b.png", 1000 + waiter) == FetchAction::Start {
            starts += 1;
        }
    }
    assert_eq!(starts, 2);
    let a = cache.complete("http://x/a.png", ok(b"a")).unwrap();
    assert_eq!(a.waiters, (0..50u64).collect::<Vec<u64>>());
    assert!(cache.is_pending("http://x/b.png"));
    let b = cache.complete("http://x/b.png", FetchReply::Failed).unwrap();
    assert_eq!(b.waiters.len(), 50);
    assert_eq!(b.outcome, Err(FetchError::Transport));
}

#[test]
fn failed_fetch_leaves_no_entry_and_may_be_retried() {
    let mut cache = ImageCache::new();
    let url = "http://x/gone.png";
    assert_eq!(cache.request(url, 7), FetchAction::Start);
    let delivery = cache.complete(url, FetchReply::Response { status: 404, body: b"no".to_vec() });
    assert_eq!(
        delivery,
        Some(Delivery { waiters: vec![7], outcome: Err(FetchError::Status(404)) })
    );
    assert_eq!(cache.get(url), None);
    assert!(!cache.is_pending(url));
    // A later request fetches again.
    assert_eq!(cache.request(url, 8), FetchAction::Start);
    let delivery = cache.complete(url, FetchReply::Failed).unwrap();
    assert_eq!(delivery.waiters, vec![8]);
    assert_eq!(delivery.outcome, Err(FetchError::Transport));
    assert_eq!(cache.request(url, 9), FetchAction::Start);
    let delivery = cache.complete(url, ok(b"at last")).unwrap();
    assert_eq!(delivery.outcome, Ok(ImageHandle { bytes: b"at last".to_vec() }));
    assert_eq!(cache.get(url).map(|h| h.bytes.clone()), Some(b"at last".to_vec()));
}

#[test]
fn completion_without_a_fetch_changes_nothing() {
    let mut cache = ImageCache::new();
    assert_eq!(cache.complete("http://x/a.png", ok(b"stray")), None);
    assert_eq!(cache.get("http://x/a.png"), None);
    assert_eq!(cache.request("http://x/a.png", 1), FetchAction::Start);
    cache.complete("http://x/a.png", ok(b"first")).unwrap();
    // A second report for an image that is held does not replace it.
    assert_eq!(cache.complete("http://x/a.png", ok(b"second")), None);
    assert_eq!(cache.get("http://x/a.png"), Some(&ImageHandle { bytes: b"first".to_vec() }));
}

#[test]
fn classify_tells_success_from_the_two_errors() {
    assert_eq!(classify(ok(b"abc")), Ok(ImageHandle { bytes: b"abc".to_vec() }));
    assert_eq!(
        classify(FetchReply::Response { status: 299, body: vec![1] }),
        Ok(ImageHandle { bytes: vec![1] })
    );
    assert_eq!(
        classify(FetchReply::Response { status: 199, body: vec![1] }),
        Err(FetchError::Status(199))
    );
    assert_eq!(
        classify(FetchReply::Response { status: 300, body: vec![1] }),
        Err(FetchError::Status(300))
    );
    assert_eq!(
        classify(FetchReply::Response { status: 500, body: vec![] }),
        Err(FetchError::Status(500))
    );
    assert_eq!(classify(FetchReply::Failed), Err(FetchError::Transport));
}

#[test]
fn empty_cache_holds_nothing() {
    let cache = Cache::new();
    assert_eq!(cache.get_status("1"), None);
    assert_eq!(cache.get_image("http://x/ada.png"), None);
    let images = ImageCache::new();
    assert_eq!(images.get(""), None);
    assert!(!images.is_pending(""));
}

#[test]
fn put_status_overwrites_silently() {
    let mut cache = Cache::new();
    cache.put_status(Status { post: post("1", 3), reblog: None });
    cache.put_status(Status { post: post("2", 0), reblog: None });
    assert_eq!(cache.get_status("1").unwrap().post.counters.favourites, 3);
    cache.put_status(Status { post: post("1", 4), reblog: None });
    assert_eq!(cache.get_status("1").unwrap().post.counters.favourites, 4);
    assert_eq!(cache.get_status("2").unwrap().post.id, "2");
    assert_eq!(cache.get_status("3"), None);
}

#[test]
fn lookups_never_start_a_fetch() {
    let mut cache = Cache::new();
    assert_eq!(cache.get_image("http://x/a.png"), None);
    assert_eq!(cache.get_image("http://x/a.png"), None);
    // The first request after any number of lookups is still the one that fetches.
    assert_eq!(cache.request_image("http://x/a.png", 0), FetchAction::Start);
    assert_eq!(cache.get_image("http://x/a.png"), None);
    assert_eq!(cache.request_image("http://x/a.png", 1), FetchAction::Join);
    let delivery = cache.complete_image("http://x/a.png", ok(b"a")).unwrap();
    assert_eq!(delivery.waiters, vec![0, 1]);
    assert_eq!(cache.get_image("http://x/a.png"), Some(&ImageHandle { bytes: b"a".to_vec() }));
}

#[test]
fn images_and_statuses_are_kept_apart() {
    let mut cache = Cache::new();
    cache.put_status(Status { post: post("http://x/a.png", 1), reblog: None });
    assert_eq!(cache.get_image("http://x/a.png"), None);
    assert_eq!(cache.request_image("http://x/a.png", 0), FetchAction::Start);
    cache.complete_image("http://x/a.png", ok(b"a")).unwrap();
    assert_eq!(cache.get_status("http://x/a.png").unwrap().post.counters.favourites, 1);
}

#[test]
fn status_images_come_in_reading_order() {
    let mut outer = post("1", 0);
    outer.media_attachments = vec![
        Attachment { preview_url: "p1".to_string(), url: Some("f1".to_string()) },
        Attachment { preview_url: "p2".to_string(), url: None },
    ];
    let mut inner = post("2", 0);
    inner.account.avatar = "http://x/bob.png".to_string();
    inner.media_attachments =
        vec![Attachment { preview_url: "p3".to_string(), url: Some("f3".to_string()) }];
    let plain = Status { post: outer.clone(), reblog: None };
    assert_eq!(extract_status_images(&plain), vec!["http://x/ada.png", "p1", "f1", "p2"]);
    let boost = Status { post: outer, reblog: Some(inner) };
    assert_eq!(
        extract_status_images(&boost),
        vec!["http://x/ada.png", "p1", "f1", "p2", "http://x/bob.png", "p3", "f3"]
    );
    let bare = Status { post: post("3", 0), reblog: None };
    assert_eq!(extract_status_images(&bare), vec!["http://x/ada.png"]);
}
