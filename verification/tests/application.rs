use toot::app::{
    AppModel, Command, ContextPage, Flags, MenuAction, Message, Page, Registered, Screen,
    TootConfig,
};
use toot::model::{Account, Attachment, Counters, ImageHandle, Mastodon, Post, Status};
use toot::pages::public::{self, TimelineType};
use toot::utils::FetchReply;
use toot::widgets::status::Message as Intent;

fn flags(handler: bool) -> Flags {
    Flags { config: TootConfig { server: "example.social".to_string() }, handler }
}

fn client() -> Mastodon {
    Mastodon { base: "https://example.social".to_string(), token: "SECRET-REDACTED".to_string() }
}

fn status(id: &str, previews: &[&str]) -> Status {
    Status {
        post: Post {
            id: id.to_string(),
            account: Account {
                display_name: "Ada".to_string(),
                username: "ada".to_string(),
                avatar: "http://x/ada.png".to_string(),
            },
            content: String::new(),
            media_attachments: previews
                .iter()
                .map(|p| Attachment { preview_url: p.to_string(), url: None })
                .collect(),
            tags: vec![],
            counters: Counters {
                replies: 0,
                reblogs: 0,
                favourites: 0,
                reblogged: false,
                favourited: false,
                bookmarked: false,
            },
        },
        reblog: None,
    }
}

/// Runs the application until it has nothing more to tell itself, and returns
/// what it wants done by others.
fn run(app: &mut AppModel, message: Message) -> Vec<Command> {
    let mut queue = vec![message];
    let mut wanted = Vec::new();
    while !queue.is_empty() {
        let message = queue.remove(0);
        for command in app.update(message) {
            match command {
                Command::Dispatch(message) => queue.push(message),
                other => wanted.push(other),
            }
        }
    }
    wanted
}

#[test]
fn pages_are_listed_in_navigation_order() {
    assert_eq!(
        Page::variants(),
        [
            Page::Home,
            Page::Notifications,
            Page::Search,
            Page::Favorites,
            Page::Bookmarks,
            Page::Hashtags,
            Page::Lists,
            Page::Explore,
            Page::Local,
            Page::Federated,
        ]
    );
    assert_eq!(Page::default(), Page::Home);
}

#[test]
fn every_page_has_its_icon_and_title_key() {
    let icons: Vec<&str> = Page::variants().iter().map(|p| p.icon()).collect();
    assert_eq!(
        icons,
        vec![
            "user-home-symbolic",
            "emblem-important-symbolic",
            "folder-saved-search-symbolic",
            "emoji-body-symbolic",
            "bookmark-new-symbolic",
            "lang-include-symbolic",
            "view-list-symbolic",
            "find-location-symbolic",
            "network-server-symbolic",
            "network-workgroup-symbolic",
        ]
    );
    let keys: Vec<&str> = Page::variants().iter().map(|p| p.title_key()).collect();
    assert_eq!(
        keys,
        vec![
            "home",
            "notifications",
            "search",
            "favorites",
            "bookmarks",
            "hashtags",
            "lists",
            "explore",
            "local",
            "federated",
        ]
    );
}

#[test]
fn menu_entry_toggles_the_about_page() {
    assert_eq!(MenuAction::About.message(), Message::ToggleContextPage(ContextPage::About));
    assert_eq!(ContextPage::default(), ContextPage::About);
}

#[test]
fn application_starts_on_the_login_screen() {
    let (app, tasks) = AppModel::init(flags(true), None);
    assert_eq!(tasks, vec![Command::UpdateTitle]);
    assert_eq!(app.nav, Page::Home);
    assert_eq!(app.screen(), Screen::Login);
    assert!(!app.show_context);
    assert_eq!(app.code, "");
    assert_eq!(app.home.len(), 0);
    assert!(!app.home.is_authenticated());
    assert_eq!(app.subscription(), Some(TimelineType::Public));

    let (app, _) = AppModel::init(flags(false), Some(client()));
    assert_eq!(app.screen(), Screen::Timeline);
    assert_eq!(app.mastodon, Some(client()));
    assert!(app.home.is_authenticated());
}

#[test]
fn window_title_names_the_active_page() {
    let (app, _) = AppModel::init(flags(true), None);
    assert_eq!(app.update_title("Toot", Some("Home")), "Toot \u{2014} Home");
    assert_eq!(app.update_title("Toot", None), "Toot");
    assert_eq!(app.update_title("", Some("")), " \u{2014} ");
}

#[test]
fn registration_runs_from_server_to_credentials() {
    let (mut app, _) = AppModel::init(flags(true), None);
    assert_eq!(
        run(&mut app, Message::ServerUpdate("other.social".to_string())),
        vec![Command::SaveServer("other.social".to_string())]
    );
    assert_eq!(app.config.server, "other.social");
    assert_eq!(
        run(&mut app, Message::RegisterMastodonClient),
        vec![Command::Register("other.social".to_string())]
    );
    // Without a registration there is nothing to complete.
    assert_eq!(run(&mut app, Message::CompleteRegistration), vec![]);
    let registered = Registered { authorize_url: Some("https://other.social/auth".to_string()) };
    assert_eq!(
        run(&mut app, Message::StoreRegistration(Some(registered))),
        vec![Command::OpenUrl("https://other.social/auth".to_string())]
    );
    assert_eq!(app.screen(), Screen::Code);
    assert_eq!(run(&mut app, Message::CodeUpdate("1234".to_string())), vec![]);
    assert_eq!(
        run(&mut app, Message::CompleteRegistration),
        vec![Command::Authorize("1234".to_string())]
    );
    assert_eq!(app.registration, None);
    assert_eq!(app.screen(), Screen::Login);
    assert_eq!(
        run(&mut app, Message::StoreMastodonData(client())),
        vec![Command::SaveClient(client()), Command::UpdateTitle]
    );
    assert_eq!(app.screen(), Screen::Timeline);
    assert_eq!(app.home.mastodon(), &client());
}

#[test]
fn registration_without_an_address_opens_nothing() {
    let (mut app, _) = AppModel::init(flags(true), None);
    assert_eq!(
        run(&mut app, Message::StoreRegistration(Some(Registered { authorize_url: None }))),
        vec![]
    );
    assert_eq!(app.screen(), Screen::Code);
    assert_eq!(run(&mut app, Message::StoreRegistration(None)), vec![]);
    assert_eq!(app.screen(), Screen::Login);
}

#[test]
fn server_is_not_saved_without_a_store() {
    let (mut app, _) = AppModel::init(flags(false), None);
    assert_eq!(run(&mut app, Message::ServerUpdate("other.social".to_string())), vec![]);
    assert_eq!(app.config.server, "example.social");
    assert_eq!(
        run(&mut app, Message::UpdateConfig(TootConfig { server: "third.social".to_string() })),
        vec![]
    );
    assert_eq!(app.config.server, "third.social");
}

#[test]
fn context_drawer_toggles() {
    let (mut app, _) = AppModel::init(flags(true), None);
    run(&mut app, Message::ToggleContextPage(ContextPage::About));
    assert!(app.show_context);
    run(&mut app, Message::ToggleContextPage(ContextPage::About));
    assert!(!app.show_context);
    run(&mut app, Message::ToggleContextPage(ContextPage::Status("1".to_string())));
    assert!(app.show_context);
    assert_eq!(app.context_page, ContextPage::Status("1".to_string()));
    run(&mut app, Message::ToggleContextPage(ContextPage::Status("2".to_string())));
    assert!(app.show_context);
    assert_eq!(app.context_page, ContextPage::Status("2".to_string()));
    assert_eq!(app.context_drawer(), Some(&ContextPage::Status("2".to_string())));
    run(&mut app, Message::ToggleContextDrawer);
    assert!(!app.show_context);
    assert_eq!(app.context_drawer(), None);
    run(&mut app, Message::SubscriptionChannel);
    assert!(!app.show_context);
}

#[test]
fn navigation_selects_pages() {
    let (mut app, _) = AppModel::init(flags(true), Some(client()));
    assert_eq!(app.on_nav_select(Page::Explore), vec![Command::UpdateTitle]);
    assert_eq!(app.nav, Page::Explore);
    assert_eq!(app.screen(), Screen::NotImplemented);
    // The feed of the timeline page is not listened to while another page shows.
    assert_eq!(app.subscription(), None);
    assert_eq!(app.on_nav_select(Page::Home), vec![Command::UpdateTitle]);
    assert_eq!(app.subscription(), Some(TimelineType::Public));
}

#[test]
fn new_status_is_cached_and_its_images_fetched_once() {
    let (mut app, _) = AppModel::init(flags(true), Some(client()));
    let a = status("A", &["http://x/p.png", "http://x/p.png"]);
    let wanted = run(&mut app, Message::Home(public::Message::AppendStatus(a.clone())));
    assert_eq!(
        wanted,
        vec![
            Command::FetchImage("http://x/ada.png".to_string()),
            Command::FetchImage("http://x/p.png".to_string()),
        ]
    );
    assert_eq!(app.home.ids(), vec!["A"]);
    assert_eq!(app.cache.get_status("A"), Some(&a));
    assert_eq!(app.subscription(), None);

    // A second status with the same images starts no fetch while they are under way.
    let b = status("B", &["http://x/p.png", "http://x/q.png"]);
    let wanted = run(&mut app, Message::Home(public::Message::AppendStatus(b)));
    assert_eq!(wanted, vec![Command::FetchImage("http://x/q.png".to_string())]);

    // What comes back is held, and never fetched again.
    let reply = FetchReply::Response { status: 200, body: b"p".to_vec() };
    assert_eq!(run(&mut app, Message::Fetched("http://x/p.png".to_string(), reply)), vec![]);
    assert_eq!(app.cache.get_image("http://x/p.png"), Some(&ImageHandle { bytes: b"p".to_vec() }));
    let wanted = run(&mut app, Message::Fetch(vec!["http://x/p.png".to_string()]));
    assert_eq!(wanted, vec![]);

    // A failed fetch may be tried again.
    assert_eq!(
        run(&mut app, Message::Fetched("http://x/q.png".to_string(), FetchReply::Failed)),
        vec![]
    );
    assert_eq!(app.cache.get_image("http://x/q.png"), None);
    let wanted = run(&mut app, Message::Fetch(vec!["http://x/q.png".to_string()]));
    assert_eq!(wanted, vec![Command::FetchImage("http://x/q.png".to_string())]);
    assert_eq!(app.home.view(&app.cache).len(), 2);
}

#[test]
fn intents_reach_the_application() {
    let (mut app, _) = AppModel::init(flags(true), Some(client()));
    let open = public::Message::Status(Intent::OpenLink("http://x/".to_string()));
    assert_eq!(run(&mut app, Message::Home(open)), vec![Command::OpenUrl("http://x/".to_string())]);
    let favourite = public::Message::Status(Intent::Favorite("1".to_string(), false));
    assert_eq!(
        run(&mut app, Message::Home(favourite)),
        vec![Command::Perform(Intent::Favorite("1".to_string(), false))]
    );
    for intent in [
        Intent::Reply("1".to_string()),
        Intent::Boost("2".to_string()),
        Intent::Bookmark("3".to_string()),
    ] {
        let (mut app, _) = AppModel::init(flags(true), Some(client()));
        let wanted = match &intent {
            Intent::Reply(id) => Intent::Reply(id.clone()),
            Intent::Boost(id) => Intent::Boost(id.clone()),
            Intent::Bookmark(id) => Intent::Bookmark(id.clone()),
            other => panic!("unexpected {:?}", other),
        };
        assert_eq!(
            run(&mut app, Message::Home(public::Message::Status(intent))),
            vec![Command::Perform(wanted)]
        );
    }
    let expand = public::Message::Status(Intent::ExpandStatus("1".to_string()));
    assert_eq!(run(&mut app, Message::Home(expand)), vec![]);
    assert!(app.show_context);
    assert_eq!(app.context_page, ContextPage::Status("1".to_string()));
    assert_eq!(
        run(&mut app, Message::Open("http://y/".to_string())),
        vec![Command::OpenUrl("http://y/".to_string())]
    );
}

#[test]
fn same_context_pages_are_told_apart_by_what_they_show() {
    let ada = Account {
        display_name: "Ada".to_string(),
        username: "ada".to_string(),
        avatar: "http://x/ada.png".to_string(),
    };
    let mut other = Account {
        display_name: "Ada".to_string(),
        username: "ada".to_string(),
        avatar: "http://x/ada.png".to_string(),
    };
    assert!(ContextPage::Account(ada.clone()).same_as(&ContextPage::Account(other.clone())));
    other.username = "ada2".to_string();
    assert!(!ContextPage::Account(ada.clone()).same_as(&ContextPage::Account(other)));
    assert!(!ContextPage::About.same_as(&ContextPage::Account(ada)));
    assert!(ContextPage::Status("1".to_string()).same_as(&ContextPage::Status("1".to_string())));
    assert!(!ContextPage::Status("1".to_string()).same_as(&ContextPage::Status("2".to_string())));
    assert!(ContextPage::About.same_as(&ContextPage::About));
}
