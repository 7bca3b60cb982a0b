//! The application around the timeline: its pages, its messages, and what it
//! decides when a message arrives.

use crate::model::{
    option_view, Account, AccountView, Mastodon, MastodonView, Status, StatusView,
};
use crate::pages;
use crate::pages::public::{Public, PublicView, TimelineType};
use crate::utils::{
    complete_step, request_step, strings_view, Cache, CacheView, FetchAction, FetchReply,
    FetchReplyView, ImageCacheView,
};
use crate::widgets;
use vstd::prelude::*;
use vstd::string::*;

verus! {

/// A page of the navigation bar.
#[derive(Debug, Clone, Copy, PartialEq, Eq, Structural)]
pub enum Page {
    Home,
    Notifications,
    Search,
    Favorites,
    Bookmarks,
    Hashtags,
    Lists,
    Explore,
    Local,
    Federated,
}

impl Default for Page {
    fn default() -> (res: Self)
        ensures
            res == Page::Home,
    {
        Page::Home
    }
}

/// The name of the icon that stands for `page` in the navigation bar.
pub open spec fn page_icon(page: Page) -> Seq<char> {
    match page {
        Page::Home => "user-home-symbolic"@,
        Page::Notifications => "emblem-important-symbolic"@,
        Page::Search => "folder-saved-search-symbolic"@,
        Page::Favorites => "emoji-body-symbolic"@,
        Page::Bookmarks => "bookmark-new-symbolic"@,
        Page::Hashtags => "lang-include-symbolic"@,
        Page::Lists => "view-list-symbolic"@,
        Page::Explore => "find-location-symbolic"@,
        Page::Local => "network-server-symbolic"@,
        Page::Federated => "network-workgroup-symbolic"@,
    }
}

/// The key under which the title of `page` is found in the message catalogue.
pub open spec fn page_title_key(page: Page) -> Seq<char> {
    match page {
        Page::Home => "home"@,
        Page::Notifications => "notifications"@,
        Page::Search => "search"@,
        Page::Favorites => "favorites"@,
        Page::Bookmarks => "bookmarks"@,
        Page::Hashtags => "hashtags"@,
        Page::Lists => "lists"@,
        Page::Explore => "explore"@,
        Page::Local => "local"@,
        Page::Federated => "federated"@,
    }
}

/// The pages, in the order of the navigation bar.
pub open spec fn all_pages() -> Seq<Page> {
    seq![
        Page::Home,
        Page::Notifications,
        Page::Search,
        Page::Favorites,
        Page::Bookmarks,
        Page::Hashtags,
        Page::Lists,
        Page::Explore,
        Page::Local,
        Page::Federated,
    ]
}

impl Page {
    /// All pages, in the order of the navigation bar.
    pub fn variants() -> (res: [Self; 10])
        ensures
            res@ == all_pages(),
    {
        let res = [
            Self::Home,
            Self::Notifications,
            Self::Search,
            Self::Favorites,
            Self::Bookmarks,
            Self::Hashtags,
            Self::Lists,
            Self::Explore,
            Self::Local,
            Self::Federated,
        ];
        assert(res@ =~= all_pages());
        res
    }

    /// The name of the icon that stands for this page.
    pub fn icon(&self) -> (res: &'static str)
        ensures
            res@ == page_icon(*self),
    {
        match self {
            Page::Home => "user-home-symbolic",
            Page::Notifications => "emblem-important-symbolic",
            Page::Search => "folder-saved-search-symbolic",
            Page::Favorites => "emoji-body-symbolic",
            Page::Bookmarks => "bookmark-new-symbolic",
            Page::Hashtags => "lang-include-symbolic",
            Page::Lists => "view-list-symbolic",
            Page::Explore => "find-location-symbolic",
            Page::Local => "network-server-symbolic",
            Page::Federated => "network-workgroup-symbolic",
        }
    }

    /// The key under which the title of this page is found in the message
    /// catalogue.
    pub fn title_key(&self) -> (res: &'static str)
        ensures
            res@ == page_title_key(*self),
    {
        match self {
            Page::Home => "home",
            Page::Notifications => "notifications",
            Page::Search => "search",
            Page::Favorites => "favorites",
            Page::Bookmarks => "bookmarks",
            Page::Hashtags => "hashtags",
            Page::Lists => "lists",
            Page::Explore => "explore",
            Page::Local => "local",
            Page::Federated => "federated",
        }
    }
}

/// Every page occurs in the navigation bar exactly once.
pub proof fn lemma_pages_are_complete(page: Page)
    ensures
        exists|i: int| 0 <= i < all_pages().len() && all_pages()[i] == page,
        forall|i: int, j: int|
            0 <= i < all_pages().len() && 0 <= j < all_pages().len() && i != j
                ==> all_pages()[i] != all_pages()[j],
{
    let i: int = match page {
        Page::Home => 0,
        Page::Notifications => 1,
        Page::Search => 2,
        Page::Favorites => 3,
        Page::Bookmarks => 4,
        Page::Hashtags => 5,
        Page::Lists => 6,
        Page::Explore => 7,
        Page::Local => 8,
        Page::Federated => 9,
    };
    assert(all_pages()[i] == page);
}

/// What the context drawer shows.
#[derive(Debug, PartialEq, Eq)]
pub enum ContextPage {
    /// About the application.
    About,
    /// The profile of an account.
    Account(Account),
    /// One status with its thread; the string is its identifier.
    Status(String),
}

pub enum ContextPageView {
    About,
    Account(AccountView),
    Status(Seq<char>),
}

impl View for ContextPage {
    type V = ContextPageView;

    open spec fn view(&self) -> ContextPageView {
        match self {
            ContextPage::About => ContextPageView::About,
            ContextPage::Account(account) => ContextPageView::Account(account@),
            ContextPage::Status(id) => ContextPageView::Status(id@),
        }
    }
}

impl Default for ContextPage {
    fn default() -> (res: Self)
        ensures
            res@ == ContextPageView::About,
    {
        ContextPage::About
    }
}

impl Clone for ContextPage {
    fn clone(&self) -> (res: Self)
        ensures
            res@ == self@,
    {
        match self {
            ContextPage::About => ContextPage::About,
            ContextPage::Account(account) => ContextPage::Account(account.clone()),
            ContextPage::Status(id) => ContextPage::Status(id.clone()),
        }
    }
}

impl ContextPage {
    /// Whether two context pages show the same thing.
    pub fn same_as(&self, other: &ContextPage) -> (res: bool)
        ensures
            res == (self@ == other@),
    {
        match (self, other) {
            (ContextPage::About, ContextPage::About) => true,
            (ContextPage::Account(a), ContextPage::Account(b)) => a.display_name
                == b.display_name && a.username == b.username && a.avatar == b.avatar,
            (ContextPage::Status(a), ContextPage::Status(b)) => *a == *b,
            _ => false,
        }
    }
}

/// An entry of the menu bar.
#[derive(Debug, Clone, Copy, PartialEq, Eq, Structural)]
pub enum MenuAction {
    About,
}

/// The settings the application keeps between runs.
#[derive(Debug, PartialEq, Eq)]
pub struct TootConfig {
    /// The server the user named.
    pub server: String,
}

pub struct TootConfigView {
    pub server: Seq<char>,
}

impl View for TootConfig {
    type V = TootConfigView;

    open spec fn view(&self) -> TootConfigView {
        TootConfigView { server: self.server@ }
    }
}

/// What is known of a registration of the application at a server: the
/// address at which the user grants access, where the server gave one.
#[derive(Debug, PartialEq, Eq)]
pub struct Registered {
    pub authorize_url: Option<String>,
}

pub struct RegisteredView {
    pub authorize_url: Option<Seq<char>>,
}

impl View for Registered {
    type V = RegisteredView;

    open spec fn view(&self) -> RegisteredView {
        RegisteredView { authorize_url: option_view(self.authorize_url) }
    }
}

/// The view of an optional registration.
pub open spec fn option_registered_view(r: Option<Registered>) -> Option<RegisteredView> {
    match r {
        Some(r) => Some(r@),
        None => None,
    }
}

/// What the application is told.
#[derive(Debug, PartialEq, Eq)]
pub enum Message {
    /// Open this address in the browser.
    Open(String),
    SubscriptionChannel,
    ToggleContextPage(ContextPage),
    ToggleContextDrawer,
    UpdateConfig(TootConfig),
    /// The user typed this into the server field.
    ServerUpdate(String),
    RegisterMastodonClient,
    CompleteRegistration,
    StoreMastodonData(Mastodon),
    /// The user typed this into the authorization code field.
    CodeUpdate(String),
    StoreRegistration(Option<Registered>),
    /// A message for the timeline page.
    Home(pages::public::Message),
    /// Store this status in the cache.
    CacheStatus(Status),
    /// See to it that these images are cached.
    Fetch(Vec<String>),
    /// The fetch of the image at this address came back.
    Fetched(String, FetchReply),
    /// An intent raised by a shown status.
    Status(widgets::status::Message),
}

pub enum MessageView {
    Open(Seq<char>),
    SubscriptionChannel,
    ToggleContextPage(ContextPageView),
    ToggleContextDrawer,
    UpdateConfig(TootConfigView),
    ServerUpdate(Seq<char>),
    RegisterMastodonClient,
    CompleteRegistration,
    StoreMastodonData(MastodonView),
    CodeUpdate(Seq<char>),
    StoreRegistration(Option<RegisteredView>),
    Home(pages::public::MessageView),
    CacheStatus(StatusView),
    Fetch(Seq<Seq<char>>),
    Fetched(Seq<char>, FetchReplyView),
    Status(widgets::status::MessageView),
}

impl View for Message {
    type V = MessageView;

    open spec fn view(&self) -> MessageView {
        match self {
            Message::Open(url) => MessageView::Open(url@),
            Message::SubscriptionChannel => MessageView::SubscriptionChannel,
            Message::ToggleContextPage(page) => MessageView::ToggleContextPage(page@),
            Message::ToggleContextDrawer => MessageView::ToggleContextDrawer,
            Message::UpdateConfig(config) => MessageView::UpdateConfig(config@),
            Message::ServerUpdate(server) => MessageView::ServerUpdate(server@),
            Message::RegisterMastodonClient => MessageView::RegisterMastodonClient,
            Message::CompleteRegistration => MessageView::CompleteRegistration,
            Message::StoreMastodonData(mastodon) => MessageView::StoreMastodonData(mastodon@),
            Message::CodeUpdate(code) => MessageView::CodeUpdate(code@),
            Message::StoreRegistration(registration) => MessageView::StoreRegistration(
                option_registered_view(*registration),
            ),
            Message::Home(message) => MessageView::Home(message@),
            Message::CacheStatus(status) => MessageView::CacheStatus(status@),
            Message::Fetch(urls) => MessageView::Fetch(strings_view(urls@)),
            Message::Fetched(url, reply) => MessageView::Fetched(url@, reply@),
            Message::Status(message) => MessageView::Status(message@),
        }
    }
}

/// The views of a list of messages, in order.
pub open spec fn messages_view(messages: Seq<Message>) -> Seq<MessageView> {
    Seq::new(messages.len(), |i: int| messages[i]@)
}

impl MenuAction {
    /// What choosing this entry tells the application.
    pub fn message(&self) -> (res: Message)
        ensures
            res@ == MessageView::ToggleContextPage(ContextPageView::About),
    {
        match self {
            MenuAction::About => Message::ToggleContextPage(ContextPage::About),
        }
    }
}

/// What the application starts with.
#[derive(Debug, PartialEq, Eq)]
pub struct Flags {
    pub config: TootConfig,
    /// Whether there is a store to write the settings to.
    pub handler: bool,
}

/// Something the application wants done. It does none of these itself.
#[derive(Debug, PartialEq, Eq)]
pub enum Command {
    /// Write this server into the stored settings.
    SaveServer(String),
    /// Register the application at this server, and report the registration.
    Register(String),
    /// Open this address in the browser.
    OpenUrl(String),
    /// Exchange this authorization code for credentials, and report them.
    Authorize(String),
    /// Store these credentials for the next run.
    SaveClient(Mastodon),
    /// Set the window title anew.
    UpdateTitle,
    /// Fetch the image at this address, and report what came back.
    FetchImage(String),
    /// Carry out this intent at the server.
    Perform(widgets::status::Message),
    /// Tell the application this message.
    Dispatch(Message),
}

pub enum CommandView {
    SaveServer(Seq<char>),
    Register(Seq<char>),
    OpenUrl(Seq<char>),
    Authorize(Seq<char>),
    SaveClient(MastodonView),
    UpdateTitle,
    FetchImage(Seq<char>),
    Perform(widgets::status::MessageView),
    Dispatch(MessageView),
}

impl View for Command {
    type V = CommandView;

    open spec fn view(&self) -> CommandView {
        match self {
            Command::SaveServer(server) => CommandView::SaveServer(server@),
            Command::Register(server) => CommandView::Register(server@),
            Command::OpenUrl(url) => CommandView::OpenUrl(url@),
            Command::Authorize(code) => CommandView::Authorize(code@),
            Command::SaveClient(mastodon) => CommandView::SaveClient(mastodon@),
            Command::UpdateTitle => CommandView::UpdateTitle,
            Command::FetchImage(url) => CommandView::FetchImage(url@),
            Command::Perform(intent) => CommandView::Perform(intent@),
            Command::Dispatch(message) => CommandView::Dispatch(message@),
        }
    }
}

/// The views of a list of commands, in order.
pub open spec fn commands_view(commands: Seq<Command>) -> Seq<CommandView> {
    Seq::new(commands.len(), |i: int| commands[i]@)
}

/// What the window shows.
#[derive(Debug, Clone, Copy, PartialEq, Eq, Structural)]
pub enum Screen {
    /// The timeline.
    Timeline,
    /// A page that has nothing to show yet.
    NotImplemented,
    /// The field for the authorization code.
    Code,
    /// The field for the server.
    Login,
}

/// What the application stands for.
#[verifier::ext_equal]
pub struct AppModelView {
    pub nav: Page,
    pub context_page: ContextPageView,
    pub show_context: bool,
    pub config: TootConfigView,
    pub handler: bool,
    pub code: Seq<char>,
    pub registration: Option<RegisteredView>,
    pub mastodon: Option<MastodonView>,
    pub home: PublicView,
    pub cache: CacheView,
    pub next_waiter: u64,
}

/// The view of optional credentials.
pub open spec fn option_mastodon_view(m: Option<Mastodon>) -> Option<MastodonView> {
    match m {
        Some(m) => Some(m@),
        None => None,
    }
}

/// The number after `waiter`, starting over after the greatest.
pub open spec fn next_ticket(waiter: u64) -> u64 {
    if waiter == u64::MAX {
        0
    } else {
        (waiter + 1) as u64
    }
}

/// The image cache after each of `urls` was asked for in turn, the commands to
/// fetch those that nobody fetches yet, and the next free waiter number. The
/// first request is made in the name of `waiter`, each further one in the name
/// of the number after.
pub open spec fn request_all(handles: ImageCacheView, urls: Seq<Seq<char>>, waiter: u64) -> (
    ImageCacheView,
    Seq<CommandView>,
    u64,
)
    decreases urls.len(),
{
    if urls.len() == 0 {
        (handles, Seq::empty(), waiter)
    } else {
        let (before, commands, ticket) = request_all(handles, urls.drop_last(), waiter);
        let (after, action) = request_step(before, urls.last(), ticket);
        (
            after,
            if action is Start {
                commands.push(CommandView::FetchImage(urls.last()))
            } else {
                commands
            },
            next_ticket(ticket),
        )
    }
}

/// Each of `messages` as a command to tell it to the application.
pub open spec fn dispatch_all(messages: Seq<MessageView>) -> Seq<CommandView> {
    Seq::new(messages.len(), |i: int| CommandView::Dispatch(messages[i]))
}

/// The application after the page `page` was chosen in the navigation bar, and
/// what it wants done: the timeline page is handed the credentials, if there
/// are any, and the window title is set anew.
pub open spec fn nav_select(state: AppModelView, page: Page) -> (AppModelView, Seq<CommandView>) {
    let home = match state.mastodon {
        Some(mastodon) => if page == Page::Home {
            pages::public::update_state(
                state.home,
                pages::public::MessageView::SetClient(mastodon),
            )
        } else {
            state.home
        },
        None => state.home,
    };
    (AppModelView { nav: page, home, ..state }, seq![CommandView::UpdateTitle])
}

/// The application after it was told `message`, and what it wants done.
pub open spec fn app_step(state: AppModelView, message: MessageView) -> (
    AppModelView,
    Seq<CommandView>,
) {
    match message {
        MessageView::Home(m) => (
            AppModelView { home: pages::public::update_state(state.home, m), ..state },
            dispatch_all(pages::public::update_messages(m)),
        ),
        MessageView::ServerUpdate(server) => if state.handler {
            (
                AppModelView { config: TootConfigView { server }, ..state },
                seq![CommandView::SaveServer(server)],
            )
        } else {
            (state, Seq::empty())
        },
        MessageView::RegisterMastodonClient => (
            state,
            seq![CommandView::Register(state.config.server)],
        ),
        MessageView::StoreRegistration(registration) => (
            AppModelView { registration, ..state },
            match registration {
                Some(RegisteredView { authorize_url: Some(url) }) => seq![
                    CommandView::OpenUrl(url),
                ],
                _ => Seq::empty(),
            },
        ),
        MessageView::CompleteRegistration => match state.registration {
            Some(_) => (
                AppModelView { registration: None, ..state },
                seq![CommandView::Authorize(state.code)],
            ),
            None => (state, Seq::empty()),
        },
        MessageView::StoreMastodonData(mastodon) => {
            let stored = AppModelView { mastodon: Some(mastodon), ..state };
            (
                nav_select(stored, state.nav).0,
                seq![CommandView::SaveClient(mastodon)] + nav_select(stored, state.nav).1,
            )
        },
        MessageView::CodeUpdate(code) => (AppModelView { code, ..state }, Seq::empty()),
        MessageView::Open(url) => (state, seq![CommandView::OpenUrl(url)]),
        MessageView::SubscriptionChannel => (state, Seq::empty()),
        MessageView::ToggleContextPage(page) => if state.context_page == page {
            (AppModelView { show_context: !state.show_context, ..state }, Seq::empty())
        } else {
            (AppModelView { context_page: page, show_context: true, ..state }, Seq::empty())
        },
        MessageView::ToggleContextDrawer => (
            AppModelView { show_context: !state.show_context, ..state },
            Seq::empty(),
        ),
        MessageView::UpdateConfig(config) => (AppModelView { config, ..state }, Seq::empty()),
        MessageView::CacheStatus(status) => (
            AppModelView {
                cache: CacheView {
                    statuses: state.cache.statuses.insert(status.post.id, status),
                    handles: state.cache.handles,
                },
                ..state
            },
            Seq::empty(),
        ),
        MessageView::Fetch(urls) => {
            let (handles, commands, ticket) = request_all(
                state.cache.handles,
                urls,
                state.next_waiter,
            );
            (
                AppModelView {
                    cache: CacheView { statuses: state.cache.statuses, handles },
                    next_waiter: ticket,
                    ..state
                },
                commands,
            )
        },
        MessageView::Fetched(url, reply) => (
            AppModelView {
                cache: CacheView {
                    statuses: state.cache.statuses,
                    handles: complete_step(state.cache.handles, url, reply).0,
                },
                ..state
            },
            Seq::empty(),
        ),
        MessageView::Status(intent) => (state, seq![CommandView::Perform(intent)]),
    }
}

/// The window title: the name of the application, followed, where a page is
/// active, by a dash between blanks and the title of the page.
pub open spec fn window_title(app_title: Seq<char>, page_title: Option<Seq<char>>) -> Seq<char> {
    match page_title {
        Some(page) => app_title + " \u{2014} "@ + page,
        None => app_title,
    }
}

/// What the window shows: with credentials the timeline on the home page and a
/// notice on the others; without, the field for the authorization code while a
/// registration waits for it, else the field for the server.
pub open spec fn screen_of(state: AppModelView) -> Screen {
    match state.mastodon {
        Some(_) => if state.nav == Page::Home {
            Screen::Timeline
        } else {
            Screen::NotImplemented
        },
        None => if state.registration is Some {
            Screen::Code
        } else {
            Screen::Login
        },
    }
}

/// The application as it starts: on the home page, with the context drawer
/// closed on the page about the application, with nothing typed and no
/// registration under way, holding no status and no image, its timeline page
/// listening to the feed of all public statuses with the credentials of the
/// last run, or with empty ones if there are none.
pub open spec fn initial_state(
    config: TootConfigView,
    handler: bool,
    mastodon: Option<MastodonView>,
) -> AppModelView {
    AppModelView {
        nav: Page::Home,
        context_page: ContextPageView::About,
        show_context: false,
        config,
        handler,
        code: Seq::empty(),
        registration: None,
        mastodon,
        home: PublicView {
            mastodon: match mastodon {
                Some(m) => m,
                None => MastodonView { base: Seq::empty(), token: Seq::empty() },
            },
            statuses: Seq::empty(),
            timeline: TimelineType::Public,
        },
        cache: CacheView { statuses: Map::empty(), handles: ImageCacheView::empty() },
        next_waiter: 0,
    }
}

/// The application: what it knows and shows.
#[derive(Debug)]
pub struct AppModel {
    /// The page that is active in the navigation bar.
    pub nav: Page,
    pub context_page: ContextPage,
    /// Whether the context drawer is open.
    pub show_context: bool,
    pub config: TootConfig,
    /// Whether there is a store to write the settings to.
    pub handler: bool,
    /// What the user typed into the authorization code field.
    pub code: String,
    /// The registration that waits for its authorization code.
    pub registration: Option<Registered>,
    pub mastodon: Option<Mastodon>,
    /// The timeline page.
    pub home: Public,
    pub cache: Cache,
    /// The number in whose name the next image is asked for.
    pub next_waiter: u64,
}

impl View for AppModel {
    type V = AppModelView;

    open spec fn view(&self) -> AppModelView {
        AppModelView {
            nav: self.nav,
            context_page: self.context_page@,
            show_context: self.show_context,
            config: self.config@,
            handler: self.handler,
            code: self.code@,
            registration: option_registered_view(self.registration),
            mastodon: option_mastodon_view(self.mastodon),
            home: self.home.state(),
            cache: self.cache@,
            next_waiter: self.next_waiter,
        }
    }
}

/// Each of `messages` as a command to tell it to the application.
fn dispatch(messages: Vec<Message>) -> (res: Vec<Command>)
    ensures
        commands_view(res@) == dispatch_all(messages_view(messages@)),
{
    let ghost all = messages_view(messages@);
    let mut rest = messages;
    let mut out: Vec<Command> = Vec::new();
    assert(commands_view(out@) + dispatch_all(messages_view(rest@)) =~= dispatch_all(all));
    while rest.len() > 0
        invariant
            commands_view(out@) + dispatch_all(messages_view(rest@)) == dispatch_all(all),
        decreases rest.len(),
    {
        let ghost before = dispatch_all(messages_view(rest@));
        let ghost done = commands_view(out@);
        let message = rest.remove(0);
        out.push(Command::Dispatch(message));
        assert(commands_view(out@) + dispatch_all(messages_view(rest@)) =~= done + before);
    }
    assert(commands_view(out@) =~= commands_view(out@) + dispatch_all(messages_view(rest@)));
    out
}

impl AppModel {
    /// The application as it starts.
    pub fn init(flags: Flags, mastodon: Option<Mastodon>) -> (res: (Self, Vec<Command>))
        ensures
            res.0@ == initial_state(flags.config@, flags.handler, option_mastodon_view(mastodon)),
            commands_view(res.1@) == seq![CommandView::UpdateTitle],
    {
        let client = match &mastodon {
            Some(m) => m.clone(),
            None => Mastodon { base: String::new(), token: String::new() },
        };
        let app = AppModel {
            nav: Page::default(),
            context_page: ContextPage::default(),
            show_context: false,
            config: flags.config,
            handler: flags.handler,
            code: String::new(),
            registration: None,
            mastodon,
            home: Public::new(client, TimelineType::Public),
            cache: Cache::new(),
            next_waiter: 0,
        };
        let mut tasks: Vec<Command> = Vec::new();
        tasks.push(Command::UpdateTitle);
        assert(commands_view(tasks@) =~= seq![CommandView::UpdateTitle]);
        (app, tasks)
    }

    /// The window title.
    pub fn update_title(&self, app_title: &str, page_title: Option<&str>) -> (res: String)
        ensures
            res@ == window_title(
                app_title@,
                match page_title {
                    Some(page) => Some(page@),
                    None => None,
                },
            ),
    {
        let mut window_title = app_title.to_owned();
        match page_title {
            Some(page) => {
                window_title.append(" \u{2014} ");
                window_title.append(page);
            },
            None => {},
        }
        window_title
    }

    /// What the context drawer shows: its page while it is open, and nothing
    /// while it is closed.
    pub fn context_drawer(&self) -> (res: Option<&ContextPage>)
        ensures
            match res {
                Some(page) => self@.show_context && page@ == self@.context_page,
                None => !self@.show_context,
            },
    {
        if self.show_context {
            Some(&self.context_page)
        } else {
            None
        }
    }

    /// What the window shows.
    pub fn screen(&self) -> (res: Screen)
        ensures
            res == screen_of(self@),
    {
        match &self.mastodon {
            Some(_) => {
                if self.nav == Page::Home {
                    Screen::Timeline
                } else {
                    Screen::NotImplemented
                }
            },
            None => {
                if self.registration.is_some() {
                    Screen::Code
                } else {
                    Screen::Login
                }
            },
        }
    }

    /// The feed to listen to: that of the timeline page while it is the active
    /// page and has seen no status yet, none otherwise.
    pub fn subscription(&self) -> (res: Option<TimelineType>)
        ensures
            res == (if self@.nav == Page::Home && self@.home.statuses.len() == 0 {
                Some(self@.home.timeline)
            } else {
                None
            }),
    {
        if self.nav == Page::Home {
            self.home.subscription()
        } else {
            None
        }
    }

    /// Makes `page` the active page.
    pub fn on_nav_select(&mut self, page: Page) -> (res: Vec<Command>)
        ensures
            final(self)@ == nav_select(old(self)@, page).0,
            commands_view(res@) == nav_select(old(self)@, page).1,
    {
        self.nav = page;
        if page == Page::Home {
            match &self.mastodon {
                Some(mastodon) => {
                    let client = mastodon.clone();
                    let _ = self.home.update(pages::public::Message::SetClient(client));
                },
                None => {},
            }
        }
        let mut tasks: Vec<Command> = Vec::new();
        tasks.push(Command::UpdateTitle);
        assert(commands_view(tasks@) =~= seq![CommandView::UpdateTitle]);
        tasks
    }

    /// Asks for each of `urls`, and returns the commands to fetch those that
    /// nobody fetches yet.
    fn fetch_all(&mut self, urls: Vec<String>) -> (res: Vec<Command>)
        ensures
            final(self)@ == (AppModelView {
                cache: CacheView {
                    statuses: old(self)@.cache.statuses,
                    handles: request_all(
                        old(self)@.cache.handles,
                        strings_view(urls@),
                        old(self)@.next_waiter,
                    ).0,
                },
                next_waiter: request_all(
                    old(self)@.cache.handles,
                    strings_view(urls@),
                    old(self)@.next_waiter,
                ).2,
                ..old(self)@
            }),
            commands_view(res@) == request_all(
                old(self)@.cache.handles,
                strings_view(urls@),
                old(self)@.next_waiter,
            ).1,
    {
        let ghost all = strings_view(urls@);
        let ghost start = self@;
        let mut tasks: Vec<Command> = Vec::new();
        let mut i: usize = 0;
        assert(commands_view(tasks@) =~= Seq::<CommandView>::empty());
        assert(all.take(0) =~= Seq::<Seq<char>>::empty());
        while i < urls.len()
            invariant
                i <= urls.len(),
                all == strings_view(urls@),
                self@ == (AppModelView {
                    cache: CacheView {
                        statuses: start.cache.statuses,
                        handles: request_all(
                            start.cache.handles,
                            all.take(i as int),
                            start.next_waiter,
                        ).0,
                    },
                    next_waiter: request_all(
                        start.cache.handles,
                        all.take(i as int),
                        start.next_waiter,
                    ).2,
                    ..start
                }),
                commands_view(tasks@) == request_all(
                    start.cache.handles,
                    all.take(i as int),
                    start.next_waiter,
                ).1,
            decreases urls.len() - i,
        {
            let url = &urls[i];
            let ghost done = commands_view(tasks@);
            proof {
                assert(all.take(i + 1).drop_last() =~= all.take(i as int));
                assert(all.take(i + 1).last() == url@);
            }
            let waiter = self.next_waiter;
            match self.cache.request_image(url.as_str(), waiter) {
                FetchAction::Start => {
                    tasks.push(Command::FetchImage(url.clone()));
                    assert(commands_view(tasks@) =~= done.push(CommandView::FetchImage(url@)));
                },
                _ => {},
            }
            self.next_waiter = if waiter == u64::MAX {
                0
            } else {
                waiter + 1
            };
            i += 1;
        }
        assert(all.take(i as int) =~= all);
        tasks
    }

    /// Tells the application `message`, and returns what it wants done.
    pub fn update(&mut self, message: Message) -> (res: Vec<Command>)
        ensures
            final(self)@ == app_step(old(self)@, message@).0,
            commands_view(res@) == app_step(old(self)@, message@).1,
    {
        let mut tasks: Vec<Command> = Vec::new();
        assert(commands_view(tasks@) =~= Seq::<CommandView>::empty());
        match message {
            Message::Home(message) => {
                let messages = self.home.update(message);
                tasks = dispatch(messages);
            },
            Message::ServerUpdate(server) => {
                if self.handler {
                    tasks.push(Command::SaveServer(server.clone()));
                    self.config.server = server;
                    assert(commands_view(tasks@) =~= seq![CommandView::SaveServer(server@)]);
                }
            },
            Message::RegisterMastodonClient => {
                tasks.push(Command::Register(self.config.server.clone()));
                assert(commands_view(tasks@) =~= seq![
                    CommandView::Register(self@.config.server),
                ]);
            },
            Message::StoreRegistration(registration) => {
                match &registration {
                    Some(Registered { authorize_url: Some(url) }) => {
                        tasks.push(Command::OpenUrl(url.clone()));
                        assert(commands_view(tasks@) =~= seq![CommandView::OpenUrl(url@)]);
                    },
                    _ => {},
                }
                self.registration = registration;
            },
            Message::CompleteRegistration => {
                if self.registration.is_some() {
                    self.registration = None;
                    tasks.push(Command::Authorize(self.code.clone()));
                    assert(commands_view(tasks@) =~= seq![CommandView::Authorize(self@.code)]);
                }
            },
            Message::StoreMastodonData(mastodon) => {
                tasks.push(Command::SaveClient(mastodon.clone()));
                self.mastodon = Some(mastodon);
                let page = self.nav;
                let mut more = self.on_nav_select(page);
                let ghost first = commands_view(tasks@);
                let ghost second = commands_view(more@);
                tasks.append(&mut more);
                assert(commands_view(tasks@) =~= first + second);
                assert(first =~= seq![CommandView::SaveClient(mastodon@)]);
            },
            Message::CodeUpdate(code) => {
                self.code = code;
            },
            Message::Open(url) => {
                tasks.push(Command::OpenUrl(url));
                assert(commands_view(tasks@) =~= seq![CommandView::OpenUrl(url@)]);
            },
            Message::SubscriptionChannel => {},
            Message::ToggleContextPage(context_page) => {
                if self.context_page.same_as(&context_page) {
                    self.show_context = !self.show_context;
                } else {
                    self.context_page = context_page;
                    self.show_context = true;
                }
            },
            Message::ToggleContextDrawer => {
                self.show_context = !self.show_context;
            },
            Message::UpdateConfig(config) => {
                self.config = config;
            },
            Message::CacheStatus(status) => {
                self.cache.put_status(status);
            },
            Message::Fetch(urls) => {
                tasks = self.fetch_all(urls);
            },
            Message::Fetched(url, reply) => {
                let _ = self.cache.complete_image(url.as_str(), reply);
            },
            Message::Status(intent) => {
                tasks.push(Command::Perform(intent));
                assert(commands_view(tasks@) =~= seq![CommandView::Perform(intent@)]);
            },
        }
        tasks
    }
}

/// Each image is fetched once. When a list of images is asked for, the cache
/// holds what it held; a fetch is commanded for exactly those images of the
/// list that were neither held nor being fetched, and for none of them twice,
/// however often the list names it; and afterwards every image of the list is
/// held or being fetched.
pub proof fn lemma_request_all_fetches_once(
    handles: ImageCacheView,
    urls: Seq<Seq<char>>,
    waiter: u64,
)
    requires
        handles.wf(),
    ensures
        request_all(handles, urls, waiter).0.wf(),
        request_all(handles, urls, waiter).0.images == handles.images,
        forall|url: Seq<char>|
            #![trigger request_all(handles, urls, waiter).0.pending.contains_key(url)]
            request_all(handles, urls, waiter).0.pending.contains_key(url) <==> (
            handles.pending.contains_key(url) || (urls.contains(url)
                && !handles.images.contains_key(url))),
        forall|k: int|
            0 <= k < request_all(handles, urls, waiter).1.len() ==> {
                let command = #[trigger] request_all(handles, urls, waiter).1[k];
                &&& command is FetchImage
                &&& urls.contains(command->FetchImage_0)
                &&& !handles.images.contains_key(command->FetchImage_0)
                &&& !handles.pending.contains_key(command->FetchImage_0)
            },
        forall|i: int, j: int|
            0 <= i < request_all(handles, urls, waiter).1.len() && 0 <= j < request_all(
                handles,
                urls,
                waiter,
            ).1.len() && i != j ==> request_all(handles, urls, waiter).1[i] != request_all(
                handles,
                urls,
                waiter,
            ).1[j],
        forall|url: Seq<char>|
            #![trigger request_all(handles, urls, waiter).1.contains(CommandView::FetchImage(url))]
            urls.contains(url) && !handles.images.contains_key(url)
                && !handles.pending.contains_key(url) ==> request_all(
                handles,
                urls,
                waiter,
            ).1.contains(CommandView::FetchImage(url)),
    decreases urls.len(),
{
    if urls.len() > 0 {
        let rest = urls.drop_last();
        let last = urls.last();
        lemma_request_all_fetches_once(handles, rest, waiter);
        let before = request_all(handles, rest, waiter).0;
        let commands = request_all(handles, rest, waiter).1;
        let ticket = request_all(handles, rest, waiter).2;
        let after = request_all(handles, urls, waiter).0;
        let all = request_all(handles, urls, waiter).1;
        let action = request_step(before, last, ticket).1;
        assert(after == request_step(before, last, ticket).0);
        assert(all == if action is Start {
            commands.push(CommandView::FetchImage(last))
        } else {
            commands
        });
        assert(before.images.contains_key(last) == handles.images.contains_key(last));
        assert(before.pending.contains_key(last) <==> (handles.pending.contains_key(last) || (
        rest.contains(last) && !handles.images.contains_key(last))));
        assert forall|url: Seq<char>| urls.contains(url) <==> (rest.contains(url) || url
            == last) by {
            if urls.contains(url) {
                let i = choose|i: int| 0 <= i < urls.len() && urls[i] == url;
                if i < rest.len() {
                    assert(rest[i] == url);
                }
            }
            if rest.contains(url) {
                let i = choose|i: int| 0 <= i < rest.len() && rest[i] == url;
                assert(urls[i] == url);
            }
            if url == last {
                assert(urls[urls.len() - 1] == url);
            }
        }
        assert forall|url: Seq<char>| #![trigger after.pending.contains_key(url)]
            after.pending.contains_key(url) <==> (handles.pending.contains_key(url) || (
            urls.contains(url) && !handles.images.contains_key(url))) by {
            assert(before.pending.contains_key(url) <==> (handles.pending.contains_key(url) || (
            rest.contains(url) && !handles.images.contains_key(url))));
        }
        assert forall|k: int| 0 <= k < all.len() implies {
            let command = #[trigger] all[k];
            &&& command is FetchImage
            &&& urls.contains(command->FetchImage_0)
            &&& !handles.images.contains_key(command->FetchImage_0)
            &&& !handles.pending.contains_key(command->FetchImage_0)
        } by {
            if k < commands.len() {
                assert(all[k] == commands[k]);
            } else {
                assert(all[k] == CommandView::FetchImage(last));
            }
        }
        assert forall|i: int, j: int| 0 <= i < all.len() && 0 <= j < all.len() && i != j implies all[i]
            != all[j] by {
            if i < commands.len() {
                assert(all[i] == commands[i]);
            }
            if j < commands.len() {
                assert(all[j] == commands[j]);
            }
        }
        assert forall|url: Seq<char>|
            urls.contains(url) && !handles.images.contains_key(url)
                && !handles.pending.contains_key(url) implies #[trigger] all.contains(
            CommandView::FetchImage(url),
        ) by {
            if rest.contains(url) {
                assert(commands.contains(CommandView::FetchImage(url)));
                let k = choose|k: int|
                    0 <= k < commands.len() && commands[k] == CommandView::FetchImage(url);
                assert(all[k] == CommandView::FetchImage(url));
            } else {
                assert(all[commands.len() as int] == CommandView::FetchImage(url));
            }
        }
    }
}

} // verus!
