//! The status resolver: from a status and what the cache holds to what a
//! renderer shows, and the intents a shown status can raise.

use crate::model::{
    attachments_view, clone_option, clone_tags, option_view, tags_view, Account, AccountView,
    Attachment, AttachmentView, Counters, ImageHandle, Post, PostView, Status, StatusView, TagView,
    Tag,
};
use crate::app;
use crate::utils::{Cache, CacheView};
use vstd::prelude::*;
use vstd::string::*;

verus! {

/// The picture shown for an account.
#[derive(Debug, PartialEq, Eq)]
pub enum Avatar {
    /// The avatar of the account, as cached.
    Cached(ImageHandle),
    /// The avatar is not cached: the renderer shows its stand-in.
    Fallback,
}

pub enum AvatarView {
    Cached(Seq<u8>),
    Fallback,
}

impl View for Avatar {
    type V = AvatarView;

    open spec fn view(&self) -> AvatarView {
        match self {
            Avatar::Cached(handle) => AvatarView::Cached(handle@),
            Avatar::Fallback => AvatarView::Fallback,
        }
    }
}

/// An attachment whose preview is at hand.
#[derive(Debug, PartialEq, Eq)]
pub struct ResolvedAttachment {
    pub image: ImageHandle,
    /// Where the full-resolution file lives, if the server gave a link.
    pub link: Option<String>,
}

pub struct ResolvedAttachmentView {
    pub image: Seq<u8>,
    pub link: Option<Seq<char>>,
}

impl View for ResolvedAttachment {
    type V = ResolvedAttachmentView;

    open spec fn view(&self) -> ResolvedAttachmentView {
        ResolvedAttachmentView { image: self.image@, link: option_view(self.link) }
    }
}

/// The views of a list of resolved attachments, in order.
pub open spec fn resolved_attachments_view(attachments: Seq<ResolvedAttachment>) -> Seq<
    ResolvedAttachmentView,
> {
    Seq::new(attachments.len(), |i: int| attachments[i]@)
}

/// A post, ready to be shown.
#[derive(Debug, PartialEq, Eq)]
pub struct ResolvedPost {
    pub id: String,
    pub account: Account,
    pub avatar: Avatar,
    /// The rich text of the post, as the server sent it.
    pub content: String,
    /// The attachments whose preview is cached, in the order of the post.
    pub attachments: Vec<ResolvedAttachment>,
    /// Whether the post has attachments at all, cached or not.
    pub has_media: bool,
    pub tags: Vec<Tag>,
    pub counters: Counters,
}

pub struct ResolvedPostView {
    pub id: Seq<char>,
    pub account: AccountView,
    pub avatar: AvatarView,
    pub content: Seq<char>,
    pub attachments: Seq<ResolvedAttachmentView>,
    pub has_media: bool,
    pub tags: Seq<TagView>,
    pub counters: Counters,
}

impl View for ResolvedPost {
    type V = ResolvedPostView;

    open spec fn view(&self) -> ResolvedPostView {
        ResolvedPostView {
            id: self.id@,
            account: self.account@,
            avatar: self.avatar@,
            content: self.content@,
            attachments: resolved_attachments_view(self.attachments@),
            has_media: self.has_media,
            tags: tags_view(self.tags@),
            counters: self.counters,
        }
    }
}

/// A status, ready to be shown.
#[derive(Debug, PartialEq, Eq)]
pub enum ResolvedStatus {
    /// A boost: who boosted, with their avatar, and the boosted post.
    Boost { booster: Account, avatar: Avatar, inner: ResolvedPost },
    /// A post of its own.
    Post(ResolvedPost),
}

pub enum ResolvedStatusView {
    Boost { booster: AccountView, avatar: AvatarView, inner: ResolvedPostView },
    Post(ResolvedPostView),
}

impl View for ResolvedStatus {
    type V = ResolvedStatusView;

    open spec fn view(&self) -> ResolvedStatusView {
        match self {
            ResolvedStatus::Boost { booster, avatar, inner } => ResolvedStatusView::Boost {
                booster: booster@,
                avatar: avatar@,
                inner: inner@,
            },
            ResolvedStatus::Post(post) => ResolvedStatusView::Post(post@),
        }
    }
}

/// The views of a list of resolved statuses, in order.
pub open spec fn resolved_statuses_view(statuses: Seq<ResolvedStatus>) -> Seq<ResolvedStatusView> {
    Seq::new(statuses.len(), |i: int| statuses[i]@)
}

/// The picture shown for the avatar at `url`: the cached image, or the
/// stand-in where none is cached.
pub open spec fn avatar_for(images: Map<Seq<char>, Seq<u8>>, url: Seq<char>) -> AvatarView {
    if images.contains_key(url) {
        AvatarView::Cached(images[url])
    } else {
        AvatarView::Fallback
    }
}

/// What is shown of one attachment: nothing where its preview is not cached.
pub open spec fn shown_attachment(
    images: Map<Seq<char>, Seq<u8>>,
    attachment: AttachmentView,
) -> Option<ResolvedAttachmentView> {
    if images.contains_key(attachment.preview_url) {
        Some(ResolvedAttachmentView { image: images[attachment.preview_url], link: attachment.url })
    } else {
        None
    }
}

/// `shown_attachment` with the images fixed.
pub open spec fn attachment_resolver(images: Map<Seq<char>, Seq<u8>>) -> spec_fn(
    AttachmentView,
) -> Option<ResolvedAttachmentView> {
    |attachment: AttachmentView| shown_attachment(images, attachment)
}

/// What is shown of a list of attachments: those whose preview is cached, in
/// their order.
pub open spec fn shown_attachments(
    images: Map<Seq<char>, Seq<u8>>,
    attachments: Seq<AttachmentView>,
) -> Seq<ResolvedAttachmentView> {
    attachments.filter_map(attachment_resolver(images))
}

/// What is shown of a post.
pub open spec fn resolve_post(post: PostView, cache: CacheView) -> ResolvedPostView {
    ResolvedPostView {
        id: post.id,
        account: post.account,
        avatar: avatar_for(cache.handles.images, post.account.avatar),
        content: post.content,
        attachments: shown_attachments(cache.handles.images, post.media_attachments),
        has_media: post.media_attachments.len() > 0,
        tags: post.tags,
        counters: post.counters,
    }
}

/// The post that a boost of `embedded` shows: the cached copy of that post
/// where the cache holds a status under its identifier, else the embedded one.
pub open spec fn boosted_post(embedded: PostView, cache: CacheView) -> PostView {
    if cache.statuses.contains_key(embedded.id) {
        cache.statuses[embedded.id].post
    } else {
        embedded
    }
}

/// What is shown of a status. A boost is unwrapped one level: what the boosted
/// post may boost in turn is not followed.
pub open spec fn resolve(status: StatusView, cache: CacheView) -> ResolvedStatusView {
    match status.reblog {
        Some(embedded) => ResolvedStatusView::Boost {
            booster: status.post.account,
            avatar: avatar_for(cache.handles.images, status.post.account.avatar),
            inner: resolve_post(boosted_post(embedded, cache), cache),
        },
        None => ResolvedStatusView::Post(resolve_post(status.post, cache)),
    }
}

/// The picture to show for the avatar at `url`.
fn resolve_avatar(url: &String, cache: &Cache) -> (res: Avatar)
    ensures
        res@ == avatar_for(cache@.handles.images, url@),
{
    match cache.get_image(url.as_str()) {
        Some(handle) => Avatar::Cached(handle.clone()),
        None => Avatar::Fallback,
    }
}

/// The attachments to show.
fn resolve_attachments(attachments: &Vec<Attachment>, cache: &Cache) -> (res: Vec<
    ResolvedAttachment,
>)
    ensures
        resolved_attachments_view(res@) == shown_attachments(
            cache@.handles.images,
            attachments_view(attachments@),
        ),
{
    let ghost all = attachments_view(attachments@);
    let ghost f = attachment_resolver(cache@.handles.images);
    let mut out: Vec<ResolvedAttachment> = Vec::new();
    let mut i: usize = 0;
    assert(resolved_attachments_view(out@) =~= all.take(0).filter_map(f));
    while i < attachments.len()
        invariant
            i <= attachments.len(),
            all == attachments_view(attachments@),
            f == attachment_resolver(cache@.handles.images),
            resolved_attachments_view(out@) == all.take(i as int).filter_map(f),
        decreases attachments.len() - i,
    {
        let attachment = &attachments[i];
        let ghost before = resolved_attachments_view(out@);
        proof {
            assert(all.take(i + 1).drop_last() =~= all.take(i as int));
            assert(all.take(i + 1).last() == attachment@);
        }
        match cache.get_image(attachment.preview_url.as_str()) {
            Some(handle) => {
                let shown = ResolvedAttachment {
                    image: handle.clone(),
                    link: clone_option(&attachment.url),
                };
                out.push(shown);
                assert(resolved_attachments_view(out@) =~= before + seq![shown@]);
            },
            None => {},
        }
        i += 1;
    }
    assert(all.take(i as int) =~= all);
    out
}

/// What to show of a post.
fn resolve_one(post: &Post, cache: &Cache) -> (res: ResolvedPost)
    ensures
        res@ == resolve_post(post@, cache@),
{
    ResolvedPost {
        id: post.id.clone(),
        account: post.account.clone(),
        avatar: resolve_avatar(&post.account.avatar, cache),
        content: post.content.clone(),
        attachments: resolve_attachments(&post.media_attachments, cache),
        has_media: post.media_attachments.len() > 0,
        tags: clone_tags(&post.tags),
        counters: post.counters,
    }
}

/// Resolves `source` against what `cache` holds. Reads the cache only, and
/// never fails: what is not cached is left out or stood in for.
pub fn status(source: &Status, cache: &Cache) -> (res: ResolvedStatus)
    ensures
        res@ == resolve(source@, cache@),
{
    match &source.reblog {
        Some(embedded) => {
            let inner = match cache.get_status(embedded.id.as_str()) {
                Some(cached) => resolve_one(&cached.post, cache),
                None => resolve_one(embedded, cache),
            };
            ResolvedStatus::Boost {
                booster: source.post.account.clone(),
                avatar: resolve_avatar(&source.post.account.avatar, cache),
                inner,
            }
        },
        None => ResolvedStatus::Post(resolve_one(&source.post, cache)),
    }
}

/// Filtering a list piece by piece gives the pieces of the filtered list.
pub proof fn lemma_shown_attachments_concat(
    images: Map<Seq<char>, Seq<u8>>,
    a: Seq<AttachmentView>,
    b: Seq<AttachmentView>,
)
    ensures
        shown_attachments(images, a + b) == shown_attachments(images, a) + shown_attachments(
            images,
            b,
        ),
    decreases b.len(),
{
    let f = attachment_resolver(images);
    if b.len() == 0 {
        assert(a + b =~= a);
        assert(a.filter_map(f) + b.filter_map(f) =~= a.filter_map(f));
    } else {
        assert((a + b).drop_last() =~= a + b.drop_last());
        assert((a + b).last() == b.last());
        lemma_shown_attachments_concat(images, a, b.drop_last());
        match f(b.last()) {
            Some(s) => {
                assert((a + b.drop_last()).filter_map(f) + seq![s] =~= a.filter_map(f) + (
                b.drop_last().filter_map(f) + seq![s]));
            },
            None => {},
        }
    }
}

/// The cached copy wins. Where a status boosts a post under whose identifier
/// the cache holds a status, what is shown of the boosted post is taken from
/// the cached copy, its counters among the rest, and not from the embedded one.
pub proof fn lemma_boost_prefers_cached(status: StatusView, cache: CacheView)
    requires
        status.reblog is Some,
        cache.statuses.contains_key(status.reblog->Some_0.id),
    ensures
        resolve(status, cache) is Boost,
        resolve(status, cache)->inner == resolve_post(
            cache.statuses[status.reblog->Some_0.id].post,
            cache,
        ),
        resolve(status, cache)->inner.counters
            == cache.statuses[status.reblog->Some_0.id].post.counters,
{
}

/// Where the cache holds no status under the identifier of the boosted post,
/// the embedded copy is shown.
pub proof fn lemma_boost_falls_back_to_embedded(status: StatusView, cache: CacheView)
    requires
        status.reblog is Some,
        !cache.statuses.contains_key(status.reblog->Some_0.id),
    ensures
        resolve(status, cache) is Boost,
        resolve(status, cache)->inner == resolve_post(status.reblog->Some_0, cache),
{
}

/// An attachment whose preview is not cached is left out: what is shown is
/// what would be shown if the post did not have that attachment.
pub proof fn lemma_uncached_attachment_is_omitted(
    images: Map<Seq<char>, Seq<u8>>,
    attachments: Seq<AttachmentView>,
    i: int,
)
    requires
        0 <= i < attachments.len(),
        !images.contains_key(attachments[i].preview_url),
    ensures
        shown_attachments(images, attachments) == shown_attachments(
            images,
            attachments.remove(i),
        ),
{
    let f = attachment_resolver(images);
    let head = attachments.take(i);
    let one = seq![attachments[i]];
    let tail = attachments.skip(i + 1);
    assert(attachments =~= head + one + tail);
    assert(attachments.remove(i) =~= head + tail);
    lemma_shown_attachments_concat(images, head + one, tail);
    lemma_shown_attachments_concat(images, head, one);
    lemma_shown_attachments_concat(images, head, tail);
    assert(one.drop_last() =~= Seq::<AttachmentView>::empty());
    assert(one.filter_map(f) =~= Seq::<ResolvedAttachmentView>::empty()) by {
        assert(one.last() == attachments[i]);
        assert(one.drop_last().filter_map(f) =~= Seq::<ResolvedAttachmentView>::empty());
    }
    assert(head.filter_map(f) + one.filter_map(f) =~= head.filter_map(f));
}

/// An attachment is shown if and only if it is one of the post whose preview
/// is cached, and then with the cached image and the link of the attachment.
pub proof fn lemma_shown_attachments_are_the_cached(
    images: Map<Seq<char>, Seq<u8>>,
    attachments: Seq<AttachmentView>,
    shown: ResolvedAttachmentView,
)
    ensures
        shown_attachments(images, attachments).contains(shown) <==> exists|i: int|
            0 <= i < attachments.len() && shown_attachment(images, #[trigger] attachments[i])
                == Some(shown),
    decreases attachments.len(),
{
    let f = attachment_resolver(images);
    let all = shown_attachments(images, attachments);
    if attachments.len() > 0 {
        let rest = attachments.drop_last();
        let last = attachments.last();
        let before = shown_attachments(images, rest);
        lemma_shown_attachments_are_the_cached(images, rest, shown);
        if all.contains(shown) {
            let j = choose|j: int| 0 <= j < all.len() && all[j] == shown;
            if j < before.len() {
                assert(before[j] == shown);
                assert(before.contains(shown));
                let i = choose|i: int|
                    0 <= i < rest.len() && shown_attachment(images, #[trigger] rest[i]) == Some(
                        shown,
                    );
                assert(attachments[i] == rest[i]);
            } else {
                assert(shown_attachment(images, attachments[attachments.len() - 1]) == Some(
                    shown,
                ));
            }
        }
        if exists|i: int|
            0 <= i < attachments.len() && shown_attachment(images, #[trigger] attachments[i])
                == Some(shown) {
            let i = choose|i: int|
                0 <= i < attachments.len() && shown_attachment(images, #[trigger] attachments[i])
                    == Some(shown);
            if i < rest.len() {
                assert(rest[i] == attachments[i]);
                assert(before.contains(shown));
                let j = choose|j: int| 0 <= j < before.len() && before[j] == shown;
                assert(all[j] == shown);
            } else {
                assert(f(last) == Some(shown));
                assert(all[before.len() as int] == shown);
            }
        }
    }
}

/// What the user wants done with a shown status. The resolver applies none of
/// these: they are handed on to whoever talks to the server.
#[derive(Debug, PartialEq, Eq)]
pub enum Message {
    OpenAccount(Account),
    /// Show the status with this identifier with its thread.
    ExpandStatus(String),
    Reply(String),
    /// Favourite the status with this identifier, or take the favourite back:
    /// the flag says whether the status is a favourite now.
    Favorite(String, bool),
    Boost(String),
    Bookmark(String),
    OpenLink(String),
}

pub enum MessageView {
    OpenAccount(AccountView),
    ExpandStatus(Seq<char>),
    Reply(Seq<char>),
    Favorite(Seq<char>, bool),
    Boost(Seq<char>),
    Bookmark(Seq<char>),
    OpenLink(Seq<char>),
}

impl View for Message {
    type V = MessageView;

    open spec fn view(&self) -> MessageView {
        match self {
            Message::OpenAccount(account) => MessageView::OpenAccount(account@),
            Message::ExpandStatus(id) => MessageView::ExpandStatus(id@),
            Message::Reply(id) => MessageView::Reply(id@),
            Message::Favorite(id, favourited) => MessageView::Favorite(id@, *favourited),
            Message::Boost(id) => MessageView::Boost(id@),
            Message::Bookmark(id) => MessageView::Bookmark(id@),
            Message::OpenLink(url) => MessageView::OpenLink(url@),
        }
    }
}

/// The view of an optional application message.
pub open spec fn option_message_view(m: Option<app::Message>) -> Option<app::MessageView> {
    match m {
        Some(m) => Some(m@),
        None => None,
    }
}

/// What the application is told when a shown status raises `message`. An
/// account or a status opens in the context drawer and a link in the browser.
/// A reply, a favourite, a boost and a bookmark are handed on as they are, for
/// whoever talks to the server to carry out.
pub open spec fn intent_message(message: MessageView) -> Option<app::MessageView> {
    match message {
        MessageView::OpenAccount(account) => Some(
            app::MessageView::ToggleContextPage(app::ContextPageView::Account(account)),
        ),
        MessageView::ExpandStatus(id) => Some(
            app::MessageView::ToggleContextPage(app::ContextPageView::Status(id)),
        ),
        MessageView::Reply(id) => Some(app::MessageView::Status(MessageView::Reply(id))),
        MessageView::Favorite(id, favourited) => Some(
            app::MessageView::Status(MessageView::Favorite(id, favourited)),
        ),
        MessageView::Boost(id) => Some(app::MessageView::Status(MessageView::Boost(id))),
        MessageView::Bookmark(id) => Some(app::MessageView::Status(MessageView::Bookmark(id))),
        MessageView::OpenLink(url) => Some(app::MessageView::Open(url)),
    }
}

/// Turns an intent into what the application is told.
pub fn update(message: Message) -> (res: Option<app::Message>)
    ensures
        option_message_view(res) == intent_message(message@),
{
    match message {
        Message::OpenAccount(account) => Some(
            app::Message::ToggleContextPage(app::ContextPage::Account(account)),
        ),
        Message::ExpandStatus(id) => Some(
            app::Message::ToggleContextPage(app::ContextPage::Status(id)),
        ),
        Message::Reply(id) => Some(app::Message::Status(Message::Reply(id))),
        Message::Favorite(id, favourited) => Some(
            app::Message::Status(Message::Favorite(id, favourited)),
        ),
        Message::Boost(id) => Some(app::Message::Status(Message::Boost(id))),
        Message::Bookmark(id) => Some(app::Message::Status(Message::Bookmark(id))),
        Message::OpenLink(url) => Some(app::Message::Open(url)),
    }
}

impl ResolvedPost {
    /// The line above the text of the post: the display name of its author,
    /// a blank and an at sign, and the user name.
    pub fn heading(&self) -> (res: String)
        ensures
            res@ == self@.account.display_name + " @"@ + self@.account.username,
    {
        let mut out = self.account.display_name.clone();
        out.append(" @");
        out.append(self.account.username.as_str());
        out
    }

    /// The intent to see the author of the post.
    pub fn open_account(&self) -> (res: Message)
        ensures
            res@ == MessageView::OpenAccount(self@.account),
    {
        Message::OpenAccount(self.account.clone())
    }

    /// The intent to see the post with its thread.
    pub fn expand(&self) -> (res: Message)
        ensures
            res@ == MessageView::ExpandStatus(self@.id),
    {
        Message::ExpandStatus(self.id.clone())
    }

    /// The intent to reply to the post.
    pub fn reply(&self) -> (res: Message)
        ensures
            res@ == MessageView::Reply(self@.id),
    {
        Message::Reply(self.id.clone())
    }

    /// The intent to toggle the favourite; it says whether the post is a
    /// favourite now.
    pub fn favorite(&self) -> (res: Message)
        ensures
            res@ == MessageView::Favorite(self@.id, self@.counters.favourited),
    {
        Message::Favorite(self.id.clone(), self.counters.favourited)
    }

    /// The intent to boost the post.
    pub fn boost(&self) -> (res: Message)
        ensures
            res@ == MessageView::Boost(self@.id),
    {
        Message::Boost(self.id.clone())
    }

    /// The intent to bookmark the post.
    pub fn bookmark(&self) -> (res: Message)
        ensures
            res@ == MessageView::Bookmark(self@.id),
    {
        Message::Bookmark(self.id.clone())
    }
}

/// The view of an optional intent.
pub open spec fn option_intent_view(m: Option<Message>) -> Option<MessageView> {
    match m {
        Some(m) => Some(m@),
        None => None,
    }
}

impl ResolvedAttachment {
    /// The intent to open the full-resolution file, where the attachment links
    /// one.
    pub fn open(&self) -> (res: Option<Message>)
        ensures
            option_intent_view(res) == (match self@.link {
                Some(url) => Some(MessageView::OpenLink(url)),
                None => None,
            }),
    {
        match &self.link {
            Some(url) => Some(Message::OpenLink(url.clone())),
            None => None,
        }
    }
}

/// The label of a hashtag: a hash sign and its name.
pub fn tag_label(tag: &Tag) -> (res: String)
    ensures
        res@ == "#"@ + tag@.name,
{
    let mut out = String::from_str("#");
    out.append(tag.name.as_str());
    out
}

/// The intent to open the page of a hashtag.
pub fn open_tag(tag: &Tag) -> (res: Message)
    ensures
        res@ == MessageView::OpenLink(tag@.url),
{
    Message::OpenLink(tag.url.clone())
}

impl ResolvedStatus {
    /// The post that is shown: the boosted one, for a boost.
    pub fn post(&self) -> (res: &ResolvedPost)
        ensures
            res@ == (match self@ {
                ResolvedStatusView::Boost { inner, .. } => inner,
                ResolvedStatusView::Post(post) => post,
            }),
    {
        match self {
            ResolvedStatus::Boost { inner, .. } => inner,
            ResolvedStatus::Post(post) => post,
        }
    }

    /// The line above a boost: the display name of who boosted, and the word
    /// "boosted". A post of its own has none.
    pub fn boost_label(&self) -> (res: Option<String>)
        ensures
            option_view(res) == (match self@ {
                ResolvedStatusView::Boost { booster, .. } => Some(
                    booster.display_name + " boosted"@,
                ),
                ResolvedStatusView::Post(_) => None,
            }),
    {
        match self {
            ResolvedStatus::Boost { booster, .. } => {
                let mut out = booster.display_name.clone();
                out.append(" boosted");
                Some(out)
            },
            ResolvedStatus::Post(_) => None,
        }
    }

    /// The intent to see who boosted. A post of its own has none.
    pub fn open_booster_account(&self) -> (res: Option<Message>)
        ensures
            option_intent_view(res) == (match self@ {
                ResolvedStatusView::Boost { booster, .. } => Some(
                    MessageView::OpenAccount(booster),
                ),
                ResolvedStatusView::Post(_) => None,
            }),
    {
        match self {
            ResolvedStatus::Boost { booster, .. } => Some(Message::OpenAccount(booster.clone())),
            ResolvedStatus::Post(_) => None,
        }
    }

    /// The intent to see the author of the boosted post, which a press on
    /// the line above a boost raises. A post of its own has none.
    pub fn open_boosted_account(&self) -> (res: Option<Message>)
        ensures
            option_intent_view(res) == (match self@ {
                ResolvedStatusView::Boost { inner, .. } => Some(
                    MessageView::OpenAccount(inner.account),
                ),
                ResolvedStatusView::Post(_) => None,
            }),
    {
        match self {
            ResolvedStatus::Boost { inner, .. } => Some(inner.open_account()),
            ResolvedStatus::Post(_) => None,
        }
    }
}

#[verifier::external_type_specification]
#[verifier::external_body]
pub struct ExRichTextError(html2text::Error);

/// The text that `html2text` lays out from the markup `html` in lines of at
/// most `width` columns, with its rich decorator and no further settings;
/// `None` where it reports an error.
pub uninterp spec fn rich_text(html: Seq<char>, width: usize) -> Option<Seq<char>>;

/// The byte of `bytes` at the place `at`, and zero past its end.
pub open spec fn byte_or_zero(bytes: Seq<u8>, at: int) -> u8 {
    if 0 <= at < bytes.len() {
        bytes[at]
    } else {
        0
    }
}

/// The lower-case form of an ASCII letter, and any other byte as it is.
pub open spec fn ascii_lower(byte: u8) -> u8 {
    if 65 <= byte <= 90 {
        (byte + 32) as u8
    } else {
        byte
    }
}

/// Whether `word` stands in `bytes` at the place `at`, letter for letter.
/// `word` holds no zero byte.
pub open spec fn exact_at(bytes: Seq<u8>, word: Seq<u8>, at: int) -> bool {
    forall|k: int| 0 <= k < word.len() ==> byte_or_zero(bytes, at + k) == #[trigger] word[k]
}

/// Whether `word` stands in `bytes` at the place `at`, in whatever case its
/// letters are written. `word` is given in lower case and holds no zero byte.
pub open spec fn word_at(bytes: Seq<u8>, word: Seq<u8>, at: int) -> bool {
    forall|k: int|
        0 <= k < word.len() ==> ascii_lower(byte_or_zero(bytes, at + k)) == #[trigger] word[k]
}

/// Whether the character that begins with the byte at `at` is one that is as
/// wide in a string as it is alone, whatever stands beside it. These are the
/// printable ASCII characters with tab, line feed and carriage return, and of
/// the others those from U+00A0 to U+05FF, from U+2000 to U+2CFF but for the
/// zero width joiner, from U+2D80 to U+9FFF, from U+AC00 to U+D7BF, and from
/// U+1F000 to U+1FFFF but for the emoji modifiers. A byte that continues a
/// character is judged with the byte that begins it.
pub open spec fn plain_character_at(bytes: Seq<u8>, at: int) -> bool {
    let b = byte_or_zero(bytes, at);
    let b1 = byte_or_zero(bytes, at + 1);
    let b2 = byte_or_zero(bytes, at + 2);
    let b3 = byte_or_zero(bytes, at + 3);
    if b < 0x20 {
        b == 9 || b == 10 || b == 13
    } else if b < 0x7f {
        true
    } else if b == 0x7f {
        false
    } else if b < 0xc2 {
        true
    } else if b == 0xc2 {
        b1 >= 0xa0
    } else if b <= 0xd7 {
        true
    } else if b <= 0xe1 {
        false
    } else if b == 0xe2 {
        !(b1 == 0x80 && b2 == 0x8d) && b1 != 0xb4 && b1 != 0xb5
    } else if b <= 0xe9 {
        true
    } else if b == 0xea {
        b1 >= 0xb0
    } else if b <= 0xec {
        true
    } else if b == 0xed {
        b1 <= 0x9e
    } else if b <= 0xef {
        false
    } else if b == 0xf0 {
        b1 == 0x9f && !(b2 == 0x8f && b3 >= 0xbb)
    } else {
        false
    }
}

/// Whether `byte` is an ASCII letter or digit.
pub open spec fn is_alphanumeric(byte: u8) -> bool {
    48 <= byte <= 57 || 65 <= byte <= 90 || 97 <= byte <= 122
}

/// The bytes of `amp;`.
pub open spec fn amp_reference() -> Seq<u8> {
    seq![97u8, 109u8, 112u8, 59u8]
}

/// The bytes of `lt;`.
pub open spec fn lt_reference() -> Seq<u8> {
    seq![108u8, 116u8, 59u8]
}

/// The bytes of `gt;`.
pub open spec fn gt_reference() -> Seq<u8> {
    seq![103u8, 116u8, 59u8]
}

/// The bytes of `quot;`.
pub open spec fn quot_reference() -> Seq<u8> {
    seq![113u8, 117u8, 111u8, 116u8, 59u8]
}

/// The bytes of `apos;`.
pub open spec fn apos_reference() -> Seq<u8> {
    seq![97u8, 112u8, 111u8, 115u8, 59u8]
}

/// The bytes of `nbsp;`.
pub open spec fn nbsp_reference() -> Seq<u8> {
    seq![110u8, 98u8, 115u8, 112u8, 59u8]
}

/// The bytes of `#39;`, the apostrophe by its number.
pub open spec fn apostrophe_reference() -> Seq<u8> {
    seq![35u8, 51u8, 57u8, 59u8]
}

/// Whether an ampersand at `at`, if there is one, stands for itself or begins
/// one of the character references `&amp;`, `&lt;`, `&gt;`, `&quot;`,
/// `&apos;`, `&nbsp;` and `&#39;`. Any other reference may stand for any
/// character.
pub open spec fn reference_is_plain_at(bytes: Seq<u8>, at: int) -> bool {
    let next = byte_or_zero(bytes, at + 1);
    ||| byte_or_zero(bytes, at) != 38
    ||| !is_alphanumeric(next) && next != 35
    ||| exact_at(bytes, amp_reference(), at + 1)
    ||| exact_at(bytes, lt_reference(), at + 1)
    ||| exact_at(bytes, gt_reference(), at + 1)
    ||| exact_at(bytes, quot_reference(), at + 1)
    ||| exact_at(bytes, apos_reference(), at + 1)
    ||| exact_at(bytes, nbsp_reference(), at + 1)
    ||| exact_at(bytes, apostrophe_reference(), at + 1)
}

/// Whether `byte` is one of the blanks that may stand between the parts of a
/// tag.
pub open spec fn is_blank(byte: u8) -> bool {
    byte == 9 || byte == 10 || byte == 12 || byte == 13 || byte == 32
}

/// Whether what stands in `bytes` from `at` on is an equals sign, after any
/// number of blanks: what follows the name of an attribute that is given a
/// value.
pub open spec fn assigned_at(bytes: Seq<u8>, at: int) -> bool
    decreases bytes.len() - at,
{
    if at < 0 || at >= bytes.len() {
        false
    } else if is_blank(bytes[at]) {
        assigned_at(bytes, at + 1)
    } else {
        bytes[at] == 61
    }
}

/// The first place from `at` on that holds no blank, equals sign or quote:
/// where the value of an attribute begins whose name ends before `at`.
pub open spec fn value_start(bytes: Seq<u8>, at: int) -> int
    decreases bytes.len() - at,
{
    if 0 <= at < bytes.len() && (is_blank(bytes[at]) || bytes[at] == 61 || bytes[at] == 34
        || bytes[at] == 39) {
        value_start(bytes, at + 1)
    } else {
        at
    }
}

/// Whether the signs and digits that stand in `bytes` from `at` on, after the
/// `seen` digits before them, come to ten digits or more, or run into a
/// character reference, which may stand for a digit.
pub open spec fn long_number_at(bytes: Seq<u8>, at: int, seen: nat) -> bool
    decreases bytes.len() - at,
{
    if at < 0 || at >= bytes.len() {
        false
    } else if bytes[at] == 38 {
        true
    } else if 48 <= bytes[at] <= 57 {
        seen + 1 >= 10 || long_number_at(bytes, at + 1, seen + 1)
    } else if bytes[at] == 43 || bytes[at] == 45 {
        long_number_at(bytes, at + 1, seen)
    } else {
        false
    }
}

/// The bytes of `start`, the attribute that numbers an ordered list.
pub open spec fn start_attribute() -> Seq<u8> {
    seq![115u8, 116u8, 97u8, 114u8, 116u8]
}

/// The bytes of `colspan`, the attribute that widens a table cell.
pub open spec fn colspan_attribute() -> Seq<u8> {
    seq![99u8, 111u8, 108u8, 115u8, 112u8, 97u8, 110u8]
}

/// The bytes of `rowspan`, the attribute that heightens a table cell.
pub open spec fn rowspan_attribute() -> Seq<u8> {
    seq![114u8, 111u8, 119u8, 115u8, 112u8, 97u8, 110u8]
}

/// Whether an attribute `start` may stand at `at` with a number of ten digits
/// or more for its value.
pub open spec fn numbered_at(bytes: Seq<u8>, at: int) -> bool {
    &&& word_at(bytes, start_attribute(), at)
    &&& assigned_at(bytes, at + 5)
    &&& long_number_at(bytes, value_start(bytes, at + 5), 0)
}

/// Whether an attribute `colspan` or `rowspan` may stand at `at` with a value.
pub open spec fn spanned_at(bytes: Seq<u8>, at: int) -> bool {
    &&& word_at(bytes, colspan_attribute(), at) || word_at(bytes, rowspan_attribute(), at)
    &&& assigned_at(bytes, at + 7)
}

/// The bytes of `<pre`, with which the tag of a preformatted block opens.
pub open spec fn pre_tag() -> Seq<u8> {
    seq![60u8, 112u8, 114u8, 101u8]
}

/// Whether the tag of a preformatted block may open at `at`.
pub open spec fn preformatted_at(bytes: Seq<u8>, at: int) -> bool {
    word_at(bytes, pre_tag(), at)
}

/// Whether nothing begins at `at` that keeps markup from being laid out.
pub open spec fn plain_at(bytes: Seq<u8>, at: int) -> bool {
    &&& plain_character_at(bytes, at)
    &&& reference_is_plain_at(bytes, at)
    &&& !numbered_at(bytes, at)
    &&& !spanned_at(bytes, at)
    &&& !preformatted_at(bytes, at)
}

/// Whether markup with these bytes is plain: made of characters that are as
/// wide in a string as alone, written as they are or by one of a few
/// references, with no ordered list numbered from ten digits or more, no
/// table cell that spans and no preformatted block.
pub open spec fn plain_bytes(bytes: Seq<u8>) -> bool {
    forall|at: int| 0 <= at < bytes.len() ==> plain_at(bytes, at)
}

/// Whether the markup `html` is plain.
pub open spec fn plain_markup(html: Seq<char>) -> bool {
    plain_bytes(vstd::utf8::encode_utf8(html))
}

/// The words the markup is searched for.
struct Vocabulary {
    start: Vec<u8>,
    colspan: Vec<u8>,
    rowspan: Vec<u8>,
    amp: Vec<u8>,
    lt: Vec<u8>,
    gt: Vec<u8>,
    quot: Vec<u8>,
    apos: Vec<u8>,
    nbsp: Vec<u8>,
    apostrophe: Vec<u8>,
    pre: Vec<u8>,
}

impl Vocabulary {
    spec fn wf(&self) -> bool {
        &&& self.start@ == start_attribute()
        &&& self.colspan@ == colspan_attribute()
        &&& self.rowspan@ == rowspan_attribute()
        &&& self.amp@ == amp_reference()
        &&& self.lt@ == lt_reference()
        &&& self.gt@ == gt_reference()
        &&& self.quot@ == quot_reference()
        &&& self.apos@ == apos_reference()
        &&& self.nbsp@ == nbsp_reference()
        &&& self.apostrophe@ == apostrophe_reference()
        &&& self.pre@ == pre_tag()
    }

    fn new() -> (res: Self)
        ensures
            res.wf(),
    {
        let res = Vocabulary {
            start: vec![115u8, 116u8, 97u8, 114u8, 116u8],
            colspan: vec![99u8, 111u8, 108u8, 115u8, 112u8, 97u8, 110u8],
            rowspan: vec![114u8, 111u8, 119u8, 115u8, 112u8, 97u8, 110u8],
            amp: vec![97u8, 109u8, 112u8, 59u8],
            lt: vec![108u8, 116u8, 59u8],
            gt: vec![103u8, 116u8, 59u8],
            quot: vec![113u8, 117u8, 111u8, 116u8, 59u8],
            apos: vec![97u8, 112u8, 111u8, 115u8, 59u8],
            nbsp: vec![110u8, 98u8, 115u8, 112u8, 59u8],
            apostrophe: vec![35u8, 51u8, 57u8, 59u8],
            pre: vec![60u8, 112u8, 114u8, 101u8],
        };
        assert(res.start@ =~= start_attribute());
        assert(res.colspan@ =~= colspan_attribute());
        assert(res.rowspan@ =~= rowspan_attribute());
        assert(res.amp@ =~= amp_reference());
        assert(res.lt@ =~= lt_reference());
        assert(res.gt@ =~= gt_reference());
        assert(res.quot@ =~= quot_reference());
        assert(res.apos@ =~= apos_reference());
        assert(res.nbsp@ =~= nbsp_reference());
        assert(res.apostrophe@ =~= apostrophe_reference());
        assert(res.pre@ =~= pre_tag());
        res
    }
}

/// The byte that stands `ahead` places after `at`, and zero past the end.
fn byte_after(bytes: &[u8], at: usize, ahead: usize) -> (res: u8)
    requires
        at <= bytes.len(),
    ensures
        res == byte_or_zero(bytes@, at + ahead),
{
    if ahead < bytes.len() - at {
        bytes[at + ahead]
    } else {
        0
    }
}

/// Whether `word` stands in `bytes` at the place `at`, letter for letter.
fn is_exact_at(bytes: &[u8], word: &Vec<u8>, at: usize) -> (res: bool)
    requires
        at <= bytes.len(),
    ensures
        res == exact_at(bytes@, word@, at as int),
{
    let mut k: usize = 0;
    while k < word.len()
        invariant
            k <= word.len(),
            at <= bytes.len(),
            forall|j: int| 0 <= j < k ==> byte_or_zero(bytes@, at + j) == #[trigger] word@[j],
        decreases word.len() - k,
    {
        if byte_after(bytes, at, k) != word[k] {
            return false;
        }
        k += 1;
    }
    true
}

/// Whether `word` stands in `bytes` at the place `at`, in whatever case its
/// letters are written.
fn is_word_at(bytes: &[u8], word: &Vec<u8>, at: usize) -> (res: bool)
    requires
        at <= bytes.len(),
    ensures
        res == word_at(bytes@, word@, at as int),
{
    let mut k: usize = 0;
    while k < word.len()
        invariant
            k <= word.len(),
            at <= bytes.len(),
            forall|j: int|
                0 <= j < k ==> ascii_lower(byte_or_zero(bytes@, at + j)) == #[trigger] word@[j],
        decreases word.len() - k,
    {
        let byte = byte_after(bytes, at, k);
        let lower = if 65 <= byte && byte <= 90 {
            byte + 32
        } else {
            byte
        };
        if lower != word[k] {
            return false;
        }
        k += 1;
    }
    true
}

/// Whether the character that begins at `at` is as wide in a string as alone.
fn is_plain_character_at(bytes: &[u8], at: usize) -> (res: bool)
    requires
        at <= bytes.len(),
    ensures
        res == plain_character_at(bytes@, at as int),
{
    let b = byte_after(bytes, at, 0);
    let b1 = byte_after(bytes, at, 1);
    let b2 = byte_after(bytes, at, 2);
    let b3 = byte_after(bytes, at, 3);
    if b < 0x20 {
        b == 9 || b == 10 || b == 13
    } else if b < 0x7f {
        true
    } else if b == 0x7f {
        false
    } else if b < 0xc2 {
        true
    } else if b == 0xc2 {
        b1 >= 0xa0
    } else if b <= 0xd7 {
        true
    } else if b <= 0xe1 {
        false
    } else if b == 0xe2 {
        !(b1 == 0x80 && b2 == 0x8d) && b1 != 0xb4 && b1 != 0xb5
    } else if b <= 0xe9 {
        true
    } else if b == 0xea {
        b1 >= 0xb0
    } else if b <= 0xec {
        true
    } else if b == 0xed {
        b1 <= 0x9e
    } else if b <= 0xef {
        false
    } else if b == 0xf0 {
        b1 == 0x9f && !(b2 == 0x8f && b3 >= 0xbb)
    } else {
        false
    }
}

/// Whether an ampersand at `at`, if there is one, stands for itself or begins
/// one of the few references that are read.
fn is_plain_reference_at(bytes: &[u8], words: &Vocabulary, at: usize) -> (res: bool)
    requires
        at < bytes.len(),
        words.wf(),
    ensures
        res == reference_is_plain_at(bytes@, at as int),
{
    if bytes[at] != 38 {
        return true;
    }
    let next = byte_after(bytes, at, 1);
    let alphanumeric = (48 <= next && next <= 57) || (65 <= next && next <= 90) || (97 <= next
        && next <= 122);
    if !alphanumeric && next != 35 {
        return true;
    }
    let after = at + 1;
    is_exact_at(bytes, &words.amp, after) || is_exact_at(bytes, &words.lt, after) || is_exact_at(
        bytes,
        &words.gt,
        after,
    ) || is_exact_at(bytes, &words.quot, after) || is_exact_at(bytes, &words.apos, after)
        || is_exact_at(bytes, &words.nbsp, after) || is_exact_at(bytes, &words.apostrophe, after)
}

/// Whether `byte` is a blank.
fn blank(byte: u8) -> (res: bool)
    ensures
        res == is_blank(byte),
{
    byte == 9 || byte == 10 || byte == 12 || byte == 13 || byte == 32
}

/// Whether an equals sign follows from `at` on, after any number of blanks.
fn is_assigned_at(bytes: &[u8], at: usize) -> (res: bool)
    requires
        at <= bytes.len(),
    ensures
        res == assigned_at(bytes@, at as int),
{
    let mut k = at;
    while k < bytes.len() && blank(bytes[k])
        invariant
            at <= k <= bytes.len(),
            assigned_at(bytes@, at as int) == assigned_at(bytes@, k as int),
        decreases bytes.len() - k,
    {
        k += 1;
    }
    k < bytes.len() && bytes[k] == 61
}

/// Where the value begins of an attribute whose name ends before `at`.
fn find_value_start(bytes: &[u8], at: usize) -> (res: usize)
    requires
        at <= bytes.len(),
    ensures
        res == value_start(bytes@, at as int),
        at <= res <= bytes.len(),
{
    let mut k = at;
    while k < bytes.len() && (blank(bytes[k]) || bytes[k] == 61 || bytes[k] == 34 || bytes[k]
        == 39)
        invariant
            at <= k <= bytes.len(),
            value_start(bytes@, at as int) == value_start(bytes@, k as int),
        decreases bytes.len() - k,
    {
        k += 1;
    }
    k
}

/// Whether the signs and digits from `at` on come to ten digits or more, or
/// run into a character reference.
fn is_long_number_at(bytes: &[u8], at: usize) -> (res: bool)
    requires
        at <= bytes.len(),
    ensures
        res == long_number_at(bytes@, at as int, 0),
{
    let mut k = at;
    let mut seen: usize = 0;
    while k < bytes.len()
        invariant
            at <= k <= bytes.len(),
            seen < 10,
            long_number_at(bytes@, at as int, 0) == long_number_at(bytes@, k as int, seen as nat),
        decreases bytes.len() - k,
    {
        let byte = bytes[k];
        if byte == 38 {
            return true;
        } else if 48 <= byte && byte <= 57 {
            if seen + 1 >= 10 {
                return true;
            }
            seen += 1;
        } else if byte == 43 || byte == 45 {
        } else {
            return false;
        }
        k += 1;
    }
    false
}

/// Whether nothing begins at `at` that keeps markup from being laid out.
fn is_plain_at(bytes: &[u8], words: &Vocabulary, at: usize) -> (res: bool)
    requires
        at < bytes.len(),
        words.wf(),
    ensures
        res == plain_at(bytes@, at as int),
{
    if !is_plain_character_at(bytes, at) || !is_plain_reference_at(bytes, words, at)
        || is_word_at(bytes, &words.pre, at) {
        return false;
    }
    if is_word_at(bytes, &words.start, at) {
        assert(byte_or_zero(bytes@, at + 4) != 0) by {
            assert(ascii_lower(byte_or_zero(bytes@, at + 4)) == words.start@[4]);
        }
        if is_assigned_at(bytes, at + 5) {
            let from = find_value_start(bytes, at + 5);
            if is_long_number_at(bytes, from) {
                return false;
            }
        }
    }
    if is_word_at(bytes, &words.colspan, at) {
        assert(byte_or_zero(bytes@, at + 6) != 0) by {
            assert(ascii_lower(byte_or_zero(bytes@, at + 6)) == words.colspan@[6]);
        }
        if is_assigned_at(bytes, at + 7) {
            return false;
        }
    }
    if is_word_at(bytes, &words.rowspan, at) {
        assert(byte_or_zero(bytes@, at + 6) != 0) by {
            assert(ascii_lower(byte_or_zero(bytes@, at + 6)) == words.rowspan@[6]);
        }
        if is_assigned_at(bytes, at + 7) {
            return false;
        }
    }
    true
}

/// Whether the markup `html` is plain.
pub fn is_plain_markup(html: &str) -> (res: bool)
    ensures
        res == plain_markup(html@),
{
    let bytes = html.as_bytes();
    let words = Vocabulary::new();
    let mut at: usize = 0;
    while at < bytes.len()
        invariant
            at <= bytes.len(),
            words.wf(),
            bytes@ == html.spec_bytes(),
            forall|j: int| 0 <= j < at ==> plain_at(bytes@, j),
        decreases bytes.len() - at,
    {
        if !is_plain_at(bytes, &words, at) {
            assert(!plain_at(bytes@, at as int));
            return false;
        }
        at += 1;
    }
    true
}

/// Calls `html2text::config::rich().string_from_read` on the bytes of `html`.
/// The contract gives the outcome its name and claims nothing of what the text
/// is, only that the same markup and width give the same outcome whenever the
/// call is made. Markup that is not plain is left out, because on it
/// `html2text` may panic or never return. It adds to the number an ordered
/// list starts at, and sums and divides by the spans of table cells, without a
/// check. It takes the width of a line from what is left of it after counting
/// a word once character by character and once as a string, which
/// `unicode-width` counts alike only where no character changes the width of
/// its neighbour. And it writes the blanks of a preformatted block out in a
/// loop that does not end where nesting has left no width. Widths above
/// `MAX_WIDTH` are left out because the border of a table may be drawn as
/// wide as the lines are.
#[verifier::external_body]
fn rich_string_from_read(html: &str, width: usize) -> (res: Result<String, html2text::Error>)
    requires
        plain_markup(html@),
        width <= MAX_WIDTH,
    ensures
        match res {
            Ok(text) => rich_text(html@, width) == Some(text@),
            Err(_) => rich_text(html@, width) is None,
        },
{
    html2text::config::rich().string_from_read(html.as_bytes(), width)
}

/// The width, in columns, to which the text of a post is laid out.
pub const CONTENT_WIDTH: usize = 700;

/// The greatest width, in columns, to which markup is laid out.
pub const MAX_WIDTH: usize = 100_000;

/// The text to show for a post: what its markup was laid out to, or the markup
/// itself where that failed.
pub open spec fn text_or_source(converted: Option<Seq<char>>, source: Seq<char>) -> Seq<char> {
    match converted {
        Some(text) => text,
        None => source,
    }
}

/// Chooses the text to show, given what laying out the markup gave.
pub fn shown_text(converted: Option<String>, source: &str) -> (res: String)
    ensures
        res@ == text_or_source(option_view(converted), source@),
{
    match converted {
        Some(text) => text,
        None => source.to_owned(),
    }
}

/// What laying out the markup `html` in lines of at most `width` columns
/// gives: what `html2text` makes of it if it is plain and the width is at most
/// `MAX_WIDTH`, and nothing otherwise, for then it is not laid out at all.
pub open spec fn laid_out(html: Seq<char>, width: usize) -> Option<Seq<char>> {
    if plain_markup(html) && width <= MAX_WIDTH {
        rich_text(html, width)
    } else {
        None
    }
}

/// Lays out the markup `html` as text in lines of at most `width` columns.
pub fn plain_text(html: &str, width: usize) -> (res: Option<String>)
    ensures
        option_view(res) == laid_out(html@, width),
{
    if width > MAX_WIDTH || !is_plain_markup(html) {
        return None;
    }
    match rich_string_from_read(html, width) {
        Ok(text) => Some(text),
        Err(_) => None,
    }
}

/// The text to show for the content of a post.
pub fn display_text(content: &str) -> (res: String)
    ensures
        res@ == text_or_source(laid_out(content@, CONTENT_WIDTH), content@),
{
    shown_text(plain_text(content, CONTENT_WIDTH), content)
}

} // verus!
