//! The records a timeline is made of, and the mathematical value each stands for.
//!
//! Every record has a view: the same record with its strings as sequences of
//! characters and its lists as sequences. Contracts elsewhere in the crate speak
//! of views only.

use vstd::prelude::*;

verus! {

/// What a post shows of its author.
#[derive(Debug, PartialEq, Eq)]
pub struct Account {
    pub display_name: String,
    pub username: String,
    /// Where the avatar image lives; the key under which it is cached.
    pub avatar: String,
}

pub struct AccountView {
    pub display_name: Seq<char>,
    pub username: Seq<char>,
    pub avatar: Seq<char>,
}

impl View for Account {
    type V = AccountView;

    open spec fn view(&self) -> AccountView {
        AccountView {
            display_name: self.display_name@,
            username: self.username@,
            avatar: self.avatar@,
        }
    }
}

impl Clone for Account {
    fn clone(&self) -> (res: Self)
        ensures
            res@ == self@,
    {
        Account {
            display_name: self.display_name.clone(),
            username: self.username.clone(),
            avatar: self.avatar.clone(),
        }
    }
}

/// A hashtag of a post.
#[derive(Debug, PartialEq, Eq)]
pub struct Tag {
    pub name: String,
    pub url: String,
}

pub struct TagView {
    pub name: Seq<char>,
    pub url: Seq<char>,
}

impl View for Tag {
    type V = TagView;

    open spec fn view(&self) -> TagView {
        TagView { name: self.name@, url: self.url@ }
    }
}

impl Clone for Tag {
    fn clone(&self) -> (res: Self)
        ensures
            res@ == self@,
    {
        Tag { name: self.name.clone(), url: self.url.clone() }
    }
}

/// A media file attached to a post.
#[derive(Debug, PartialEq, Eq)]
pub struct Attachment {
    /// Where the preview image lives; the key under which it is cached.
    pub preview_url: String,
    /// Where the full-resolution file lives, if the server gave a link.
    pub url: Option<String>,
}

pub struct AttachmentView {
    pub preview_url: Seq<char>,
    pub url: Option<Seq<char>>,
}

/// The characters of an optional string.
pub open spec fn option_view(s: Option<String>) -> Option<Seq<char>> {
    match s {
        Some(s) => Some(s@),
        None => None,
    }
}

/// A copy of an optional string.
pub fn clone_option(s: &Option<String>) -> (res: Option<String>)
    ensures
        option_view(res) == option_view(*s),
{
    match s {
        Some(s) => Some(s.clone()),
        None => None,
    }
}

impl View for Attachment {
    type V = AttachmentView;

    open spec fn view(&self) -> AttachmentView {
        AttachmentView { preview_url: self.preview_url@, url: option_view(self.url) }
    }
}

impl Clone for Attachment {
    fn clone(&self) -> (res: Self)
        ensures
            res@ == self@,
    {
        Attachment { preview_url: self.preview_url.clone(), url: clone_option(&self.url) }
    }
}

/// The views of a list of tags, in order.
pub open spec fn tags_view(tags: Seq<Tag>) -> Seq<TagView> {
    Seq::new(tags.len(), |i: int| tags[i]@)
}

/// The views of a list of attachments, in order.
pub open spec fn attachments_view(attachments: Seq<Attachment>) -> Seq<AttachmentView> {
    Seq::new(attachments.len(), |i: int| attachments[i]@)
}

/// A copy of a list of tags.
pub fn clone_tags(tags: &Vec<Tag>) -> (res: Vec<Tag>)
    ensures
        tags_view(res@) == tags_view(tags@),
{
    let mut out: Vec<Tag> = Vec::new();
    let mut i: usize = 0;
    while i < tags.len()
        invariant
            i <= tags.len(),
            out.len() == i,
            forall|j: int| 0 <= j < i ==> out[j]@ == tags[j]@,
        decreases tags.len() - i,
    {
        out.push(tags[i].clone());
        i += 1;
    }
    assert(tags_view(out@) =~= tags_view(tags@));
    out
}

/// A copy of a list of attachments.
pub fn clone_attachments(attachments: &Vec<Attachment>) -> (res: Vec<Attachment>)
    ensures
        attachments_view(res@) == attachments_view(attachments@),
{
    let mut out: Vec<Attachment> = Vec::new();
    let mut i: usize = 0;
    while i < attachments.len()
        invariant
            i <= attachments.len(),
            out.len() == i,
            forall|j: int| 0 <= j < i ==> out[j]@ == attachments[j]@,
        decreases attachments.len() - i,
    {
        out.push(attachments[i].clone());
        i += 1;
    }
    assert(attachments_view(out@) =~= attachments_view(attachments@));
    out
}

/// The interaction counters and flags of a post.
#[derive(Clone, Copy, Debug, PartialEq, Eq, Structural)]
pub struct Counters {
    pub replies: u64,
    pub reblogs: u64,
    pub favourites: u64,
    pub reblogged: bool,
    pub favourited: bool,
    pub bookmarked: bool,
}

/// One post, without what it may boost.
#[derive(Debug, PartialEq, Eq)]
pub struct Post {
    pub id: String,
    pub account: Account,
    /// The rich text of the post, as the server sent it.
    pub content: String,
    pub media_attachments: Vec<Attachment>,
    pub tags: Vec<Tag>,
    pub counters: Counters,
}

pub struct PostView {
    pub id: Seq<char>,
    pub account: AccountView,
    pub content: Seq<char>,
    pub media_attachments: Seq<AttachmentView>,
    pub tags: Seq<TagView>,
    pub counters: Counters,
}

impl View for Post {
    type V = PostView;

    open spec fn view(&self) -> PostView {
        PostView {
            id: self.id@,
            account: self.account@,
            content: self.content@,
            media_attachments: attachments_view(self.media_attachments@),
            tags: tags_view(self.tags@),
            counters: self.counters,
        }
    }
}

impl Clone for Post {
    fn clone(&self) -> (res: Self)
        ensures
            res@ == self@,
    {
        Post {
            id: self.id.clone(),
            account: self.account.clone(),
            content: self.content.clone(),
            media_attachments: clone_attachments(&self.media_attachments),
            tags: clone_tags(&self.tags),
            counters: self.counters,
        }
    }
}

/// A status as the server sends it: a post, and the post it boosts if it is a
/// boost. The boosted post carries no boost of its own: boosts nest one level.
#[derive(Debug, PartialEq, Eq)]
pub struct Status {
    pub post: Post,
    pub reblog: Option<Post>,
}

pub struct StatusView {
    pub post: PostView,
    pub reblog: Option<PostView>,
}

/// The view of an optional post.
pub open spec fn option_post_view(p: Option<Post>) -> Option<PostView> {
    match p {
        Some(p) => Some(p@),
        None => None,
    }
}

impl View for Status {
    type V = StatusView;

    open spec fn view(&self) -> StatusView {
        StatusView { post: self.post@, reblog: option_post_view(self.reblog) }
    }
}

impl Clone for Status {
    fn clone(&self) -> (res: Self)
        ensures
            res@ == self@,
    {
        let reblog = match &self.reblog {
            Some(p) => Some(p.clone()),
            None => None,
        };
        Status { post: self.post.clone(), reblog }
    }
}

impl Status {
    /// The identifier the server gave this status.
    pub fn id(&self) -> (res: &String)
        ensures
            res@ == self@.post.id,
    {
        &self.post.id
    }
}

/// A fetched image: the bytes the server returned for it.
#[derive(Debug, PartialEq, Eq)]
pub struct ImageHandle {
    pub bytes: Vec<u8>,
}

impl View for ImageHandle {
    type V = Seq<u8>;

    open spec fn view(&self) -> Seq<u8> {
        self.bytes@
    }
}

impl ImageHandle {
    /// The handle of an image given as bytes.
    pub fn from_bytes(bytes: Vec<u8>) -> (res: Self)
        ensures
            res@ == bytes@,
    {
        ImageHandle { bytes }
    }
}

impl Clone for ImageHandle {
    fn clone(&self) -> (res: Self)
        ensures
            res@ == self@,
    {
        let bytes = self.bytes.clone();
        assert(bytes@ =~= self.bytes@);
        ImageHandle { bytes }
    }
}

/// The credentials of a client that has logged in: where the server is, and
/// the token it gave.
#[derive(Debug, PartialEq, Eq)]
pub struct Mastodon {
    pub base: String,
    pub token: String,
}

pub struct MastodonView {
    pub base: Seq<char>,
    pub token: Seq<char>,
}

impl View for Mastodon {
    type V = MastodonView;

    open spec fn view(&self) -> MastodonView {
        MastodonView { base: self.base@, token: self.token@ }
    }
}

impl Clone for Mastodon {
    fn clone(&self) -> (res: Self)
        ensures
            res@ == self@,
    {
        Mastodon { base: self.base.clone(), token: self.token.clone() }
    }
}

} // verus!
