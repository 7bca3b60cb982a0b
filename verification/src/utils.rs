//! The resource cache: fetched images and statuses by key, with at most one
//! fetch in flight for each image.
//!
//! The cache does no I/O. A caller that wants an image asks with
//! [`ImageCache::request`] and is told to use what is cached, to wait for the
//! fetch that is under way, or to fetch. Whoever fetched reports what came back
//! with [`ImageCache::complete`], and is given the one outcome together with
//! everyone who waits for it.

use crate::model::{AttachmentView, ImageHandle, Post, PostView, Status, StatusView};
use crate::store::KeyedStore;
use vstd::prelude::*;

verus! {

/// Why a fetch gave no image.
#[derive(Clone, Copy, Debug, PartialEq, Eq, Structural)]
pub enum FetchError {
    /// The server answered with a status code outside 200 to 299.
    Status(u16),
    /// No answer came: the connection was refused, timed out or broke off.
    Transport,
}

/// What an HTTP `GET` came back with.
#[derive(Debug, PartialEq, Eq)]
pub enum FetchReply {
    /// The server answered.
    Response { status: u16, body: Vec<u8> },
    /// The server could not be reached, or the answer did not arrive whole.
    Failed,
}

pub enum FetchReplyView {
    Response { status: u16, body: Seq<u8> },
    Failed,
}

impl View for FetchReply {
    type V = FetchReplyView;

    open spec fn view(&self) -> FetchReplyView {
        match self {
            FetchReply::Response { status, body } => FetchReplyView::Response {
                status: *status,
                body: body@,
            },
            FetchReply::Failed => FetchReplyView::Failed,
        }
    }
}

/// What a fetch yields: the bytes of the image where the server answered with a
/// status code from 200 to 299, else the error.
pub open spec fn fetch_outcome(reply: FetchReplyView) -> Result<Seq<u8>, FetchError> {
    match reply {
        FetchReplyView::Response { status, body } => if 200 <= status <= 299 {
            Ok(body)
        } else {
            Err(FetchError::Status(status))
        },
        FetchReplyView::Failed => Err(FetchError::Transport),
    }
}

/// The view of what a fetch yields.
pub open spec fn outcome_view(outcome: Result<ImageHandle, FetchError>) -> Result<
    Seq<u8>,
    FetchError,
> {
    match outcome {
        Ok(handle) => Ok(handle@),
        Err(e) => Err(e),
    }
}

/// Decides what a fetch yields.
pub fn classify(reply: FetchReply) -> (res: Result<ImageHandle, FetchError>)
    ensures
        outcome_view(res) == fetch_outcome(reply@),
{
    match reply {
        FetchReply::Response { status, body } => {
            if 200 <= status && status <= 299 {
                Ok(ImageHandle::from_bytes(body))
            } else {
                Err(FetchError::Status(status))
            }
        },
        FetchReply::Failed => Err(FetchError::Transport),
    }
}

/// What a caller that asked for an image has to do.
#[derive(Debug, PartialEq, Eq)]
pub enum FetchAction {
    /// The image is cached: here it is.
    Hit(ImageHandle),
    /// A fetch of this image is under way: wait for its outcome.
    Join,
    /// Nobody fetches this image yet: fetch it, and report what came back.
    Start,
}

pub enum FetchActionView {
    Hit(Seq<u8>),
    Join,
    Start,
}

impl View for FetchAction {
    type V = FetchActionView;

    open spec fn view(&self) -> FetchActionView {
        match self {
            FetchAction::Hit(handle) => FetchActionView::Hit(handle@),
            FetchAction::Join => FetchActionView::Join,
            FetchAction::Start => FetchActionView::Start,
        }
    }
}

/// The outcome of one fetch, and the callers it is owed to.
#[derive(Debug, PartialEq, Eq)]
pub struct Delivery {
    /// Who asked for the image while it was fetched, the one who fetched first.
    pub waiters: Vec<u64>,
    pub outcome: Result<ImageHandle, FetchError>,
}

pub struct DeliveryView {
    pub waiters: Seq<u64>,
    pub outcome: Result<Seq<u8>, FetchError>,
}

impl View for Delivery {
    type V = DeliveryView;

    open spec fn view(&self) -> DeliveryView {
        DeliveryView { waiters: self.waiters@, outcome: outcome_view(self.outcome) }
    }
}

/// The view of an optional delivery.
pub open spec fn option_delivery_view(d: Option<Delivery>) -> Option<DeliveryView> {
    match d {
        Some(d) => Some(d@),
        None => None,
    }
}

/// What an image cache stands for: the images it holds, and for each image
/// that is being fetched those who wait for it.
#[verifier::ext_equal]
pub struct ImageCacheView {
    pub images: Map<Seq<char>, Seq<u8>>,
    pub pending: Map<Seq<char>, Seq<u64>>,
}

impl ImageCacheView {
    /// No image is both held and being fetched.
    pub open spec fn wf(self) -> bool {
        forall|url: Seq<char>| !(self.images.contains_key(url) && self.pending.contains_key(url))
    }

    /// The cache that holds nothing and fetches nothing.
    pub open spec fn empty() -> ImageCacheView {
        ImageCacheView { images: Map::empty(), pending: Map::empty() }
    }
}

/// The cache after `waiter` asked for the image at `url`, and what `waiter` is
/// told. A cached image is handed out; while a fetch is under way the caller
/// joins those who wait; else the caller is entered as the first to wait and
/// told to fetch.
pub open spec fn request_step(c: ImageCacheView, url: Seq<char>, waiter: u64) -> (
    ImageCacheView,
    FetchActionView,
) {
    if c.images.contains_key(url) {
        (c, FetchActionView::Hit(c.images[url]))
    } else if c.pending.contains_key(url) {
        (
            ImageCacheView {
                images: c.images,
                pending: c.pending.insert(url, c.pending[url].push(waiter)),
            },
            FetchActionView::Join,
        )
    } else {
        (
            ImageCacheView { images: c.images, pending: c.pending.insert(url, seq![waiter]) },
            FetchActionView::Start,
        )
    }
}

/// The cache after the fetch of `url` came back with `reply`, and what is
/// delivered. Where no fetch of `url` was under way nothing changes and nothing
/// is delivered. Else the fetch is over; its image, if it gave one, is held
/// from now on; and all who waited are owed the one outcome.
pub open spec fn complete_step(c: ImageCacheView, url: Seq<char>, reply: FetchReplyView) -> (
    ImageCacheView,
    Option<DeliveryView>,
) {
    if !c.pending.contains_key(url) {
        (c, None)
    } else {
        let outcome = fetch_outcome(reply);
        let images = match outcome {
            Ok(bytes) => c.images.insert(url, bytes),
            Err(_) => c.images,
        };
        (
            ImageCacheView { images, pending: c.pending.remove(url) },
            Some(DeliveryView { waiters: c.pending[url], outcome }),
        )
    }
}

/// What the cache keeps under one key.
#[derive(Debug)]
enum Slot {
    Ready(ImageHandle),
    Pending(Vec<u64>),
}

/// Fetched images by URL, and the fetches that are under way.
#[derive(Debug)]
pub struct ImageCache {
    images: KeyedStore<Slot>,
}

impl View for ImageCache {
    type V = ImageCacheView;

    closed spec fn view(&self) -> ImageCacheView {
        ImageCacheView {
            images: Map::new(
                |k: Seq<char>| self.images@.contains_key(k) && self.images@[k] is Ready,
                |k: Seq<char>| self.images@[k]->Ready_0@,
            ),
            pending: Map::new(
                |k: Seq<char>| self.images@.contains_key(k) && self.images@[k] is Pending,
                |k: Seq<char>| self.images@[k]->Pending_0@,
            ),
        }
    }
}

impl ImageCache {
    /// Every image cache is well formed.
    pub proof fn lemma_wf(&self)
        ensures
            self@.wf(),
    {
    }

    /// A cache that holds nothing.
    pub fn new() -> (res: Self)
        ensures
            res@ == ImageCacheView::empty(),
    {
        let res = ImageCache { images: KeyedStore::new() };
        assert(res@ =~= ImageCacheView::empty());
        res
    }

    /// The image cached under `url`, if there is one. Never fetches.
    pub fn get(&self, url: &str) -> (res: Option<&ImageHandle>)
        ensures
            match res {
                Some(handle) => self@.images.contains_key(url@) && handle@ == self@.images[url@],
                None => !self@.images.contains_key(url@),
            },
    {
        let key = url.to_owned();
        match self.images.get(&key) {
            Some(Slot::Ready(handle)) => Some(handle),
            _ => None,
        }
    }

    /// Whether a fetch of `url` is under way.
    pub fn is_pending(&self, url: &str) -> (res: bool)
        ensures
            res == self@.pending.contains_key(url@),
    {
        let key = url.to_owned();
        match self.images.get(&key) {
            Some(Slot::Pending(_)) => true,
            _ => false,
        }
    }

    /// Asks for the image at `url` on behalf of `waiter`.
    pub fn request(&mut self, url: &str, waiter: u64) -> (res: FetchAction)
        ensures
            final(self)@ == request_step(old(self)@, url@, waiter).0,
            res@ == request_step(old(self)@, url@, waiter).1,
    {
        let key = url.to_owned();
        match self.images.remove(&key) {
            Some(Slot::Ready(handle)) => {
                let out = handle.clone();
                self.images.insert(key, Slot::Ready(handle));
                assert(final(self)@ =~= old(self)@);
                FetchAction::Hit(out)
            },
            Some(Slot::Pending(waiters)) => {
                let mut waiters = waiters;
                waiters.push(waiter);
                self.images.insert(key, Slot::Pending(waiters));
                assert(final(self)@ =~= request_step(old(self)@, url@, waiter).0);
                FetchAction::Join
            },
            None => {
                let mut waiters: Vec<u64> = Vec::new();
                waiters.push(waiter);
                assert(waiters@ =~= seq![waiter]);
                self.images.insert(key, Slot::Pending(waiters));
                assert(final(self)@ =~= request_step(old(self)@, url@, waiter).0);
                FetchAction::Start
            },
        }
    }

    /// Reports that the fetch of `url` came back with `reply`.
    pub fn complete(&mut self, url: &str, reply: FetchReply) -> (res: Option<Delivery>)
        ensures
            final(self)@ == complete_step(old(self)@, url@, reply@).0,
            option_delivery_view(res) == complete_step(old(self)@, url@, reply@).1,
    {
        let key = url.to_owned();
        match self.images.remove(&key) {
            Some(Slot::Pending(waiters)) => {
                let outcome = classify(reply);
                match &outcome {
                    Ok(handle) => {
                        self.images.insert(key, Slot::Ready(handle.clone()));
                    },
                    Err(_) => {},
                }
                assert(final(self)@ =~= complete_step(old(self)@, url@, reply@).0);
                Some(Delivery { waiters, outcome })
            },
            Some(Slot::Ready(handle)) => {
                self.images.insert(key, Slot::Ready(handle));
                assert(final(self)@ =~= old(self)@);
                None
            },
            None => {
                assert(final(self)@ =~= old(self)@);
                None
            },
        }
    }
}

/// Something that happens to an image cache.
pub enum CacheEvent {
    /// `waiter` asks for the image at `url`.
    Request { url: Seq<char>, waiter: u64 },
    /// The fetch of `url` comes back with `reply`.
    Complete { url: Seq<char>, reply: FetchReplyView },
}

/// The cache after one event.
pub open spec fn event_step(c: ImageCacheView, e: CacheEvent) -> ImageCacheView {
    match e {
        CacheEvent::Request { url, waiter } => request_step(c, url, waiter).0,
        CacheEvent::Complete { url, reply } => complete_step(c, url, reply).0,
    }
}

/// The cache after the events of `trace`, first to last.
pub open spec fn run(c: ImageCacheView, trace: Seq<CacheEvent>) -> ImageCacheView
    decreases trace.len(),
{
    if trace.len() == 0 {
        c
    } else {
        event_step(run(c, trace.drop_last()), trace.last())
    }
}

/// Whether the event `e`, met in the state `c`, is a request for `url` that is
/// told to fetch.
pub open spec fn starts_fetch(c: ImageCacheView, e: CacheEvent, url: Seq<char>) -> bool {
    match e {
        CacheEvent::Request { url: u, waiter } => u == url && request_step(c, u, waiter).1
            is Start,
        CacheEvent::Complete { .. } => false,
    }
}

/// How many fetches of `url` the events of `trace` start, from the state `c`.
pub open spec fn fetches_started(c: ImageCacheView, trace: Seq<CacheEvent>, url: Seq<char>) -> nat
    decreases trace.len(),
{
    if trace.len() == 0 {
        0
    } else {
        let before = fetches_started(c, trace.drop_last(), url);
        if starts_fetch(run(c, trace.drop_last()), trace.last(), url) {
            before + 1
        } else {
            before
        }
    }
}

/// Those who ask for `url` in `trace`, in the order in which they ask.
pub open spec fn requesters(trace: Seq<CacheEvent>, url: Seq<char>) -> Seq<u64>
    decreases trace.len(),
{
    if trace.len() == 0 {
        Seq::empty()
    } else {
        let before = requesters(trace.drop_last(), url);
        match trace.last() {
            CacheEvent::Request { url: u, waiter } => if u == url {
                before.push(waiter)
            } else {
                before
            },
            CacheEvent::Complete { .. } => before,
        }
    }
}

/// Whether `e` reports that a fetch of `url` came back.
pub open spec fn is_completion_of(e: CacheEvent, url: Seq<char>) -> bool {
    match e {
        CacheEvent::Request { .. } => false,
        CacheEvent::Complete { url: u, .. } => u == url,
    }
}

/// Whether no fetch of `url` comes back during `trace`.
pub open spec fn still_outstanding(trace: Seq<CacheEvent>, url: Seq<char>) -> bool {
    forall|i: int| 0 <= i < trace.len() ==> !is_completion_of(#[trigger] trace[i], url)
}

/// No event makes an image both held and fetched.
pub proof fn lemma_run_wf(c: ImageCacheView, trace: Seq<CacheEvent>)
    requires
        c.wf(),
    ensures
        run(c, trace).wf(),
    decreases trace.len(),
{
    if trace.len() > 0 {
        lemma_run_wf(c, trace.drop_last());
    }
}

/// Single flight. However many callers ask for an image that is neither held
/// nor being fetched, and whatever happens to other images meanwhile, until the
/// fetch comes back exactly one of them is told to fetch: the first. All of
/// them wait, in the order in which they asked, and the image is not held.
pub proof fn lemma_single_flight(c: ImageCacheView, trace: Seq<CacheEvent>, url: Seq<char>)
    requires
        c.wf(),
        !c.images.contains_key(url),
        !c.pending.contains_key(url),
        still_outstanding(trace, url),
    ensures
        fetches_started(c, trace, url) == (if requesters(trace, url).len() > 0 {
            1nat
        } else {
            0nat
        }),
        !run(c, trace).images.contains_key(url),
        run(c, trace).pending.contains_key(url) <==> requesters(trace, url).len() > 0,
        requesters(trace, url).len() > 0 ==> run(c, trace).pending[url] == requesters(trace, url),
        requesters(trace, url).len() > 0 ==> starts_fetch(
            c,
            CacheEvent::Request { url, waiter: requesters(trace, url)[0] },
            url,
        ),
    decreases trace.len(),
{
    if trace.len() > 0 {
        let before = trace.drop_last();
        assert forall|i: int| 0 <= i < before.len() implies !is_completion_of(
            #[trigger] before[i],
            url,
        ) by {
            assert(before[i] == trace[i]);
        }
        lemma_single_flight(c, before, url);
        assert(!is_completion_of(trace[trace.len() - 1], url));
        let mid = run(c, before);
        match trace.last() {
            CacheEvent::Request { url: u, waiter } => {
                if u == url && requesters(before, url).len() == 0 {
                    assert(requesters(trace, url) =~= seq![waiter]);
                }
            },
            CacheEvent::Complete { url: u, reply } => {},
        }
    }
}

/// Every caller observes the same outcome. When the fetch of an image comes
/// back, all who asked for it since it was neither held nor being fetched are
/// handed one and the same outcome: what the reply amounts to. On success the
/// image is held from then on; on failure it is neither held nor being
/// fetched, so that the next caller is told to fetch again.
pub proof fn lemma_one_outcome(
    c: ImageCacheView,
    trace: Seq<CacheEvent>,
    url: Seq<char>,
    reply: FetchReplyView,
)
    requires
        c.wf(),
        !c.images.contains_key(url),
        !c.pending.contains_key(url),
        still_outstanding(trace, url),
        requesters(trace, url).len() > 0,
    ensures
        complete_step(run(c, trace), url, reply).1 == Some(
            DeliveryView { waiters: requesters(trace, url), outcome: fetch_outcome(reply) },
        ),
        !complete_step(run(c, trace), url, reply).0.pending.contains_key(url),
        match fetch_outcome(reply) {
            Ok(bytes) => complete_step(run(c, trace), url, reply).0.images.contains_key(url)
                && complete_step(run(c, trace), url, reply).0.images[url] == bytes,
            Err(_) => !complete_step(run(c, trace), url, reply).0.images.contains_key(url),
        },
{
    lemma_single_flight(c, trace, url);
}

/// An image that is held stays held, unchanged, whatever happens, and no fetch
/// of it is ever started.
pub proof fn lemma_held_image_stays(c: ImageCacheView, trace: Seq<CacheEvent>, url: Seq<char>)
    requires
        c.wf(),
        c.images.contains_key(url),
    ensures
        run(c, trace).images.contains_key(url),
        run(c, trace).images[url] == c.images[url],
        fetches_started(c, trace, url) == 0,
    decreases trace.len(),
{
    if trace.len() > 0 {
        lemma_held_image_stays(c, trace.drop_last(), url);
        lemma_run_wf(c, trace.drop_last());
    }
}

/// What a cache stands for: the statuses it holds by identifier, and its
/// images.
#[verifier::ext_equal]
pub struct CacheView {
    pub statuses: Map<Seq<char>, StatusView>,
    pub handles: ImageCacheView,
}

/// Statuses by identifier and images by URL.
#[derive(Debug)]
pub struct Cache {
    pub statuses: KeyedStore<Status>,
    pub handles: ImageCache,
}

impl View for Cache {
    type V = CacheView;

    open spec fn view(&self) -> CacheView {
        CacheView {
            statuses: self.statuses@.map_values(|s: Status| s@),
            handles: self.handles@,
        }
    }
}

impl Cache {
    /// A cache that holds nothing.
    pub fn new() -> (res: Self)
        ensures
            res@.statuses == Map::<Seq<char>, StatusView>::empty(),
            res@.handles == ImageCacheView::empty(),
    {
        let res = Cache { statuses: KeyedStore::new(), handles: ImageCache::new() };
        assert(res@.statuses =~= Map::<Seq<char>, StatusView>::empty());
        res
    }

    /// Stores `status` under its identifier, in place of what was there.
    pub fn put_status(&mut self, status: Status)
        ensures
            final(self)@.statuses == old(self)@.statuses.insert(status@.post.id, status@),
            final(self)@.handles == old(self)@.handles,
    {
        let id = status.post.id.clone();
        self.statuses.insert(id, status);
        assert(final(self)@.statuses =~= old(self)@.statuses.insert(status@.post.id, status@));
    }

    /// The status stored under `id`, if there is one.
    pub fn get_status(&self, id: &str) -> (res: Option<&Status>)
        ensures
            match res {
                Some(status) => self@.statuses.contains_key(id@) && status@
                    == self@.statuses[id@],
                None => !self@.statuses.contains_key(id@),
            },
    {
        let key = id.to_owned();
        self.statuses.get(&key)
    }

    /// The image cached under `url`, if there is one. Never fetches.
    pub fn get_image(&self, url: &str) -> (res: Option<&ImageHandle>)
        ensures
            match res {
                Some(handle) => self@.handles.images.contains_key(url@) && handle@
                    == self@.handles.images[url@],
                None => !self@.handles.images.contains_key(url@),
            },
    {
        self.handles.get(url)
    }

    /// Asks for the image at `url` on behalf of `waiter`.
    pub fn request_image(&mut self, url: &str, waiter: u64) -> (res: FetchAction)
        ensures
            final(self)@.statuses == old(self)@.statuses,
            final(self)@.handles == request_step(old(self)@.handles, url@, waiter).0,
            res@ == request_step(old(self)@.handles, url@, waiter).1,
    {
        self.handles.request(url, waiter)
    }

    /// Reports that the fetch of `url` came back with `reply`.
    pub fn complete_image(&mut self, url: &str, reply: FetchReply) -> (res: Option<Delivery>)
        ensures
            final(self)@.statuses == old(self)@.statuses,
            final(self)@.handles == complete_step(old(self)@.handles, url@, reply@).0,
            option_delivery_view(res) == complete_step(old(self)@.handles, url@, reply@).1,
    {
        self.handles.complete(url, reply)
    }
}

/// The images one attachment refers to: its preview, then its full-resolution
/// file if it links one.
pub open spec fn attachment_images(a: AttachmentView) -> Seq<Seq<char>> {
    match a.url {
        Some(url) => seq![a.preview_url, url],
        None => seq![a.preview_url],
    }
}

/// The images a list of attachments refers to, attachment by attachment.
pub open spec fn attachments_images(attachments: Seq<AttachmentView>) -> Seq<Seq<char>>
    decreases attachments.len(),
{
    if attachments.len() == 0 {
        Seq::empty()
    } else {
        attachments_images(attachments.drop_last()) + attachment_images(attachments.last())
    }
}

/// The images a post refers to: the avatar of its author, then those of its
/// attachments.
pub open spec fn post_images(post: PostView) -> Seq<Seq<char>> {
    seq![post.account.avatar] + attachments_images(post.media_attachments)
}

/// The images a status refers to: those of the post, then those of the post it
/// boosts.
pub open spec fn status_images(status: StatusView) -> Seq<Seq<char>> {
    match status.reblog {
        Some(reblog) => post_images(status.post) + post_images(reblog),
        None => post_images(status.post),
    }
}

/// The characters of each string of a list.
pub open spec fn strings_view(strings: Seq<String>) -> Seq<Seq<char>> {
    Seq::new(strings.len(), |i: int| strings[i]@)
}

/// Appends the images of `post` to `out`.
fn push_post_images(out: &mut Vec<String>, post: &Post)
    ensures
        strings_view(final(out)@) == strings_view(old(out)@) + post_images(post@),
{
    let ghost before = strings_view(out@);
    out.push(post.account.avatar.clone());
    assert(strings_view(out@) =~= before + seq![post@.account.avatar]);
    let mut i: usize = 0;
    while i < post.media_attachments.len()
        invariant
            i <= post.media_attachments.len(),
            strings_view(out@) == before + seq![post@.account.avatar] + attachments_images(
                post@.media_attachments.take(i as int),
            ),
        decreases post.media_attachments.len() - i,
    {
        let attachment = &post.media_attachments[i];
        let ghost so_far = strings_view(out@);
        assert(post@.media_attachments.take(i + 1).drop_last() =~= post@.media_attachments.take(
            i as int,
        ));
        assert(post@.media_attachments.take(i + 1).last() == attachment@);
        out.push(attachment.preview_url.clone());
        match &attachment.url {
            Some(url) => {
                out.push(url.clone());
            },
            None => {},
        }
        assert(strings_view(out@) =~= so_far + attachment_images(attachment@));
        i += 1;
    }
    assert(post@.media_attachments.take(i as int) =~= post@.media_attachments);
}

/// The URLs of the images a status refers to, in the order in which a renderer
/// meets them.
pub fn extract_status_images(status: &Status) -> (res: Vec<String>)
    ensures
        strings_view(res@) == status_images(status@),
{
    let mut out: Vec<String> = Vec::new();
    assert(strings_view(out@) =~= Seq::<Seq<char>>::empty());
    push_post_images(&mut out, &status.post);
    match &status.reblog {
        Some(reblog) => {
            push_post_images(&mut out, reblog);
        },
        None => {},
    }
    out
}

} // verus!
