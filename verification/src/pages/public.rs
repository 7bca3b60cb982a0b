//! The timeline controller: the statuses a feed has delivered, in the order in
//! which they came, and what is to be done when the next one comes.

use crate::app;
use crate::model::{Mastodon, MastodonView, Status, StatusView};
use crate::utils::{extract_status_images, status_images, Cache, CacheView};
use crate::widgets;
use crate::widgets::status::{
    resolve, resolved_statuses_view, ResolvedStatus, ResolvedStatusView,
};
use std::collections::VecDeque;
use vstd::prelude::*;

verus! {

/// The feed a timeline listens to.
#[derive(Debug, Clone, Copy, PartialEq, Eq, Structural)]
pub enum TimelineType {
    /// Every public status the server knows of.
    Public,
    /// The public statuses written on this server.
    Local,
    /// The public statuses that reached this server from others.
    Remote,
}

/// What a timeline is told.
#[derive(Debug, PartialEq, Eq)]
pub enum Message {
    /// Use these credentials from now on.
    SetClient(Mastodon),
    /// The feed delivered this status.
    AppendStatus(Status),
    /// An intent raised by one of the shown statuses.
    Status(widgets::status::Message),
}

pub enum MessageView {
    SetClient(MastodonView),
    AppendStatus(StatusView),
    Status(widgets::status::MessageView),
}

impl View for Message {
    type V = MessageView;

    open spec fn view(&self) -> MessageView {
        match self {
            Message::SetClient(mastodon) => MessageView::SetClient(mastodon@),
            Message::AppendStatus(status) => MessageView::AppendStatus(status@),
            Message::Status(message) => MessageView::Status(message@),
        }
    }
}

/// No identifier occurs twice in `ids`.
pub open spec fn no_duplicates(ids: Seq<Seq<char>>) -> bool {
    forall|i: int, j: int| 0 <= i < ids.len() && 0 <= j < ids.len() && i != j ==> ids[i] != ids[j]
}

/// The identifiers after `id` came: `id` goes to the end, unless it is there
/// already.
pub open spec fn append_id(ids: Seq<Seq<char>>, id: Seq<char>) -> Seq<Seq<char>> {
    if ids.contains(id) {
        ids
    } else {
        ids.push(id)
    }
}

/// What is shown of the status with the identifier `id`: nothing as long as the
/// cache does not hold it.
pub open spec fn shown_status(cache: CacheView, id: Seq<char>) -> Option<ResolvedStatusView> {
    if cache.statuses.contains_key(id) {
        Some(resolve(cache.statuses[id], cache))
    } else {
        None
    }
}

/// `shown_status` with the cache fixed.
pub open spec fn status_resolver(cache: CacheView) -> spec_fn(Seq<char>) -> Option<
    ResolvedStatusView,
> {
    |id: Seq<char>| shown_status(cache, id)
}

/// What is shown of a timeline: its statuses that the cache holds, resolved, in
/// the order of the timeline.
pub open spec fn render(ids: Seq<Seq<char>>, cache: CacheView) -> Seq<ResolvedStatusView> {
    ids.filter_map(status_resolver(cache))
}

/// What a timeline stands for.
#[verifier::ext_equal]
pub struct PublicView {
    pub mastodon: MastodonView,
    pub statuses: Seq<Seq<char>>,
    pub timeline: TimelineType,
}

/// What the application is told when a timeline is told `message`.
pub open spec fn update_messages(message: MessageView) -> Seq<app::MessageView> {
    match message {
        MessageView::SetClient(_) => Seq::empty(),
        MessageView::AppendStatus(status) => seq![
            app::MessageView::CacheStatus(status),
            app::MessageView::Fetch(status_images(status)),
        ],
        MessageView::Status(message) => match widgets::status::intent_message(message) {
            Some(m) => seq![m],
            None => Seq::empty(),
        },
    }
}

/// The timeline after it is told `message`.
pub open spec fn update_state(state: PublicView, message: MessageView) -> PublicView {
    match message {
        MessageView::SetClient(mastodon) => PublicView {
            mastodon,
            statuses: state.statuses,
            timeline: state.timeline,
        },
        MessageView::AppendStatus(status) => PublicView {
            mastodon: state.mastodon,
            statuses: append_id(state.statuses, status.post.id),
            timeline: state.timeline,
        },
        MessageView::Status(_) => state,
    }
}

/// The statuses one feed has delivered, by identifier, in the order in which
/// they came.
#[derive(Debug)]
pub struct Public {
    mastodon: Mastodon,
    statuses: VecDeque<String>,
    timeline: TimelineType,
}

/// The characters of each identifier of a timeline.
pub open spec fn ids_view(ids: Seq<String>) -> Seq<Seq<char>> {
    Seq::new(ids.len(), |i: int| ids[i]@)
}

impl Public {
    /// What the timeline stands for.
    pub closed spec fn state(&self) -> PublicView {
        PublicView {
            mastodon: self.mastodon@,
            statuses: ids_view(self.statuses@),
            timeline: self.timeline,
        }
    }

    #[verifier::type_invariant]
    spec fn ids_are_distinct(&self) -> bool {
        no_duplicates(ids_view(self.statuses@))
    }

    /// A timeline of the feed `timeline` that has seen no status yet.
    pub fn new(mastodon: Mastodon, timeline: TimelineType) -> (res: Self)
        ensures
            res.state() == (PublicView { mastodon: mastodon@, statuses: Seq::empty(), timeline }),
    {
        let res = Public { mastodon, statuses: VecDeque::new(), timeline };
        assert(ids_view(res.statuses@) =~= Seq::<Seq<char>>::empty());
        res
    }

    /// The credentials the timeline uses.
    pub fn mastodon(&self) -> (res: &Mastodon)
        ensures
            res@ == self.state().mastodon,
    {
        &self.mastodon
    }

    /// How many statuses the timeline holds.
    pub fn len(&self) -> (res: usize)
        ensures
            res == self.state().statuses.len(),
    {
        self.statuses.len()
    }

    /// The identifier at place `i` of the timeline.
    pub fn get(&self, i: usize) -> (res: Option<&String>)
        ensures
            match res {
                Some(id) => i < self.state().statuses.len() && id@ == self.state().statuses[i as int],
                None => i >= self.state().statuses.len(),
            },
    {
        if i < self.statuses.len() {
            Some(&self.statuses[i])
        } else {
            None
        }
    }

    /// The identifiers of the timeline, in its order.
    pub fn ids(&self) -> (res: Vec<String>)
        ensures
            ids_view(res@) == self.state().statuses,
    {
        let mut out: Vec<String> = Vec::new();
        let mut i: usize = 0;
        while i < self.statuses.len()
            invariant
                i <= self.statuses.len(),
                out.len() == i,
                forall|j: int| 0 <= j < i ==> out[j]@ == self.statuses@[j]@,
            decreases self.statuses.len() - i,
        {
            out.push(self.statuses[i].clone());
            i += 1;
        }
        assert(ids_view(out@) =~= ids_view(self.statuses@));
        out
    }

    /// Whether the credentials hold a token.
    pub fn is_authenticated(&self) -> (res: bool)
        ensures
            res == (self.state().mastodon.token.len() > 0),
    {
        !self.mastodon.token.as_str().is_empty()
    }

    /// Whether the timeline holds the identifier `id`.
    fn contains(&self, id: &String) -> (res: bool)
        ensures
            res == self.state().statuses.contains(id@),
    {
        let mut i: usize = 0;
        while i < self.statuses.len()
            invariant
                i <= self.statuses.len(),
                forall|j: int| 0 <= j < i ==> ids_view(self.statuses@)[j] != id@,
            decreases self.statuses.len() - i,
        {
            if self.statuses[i] == *id {
                assert(ids_view(self.statuses@)[i as int] == id@);
                return true;
            }
            i += 1;
        }
        false
    }

    /// The feed to listen to: that of the timeline as long as it has seen no
    /// status, none from then on.
    pub fn subscription(&self) -> (res: Option<TimelineType>)
        ensures
            res == (if self.state().statuses.len() == 0 {
                Some(self.state().timeline)
            } else {
                None
            }),
    {
        if self.statuses.len() == 0 {
            Some(self.timeline)
        } else {
            None
        }
    }

    /// Tells the timeline `message`, and returns what the application is to be
    /// told in turn. A status that the feed delivered is entered at the end of
    /// the timeline unless it is there already; in either case the application
    /// is told to cache it and to see to its images.
    pub fn update(&mut self, message: Message) -> (res: Vec<app::Message>)
        ensures
            final(self).state() == update_state(old(self).state(), message@),
            app::messages_view(res@) == update_messages(message@),
            no_duplicates(final(self).state().statuses),
    {
        let mut tasks: Vec<app::Message> = Vec::new();
        proof {
            use_type_invariant(&*self);
        }
        match message {
            Message::SetClient(mastodon) => {
                self.mastodon = mastodon;
            },
            Message::AppendStatus(status) => {
                if !self.contains(&status.post.id) {
                    let id = status.post.id.clone();
                    let mut statuses: VecDeque<String> = VecDeque::new();
                    core::mem::swap(&mut self.statuses, &mut statuses);
                    let ghost before = ids_view(statuses@);
                    statuses.push_back(id);
                    assert(ids_view(statuses@) =~= before.push(status@.post.id));
                    proof {
                        lemma_append_no_duplicates(before, status@.post.id);
                    }
                    self.statuses = statuses;
                }
                let images = extract_status_images(&status);
                tasks.push(app::Message::CacheStatus(status));
                tasks.push(app::Message::Fetch(images));
            },
            Message::Status(message) => {
                match widgets::status::update(message) {
                    Some(m) => {
                        tasks.push(m);
                    },
                    None => {},
                }
            },
        }
        assert(app::messages_view(tasks@) =~= update_messages(message@));
        proof {
            use_type_invariant(&*self);
        }
        tasks
    }

    /// What is shown of the timeline, given what `cache` holds: its statuses
    /// that are cached, resolved, in the order of the timeline. A status that
    /// is not cached yet is passed over.
    pub fn view(&self, cache: &Cache) -> (res: Vec<ResolvedStatus>)
        ensures
            resolved_statuses_view(res@) == render(self.state().statuses, cache@),
    {
        let ghost ids = ids_view(self.statuses@);
        let ghost f = status_resolver(cache@);
        let mut out: Vec<ResolvedStatus> = Vec::new();
        let mut i: usize = 0;
        assert(resolved_statuses_view(out@) =~= ids.take(0).filter_map(f));
        while i < self.statuses.len()
            invariant
                i <= self.statuses.len(),
                ids == ids_view(self.statuses@),
                f == status_resolver(cache@),
                resolved_statuses_view(out@) == ids.take(i as int).filter_map(f),
            decreases self.statuses.len() - i,
        {
            let id = &self.statuses[i];
            let ghost before = resolved_statuses_view(out@);
            proof {
                assert(ids.take(i + 1).drop_last() =~= ids.take(i as int));
                assert(ids.take(i + 1).last() == id@);
            }
            match cache.get_status(id.as_str()) {
                Some(status) => {
                    let shown = widgets::status::status(status, cache);
                    out.push(shown);
                    assert(resolved_statuses_view(out@) =~= before + seq![shown@]);
                },
                None => {},
            }
            i += 1;
        }
        assert(ids.take(i as int) =~= ids);
        out
    }
}

/// A status that came twice stands once. Entering an identifier a second time
/// changes nothing: the timeline is as long as after the first time, with the
/// same entries in the same order.
pub proof fn lemma_append_twice(ids: Seq<Seq<char>>, id: Seq<char>)
    ensures
        append_id(append_id(ids, id), id) == append_id(ids, id),
        append_id(ids, id).contains(id),
{
    if !ids.contains(id) {
        assert(ids.push(id)[ids.len() as int] == id);
    }
}

/// Entering an identifier leaves what was there where it was, and adds at
/// most the one entry at the end.
pub proof fn lemma_append_keeps_order(ids: Seq<Seq<char>>, id: Seq<char>)
    ensures
        ids.len() <= append_id(ids, id).len() <= ids.len() + 1,
        append_id(ids, id).take(ids.len() as int) == ids,
        ids.contains(id) ==> append_id(ids, id) == ids,
        !ids.contains(id) ==> append_id(ids, id) == ids.push(id),
{
    assert(append_id(ids, id).take(ids.len() as int) =~= ids);
}

/// Entering an identifier into a timeline without duplicates gives a timeline
/// without duplicates.
pub proof fn lemma_append_no_duplicates(ids: Seq<Seq<char>>, id: Seq<char>)
    requires
        no_duplicates(ids),
    ensures
        no_duplicates(append_id(ids, id)),
{
    if !ids.contains(id) {
        let after = ids.push(id);
        assert forall|i: int, j: int|
            0 <= i < after.len() && 0 <= j < after.len() && i != j implies after[i]
            != after[j] by {
            if i < ids.len() && j < ids.len() {
            } else if i < ids.len() {
                assert(ids.contains(ids[i]));
            } else {
                assert(ids.contains(ids[j]));
            }
        }
    }
}

/// A timeline never loses a status: whatever it is told, it is at least as
/// long afterwards, so that one that has seen a status never listens again.
pub proof fn lemma_update_never_shrinks(state: PublicView, message: MessageView)
    ensures
        update_state(state, message).statuses.len() >= state.statuses.len(),
        update_state(state, message).timeline == state.timeline,
        message is AppendStatus ==> update_state(state, message).statuses.len() > 0,
{
    if let MessageView::AppendStatus(status) = message {
        lemma_append_keeps_order(state.statuses, status.post.id);
        lemma_append_twice(state.statuses, status.post.id);
    }
}

/// As long as the cache holds none of its statuses, nothing of a timeline is
/// shown.
pub proof fn lemma_render_pending(ids: Seq<Seq<char>>, cache: CacheView)
    requires
        forall|i: int| 0 <= i < ids.len() ==> !cache.statuses.contains_key(#[trigger] ids[i]),
    ensures
        render(ids, cache) == Seq::<ResolvedStatusView>::empty(),
    decreases ids.len(),
{
    if ids.len() > 0 {
        assert forall|i: int| 0 <= i < ids.drop_last().len() implies !cache.statuses.contains_key(
            #[trigger] ids.drop_last()[i],
        ) by {
            assert(ids.drop_last()[i] == ids[i]);
        }
        lemma_render_pending(ids.drop_last(), cache);
        assert(!cache.statuses.contains_key(ids[ids.len() - 1]));
    }
}

/// Once the cache holds all of its statuses, a timeline shows each of them,
/// resolved, in the order of the timeline.
pub proof fn lemma_render_cached(ids: Seq<Seq<char>>, cache: CacheView)
    requires
        forall|i: int| 0 <= i < ids.len() ==> cache.statuses.contains_key(#[trigger] ids[i]),
    ensures
        render(ids, cache).len() == ids.len(),
        forall|i: int|
            0 <= i < ids.len() ==> #[trigger] render(ids, cache)[i] == resolve(
                cache.statuses[ids[i]],
                cache,
            ),
    decreases ids.len(),
{
    if ids.len() > 0 {
        let rest = ids.drop_last();
        assert forall|i: int| 0 <= i < rest.len() implies cache.statuses.contains_key(
            #[trigger] rest[i],
        ) by {
            assert(rest[i] == ids[i]);
        }
        lemma_render_cached(rest, cache);
        assert(cache.statuses.contains_key(ids[ids.len() - 1]));
        assert forall|i: int| 0 <= i < ids.len() implies #[trigger] render(ids, cache)[i]
            == resolve(cache.statuses[ids[i]], cache) by {
            if i < rest.len() {
                assert(render(ids, cache)[i] == render(rest, cache)[i]);
                assert(rest[i] == ids[i]);
            }
        }
    }
}

} // verus!
