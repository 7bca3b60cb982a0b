//! The stream subscriber: what to do with each thing that happens to the
//! connection to a feed.
//!
//! The subscriber opens no connection itself. Whoever holds the connection
//! reports what happens to it, and does what the subscriber answers.

use crate::model::{Status, StatusView};
use crate::pages::public::{Message, MessageView, TimelineType};
use vstd::prelude::*;

verus! {

/// How far a subscription has come.
#[derive(Debug, Clone, Copy, PartialEq, Eq, Structural)]
pub enum Phase {
    /// Nobody views the feed: nothing is open, nothing is delivered.
    Idle,
    /// The connection is being opened.
    Connecting,
    /// The connection is open and statuses are delivered as they come.
    Streaming,
}

/// What happens to a subscription.
#[derive(Debug, PartialEq, Eq)]
pub enum StreamEvent {
    /// The feed is being viewed.
    Activate,
    /// The feed is no longer viewed.
    Cancel,
    /// The connection stands.
    Connected,
    /// The server pushed a status.
    Status(Status),
    /// The server pushed something that is no status.
    DecodeError,
    /// The connection could not be opened, or broke off.
    TransportError,
}

pub enum StreamEventView {
    Activate,
    Cancel,
    Connected,
    Status(StatusView),
    DecodeError,
    TransportError,
}

impl View for StreamEvent {
    type V = StreamEventView;

    open spec fn view(&self) -> StreamEventView {
        match self {
            StreamEvent::Activate => StreamEventView::Activate,
            StreamEvent::Cancel => StreamEventView::Cancel,
            StreamEvent::Connected => StreamEventView::Connected,
            StreamEvent::Status(status) => StreamEventView::Status(status@),
            StreamEvent::DecodeError => StreamEventView::DecodeError,
            StreamEvent::TransportError => StreamEventView::TransportError,
        }
    }
}

/// What the holder of the connection is to do.
#[derive(Debug, PartialEq, Eq)]
pub enum StreamAction {
    Nothing,
    /// Open a connection to this feed.
    Connect(TimelineType),
    /// Hand this message to the timeline.
    Deliver(Message),
    /// Log that an event was dropped, and go on.
    Warn,
    /// Close the connection.
    Close,
    /// Close the connection and report that the subscription failed. It is
    /// not tried again before the feed is viewed anew.
    Fail,
}

pub enum StreamActionView {
    Nothing,
    Connect(TimelineType),
    Deliver(MessageView),
    Warn,
    Close,
    Fail,
}

impl View for StreamAction {
    type V = StreamActionView;

    open spec fn view(&self) -> StreamActionView {
        match self {
            StreamAction::Nothing => StreamActionView::Nothing,
            StreamAction::Connect(feed) => StreamActionView::Connect(*feed),
            StreamAction::Deliver(message) => StreamActionView::Deliver(message@),
            StreamAction::Warn => StreamActionView::Warn,
            StreamAction::Close => StreamActionView::Close,
            StreamAction::Fail => StreamActionView::Fail,
        }
    }
}

/// The phase after `event`.
pub open spec fn next_phase(phase: Phase, event: StreamEventView) -> Phase {
    match event {
        StreamEventView::Activate => match phase {
            Phase::Idle => Phase::Connecting,
            _ => phase,
        },
        StreamEventView::Cancel => Phase::Idle,
        StreamEventView::Connected => match phase {
            Phase::Connecting => Phase::Streaming,
            _ => phase,
        },
        StreamEventView::Status(_) => phase,
        StreamEventView::DecodeError => phase,
        StreamEventView::TransportError => Phase::Idle,
    }
}

/// What is to be done on `event` in `phase`, for a subscription to `feed`.
pub open spec fn action_on(feed: TimelineType, phase: Phase, event: StreamEventView)
    -> StreamActionView {
    match event {
        StreamEventView::Activate => match phase {
            Phase::Idle => StreamActionView::Connect(feed),
            _ => StreamActionView::Nothing,
        },
        StreamEventView::Cancel => match phase {
            Phase::Idle => StreamActionView::Nothing,
            _ => StreamActionView::Close,
        },
        StreamEventView::Connected => StreamActionView::Nothing,
        StreamEventView::Status(status) => match phase {
            Phase::Streaming => StreamActionView::Deliver(MessageView::AppendStatus(status)),
            _ => StreamActionView::Nothing,
        },
        StreamEventView::DecodeError => match phase {
            Phase::Streaming => StreamActionView::Warn,
            _ => StreamActionView::Nothing,
        },
        StreamEventView::TransportError => match phase {
            Phase::Idle => StreamActionView::Nothing,
            _ => StreamActionView::Fail,
        },
    }
}

/// A subscription to one feed.
#[derive(Debug, PartialEq, Eq)]
pub struct Subscriber {
    pub feed: TimelineType,
    pub phase: Phase,
}

impl Subscriber {
    /// A subscription to `feed` that nobody views yet.
    pub fn new(feed: TimelineType) -> (res: Self)
        ensures
            res.feed == feed,
            res.phase == Phase::Idle,
    {
        Subscriber { feed, phase: Phase::Idle }
    }

    /// Takes note of `event`, and says what is to be done.
    pub fn step(&mut self, event: StreamEvent) -> (res: StreamAction)
        ensures
            final(self).feed == old(self).feed,
            final(self).phase == next_phase(old(self).phase, event@),
            res@ == action_on(old(self).feed, old(self).phase, event@),
    {
        let phase = self.phase;
        match event {
            StreamEvent::Activate => match phase {
                Phase::Idle => {
                    self.phase = Phase::Connecting;
                    StreamAction::Connect(self.feed)
                },
                _ => StreamAction::Nothing,
            },
            StreamEvent::Cancel => {
                self.phase = Phase::Idle;
                match phase {
                    Phase::Idle => StreamAction::Nothing,
                    _ => StreamAction::Close,
                }
            },
            StreamEvent::Connected => {
                match phase {
                    Phase::Connecting => {
                        self.phase = Phase::Streaming;
                    },
                    _ => {},
                }
                StreamAction::Nothing
            },
            StreamEvent::Status(status) => match phase {
                Phase::Streaming => StreamAction::Deliver(Message::AppendStatus(status)),
                _ => StreamAction::Nothing,
            },
            StreamEvent::DecodeError => match phase {
                Phase::Streaming => StreamAction::Warn,
                _ => StreamAction::Nothing,
            },
            StreamEvent::TransportError => {
                self.phase = Phase::Idle;
                match phase {
                    Phase::Idle => StreamAction::Nothing,
                    _ => StreamAction::Fail,
                }
            },
        }
    }

    /// Brings the subscription in line with what the timeline wants: to listen
    /// to `wanted`, or not to listen.
    pub fn sync(&mut self, wanted: Option<TimelineType>) -> (res: StreamAction)
        ensures
            final(self).feed == old(self).feed,
            final(self).phase == next_phase(old(self).phase, wanted_event(old(self).feed, wanted)),
            res@ == action_on(
                old(self).feed,
                old(self).phase,
                wanted_event(old(self).feed, wanted),
            ),
    {
        match wanted {
            Some(feed) => {
                if feed == self.feed {
                    self.step(StreamEvent::Activate)
                } else {
                    self.step(StreamEvent::Cancel)
                }
            },
            None => self.step(StreamEvent::Cancel),
        }
    }
}

/// What the wish of a timeline amounts to for a subscription to `feed`: it is
/// viewed where the timeline wants this very feed, and not viewed otherwise.
pub open spec fn wanted_event(feed: TimelineType, wanted: Option<TimelineType>)
    -> StreamEventView {
    if wanted == Some(feed) {
        StreamEventView::Activate
    } else {
        StreamEventView::Cancel
    }
}

/// The phase after the events of `trace`, first to last.
pub open spec fn phase_after(phase: Phase, trace: Seq<StreamEventView>) -> Phase
    decreases trace.len(),
{
    if trace.len() == 0 {
        phase
    } else {
        next_phase(phase_after(phase, trace.drop_last()), trace.last())
    }
}

/// The statuses delivered during `trace`, in the order of their delivery.
pub open spec fn delivered(feed: TimelineType, phase: Phase, trace: Seq<StreamEventView>) -> Seq<
    StatusView,
>
    decreases trace.len(),
{
    if trace.len() == 0 {
        Seq::empty()
    } else {
        let before = delivered(feed, phase, trace.drop_last());
        match action_on(feed, phase_after(phase, trace.drop_last()), trace.last()) {
            StreamActionView::Deliver(MessageView::AppendStatus(status)) => before.push(status),
            _ => before,
        }
    }
}

/// The statuses the server pushed during `trace`, in the order in which it
/// pushed them.
pub open spec fn pushed(trace: Seq<StreamEventView>) -> Seq<StatusView>
    decreases trace.len(),
{
    if trace.len() == 0 {
        Seq::empty()
    } else {
        let before = pushed(trace.drop_last());
        match trace.last() {
            StreamEventView::Status(status) => before.push(status),
            _ => before,
        }
    }
}

/// Whether `event` is something the server pushed: a status, or something that
/// is none.
pub open spec fn is_pushed(event: StreamEventView) -> bool {
    event is Status || event is DecodeError
}

/// While the connection stands, every status the server pushes is delivered,
/// in the order in which it was pushed, and what cannot be decoded is dropped
/// without ending the subscription.
pub proof fn lemma_stream_delivers_in_order(feed: TimelineType, trace: Seq<StreamEventView>)
    requires
        forall|i: int| 0 <= i < trace.len() ==> is_pushed(#[trigger] trace[i]),
    ensures
        phase_after(Phase::Streaming, trace) == Phase::Streaming,
        delivered(feed, Phase::Streaming, trace) == pushed(trace),
    decreases trace.len(),
{
    if trace.len() > 0 {
        let before = trace.drop_last();
        assert forall|i: int| 0 <= i < before.len() implies is_pushed(#[trigger] before[i]) by {
            assert(before[i] == trace[i]);
        }
        lemma_stream_delivers_in_order(feed, before);
        assert(is_pushed(trace[trace.len() - 1]));
    }
}

/// Nothing is delivered to a feed that is not viewed: once a subscription is
/// cancelled, whatever still arrives from the connection is dropped, until the
/// feed is viewed again.
pub proof fn lemma_nothing_after_cancel(
    feed: TimelineType,
    phase: Phase,
    trace: Seq<StreamEventView>,
)
    requires
        forall|i: int| 0 <= i < trace.len() ==> !(#[trigger] trace[i] is Activate),
    ensures
        phase_after(next_phase(phase, StreamEventView::Cancel), trace) == Phase::Idle,
        delivered(feed, next_phase(phase, StreamEventView::Cancel), trace) == Seq::<
            StatusView,
        >::empty(),
    decreases trace.len(),
{
    if trace.len() > 0 {
        let before = trace.drop_last();
        assert forall|i: int| 0 <= i < before.len() implies !(#[trigger] before[i] is Activate) by {
            assert(before[i] == trace[i]);
        }
        lemma_nothing_after_cancel(feed, phase, before);
        assert(!(trace[trace.len() - 1] is Activate));
    }
}

/// A connection that broke is not mended: the subscription falls idle, and
/// only viewing the feed anew opens a fresh connection.
pub proof fn lemma_no_resume(feed: TimelineType, phase: Phase)
    ensures
        next_phase(phase, StreamEventView::TransportError) == Phase::Idle,
        action_on(feed, Phase::Idle, StreamEventView::Activate) == StreamActionView::Connect(feed),
        next_phase(Phase::Idle, StreamEventView::Activate) == Phase::Connecting,
{
}

} // verus!
