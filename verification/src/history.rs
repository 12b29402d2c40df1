//! The bounded history that seeds new observers, and the order in which an
//! observer is served: first the history, oldest to newest, then the live
//! feed.

use std::collections::VecDeque;
use vstd::prelude::*;

verus! {

/// A newest-first history with `item` put in front, cut down to `capacity`
/// entries by dropping the oldest.
pub open spec fn with_newest<T>(history: Seq<T>, item: T, capacity: nat) -> Seq<T> {
    let joined = seq![item] + history;
    if joined.len() <= capacity {
        joined
    } else {
        joined.take(capacity as int)
    }
}

/// The newest-first history after `published` has been put in, item by item
/// in the order of publication, starting from an empty history.
pub open spec fn history_of<T>(published: Seq<T>, capacity: nat) -> Seq<T>
    decreases published.len(),
{
    if published.len() == 0 {
        Seq::empty()
    } else {
        with_newest(history_of(published.drop_last(), capacity), published.last(), capacity)
    }
}

/// The last `capacity` items of `published` in the order of publication; all
/// of them where there are no more than that.
pub open spec fn most_recent<T>(published: Seq<T>, capacity: nat) -> Seq<T> {
    if published.len() <= capacity {
        published
    } else {
        published.skip(published.len() - capacity)
    }
}

/// The step of a session whose backlog, oldest first, is `backlog`.
pub open spec fn next_step<T>(backlog: Seq<T>) -> ObserverStep<T> {
    if backlog.len() > 0 {
        ObserverStep::Deliver(backlog.first())
    } else {
        ObserverStep::FollowLive
    }
}

/// What becomes of a message from the live feed: it is passed on by a
/// session that follows the feed and dropped by one that does not yet.
pub open spec fn passed_on<T>(live: bool, message: T) -> Option<T> {
    if live {
        Some(message)
    } else {
        None
    }
}

/// What the live feed hands to an observer who waits on it.
#[derive(Debug, PartialEq, Eq)]
pub enum FeedEvent<T> {
    /// The next message.
    Message(T),
    /// The observer fell behind and messages were dropped for it. The feed
    /// goes on with the oldest message that is left.
    Lagged,
    /// The feed has ended.
    Closed,
}

/// What an observer does with an event of the feed.
#[derive(Debug, PartialEq, Eq)]
pub enum FeedStep<T> {
    /// Deliver this message.
    Deliver(T),
    /// Deliver nothing and wait for the next event.
    Skip,
    /// End the session.
    Stop,
}

/// The step for an event of the feed. A message is delivered by a session
/// that follows the feed and passed over by one that does not yet. An
/// observer that fell behind misses what was dropped and goes on. Only the
/// end of the feed ends the session.
pub open spec fn feed_step<T>(live: bool, event: FeedEvent<T>) -> FeedStep<T> {
    match event {
        FeedEvent::Message(message) => if live {
            FeedStep::Deliver(message)
        } else {
            FeedStep::Skip
        },
        FeedEvent::Lagged => FeedStep::Skip,
        FeedEvent::Closed => FeedStep::Stop,
    }
}

/// The most recent items of what was published, newest first, never more than
/// the capacity.
pub struct HistoryWindow<T> {
    entries: VecDeque<T>,
    capacity: usize,
}

impl<T> View for HistoryWindow<T> {
    type V = Seq<T>;

    /// The entries, newest first.
    closed spec fn view(&self) -> Seq<T> {
        self.entries@
    }
}

impl<T> HistoryWindow<T> {
    /// The capacity that the history was made with.
    pub closed spec fn capacity(&self) -> nat {
        self.capacity as nat
    }

    /// An empty history that keeps up to `capacity` items.
    pub fn new(capacity: usize) -> (history: HistoryWindow<T>)
        ensures
            history@ == Seq::<T>::empty(),
            history.capacity() == capacity,
    {
        HistoryWindow { entries: VecDeque::new(), capacity }
    }

    /// Number of items held.
    pub fn len(&self) -> (len: usize)
        ensures
            len == self@.len(),
    {
        self.entries.len()
    }

    /// Puts `item` in as the newest and drops the oldest items beyond the
    /// capacity.
    pub fn push(&mut self, item: T)
        ensures
            final(self)@ == with_newest(old(self)@, item, old(self).capacity()),
            final(self).capacity() == old(self).capacity(),
    {
        self.entries.push_front(item);
        self.entries.truncate(self.capacity);
        assert(self.entries@ =~= with_newest(old(self)@, item, old(self).capacity()));
    }
}

impl<T: Copy> HistoryWindow<T> {
    /// The items held, newest first, as a new observer's backlog.
    pub fn snapshot(&self) -> (items: Vec<T>)
        ensures
            items@ == self@,
    {
        let mut items: Vec<T> = Vec::with_capacity(self.entries.len());
        let mut i: usize = 0;
        while i < self.entries.len()
            invariant
                i <= self.entries@.len(),
                items@ == self.entries@.take(i as int),
            decreases self.entries@.len() - i,
        {
            items.push(self.entries[i]);
            assert(items@ =~= self.entries@.take(i + 1));
            i = i + 1;
        }
        assert(self.entries@.take(self.entries@.len() as int) =~= self.entries@);
        items
    }

    /// A session for an observer who joins now: its backlog is the history
    /// as it stands, oldest first, or nothing with `skip_history`.
    pub fn subscribe(&self, skip_history: bool) -> (session: ObserverSession<T>)
        ensures
            session.wf(),
            !session.is_live(),
            session.backlog() == if skip_history {
                Seq::<T>::empty()
            } else {
                self@.reverse()
            },
    {
        ObserverSession::open(self.snapshot(), skip_history)
    }
}

/// What an observer does next.
#[derive(Clone, Copy, Debug, PartialEq, Eq)]
pub enum ObserverStep<T> {
    /// Deliver this item of the history.
    Deliver(T),
    /// The history is through: from now on deliver what the live feed gives.
    FollowLive,
}

/// One observer's session. It starts with a snapshot of the history, taken
/// before the observer joins the live feed, serves that snapshot from oldest
/// to newest, and only then turns to the feed.
pub struct ObserverSession<T> {
    /// History still to deliver, newest first: the next item is the last.
    backlog: Vec<T>,
    /// Whether the session has turned to the live feed.
    live: bool,
}

impl<T> ObserverSession<T> {
    /// History still to deliver, oldest first.
    pub closed spec fn backlog(&self) -> Seq<T> {
        self.backlog@.reverse()
    }

    /// Whether the session has turned to the live feed.
    pub closed spec fn is_live(&self) -> bool {
        self.live
    }

    /// A session is sound while it has not turned to the feed with history
    /// left over.
    pub open spec fn wf(&self) -> bool {
        self.is_live() ==> self.backlog().len() == 0
    }

    /// A session that starts from `history`, given newest first. With
    /// `skip_history` the observer asked for no history and none is served.
    pub fn open(history: Vec<T>, skip_history: bool) -> (session: ObserverSession<T>)
        ensures
            session.wf(),
            !session.is_live(),
            session.backlog() == if skip_history {
                Seq::<T>::empty()
            } else {
                history@.reverse()
            },
    {
        if skip_history {
            let session = ObserverSession { backlog: Vec::new(), live: false };
            assert(session.backlog() =~= Seq::<T>::empty());
            session
        } else {
            ObserverSession { backlog: history, live: false }
        }
    }

    /// The next step: the oldest item of history not yet delivered, or, with
    /// none left, the turn to the live feed.
    pub fn next(&mut self) -> (step: ObserverStep<T>)
        ensures
            old(self).wf() ==> final(self).wf(),
            final(self).backlog() == if old(self).backlog().len() > 0 {
                old(self).backlog().drop_first()
            } else {
                old(self).backlog()
            },
            final(self).is_live() == (old(self).is_live() || old(self).backlog().len() == 0),
            step == next_step(old(self).backlog()),
    {
        let ghost before = self.backlog();
        match self.backlog.pop() {
            Some(item) => {
                assert(item == before.first());
                assert(self.backlog().len() == before.len() - 1);
                assert forall|i: int| 0 <= i < self.backlog().len() implies self.backlog()[i]
                    == before.drop_first()[i] by {
                    assert(self.backlog()[i] == self.backlog@[self.backlog@.len() - 1 - i]);
                    assert(before[i + 1] == old(self).backlog@[old(self).backlog@.len() - 2 - i]);
                }
                assert(self.backlog() =~= before.drop_first());
                ObserverStep::Deliver(item)
            },
            None => {
                self.live = true;
                ObserverStep::FollowLive
            },
        }
    }

    /// An event of the live feed: what the observer does with it.
    pub fn on_feed(&self, event: FeedEvent<T>) -> (step: FeedStep<T>)
        ensures
            step == feed_step(self.is_live(), event),
    {
        match event {
            FeedEvent::Message(message) => {
                if self.live {
                    FeedStep::Deliver(message)
                } else {
                    FeedStep::Skip
                }
            },
            FeedEvent::Lagged => FeedStep::Skip,
            FeedEvent::Closed => FeedStep::Stop,
        }
    }

    /// A message from the live feed: passed on once the session follows the
    /// feed, and dropped while history is still being served.
    pub fn accept_live(&self, message: T) -> (passed: Option<T>)
        ensures
            passed == passed_on(self.is_live(), message),
    {
        if self.live {
            Some(message)
        } else {
            None
        }
    }
}

/// The history oldest first, as an observer is to receive it.
pub fn replay_order<T>(newest_first: Vec<T>) -> (oldest_first: Vec<T>)
    ensures
        oldest_first@ == newest_first@.reverse(),
{
    let mut rest = newest_first;
    let mut oldest_first: Vec<T> = Vec::with_capacity(rest.len());
    let ghost all = rest@;
    while rest.len() > 0
        invariant
            rest@.len() <= all.len(),
            rest@ == all.take(rest@.len() as int),
            oldest_first@ == all.skip(rest@.len() as int).reverse(),
        decreases rest@.len(),
    {
        let ghost before = rest@;
        let item = rest.pop().unwrap();
        oldest_first.push(item);
        assert(rest@ =~= all.take(rest@.len() as int));
        assert(oldest_first@ =~= all.skip(rest@.len() as int).reverse());
    }
    assert(all.skip(0) =~= all);
    oldest_first
}

/// A history never holds more than its capacity.
pub proof fn lemma_with_newest_bounded<T>(history: Seq<T>, item: T, capacity: nat)
    ensures
        with_newest(history, item, capacity).len() <= capacity,
        capacity > 0 ==> with_newest(history, item, capacity).first() == item,
{
}

/// Whatever was published, the history holds the most recent items, as many
/// as the capacity allows, and an observer who replays it oldest first
/// receives them in the order of publication.
pub proof fn lemma_history_holds_most_recent<T>(published: Seq<T>, capacity: nat)
    ensures
        history_of(published, capacity).reverse() == most_recent(published, capacity),
        history_of(published, capacity).len() <= capacity,
    decreases published.len(),
{
    if published.len() == 0 {
        assert(history_of(published, capacity).reverse() =~= most_recent(published, capacity));
    } else {
        let earlier = published.drop_last();
        lemma_history_holds_most_recent(earlier, capacity);
        let before = history_of(earlier, capacity);
        let after = history_of(published, capacity);
        assert(before =~= most_recent(earlier, capacity).reverse()) by {
            assert(before.reverse().reverse() =~= before);
        }
        assert(after.reverse() =~= most_recent(published, capacity));
    }
}

/// What happens to a session: it is asked for its next step, or the live
/// feed hands it a message.
pub enum ObserverEvent<T> {
    Poll,
    Feed(T),
}

/// One item handed to the observer, with where it came from.
pub enum Served<T> {
    History(T),
    Live(T),
}

/// Everything that a session hands to its observer over a run of events,
/// where `backlog` is its history still to deliver, oldest first, and `live`
/// says whether it follows the feed: each poll delivers the oldest item of
/// the backlog or, with none left, turns the session to the feed, and a
/// message from the feed is passed on only once the session follows it.
pub open spec fn session_output<T>(backlog: Seq<T>, live: bool, events: Seq<ObserverEvent<T>>)
    -> Seq<Served<T>>
    decreases events.len(),
{
    if events.len() == 0 {
        Seq::empty()
    } else {
        match events.first() {
            ObserverEvent::Poll => match next_step(backlog) {
                ObserverStep::Deliver(item) => seq![Served::History(item)] + session_output(
                    backlog.drop_first(),
                    live,
                    events.drop_first(),
                ),
                ObserverStep::FollowLive => session_output(backlog, true, events.drop_first()),
            },
            ObserverEvent::Feed(message) => match passed_on(live, message) {
                Some(passed) => seq![Served::Live(passed)] + session_output(
                    backlog,
                    live,
                    events.drop_first(),
                ),
                None => session_output(backlog, live, events.drop_first()),
            },
        }
    }
}

/// The items of history among what was handed out, in the order in which
/// they were handed out.
pub open spec fn history_part<T>(output: Seq<Served<T>>) -> Seq<T>
    decreases output.len(),
{
    if output.len() == 0 {
        Seq::empty()
    } else {
        match output.first() {
            Served::History(item) => seq![item] + history_part(output.drop_first()),
            Served::Live(_) => history_part(output.drop_first()),
        }
    }
}

/// A session that follows the feed with no history left hands out live
/// messages only.
pub proof fn lemma_live_session_serves_live_only<T>(events: Seq<ObserverEvent<T>>)
    ensures
        forall|i: int|
            0 <= i < session_output(Seq::<T>::empty(), true, events).len()
                ==> #[trigger] session_output(Seq::<T>::empty(), true, events)[i] is Live,
    decreases events.len(),
{
    if events.len() > 0 {
        lemma_live_session_serves_live_only::<T>(events.drop_first());
    }
}

/// Whether no item of history stands after a live message: once a live
/// message has gone out, everything after it is live.
pub open spec fn history_comes_first<T>(output: Seq<Served<T>>) -> bool {
    forall|i: int, j: int|
        0 <= i < j < output.len() && (#[trigger] output[i]) is Live ==> (#[trigger] output[j])
            is Live
}

/// Over any run of events, a session that starts on its history hands out no
/// item of history after a live message.
pub proof fn lemma_no_history_after_live<T>(backlog: Seq<T>, events: Seq<ObserverEvent<T>>)
    ensures
        history_comes_first(session_output(backlog, false, events)),
    decreases events.len(),
{
    let output = session_output(backlog, false, events);
    if events.len() > 0 {
        let rest = events.drop_first();
        match events.first() {
            ObserverEvent::Poll => {
                if backlog.len() > 0 {
                    lemma_no_history_after_live(backlog.drop_first(), rest);
                    let tail = session_output(backlog.drop_first(), false, rest);
                    assert forall|i: int, j: int|
                        0 <= i < j < output.len() && (#[trigger] output[i]) is Live implies (
                    #[trigger] output[j]) is Live by {
                        assert(output[0] is History);
                        assert(output[i] == tail[i - 1]);
                        assert(output[j] == tail[j - 1]);
                    }
                } else {
                    lemma_live_session_serves_live_only::<T>(rest);
                    assert(backlog =~= Seq::<T>::empty());
                }
            },
            ObserverEvent::Feed(message) => {
                lemma_no_history_after_live(backlog, rest);
            },
        }
    }
}

/// The history that a session hands out is its backlog from the oldest item
/// on, in order and without gaps, as far as the polls reach.
pub proof fn lemma_history_served_in_order<T>(
    backlog: Seq<T>,
    live: bool,
    events: Seq<ObserverEvent<T>>,
)
    ensures
        history_part(session_output(backlog, live, events)).len() <= backlog.len(),
        history_part(session_output(backlog, live, events)) == backlog.take(
            history_part(session_output(backlog, live, events)).len() as int,
        ),
    decreases events.len(),
{
    let output = session_output(backlog, live, events);
    if events.len() == 0 {
        assert(history_part(output) =~= backlog.take(0));
    } else {
        let rest = events.drop_first();
        match events.first() {
            ObserverEvent::Poll => {
                if backlog.len() > 0 {
                    lemma_history_served_in_order(backlog.drop_first(), live, rest);
                    let tail = session_output(backlog.drop_first(), live, rest);
                    assert(output.drop_first() =~= tail);
                    assert(history_part(output) =~= backlog.take(
                        history_part(output).len() as int,
                    ));
                } else {
                    lemma_history_served_in_order(backlog, true, rest);
                }
            },
            ObserverEvent::Feed(message) => {
                lemma_history_served_in_order(backlog, live, rest);
                if live {
                    let tail = session_output(backlog, live, rest);
                    assert(output.drop_first() =~= tail);
                }
            },
        }
    }
}

/// A message is delivered on the feed exactly where `accept_live` passes it
/// on, and an observer that fell behind is never stopped for it.
pub proof fn lemma_feed_step<T>(live: bool, message: T)
    ensures
        feed_step(live, FeedEvent::Message(message)) == (match passed_on(live, message) {
            Some(passed) => FeedStep::Deliver(passed),
            None => FeedStep::Skip,
        }),
        feed_step::<T>(live, FeedEvent::Lagged) == FeedStep::<T>::Skip,
        feed_step::<T>(live, FeedEvent::Closed) == FeedStep::<T>::Stop,
{
}

} // verus!
