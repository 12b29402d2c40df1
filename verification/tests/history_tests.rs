use sedentary_tracker::history::replay_order;
use sedentary_tracker::history::FeedEvent;
use sedentary_tracker::history::FeedStep;
use sedentary_tracker::history::HistoryWindow;
use sedentary_tracker::history::ObserverSession;
use sedentary_tracker::history::ObserverStep;

#[test]
fn history_is_newest_first() {
    let mut history: HistoryWindow<u32> = HistoryWindow::new(3);
    assert_eq!(history.len(), 0);
    history.push(1);
    history.push(2);
    assert_eq!(history.snapshot(), vec![2, 1]);
    assert_eq!(history.len(), 2);
}

#[test]
fn history_drops_the_oldest_beyond_capacity() {
    let mut history: HistoryWindow<u32> = HistoryWindow::new(3);
    for item in 1..=5 {
        history.push(item);
    }
    assert_eq!(history.len(), 3);
    assert_eq!(history.snapshot(), vec![5, 4, 3]);
    assert_eq!(replay_order(history.snapshot()), vec![3, 4, 5]);
}

#[test]
fn history_of_capacity_zero_keeps_nothing() {
    let mut history: HistoryWindow<u32> = HistoryWindow::new(0);
    history.push(1);
    assert_eq!(history.len(), 0);
    assert!(history.snapshot().is_empty());
}

#[test]
fn history_of_capacity_one_keeps_the_newest() {
    let mut history: HistoryWindow<u32> = HistoryWindow::new(1);
    history.push(1);
    history.push(2);
    assert_eq!(history.snapshot(), vec![2]);
}

#[test]
fn replay_order_reverses() {
    assert_eq!(replay_order(vec!["c", "b", "a"]), vec!["a", "b", "c"]);
    assert_eq!(replay_order(Vec::<u8>::new()), Vec::<u8>::new());
    assert_eq!(replay_order(vec![1]), vec![1]);
}

#[test]
fn observer_gets_history_oldest_first_then_live() {
    let mut history: HistoryWindow<u32> = HistoryWindow::new(2);
    history.push(10);
    history.push(20);
    history.push(30);
    let mut session = ObserverSession::open(history.snapshot(), false);
    let mut seen = Vec::new();
    // a live message during the replay of history is not passed on
    assert_eq!(session.accept_live(99), None);
    assert_eq!(session.next(), ObserverStep::Deliver(20));
    seen.push(20);
    assert_eq!(session.accept_live(98), None);
    assert_eq!(session.next(), ObserverStep::Deliver(30));
    seen.push(30);
    assert_eq!(session.next(), ObserverStep::FollowLive);
    for live in [40, 50] {
        if let Some(message) = session.accept_live(live) {
            seen.push(message);
        }
    }
    assert_eq!(seen, vec![20, 30, 40, 50]);
    // no history ever comes back
    assert_eq!(session.next(), ObserverStep::FollowLive);
}

#[test]
fn observer_without_history_goes_live_at_once() {
    let mut session = ObserverSession::open(vec![3, 2, 1], true);
    assert_eq!(session.accept_live(7), None);
    assert_eq!(session.next(), ObserverStep::FollowLive);
    assert_eq!(session.accept_live(7), Some(7));
}

#[test]
fn observer_of_empty_history() {
    let mut session: ObserverSession<u8> = ObserverSession::open(Vec::new(), false);
    assert_eq!(session.next(), ObserverStep::FollowLive);
    assert_eq!(session.accept_live(1), Some(1));
}

#[test]
fn subscriber_is_seeded_with_the_history_as_it_stands() {
    let mut history: HistoryWindow<u32> = HistoryWindow::new(3);
    for item in 1..=4 {
        history.push(item);
    }
    let mut session = history.subscribe(false);
    history.push(5);
    assert_eq!(session.next(), ObserverStep::Deliver(2));
    assert_eq!(session.next(), ObserverStep::Deliver(3));
    assert_eq!(session.next(), ObserverStep::Deliver(4));
    assert_eq!(session.next(), ObserverStep::FollowLive);
    assert_eq!(session.accept_live(5), Some(5));
    let mut bare = history.subscribe(true);
    assert_eq!(bare.next(), ObserverStep::FollowLive);
}

#[test]
fn lagging_observer_misses_messages_and_goes_on() {
    let mut session = ObserverSession::open(vec![1u32], false);
    assert_eq!(session.next(), ObserverStep::Deliver(1));
    assert_eq!(session.next(), ObserverStep::FollowLive);
    assert_eq!(session.on_feed(FeedEvent::Message(2)), FeedStep::Deliver(2));
    assert_eq!(session.on_feed(FeedEvent::Lagged), FeedStep::Skip);
    assert_eq!(session.on_feed(FeedEvent::Message(9)), FeedStep::Deliver(9));
    assert_eq!(session.on_feed(FeedEvent::Closed), FeedStep::Stop);
}

#[test]
fn feed_events_before_the_session_follows_the_feed() {
    let session = ObserverSession::open(vec![1u32], false);
    assert_eq!(session.on_feed(FeedEvent::Message(2)), FeedStep::Skip);
    assert_eq!(session.on_feed(FeedEvent::Lagged), FeedStep::Skip);
    assert_eq!(session.on_feed(FeedEvent::Closed), FeedStep::Stop);
}
