use eth_bridge::fanout::{FanOutChannel, RecvOutcome, BROADCAST_QUEUE_SIZE};

fn expect_frame(outcome: RecvOutcome) -> Vec<u8> {
    match outcome {
        RecvOutcome::Frame(f) => f,
        RecvOutcome::Lagged(n) => panic!("unexpected lag of {}", n),
        RecvOutcome::Empty => panic!("unexpected empty outcome"),
        RecvOutcome::Closed => panic!("unexpected closed outcome"),
    }
}

#[test]
fn every_subscription_observes_same_frames_in_order() {
    let mut channel = FanOutChannel::new(BROADCAST_QUEUE_SIZE);
    let mut subs = vec![channel.subscribe(), channel.subscribe(), channel.subscribe()];
    let frames: Vec<Vec<u8>> = (0u8..5).map(|i| vec![i, i, i]).collect();
    for f in &frames {
        channel.send(f.clone());
    }
    for sub in subs.iter_mut() {
        for f in &frames {
            assert_eq!(&expect_frame(channel.recv(sub)), f);
        }
        assert!(matches!(channel.recv(sub), RecvOutcome::Empty));
    }
}

#[test]
fn lag_reports_missed_count_then_resumes_past_the_loss() {
    let mut channel = FanOutChannel::new(100);
    let mut sub = channel.subscribe();
    for i in 0u32..150 {
        channel.send(i.to_be_bytes().to_vec());
    }
    match channel.recv(&mut sub) {
        RecvOutcome::Lagged(n) => assert_eq!(n, 50),
        _ => panic!("expected a lag report"),
    }
    // The loss covered the 50 oldest frames; delivery resumes with the
    // 51st, never a stale one.
    assert_eq!(expect_frame(channel.recv(&mut sub)), 50u32.to_be_bytes().to_vec());
    for i in 51u32..150 {
        assert_eq!(expect_frame(channel.recv(&mut sub)), i.to_be_bytes().to_vec());
    }
    assert!(matches!(channel.recv(&mut sub), RecvOutcome::Empty));
}

#[test]
fn no_backlog_replay_for_late_subscription() {
    let mut channel = FanOutChannel::new(BROADCAST_QUEUE_SIZE);
    channel.send(vec![1u8]);
    let mut sub = channel.subscribe();
    channel.send(vec![2u8]);
    assert_eq!(expect_frame(channel.recv(&mut sub)), vec![2u8]);
    assert!(matches!(channel.recv(&mut sub), RecvOutcome::Empty));
}

#[test]
fn empty_before_close_closed_after_drain() {
    let mut channel = FanOutChannel::new(BROADCAST_QUEUE_SIZE);
    let mut sub = channel.subscribe();
    assert!(matches!(channel.recv(&mut sub), RecvOutcome::Empty));
    channel.send(vec![7u8]);
    channel.close();
    assert_eq!(expect_frame(channel.recv(&mut sub)), vec![7u8]);
    assert!(matches!(channel.recv(&mut sub), RecvOutcome::Closed));
}

#[test]
fn late_subscription_observes_closed_at_once() {
    let mut channel = FanOutChannel::new(BROADCAST_QUEUE_SIZE);
    channel.send(vec![1u8]);
    channel.close();
    let mut sub = channel.subscribe();
    assert!(matches!(channel.recv(&mut sub), RecvOutcome::Closed));
}

#[test]
fn sent_count_tracks_publications() {
    let mut channel = FanOutChannel::new(3);
    assert_eq!(channel.sent_count(), 0);
    for i in 0u8..5 {
        channel.send(vec![i]);
    }
    assert_eq!(channel.sent_count(), 5);
}

#[test]
fn dropping_one_subscription_leaves_others_unchanged() {
    let mut channel = FanOutChannel::new(BROADCAST_QUEUE_SIZE);
    let mut first = channel.subscribe();
    let dropped = channel.subscribe();
    let mut third = channel.subscribe();
    channel.send(vec![1u8]);
    channel.send(vec![2u8]);
    assert_eq!(expect_frame(channel.recv(&mut first)), vec![1u8]);
    drop(dropped);
    channel.send(vec![3u8]);
    assert_eq!(expect_frame(channel.recv(&mut first)), vec![2u8]);
    assert_eq!(expect_frame(channel.recv(&mut first)), vec![3u8]);
    for expected in [vec![1u8], vec![2u8], vec![3u8]] {
        assert_eq!(expect_frame(channel.recv(&mut third)), expected);
    }
}
