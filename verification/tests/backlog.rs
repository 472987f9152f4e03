use munic_simulator::backlog::replay_capacity;
use munic_simulator::backlog::{
    status_report, Backlog, PostResult, TrackBatch, SHUTDOWN_PENDING,
};

#[test]
fn online_sender_posts_the_current_packet() {
    let mut b: Backlog<u32> = Backlog::new(10);
    let alone = b.stage(1);
    assert_eq!(alone, Some(1));
    let report = b.settle(alone, true);
    assert!(!report);
    assert!(b.is_online());
    assert!(b.kept().is_empty());
}

#[test]
fn failures_are_kept_in_order() {
    let mut b: Backlog<u32> = Backlog::new(10);
    let alone = b.stage(1);
    assert!(b.settle(alone, false));
    assert!(!b.is_online());
    let alone = b.stage(2);
    assert_eq!(alone, None);
    assert_eq!(b.kept(), &vec![1, 2]);
    assert!(b.settle(alone, false));
    let alone = b.stage(3);
    assert!(b.settle(alone, false));
    assert_eq!(b.kept(), &vec![1, 2, 3]);
}

#[test]
fn reconnection_posts_every_missed_packet_and_the_current_one() {
    let mut b: Backlog<u32> = Backlog::new(10);
    let alone = b.stage(1);
    b.settle(alone, false);
    let alone = b.stage(2);
    b.settle(alone, false);
    // the reconnecting turn posts the kept packets followed by its own
    let alone = b.stage(3);
    assert_eq!(alone, None);
    assert_eq!(b.kept(), &vec![1, 2, 3]);
    let report = b.settle(alone, true);
    assert!(report);
    assert!(b.is_online());
    assert!(b.kept().is_empty());
}

#[test]
fn sender_stops_at_capacity() {
    let mut b: Backlog<u32> = Backlog::new(3);
    for i in 0..3 {
        assert!(!b.is_full());
        let alone = b.stage(i);
        b.settle(alone, false);
    }
    assert!(b.is_full());
}

#[test]
fn refreshed_packets_replace_the_kept_ones() {
    let mut b: Backlog<u32> = Backlog::new(3);
    let alone = b.stage(1);
    b.settle(alone, false);
    b.refresh(vec![7]);
    assert_eq!(b.kept(), &vec![7]);
    b.set_online(true);
    assert!(b.is_online());
}

#[test]
fn reports_after_posts() {
    let r = status_report(PostResult::Answered("200 OK".to_string()), true, true, "t".to_string());
    assert_eq!(r.code, None);
    assert_eq!(r.ok_msg, Some("200 OK".to_string()));
    assert_eq!(r.timestamp, Some("t".to_string()));
    let r = status_report(PostResult::Answered("200 OK".to_string()), false, true, "t".to_string());
    assert_eq!(r.code, Some(1));
    let r = status_report(PostResult::Failed("refused".to_string()), true, true, "t".to_string());
    assert_eq!(r.code, Some(0));
    assert_eq!(r.err_msg, Some("refused".to_string()));
    assert_eq!(r.ok_msg, None);
    let r = status_report(PostResult::Failed("refused".to_string()), false, false, "t".to_string());
    assert_eq!(r.code, Some(0));
    assert_eq!(r.err_msg, None);
    assert_eq!(r.timestamp, None);
}

#[test]
fn delivered_tracks_are_dropped() {
    let mut t: TrackBatch<u32> = TrackBatch::new(true);
    assert!(t.push(1));
    assert!(t.push(2));
    let step = t.flushed(PostResult::Answered("200 OK".to_string()), "t".to_string());
    assert!(!step.stop);
    let report = step.report.unwrap();
    assert_eq!(report.code, None);
    assert_eq!(report.ok_msg, Some("200 OK".to_string()));
    assert!(t.pending().is_empty());
}

#[test]
fn failing_simulation_keeps_at_most_twenty_tracks_with_shutdown() {
    let mut t: TrackBatch<usize> = TrackBatch::new(true);
    for i in 0..SHUTDOWN_PENDING - 1 {
        assert!(t.push(i));
    }
    let step = t.flushed(PostResult::Failed("down".to_string()), "t".to_string());
    assert!(!step.stop);
    assert_eq!(step.report.unwrap().code, Some(0));
    assert_eq!(t.pending().len(), 19);
    assert!(t.push(19));
    // a 21st track is refused: the simulation stops
    assert!(!t.push(20));
    assert_eq!(t.pending().len(), 20);
    let step = t.flushed(PostResult::Failed("down".to_string()), "t".to_string());
    assert!(step.stop);
    // already offline: the error is reported before stopping
    let report = step.report.unwrap();
    assert_eq!(report.code, None);
    assert_eq!(report.err_msg, Some("down".to_string()));
}

#[test]
fn first_failure_with_twenty_pending_stops_without_report() {
    let mut t: TrackBatch<usize> = TrackBatch::new(true);
    for i in 0..25 {
        assert!(t.push(i));
    }
    let step = t.flushed(PostResult::Failed("down".to_string()), "t".to_string());
    assert!(step.stop);
    assert!(step.report.is_none());
}

#[test]
fn failing_simulation_goes_on_without_shutdown() {
    let mut t: TrackBatch<usize> = TrackBatch::new(false);
    for i in 0..20 {
        t.push(i);
    }
    let step = t.flushed(PostResult::Failed("down".to_string()), "t".to_string());
    assert!(!step.stop);
    assert!(t.push(20));
    assert_eq!(t.pending().len(), 21);
    let step = t.flushed(PostResult::Answered("200 OK".to_string()), "t".to_string());
    assert_eq!(step.report.unwrap().code, Some(1));
    assert!(t.pending().is_empty());
}

#[test]
fn replay_keeps_twenty_packets_under_shutdown() {
    assert_eq!(replay_capacity(true), 20);
    assert_eq!(replay_capacity(false), 10);
    let mut b: Backlog<u32> = Backlog::for_replay(true);
    assert!(b.is_online());
    for i in 0..20u32 {
        assert!(!b.is_full());
        let alone = b.stage(i);
        b.settle(alone, false);
    }
    assert!(b.is_full());
    assert_eq!(b.kept().len(), 20);
    assert_eq!(b.kept()[0], 0);
    assert_eq!(b.kept()[19], 19);
    let mut short: Backlog<u32> = Backlog::for_replay(false);
    for i in 0..10u32 {
        assert!(!short.is_full());
        let alone = short.stage(i);
        short.settle(alone, false);
    }
    assert!(short.is_full());
}
