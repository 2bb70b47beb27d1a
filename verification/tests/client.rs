use multipath_scheduler::client::context::update_conn_stats;
use multipath_scheduler::client::context::ClientContext;
use multipath_scheduler::client::context::ConnStats;
use multipath_scheduler::client::context::WorkerContext;
use multipath_scheduler::client::sample::record_sample;
use multipath_scheduler::client::sample::sample_request_time;
use multipath_scheduler::client::sender::RequestSender;
use multipath_scheduler::client::sender::STREAM_ID_STEP;
use multipath_scheduler::client::worker::raise_limit;
use multipath_scheduler::client::worker::ConnEnd;

fn stats(base: u64) -> ConnStats {
    ConnStats {
        recv_count: base + 1,
        sent_count: base + 2,
        lost_count: base + 3,
        recv_bytes: base + 4,
        sent_bytes: base + 5,
        lost_bytes: base + 6,
    }
}

#[test]
fn conn_stats_add_up_field_by_field() {
    let mut total = stats(10);
    assert!(total.can_add(&stats(100)));
    update_conn_stats(&mut total, &stats(100));
    assert_eq!(
        total,
        ConnStats {
            recv_count: 112,
            sent_count: 114,
            lost_count: 116,
            recv_bytes: 118,
            sent_bytes: 120,
            lost_bytes: 122,
        }
    );
    update_conn_stats(&mut total, &ConnStats::new());
    assert_eq!(total.lost_bytes, 122);
}

#[test]
fn conn_stats_know_when_a_sum_does_not_fit() {
    let zero = ConnStats::new();
    let mut full = ConnStats::new();
    full.sent_bytes = u64::MAX;
    assert!(full.can_add(&zero));
    assert!(zero.can_add(&full));
    let mut one = ConnStats::new();
    one.sent_bytes = 1;
    assert!(!full.can_add(&one));
    one.sent_bytes = 0;
    one.lost_count = 1;
    assert!(full.can_add(&one));
}

#[test]
fn limit_is_raised_to_number_of_urls() {
    assert_eq!(raise_limit(0, 5), 0);
    assert_eq!(raise_limit(1, 5), 5);
    assert_eq!(raise_limit(5, 5), 5);
    assert_eq!(raise_limit(9, 5), 9);
    assert_eq!(raise_limit(1, 0), 1);
    assert_eq!(raise_limit(u64::MAX, 3), u64::MAX);
}

#[test]
fn worker_exits_on_time_or_on_requests() {
    let mut ctx = WorkerContext::new(10, None);
    // No limit at all.
    assert!(!ctx.should_exit(0, 1_000_000, 0));
    // The time limit is passed only by a later second.
    assert!(!ctx.should_exit(5, 5, 0));
    assert!(ctx.should_exit(5, 6, 0));
    // The request limit is reached by the last request.
    ctx.request_done = 9;
    assert!(!ctx.should_exit(0, 0, 10));
    ctx.request_done = 10;
    assert!(ctx.should_exit(0, 0, 10));
    assert!(ctx.should_exit(5, 1, 10));
    assert!(!ctx.should_exit(5, 1, 11));
}

#[test]
fn worker_opens_connections_up_to_the_limit() {
    let mut ctx = WorkerContext::new(10, None);
    assert!(!ctx.wants_conn(0));
    let mut opened = 0;
    while ctx.wants_conn(3) {
        ctx.conn_created();
        opened += 1;
    }
    assert_eq!(opened, 3);
    assert_eq!((ctx.concurrent_conns, ctx.conn_total), (3, 3));
    ctx.conn_established();
    assert_eq!(ctx.conn_handshake_success, 1);
}

#[test]
fn closed_connection_is_counted_by_how_it_ended() {
    assert_eq!(ConnEnd::of(true, true), ConnEnd::ClosedByLocalApp);
    assert_eq!(ConnEnd::of(true, false), ConnEnd::ClosedByLocalApp);
    assert_eq!(ConnEnd::of(false, true), ConnEnd::ClosedByPeerApp);
    assert_eq!(ConnEnd::of(false, false), ConnEnd::Failed);

    let mut ctx = WorkerContext::new(10, Some(vec![1]));
    ctx.concurrent_conns = 5;
    assert!(ctx.closable(&stats(0), ConnEnd::ClosedByLocalApp));
    ctx.conn_closed(&stats(0), None, ConnEnd::ClosedByLocalApp);
    assert_eq!((ctx.conn_finish, ctx.conn_finish_success, ctx.conn_finish_failed), (1, 1, 0));
    assert_eq!(ctx.concurrent_conns, 5);
    assert_eq!(ctx.session, Some(vec![1]));

    ctx.conn_closed(&stats(0), Some(vec![2, 3]), ConnEnd::ClosedByPeerApp);
    assert_eq!((ctx.conn_finish, ctx.conn_finish_success, ctx.conn_finish_failed), (2, 2, 0));
    assert_eq!(ctx.concurrent_conns, 4);
    assert_eq!(ctx.session, Some(vec![2, 3]));

    ctx.conn_closed(&stats(0), None, ConnEnd::Failed);
    assert_eq!((ctx.conn_finish, ctx.conn_finish_success, ctx.conn_finish_failed), (3, 2, 1));
    assert_eq!(ctx.concurrent_conns, 3);
    assert_eq!(ctx.conn_stats.recv_count, 3);
    assert_eq!(ctx.conn_stats.lost_bytes, 18);

    ctx.concurrent_conns = 0;
    assert!(ctx.closable(&stats(0), ConnEnd::ClosedByLocalApp));
    assert!(!ctx.closable(&stats(0), ConnEnd::ClosedByPeerApp));
    assert!(!ctx.closable(&stats(0), ConnEnd::Failed));
}

#[test]
fn sender_goes_through_urls_in_turn() {
    let mut ctx = WorkerContext::new(10, None);
    let mut sender = RequestSender::new(3, 100, 0);
    let mut order = vec![];
    for _ in 0..7 {
        assert!(sender.sent_countable(&ctx));
        order.push(sender.current_url_idx);
        sender.on_request_sent(&mut ctx);
    }
    assert_eq!(order, vec![0, 1, 2, 0, 1, 2, 0]);
    assert_eq!((sender.request_sent, sender.concurrent_requests, ctx.request_sent), (7, 7, 7));
}

#[test]
fn sender_respects_both_limits() {
    let mut ctx = WorkerContext::new(10, None);
    ctx.concurrent_conns = 1;
    // At most two at a time, five in all.
    let mut sender = RequestSender::new(1, 2, 5);
    assert!(sender.can_send());
    sender.on_request_sent(&mut ctx);
    assert!(sender.can_send());
    sender.on_request_sent(&mut ctx);
    assert!(!sender.can_send());
    assert!(!sender.on_request_finished(&mut ctx));
    assert!(sender.can_send());
    sender.on_request_sent(&mut ctx);
    assert!(!sender.on_request_finished(&mut ctx));
    sender.on_request_sent(&mut ctx);
    assert!(!sender.on_request_finished(&mut ctx));
    sender.on_request_sent(&mut ctx);
    assert_eq!(sender.request_sent, 5);
    assert_eq!(sender.concurrent_requests, 2);
    // The share is sent: room alone does not make for another request.
    assert!(!sender.on_request_finished(&mut ctx));
    assert!(!sender.can_send());
    assert_eq!(ctx.concurrent_conns, 1);
    // The last answer closes the connection.
    assert!(sender.done_countable(&ctx));
    assert!(sender.on_request_finished(&mut ctx));
    assert_eq!(ctx.concurrent_conns, 0);
    assert_eq!((sender.request_done, ctx.request_done, ctx.request_success), (5, 5, 5));
    assert!(!sender.done_countable(&ctx));
    // An answer that is not the last needs no open connection to be counted.
    let mut early = RequestSender::new(1, 2, 5);
    early.on_request_sent(&mut ctx);
    assert_eq!(ctx.concurrent_conns, 0);
    assert!(early.done_countable(&ctx));
    assert!(!early.reset_countable(&ctx));
    assert!(!early.on_request_finished(&mut ctx));
    // Without a limit per connection only the room counts.
    let unlimited = RequestSender::new(1, 1, 0);
    assert!(unlimited.can_send());
    assert!(!RequestSender::new(1, 0, 0).can_send());
}

#[test]
fn reset_request_closes_the_connection() {
    let mut ctx = WorkerContext::new(10, None);
    ctx.concurrent_conns = 2;
    let mut sender = RequestSender::new(1, 4, 10);
    sender.on_request_sent(&mut ctx);
    assert!(sender.reset_countable(&ctx));
    sender.on_request_reset(&mut ctx);
    assert_eq!((sender.request_done, sender.concurrent_requests), (1, 0));
    assert_eq!((ctx.request_done, ctx.request_success, ctx.concurrent_conns), (1, 0, 1));
}

#[test]
fn http09_streams_step_by_four() {
    let mut sender = RequestSender::new(1, 4, 10);
    assert_eq!(sender.take_stream_id(), 0);
    assert_eq!(sender.take_stream_id(), 4);
    assert_eq!(sender.take_stream_id(), 8);
    assert_eq!(sender.next_stream_id, 12);
    assert_eq!(STREAM_ID_STEP, 4);
    assert!(RequestSender::http09_response_complete(8, true));
    assert!(!RequestSender::http09_response_complete(8, false));
    assert!(!RequestSender::http09_response_complete(9, true));
    assert!(!RequestSender::http09_response_complete(2, true));
    assert!(RequestSender::http09_response_complete(0, true));
}

#[test]
fn sample_takes_times_until_it_is_full() {
    let mut ctx = WorkerContext::new(3, None);
    for micros in [10, 20, 30] {
        sample_request_time(micros, &mut ctx);
    }
    assert_eq!(ctx.request_time_samples, vec![10, 20, 30]);
}

#[test]
fn full_sample_drops_or_replaces() {
    let mut dropped = 0;
    let mut replaced = [0; 3];
    for _ in 0..400 {
        let mut ctx = WorkerContext::new(3, None);
        ctx.request_time_samples = vec![10, 20, 30];
        sample_request_time(99, &mut ctx);
        let samples = ctx.request_time_samples;
        assert_eq!(samples.len(), 3);
        let changed: Vec<usize> = (0..3).filter(|&i| samples[i] != [10, 20, 30][i]).collect();
        match changed.as_slice() {
            [] => dropped += 1,
            [slot] => {
                assert_eq!(samples[*slot], 99);
                replaced[*slot] += 1;
            }
            _ => panic!("more than one time was replaced: {:?}", samples),
        }
    }
    // Each outcome is common enough to show in 400 draws.
    assert!(dropped > 0);
    assert!(replaced.iter().all(|&n| n > 0), "{:?}", replaced);
}

#[test]
fn full_sample_of_one_keeps_its_length() {
    let mut ctx = WorkerContext::new(1, None);
    sample_request_time(1, &mut ctx);
    for micros in 2..200 {
        sample_request_time(micros, &mut ctx);
        assert_eq!(ctx.request_time_samples.len(), 1);
    }
    assert!(ctx.request_time_samples[0] > 1);
}

#[test]
fn record_sample_follows_the_draws() {
    let mut samples = vec![];
    record_sample(&mut samples, 2, 5, 1, 7);
    record_sample(&mut samples, 2, 6, 0, 0);
    assert_eq!(samples, vec![5, 6]);
    record_sample(&mut samples, 2, 7, 0, 1);
    assert_eq!(samples, vec![5, 6]);
    record_sample(&mut samples, 2, 8, 1, 1);
    assert_eq!(samples, vec![5, 8]);
    record_sample(&mut samples, 2, 9, 1, 0);
    assert_eq!(samples, vec![9, 8]);
    // A sample that takes nothing drops what the coin drops.
    let mut none: Vec<u128> = vec![];
    record_sample(&mut none, 0, 1, 0, 0);
    assert_eq!(none, vec![]);
}

#[test]
fn client_takes_over_what_workers_counted() {
    let mut client = ClientContext::new();
    let mut first = WorkerContext::new(10, Some(vec![1, 2]));
    first.request_sent = 5;
    first.request_done = 4;
    first.request_success = 3;
    first.conn_total = 2;
    first.conn_handshake_success = 2;
    first.conn_finish = 2;
    first.conn_finish_success = 1;
    first.conn_finish_failed = 1;
    first.request_time_samples = vec![100, 200];
    first.conn_stats = stats(0);
    assert!(client.can_add(&first));
    client.add_worker(&mut first, Some(50));
    assert_eq!(client.end_time, Some(50));
    assert_eq!(client.session, Some(vec![1, 2]));
    assert_eq!(first.session, Some(vec![1, 2]));
    assert_eq!(first.request_time_samples, vec![]);
    assert_eq!(first.request_sent, 5);

    let mut second = WorkerContext::new(10, None);
    second.request_sent = 7;
    second.request_done = 7;
    second.request_success = 7;
    second.conn_total = 1;
    second.conn_finish = 1;
    second.conn_finish_success = 1;
    second.request_time_samples = vec![300];
    second.conn_stats = stats(10);
    client.add_worker(&mut second, Some(40));
    assert_eq!((client.request_sent, client.request_done, client.request_success), (12, 11, 10));
    assert_eq!((client.conn_total, client.conn_handshake_success), (3, 2));
    assert_eq!(
        (client.conn_finish, client.conn_finish_success, client.conn_finish_failed),
        (3, 2, 1)
    );
    assert_eq!(client.request_time_samples, vec![100, 200, 300]);
    assert_eq!(client.conn_stats.recv_count, 12);
    assert_eq!(client.conn_stats.lost_bytes, 22);
    // An earlier end does not move the end of the client, nor does none.
    assert_eq!(client.end_time, Some(50));
    assert_eq!(client.session, None);
    let mut third = WorkerContext::new(10, None);
    client.add_worker(&mut third, None);
    assert_eq!(client.end_time, Some(50));
    client.add_worker(&mut third, Some(51));
    assert_eq!(client.end_time, Some(51));

    let mut fresh = ClientContext::new();
    fresh.add_worker(&mut third, None);
    assert_eq!(fresh.end_time, None);
    fresh.request_done = u64::MAX;
    third.request_done = 1;
    assert!(!fresh.can_add(&third));
}
