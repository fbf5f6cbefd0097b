use coop_cancel::channel::{channel, Channel};
use coop_cancel::stop_source::StopSource;

#[test]
fn fifo_order_is_preserved() {
    let (tx, rx) = channel::<String>();
    let source = StopSource::new();
    let token = source.stop_token();

    tx.send("a".to_string());
    tx.send("b".to_string());
    tx.send("c".to_string());

    assert_eq!(rx.receive(&token), Some("a".to_string()));
    assert_eq!(rx.receive(&token), Some("b".to_string()));
    assert_eq!(rx.receive(&token), Some("c".to_string()));
}

#[test]
fn cancellation_drains_before_stopping() {
    let (tx, rx) = channel::<u64>();
    let source = StopSource::new();
    let token = source.stop_token();

    tx.send(1);
    tx.send(2);
    tx.send(3);
    source.request_stop();

    assert_eq!(rx.receive(&token), Some(1));
    assert_eq!(rx.receive(&token), Some(2));
    assert_eq!(rx.receive(&token), Some(3));
    assert_eq!(rx.receive(&token), None);
    assert_eq!(rx.receive(&token), None);
}

#[test]
fn stop_on_empty_queue_receives_nothing() {
    let (_tx, rx) = channel::<u64>();
    let source = StopSource::new();
    let token = source.stop_token();

    source.request_stop();

    assert_eq!(rx.receive(&token), None);
}

#[test]
fn send_after_stop_is_still_delivered() {
    let (tx, rx) = channel::<u64>();
    let source = StopSource::new();
    let token = source.stop_token();

    source.request_stop();
    tx.send(9);

    assert_eq!(rx.receive(&token), Some(9));
    assert_eq!(rx.receive(&token), None);
}

#[test]
fn cloned_senders_feed_one_queue() {
    let (tx, rx) = channel::<u64>();
    let tx2 = tx.clone();
    let source = StopSource::new();
    let token = source.stop_token();

    tx.send(1);
    tx2.send(2);
    tx.send(3);
    source.request_stop();

    assert_eq!(rx.receive(&token), Some(1));
    assert_eq!(rx.receive(&token), Some(2));
    assert_eq!(rx.receive(&token), Some(3));
    assert_eq!(rx.receive(&token), None);
}

#[test]
fn channel_value_receive_ignores_stop_flag() {
    let source = StopSource::new();
    let token = source.stop_token();
    source.request_stop();

    let mut c: Channel<u64> = Channel::new();
    assert_eq!(c.len(), 0);
    c.send(7);
    c.send(8);
    assert_eq!(c.len(), 2);

    assert_eq!(c.receive(&token), Some(7));
    assert_eq!(c.receive(&token), Some(8));
    assert_eq!(c.receive(&token), None);
    assert_eq!(c.len(), 0);
}

#[test]
fn ready_tracks_queue_and_stop_flag() {
    let mut c: Channel<u64> = Channel::new();
    assert!(!c.ready(false));
    assert!(c.ready(true));
    c.send(5);
    assert!(c.ready(false));
    assert!(c.ready(true));
}

#[test]
fn interleaved_sends_and_receives_keep_order() {
    let (tx, rx) = channel::<u64>();
    let source = StopSource::new();
    let token = source.stop_token();

    tx.send(1);
    tx.send(2);
    assert_eq!(rx.receive(&token), Some(1));
    tx.send(3);
    assert_eq!(rx.receive(&token), Some(2));
    assert_eq!(rx.receive(&token), Some(3));

    tx.send(4);
    source.request_stop();
    assert_eq!(rx.receive(&token), Some(4));
    assert_eq!(rx.receive(&token), None);
}

#[test]
fn drained_page_count_survives_stop_request() {
    let (tx, rx) = channel::<String>();
    let source = StopSource::new();
    let token = source.stop_token();

    tx.send("page 1".to_string());
    tx.send("page 2".to_string());
    source.request_stop();

    let mut pages_printed: usize = 0;
    loop {
        let Some(_page) = rx.receive(&token) else {
            break;
        };
        pages_printed += 1;
    }
    assert_eq!(pages_printed, 2);
}
