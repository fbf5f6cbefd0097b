use std::sync::Arc;

use coop_cancel::channel::channel;
use coop_cancel::stop_source::StopSource;
use coop_cancel::wait::WaitCond;

#[test]
fn flag_starts_down_and_stays_up() {
    let source = StopSource::new();
    let token = source.stop_token();

    assert!(!token.stop_requested());
    source.request_stop();
    assert!(token.stop_requested());
    assert!(token.stop_requested());
}

#[test]
fn request_stop_is_idempotent() {
    let once = StopSource::new();
    let once_token = once.stop_token();
    once.request_stop();

    let twice = StopSource::new();
    let twice_token = twice.stop_token();
    twice.request_stop();
    twice.request_stop();

    assert_eq!(once_token.stop_requested(), twice_token.stop_requested());
    assert!(twice_token.stop_requested());

    let (_tx, rx) = channel::<u64>();
    assert_eq!(rx.receive(&twice_token), None);
}

#[test]
fn cloned_sources_share_one_record() {
    let source = StopSource::new();
    let clone = source.clone();
    let token = source.stop_token();

    assert!(!token.stop_requested());
    clone.request_stop();
    assert!(token.stop_requested());
}

#[test]
fn cloned_tokens_observe_the_same_flag() {
    let source = StopSource::new();
    let token = source.stop_token();
    let other = token.clone();

    assert!(!other.stop_requested());
    source.request_stop();
    assert!(other.stop_requested());
    assert!(token.stop_requested());
}

#[test]
fn stop_with_registered_wait_cond_notifies_without_blocking() {
    let source = StopSource::new();
    let token = source.stop_token();

    let cond = Arc::new(WaitCond::new());
    token.register_cond_var(cond);
    source.request_stop();
    assert!(token.stop_requested());

    token.unregister_cond_var();
    source.request_stop();
    assert!(token.stop_requested());
}

#[test]
fn notify_without_waiter_is_a_no_op() {
    let cond = WaitCond::new();
    cond.notify_one();
    cond.notify_one();
}

#[test]
fn tokens_from_different_sources_are_independent() {
    let first = StopSource::new();
    let second = StopSource::new();
    let first_token = first.stop_token();
    let second_token = second.stop_token();

    first.request_stop();
    assert!(first_token.stop_requested());
    assert!(!second_token.stop_requested());
}
