use apalis_pubsub::utils::{Acknowledger, PubSubContext};
use apalis_pubsub::PubSubError;
use std::sync::atomic::{AtomicBool, AtomicUsize, Ordering};
use std::sync::Arc;

#[test]
fn test_pubsub_context_ack() {
    let acked = Arc::new(AtomicBool::new(false));
    let acked_clone = acked.clone();

    let ack_fn = move || {
        acked_clone.store(true, Ordering::SeqCst);
        Ok(())
    };

    let nack_fn = || Ok(());

    let ctx = PubSubContext::new("test-ack-id".into(), ack_fn, nack_fn);
    ctx.ack().unwrap();

    assert!(acked.load(Ordering::SeqCst), "Message should have been acknowledged");
}

#[test]
fn test_pubsub_context_nack() {
    let nacked = Arc::new(AtomicBool::new(false));
    let nacked_clone = nacked.clone();

    let ack_fn = || Ok(());

    let nack_fn = move || {
        nacked_clone.store(true, Ordering::SeqCst);
        Ok(())
    };

    let ctx = PubSubContext::new("test-nack-id".into(), ack_fn, nack_fn);
    ctx.nack().unwrap();

    assert!(nacked.load(Ordering::SeqCst), "Message should have been negatively acknowledged");
}

#[test]
fn test_pubsub_context_ack_error() {
    let ack_fn = || Err("Ack failed".to_string());

    let nack_fn = || Ok(());

    let ctx = PubSubContext::new("test-error-id".into(), ack_fn, nack_fn);
    let result = ctx.ack();

    assert!(result.is_err(), "Ack should fail when the underlying function fails");
}

#[test]
fn test_pubsub_context_nack_error() {
    let ack_fn = || Ok(());

    let nack_fn = || Err("Nack failed".to_string());

    let ctx = PubSubContext::new("test-error-id".into(), ack_fn, nack_fn);
    let result = ctx.nack();

    assert!(result.is_err(), "Nack should fail when the underlying function fails");
}

#[test]
fn ack_failure_carries_the_reason_of_the_broker() {
    let ctx = PubSubContext::new("id".to_string(), || Err("Ack failed".to_string()), || Ok(()));
    assert_eq!(ctx.ack(), Err(PubSubError::AckFailed("Ack failed".to_string())));
    assert_eq!(ctx.nack(), Ok(()));
}

#[test]
fn nack_failure_carries_the_reason_of_the_broker() {
    let ctx = PubSubContext::new("id".to_string(), || Ok(()), || Err("Nack failed".to_string()));
    assert_eq!(ctx.nack(), Err(PubSubError::AckFailed("Nack failed".to_string())));
    assert_eq!(ctx.ack(), Ok(()));
}

#[test]
fn every_call_reaches_the_broker_operation() {
    let acks = Arc::new(AtomicUsize::new(0));
    let nacks = Arc::new(AtomicUsize::new(0));
    let acks_seen = acks.clone();
    let nacks_seen = nacks.clone();
    let ctx = PubSubContext::new(
        "id".to_string(),
        move || {
            acks_seen.fetch_add(1, Ordering::SeqCst);
            Ok(())
        },
        move || {
            nacks_seen.fetch_add(1, Ordering::SeqCst);
            Ok(())
        },
    );
    assert_eq!(acks.load(Ordering::SeqCst), 0);
    ctx.ack().unwrap();
    ctx.ack().unwrap();
    ctx.nack().unwrap();
    assert_eq!(acks.load(Ordering::SeqCst), 2);
    assert_eq!(nacks.load(Ordering::SeqCst), 1);
}

#[test]
fn handle_of_a_context_can_be_called_directly() {
    let ctx = PubSubContext::new("id".to_string(), || Ok(()), || Err("no".to_string()));
    assert_eq!(ctx.handle.acknowledge(), Ok(()));
    assert_eq!(ctx.handle.negative_acknowledge(), Err("no".to_string()));
}
