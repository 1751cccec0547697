use apalis_pubsub::inbound::{InboundAction, InboundEvent, Request};
use apalis_pubsub::sink::{DrainStep, FlushReport, DrainStatus};
use apalis_pubsub::task::{PubSubTask, PubSubTaskId};
use apalis_pubsub::utils::{PubSubContext, Settled};
use apalis_pubsub::{PubSubBackend, PubSubConfig, PubSubError};

fn connected() -> PubSubBackend<Settled> {
    match PubSubBackend::new_from_config(Ok(())) {
        Ok(backend) => backend,
        Err(error) => panic!("no backend: {}", error.message()),
    }
}

fn outgoing(n: u8) -> PubSubTask<Vec<u8>, Settled> {
    PubSubTask {
        args: vec![n],
        task_id: Some(PubSubTaskId::Minted(0)),
        ctx: PubSubContext::default(),
    }
}

#[test]
fn backend_from_config_has_the_default_configuration() {
    let backend = connected();
    assert_eq!(backend.settings().buffer_size, 100);
    assert_eq!(backend.settings().max_message_size, 10 * 1024 * 1024);
    assert_eq!(backend.settings().max_outstanding_messages, None);
    assert_eq!(backend.settings().max_outstanding_bytes, None);
}

#[test]
fn backend_with_config_keeps_the_configuration() {
    let config = PubSubConfig {
        buffer_size: 200,
        max_message_size: 5 * 1024 * 1024,
        max_outstanding_messages: Some(1000),
        max_outstanding_bytes: Some(100 * 1024 * 1024),
    };
    let mut backend = match PubSubBackend::<Settled>::new_with_config(Ok(()), config) {
        Ok(backend) => backend,
        Err(error) => panic!("no backend: {}", error.message()),
    };
    assert_eq!(backend.settings().buffer_size, 200);
    assert_eq!(backend.settings().max_message_size, 5 * 1024 * 1024);
    assert_eq!(backend.settings().max_outstanding_messages, Some(1000));
    assert_eq!(backend.settings().max_outstanding_bytes, Some(100 * 1024 * 1024));
    assert_eq!(backend.sink_mut().buffered(), 0);
    assert!(!backend.sink_mut().is_flushing());
}

#[test]
fn failed_connection_gives_a_client_error() {
    match PubSubBackend::<Settled>::new_with_config(
        Err("connection refused".to_string()),
        PubSubConfig::default(),
    ) {
        Ok(_) => panic!("a backend without a connection"),
        Err(error) => assert_eq!(error, PubSubError::Client("connection refused".to_string())),
    }
    match PubSubBackend::<Settled>::new_from_config(Err("no project".to_string())) {
        Ok(_) => panic!("a backend without a connection"),
        Err(error) => assert_eq!(error.message(), "Pub/Sub client error: no project"),
    }
}

#[test]
fn shutdown_cancels_the_token_of_the_receive_loop() {
    let backend = connected();
    let handle = backend.clone();
    let (_, token) = backend.poll();
    assert!(!token.is_cancelled());
    handle.shutdown();
    assert!(token.is_cancelled());
    // Requesting it again changes nothing.
    handle.shutdown();
    assert!(token.is_cancelled());
}

#[test]
fn tokens_of_two_backends_are_apart() {
    let first = connected();
    let second = connected();
    let watcher = first.clone();
    first.shutdown();
    let (_, first_token) = watcher.poll();
    let (_, second_token) = second.poll();
    assert!(first_token.is_cancelled());
    assert!(!second_token.is_cancelled());
}

#[test]
fn shutdown_does_not_reach_the_sink() {
    let mut backend = connected();
    backend.sink_mut().accept(outgoing(1));
    backend.sink_mut().accept(outgoing(2));
    let batch = match backend.sink_mut().drain() {
        DrainStep::Flush(batch) => batch,
        _ => panic!("no flush was started"),
    };
    assert_eq!(batch.len(), 2);
    backend.sink_mut().accept(outgoing(3));

    backend.shutdown();

    // The flush in progress runs to its end and the buffer is as it was.
    assert!(backend.sink_mut().is_flushing());
    assert_eq!(backend.sink_mut().buffered(), 1);
    assert_eq!(backend.sink_mut().flush_polled(FlushReport::Succeeded), DrainStatus::Ready);
    assert!(matches!(backend.sink_mut().drain(), DrainStep::Flush(_)));
}

#[test]
fn handler_begun_before_shutdown_completes_after_it() {
    let backend = match PubSubBackend::<Settled>::new_with_config(Ok(()), PubSubConfig::default()) {
        Ok(backend) => backend,
        Err(error) => panic!("no backend: {}", error.message()),
    };
    let handle = backend.clone();
    let (mut bridge, token) = backend.poll();

    let (handler, request) = bridge.receive(b"\"job\"", None, PubSubContext::default());
    assert_eq!(request, Request::Decode);

    // The signal is cancelled while the handler is in mid-flight.
    handle.shutdown();
    assert!(token.is_cancelled());

    let (handler, action) = handler.step(InboundEvent::Decoded(Some("job".to_string())));
    assert!(matches!(action, InboundAction::Enqueue(Ok(Some(_)))));
    let (handler, action) = handler.step(InboundEvent::<String>::Enqueued(true));
    assert!(matches!(action, InboundAction::Acknowledge));
    let (_, action) = handler.step(InboundEvent::<String>::Acknowledged(Ok(())));
    assert!(matches!(action, InboundAction::Finish(_)));
}

#[test]
fn polling_starts_a_bridge_with_the_configuration_of_the_backend() {
    let config = PubSubConfig { buffer_size: 9, max_message_size: 3, ..PubSubConfig::default() };
    let backend = match PubSubBackend::<Settled>::new_with_config(Ok(()), config) {
        Ok(backend) => backend,
        Err(error) => panic!("no backend: {}", error.message()),
    };
    let (mut bridge, _) = backend.poll();
    assert_eq!(bridge.capacity(), 9);
    let (_, request) = bridge.receive(b"abc", None, PubSubContext::default());
    assert_eq!(request, Request::Decode);
    let (_, request) = bridge.receive(b"abcd", None, PubSubContext::default());
    assert_eq!(request, Request::Acknowledge);
}

#[test]
fn clone_of_a_backend_copies_the_buffer_without_the_flush() {
    let mut backend = connected();
    backend.sink_mut().accept(outgoing(1));
    assert!(matches!(backend.sink_mut().drain(), DrainStep::Flush(_)));
    backend.sink_mut().accept(outgoing(2));
    let mut copy = backend.clone();
    assert!(!copy.sink_mut().is_flushing());
    assert_eq!(copy.sink_mut().buffered(), 1);
    assert_eq!(copy.settings().buffer_size, backend.settings().buffer_size);
    assert!(backend.sink_mut().is_flushing());
}

#[test]
fn middleware_passes_services_through() {
    let backend = connected();
    assert_eq!(backend.middleware().layer(5u8).into_inner(), 5);
}
