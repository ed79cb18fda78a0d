use tokio::runtime::Runtime;
use tokio::sync::broadcast::error::RecvError;
use tokio::sync::broadcast::error::TryRecvError;
use wallet_bridge::lifecycle::CreateOutcome;
use wallet_bridge::lifecycle::LoadOutcome;
use wallet_bridge::lifecycle::PhraseOutcome;
use wallet_bridge::lifecycle::deinitialize;
use wallet_bridge::lifecycle::initialize_existing_with_birthday;
use wallet_bridge::lifecycle::initialize_from_phrase_simple;
use wallet_bridge::lifecycle::initialize_new;
use wallet_bridge::lifecycle::initialize_new_with_info;
use wallet_bridge::registry::EngineHandle;
use wallet_bridge::registry::Registry;
use wallet_bridge::relay::Relay;
use wallet_bridge::send::SendOutcome;
use wallet_bridge::send::SendStart;
use wallet_bridge::send::send_phase_finish;
use wallet_bridge::send::send_phase_start;

fn started_handle(id: u64) -> EngineHandle {
    let mut h = EngineHandle::new(id);
    h.mark_watcher_started();
    h
}

#[test]
fn relay_delivers_published_events() {
    let mut relay = Relay::new();
    let mut rx = relay.subscriber();
    let delivered = relay.emit_raw_progress(1, 2);
    assert_eq!(delivered, 1);
    let text = rx.try_recv().expect("one event is queued");
    assert_eq!(
        text,
        "{\"status\": \"sending\", \"progress\": 70, \"total\": 100, \"error\": null, \"txid\": null}"
    );
}

#[test]
fn bridge_remap_empty_phase() {
    let mut relay = Relay::new();
    let mut rx = relay.subscriber();
    relay.emit_raw_progress(0, 0);
    let text = rx.try_recv().expect("one event is queued");
    assert_eq!(
        text,
        "{\"status\": \"sending\", \"progress\": 50, \"total\": 100, \"error\": null, \"txid\": null}"
    );
}

#[test]
fn publish_without_subscribers_succeeds() {
    let mut relay = Relay::new();
    assert_eq!(relay.initialize(), "OK");
    let delivered = relay.emit_raw_progress(1, 4);
    assert_eq!(delivered, 0);
}

#[test]
fn reinitialize_closes_old_subscribers_without_deadlock() {
    let rt = Runtime::new().expect("a runtime");
    let mut relay = Relay::new();
    assert_eq!(relay.initialize(), "OK");
    let mut rx_old = relay.subscriber();
    relay.emit_raw_progress(1, 2);

    assert_eq!(relay.initialize(), "OK");
    relay.emit_raw_progress(0, 0);

    // The old subscriber drains what was published before the swap ...
    let first = rt.block_on(rx_old.recv()).expect("the pre-swap event");
    assert!(first.contains("\"progress\": 70"));
    // ... and then sees its channel closed instead of hanging forever.
    match rt.block_on(rx_old.recv()) {
        Err(RecvError::Closed) => {},
        other => panic!("old subscription must end as closed, got {:?}", other),
    }

    // A fresh subscriber follows the new channel.
    let mut rx_new = relay.subscriber();
    relay.emit_raw_progress(2, 2);
    let next = rx_new.try_recv().expect("the post-swap event");
    assert!(next.contains("\"progress\": 90"));
}

#[test]
fn send_flow_success_events_are_monotone() {
    let mut registry = Registry::new();
    registry.set(Some(started_handle(9)));
    let mut relay = Relay::new();
    let mut rx = relay.subscriber();

    let start = send_phase_start(&registry, &mut relay, 5000);
    let (handle, amount) = match start {
        SendStart::Accepted { handle, amount } => (handle, amount),
        SendStart::Rejected { result } => panic!("unexpected rejection: {}", result),
    };
    assert_eq!(handle.id, 9);
    assert_eq!(amount, 5000);

    let result = send_phase_finish(&mut relay, &SendOutcome::Sent {
        txid: String::from("deadbeef"),
    });
    assert_eq!(result, "{\"txid\": \"deadbeef\"}");

    let mut progresses = Vec::new();
    let mut last = String::new();
    while let Ok(text) = rx.try_recv() {
        let marker = "\"progress\": ";
        let tail = &text[text.find(marker).unwrap() + marker.len()..];
        let value: u32 = tail[..tail.find(',').unwrap()].parse().unwrap();
        progresses.push(value);
        last = text;
    }
    assert_eq!(progresses, vec![0, 10, 90, 100]);
    assert!(last.contains("\"status\": \"completed\""));
    assert!(last.contains("\"txid\": \"deadbeef\""));
}

#[test]
fn send_flow_failure_keeps_progress_and_escapes() {
    let mut registry = Registry::new();
    registry.set(Some(started_handle(4)));
    let mut relay = Relay::new();
    let mut rx = relay.subscriber();

    match send_phase_start(&registry, &mut relay, 1) {
        SendStart::Accepted { .. } => {},
        SendStart::Rejected { result } => panic!("unexpected rejection: {}", result),
    }
    let result = send_phase_finish(&mut relay, &SendOutcome::Failed {
        message: String::from("fee \"too\" low"),
    });
    assert_eq!(result, "{\"error\": \"fee \\\"too\\\" low\"}");

    assert!(rx.try_recv().unwrap().contains("\"progress\": 0"));
    assert!(rx.try_recv().unwrap().contains("\"progress\": 10"));
    let terminal = rx.try_recv().unwrap();
    assert!(terminal.contains("\"status\": \"error\""));
    assert!(terminal.contains("\"progress\": 10"));
    assert!(terminal.contains("fee \\\"too\\\" low"));
    assert!(matches!(rx.try_recv(), Err(TryRecvError::Empty)));
}

#[test]
fn negative_amount_publishes_exactly_one_error_event() {
    let mut registry = Registry::new();
    registry.set(Some(started_handle(2)));
    let mut relay = Relay::new();
    let mut rx = relay.subscriber();

    match send_phase_start(&registry, &mut relay, -1) {
        SendStart::Rejected { result } => {
            assert_eq!(result, "{\"error\": \"Invalid amount: cannot be negative\"}");
        },
        SendStart::Accepted { .. } => panic!("a negative amount must be rejected"),
    }
    let only = rx.try_recv().expect("exactly one event");
    assert!(only.contains("\"status\": \"error\""));
    assert!(only.contains("\"error\": \"Invalid amount\""));
    assert!(matches!(rx.try_recv(), Err(TryRecvError::Empty)));
}

#[test]
fn send_on_empty_registry_is_error_event_and_result() {
    let registry = Registry::new();
    let mut relay = Relay::new();
    let mut rx = relay.subscriber();

    match send_phase_start(&registry, &mut relay, 100) {
        SendStart::Rejected { result } => {
            assert_eq!(result, "{\"error\": \"Wallet not initialized\"}");
        },
        SendStart::Accepted { .. } => panic!("an empty registry must reject"),
    }
    let only = rx.try_recv().expect("exactly one event");
    assert!(only.contains("\"status\": \"error\""));
    assert!(only.contains("Wallet not initialized"));
    assert!(matches!(rx.try_recv(), Err(TryRecvError::Empty)));
}

#[test]
fn lifecycle_success_installs_watching_handle() {
    let mut registry = Registry::new();
    let status = initialize_existing_with_birthday(
        &mut registry,
        LoadOutcome::Loaded { handle: started_handle(7) },
        1500,
    );
    assert_eq!(status, "{\"status\": \"OK\", \"birthday\": 1500}");
    let handle = registry.get().expect("a handle is installed");
    assert!(handle.watcher_started);
    assert_eq!(handle.id, 7);
}

#[test]
fn lifecycle_failure_leaves_registry_untouched() {
    let mut registry = Registry::new();
    let status = initialize_existing_with_birthday(
        &mut registry,
        LoadOutcome::Missing { wallet_path: String::from("/tmp/w/wallet.dat") },
        0,
    );
    assert_eq!(status, "Error: Wallet file not found at: /tmp/w/wallet.dat");
    assert!(registry.get().is_none());

    let status = initialize_existing_with_birthday(
        &mut registry,
        LoadOutcome::ReadError { message: String::from("corrupt header") },
        0,
    );
    assert_eq!(status, "Error: Could not read wallet file: corrupt header");
    assert!(registry.get().is_none());
}

#[test]
fn phrase_restore_and_deinitialize() {
    let mut registry = Registry::new();
    let status = initialize_from_phrase_simple(&mut registry, PhraseOutcome::Built {
        handle: started_handle(11),
    });
    assert_eq!(status, "OK");
    assert!(registry.get().expect("installed").watcher_started);

    assert_eq!(deinitialize(&mut registry), "OK");
    assert!(registry.get().is_none());
    // Idempotent: clearing an empty slot is not an error.
    assert_eq!(deinitialize(&mut registry), "OK");
    assert!(registry.get().is_none());
}

#[test]
fn phrase_restore_failure_is_error_text() {
    let mut registry = Registry::new();
    let status = initialize_from_phrase_simple(&mut registry, PhraseOutcome::BuildError {
        message: String::from("invalid phrase"),
    });
    assert_eq!(status, "Error: invalid phrase");
    assert!(registry.get().is_none());
}

#[test]
fn create_new_returns_raw_seed_response() {
    let mut registry = Registry::new();
    let status = initialize_new(&mut registry, CreateOutcome::Created {
        handle: started_handle(21),
        seed_response: String::from("{\"seed\":\"apple banana cherry\"}"),
    });
    assert_eq!(status, "{\"seed\":\"apple banana cherry\"}");
    assert!(registry.get().expect("installed").watcher_started);
}

#[test]
fn create_new_with_info_shapes_result() {
    let mut registry = Registry::new();
    let status = initialize_new_with_info(
        &mut registry,
        CreateOutcome::Created {
            handle: started_handle(22),
            seed_response: String::from("{\"seed\":\"apple banana cherry\"}"),
        },
        2000050,
    );
    assert_eq!(
        status,
        "{\"seed\": \"apple banana cherry\", \"birthday\": 1999950, \"latest_block\": 2000050}"
    );

    let status = initialize_new_with_info(
        &mut registry,
        CreateOutcome::ConfigError { message: String::from("bad server") },
        2000050,
    );
    assert_eq!(status, "Error: bad server");
}

#[test]
fn create_new_error_variants() {
    let mut registry = Registry::new();
    let status = initialize_new(&mut registry, CreateOutcome::SeedError {
        message: String::from("seed locked"),
    });
    assert_eq!(status, "Error: seed locked");
    assert!(registry.get().is_none());

    let status = initialize_new(&mut registry, CreateOutcome::BuildError {
        message: String::from("no disk space"),
    });
    assert_eq!(status, "Error: no disk space");
    assert!(registry.get().is_none());

    let status = initialize_existing_with_birthday(
        &mut registry,
        LoadOutcome::ConfigError { message: String::from("bad uri") },
        0,
    );
    assert_eq!(status, "Error: bad uri");
    assert!(registry.get().is_none());
}

#[test]
fn replaced_handle_reference_stays_usable() {
    let mut registry = Registry::new();
    registry.set(Some(started_handle(1)));
    let captured = registry.get().expect("first handle");
    registry.set(Some(started_handle(2)));
    // The reader that captured the old handle keeps its own reference.
    assert_eq!(captured.id, 1);
    assert_eq!(registry.get().expect("second handle").id, 2);
}
