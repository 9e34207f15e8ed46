//! Queue store behaviour: FIFO identifier order, exact removal, counts.

use offline_sync::store::QueueStore;
use offline_sync::sync_service::SyncService;
use offline_sync::sync_service::TickStep;

fn enqueue_n(service: &mut SyncService, n: usize) -> Vec<i64> {
    let mut ids = Vec::new();
    for k in 0..n {
        let id = service
            .queue_operation(
                "product_create".to_string(),
                format!("/products/{}", k),
                "POST".to_string(),
                "{\"name\":\"Widget\"}".to_string(),
                1_000 + k as i64,
            )
            .unwrap();
        ids.push(id);
    }
    ids
}

#[test]
fn enqueue_returns_increasing_ids() {
    let mut service = SyncService::new();
    let ids = enqueue_n(&mut service, 5);
    assert_eq!(ids, vec![0, 1, 2, 3, 4]);
}

#[test]
fn list_pending_is_in_enqueue_order() {
    let mut service = SyncService::new();
    enqueue_n(&mut service, 4);
    let pending = service.list_pending();
    assert_eq!(pending.len(), 4);
    for w in pending.windows(2) {
        assert!(w[0].id < w[1].id);
    }
}

#[test]
fn order_is_kept_across_a_drain() {
    // Enqueue, drain one entry in the middle, enqueue more: listing stays in
    // strictly increasing identifier order and new ids stay above old ones.
    let mut service = SyncService::new();
    let ids = enqueue_n(&mut service, 3);
    service.start();
    let step = service.begin_tick(true);
    let batch = match step {
        TickStep::Drain(batch) => batch,
        _ => panic!("running and online must drain"),
    };
    assert_eq!(batch.len(), 3);
    // Resolve only the middle entry.
    service.finish_item(
        ids[1],
        offline_sync::transport::ItemOutcome::Success { body: "{}".to_string() },
        2_000,
    );
    let more = enqueue_n(&mut service, 2);
    assert_eq!(more, vec![3, 4]);
    let pending = service.list_pending();
    let got: Vec<i64> = pending.iter().map(|e| e.id).collect();
    assert_eq!(got, vec![0, 2, 3, 4]);
}

#[test]
fn successful_drain_removes_exactly_that_entry() {
    let mut service = SyncService::new();
    let ids = enqueue_n(&mut service, 3);
    let before = service.list_pending();
    service.finish_item(
        ids[1],
        offline_sync::transport::ItemOutcome::Success { body: "{}".to_string() },
        2_000,
    );
    let after = service.list_pending();
    assert_eq!(after.len(), 2);
    assert_eq!(after[0].id, before[0].id);
    assert_eq!(after[0].payload, before[0].payload);
    assert_eq!(after[1].id, before[2].id);
    assert_eq!(after[1].payload, before[2].payload);
}

#[test]
fn fresh_entry_has_initial_retry_state() {
    let mut service = SyncService::new();
    let id = service
        .queue_operation(
            "order_create".to_string(),
            "/orders/".to_string(),
            "POST".to_string(),
            "{\"total\":5}".to_string(),
            42,
        )
        .unwrap();
    let pending = service.list_pending();
    assert_eq!(pending.len(), 1);
    let e = &pending[0];
    assert_eq!(e.id, id);
    assert_eq!(e.created_at, 42);
    assert_eq!(e.operation_type, "order_create");
    assert_eq!(e.endpoint, "/orders/");
    assert_eq!(e.method, "POST");
    assert_eq!(e.payload, "{\"total\":5}");
    assert_eq!(e.retries, 0);
    assert_eq!(e.last_attempt_at, None);
    assert_eq!(e.error_message, None);
}

#[test]
fn store_record_attempt_updates_only_retry_fields() {
    let mut store = QueueStore::new();
    let id = store
        .enqueue(
            "product_update".to_string(),
            "/products/7".to_string(),
            "PUT".to_string(),
            "{}".to_string(),
            10,
        )
        .unwrap();
    let found = store.record_attempt(id, 2, 99, "connection refused".to_string());
    assert!(found);
    let rows = store.list_pending();
    assert_eq!(rows[0].retries, 2);
    assert_eq!(rows[0].last_attempt_at, Some(99));
    assert_eq!(rows[0].error_message.as_deref(), Some("connection refused"));
    assert_eq!(rows[0].payload, "{}");
    assert_eq!(rows[0].endpoint, "/products/7");
}

#[test]
fn store_delete_of_absent_id_changes_nothing() {
    let mut store = QueueStore::new();
    store
        .enqueue(
            "product_delete".to_string(),
            "/products/1".to_string(),
            "DELETE".to_string(),
            "null".to_string(),
            1,
        )
        .unwrap();
    assert!(store.delete(77).is_none());
    assert_eq!(store.len(), 1);
    let removed = store.delete(0).unwrap();
    assert_eq!(removed.endpoint, "/products/1");
    assert_eq!(store.len(), 0);
}

#[test]
fn status_queued_count_tracks_pending_rows() {
    let mut service = SyncService::new();
    assert_eq!(service.get_sync_status(false).queued_count, 0);
    let ids = enqueue_n(&mut service, 3);
    assert_eq!(service.get_sync_status(false).queued_count, 3);
    service.finish_item(
        ids[0],
        offline_sync::transport::ItemOutcome::Success { body: "{}".to_string() },
        5,
    );
    assert_eq!(service.get_sync_status(false).queued_count, 2);
    enqueue_n(&mut service, 1);
    let status = service.get_sync_status(true);
    assert_eq!(status.queued_count, 3);
    assert_eq!(status.failed_count, 0);
    assert!(status.is_online);
}
