use appinsights::contracts::Envelope;
use appinsights::queue::{drain_all, queue_len, queue_new, queue_pop, queue_push};

fn envelope(name: &str) -> Envelope {
    Envelope {
        name: name.to_string(),
        ..Default::default()
    }
}

#[test]
fn it_drains_enqueued_items_in_order() {
    let queue = queue_new();
    for i in 0..10 {
        queue_push(&queue, envelope(&format!("--event {}--", i)));
    }
    assert_eq!(queue_len(&queue), 10);

    let batch = drain_all(&queue);
    assert_eq!(batch.len(), 10);
    for (i, e) in batch.iter().enumerate() {
        assert_eq!(e.name, format!("--event {}--", i));
    }
    assert_eq!(queue_len(&queue), 0);
}

#[test]
fn it_drains_nothing_from_an_empty_queue() {
    let queue = queue_new();
    assert!(drain_all(&queue).is_empty());
    assert_eq!(queue_pop(&queue), None);
}

#[test]
fn it_leaves_later_items_for_the_next_drain() {
    let queue = queue_new();
    queue_push(&queue, envelope("first"));
    let batch = drain_all(&queue);
    assert_eq!(batch.len(), 1);

    queue_push(&queue, envelope("second"));
    let batch = drain_all(&queue);
    assert_eq!(batch.len(), 1);
    assert_eq!(batch[0].name, "second");
}
