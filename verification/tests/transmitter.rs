use appinsights::contracts::{Envelope, Transmission, TransmissionItem};
use appinsights::transmitter::{
    can_retry_item, errors_well_formed, interpret_response, retain_retry_items, Response,
};

fn envelope(name: &str) -> Envelope {
    Envelope {
        name: name.to_string(),
        ..Default::default()
    }
}

fn items() -> Vec<Envelope> {
    (0..5).map(|i| envelope(&format!("event {}", i))).collect()
}

fn retry_items() -> Vec<Envelope> {
    vec![envelope("event 4")]
}

fn entry(index: usize, status_code: u16, message: &str) -> TransmissionItem {
    TransmissionItem {
        index,
        status_code,
        message: message.to_string(),
    }
}

fn partial_no_retries() -> Transmission {
    Transmission {
        items_accepted: 3,
        items_received: 5,
        errors: vec![entry(2, 400, "Bad 1"), entry(4, 400, "Bad 2")],
    }
}

fn partial_some_retries() -> Transmission {
    Transmission {
        items_accepted: 2,
        items_received: 5,
        errors: vec![entry(2, 400, "Bad 1"), entry(4, 408, "OK Later")],
    }
}

fn none_accepted() -> Transmission {
    Transmission {
        items_accepted: 0,
        items_received: 5,
        errors: (0..5).map(|i| entry(i, 500, "Bad")).collect(),
    }
}

fn all_accepted() -> Transmission {
    Transmission {
        items_accepted: 5,
        items_received: 5,
        errors: vec![],
    }
}

fn retry_after_str() -> Option<String> {
    Some("Wed, 09 Aug 2017 23:43:57 GMT".to_string())
}

const RETRY_AFTER_MILLIS: i64 = 1_502_322_237_000;

#[test]
fn it_handles_success() {
    let r = interpret_response(200, Some(all_accepted()), None, items());
    assert_eq!(r, Response::Success);
}

#[test]
fn it_handles_partial_resend_some_items() {
    let r = interpret_response(206, Some(partial_some_retries()), None, items());
    assert_eq!(r, Response::Retry(retry_items()));
}

#[test]
fn it_handles_partial_nothing_to_resend() {
    let r = interpret_response(206, Some(partial_no_retries()), None, items());
    assert_eq!(r, Response::NoRetry);
}

#[test]
fn it_handles_partial_resend_everything() {
    let r = interpret_response(206, Some(none_accepted()), None, items());
    assert_eq!(r, Response::Retry(items()));
}

#[test]
fn it_handles_partial_everything_accepted() {
    let r = interpret_response(206, Some(all_accepted()), None, items());
    assert_eq!(r, Response::Success);
}

#[test]
fn it_handles_bad_request_no_retry() {
    let r = interpret_response(400, None, None, items());
    assert_eq!(r, Response::NoRetry);
}

#[test]
fn it_handles_timeout_resend_everything() {
    let r = interpret_response(408, None, None, items());
    assert_eq!(r, Response::Retry(items()));
}

#[test]
fn it_handles_timeout_throttled() {
    let r = interpret_response(408, None, retry_after_str(), items());
    assert_eq!(r, Response::Throttled(RETRY_AFTER_MILLIS, items()));
}

#[test]
fn it_handles_too_many_requests_resend_everything() {
    let r = interpret_response(429, None, None, items());
    assert_eq!(r, Response::Retry(items()));
}

#[test]
fn it_handles_too_many_requests_throttled() {
    let r = interpret_response(429, None, retry_after_str(), items());
    assert_eq!(r, Response::Throttled(RETRY_AFTER_MILLIS, items()));
}

#[test]
fn it_handles_server_error_resend_everything() {
    let r = interpret_response(500, None, None, items());
    assert_eq!(r, Response::Retry(items()));
}

#[test]
fn it_handles_service_unavailable_resend_everything() {
    let r = interpret_response(503, None, None, items());
    assert_eq!(r, Response::Retry(items()));
}

#[test]
fn it_handles_unauthorized_no_retry() {
    let r = interpret_response(401, None, None, items());
    assert_eq!(r, Response::NoRetry);
}

#[test]
fn it_handles_timeout_resend_some_items() {
    let r = interpret_response(408, Some(partial_some_retries()), None, items());
    assert_eq!(r, Response::Retry(retry_items()));
}

#[test]
fn it_handles_server_error_resend_some_items() {
    let r = interpret_response(500, Some(partial_some_retries()), None, items());
    assert_eq!(r, Response::Retry(retry_items()));
}

#[test]
fn it_ignores_malformed_retry_after_header() {
    let r = interpret_response(408, None, Some("not a date".to_string()), items());
    assert_eq!(r, Response::Retry(items()));
}

#[test]
fn it_filters_timeout_body_and_honours_retry_after() {
    let r = interpret_response(408, Some(partial_some_retries()), retry_after_str(), items());
    assert_eq!(r, Response::Throttled(RETRY_AFTER_MILLIS, retry_items()));
}

#[test]
fn it_treats_unreconcilable_partial_content_as_handled() {
    // The entry marked retryable points past the end of the batch: the body
    // cannot be reconciled, and a 206 must not loop.
    let content = Transmission {
        items_accepted: 4,
        items_received: 5,
        errors: vec![entry(17, 500, "Bad")],
    };
    let r = interpret_response(206, Some(content), None, items());
    assert_eq!(r, Response::Success);
}

#[test]
fn it_retries_full_batch_on_unreconcilable_server_error_body() {
    let content = Transmission {
        items_accepted: 4,
        items_received: 5,
        errors: vec![entry(17, 500, "Bad")],
    };
    let r = interpret_response(500, Some(content), None, items());
    assert_eq!(r, Response::Retry(items()));
}

#[test]
fn it_treats_partial_content_without_body_as_success() {
    let r = interpret_response(206, None, None, items());
    assert_eq!(r, Response::Success);
}

#[test]
fn it_knows_which_status_codes_retry() {
    for code in [206u16, 408, 500, 503, 429] {
        assert!(can_retry_item(&entry(0, code, "")));
    }
    for code in [200u16, 400, 401, 404] {
        assert!(!can_retry_item(&entry(0, code, "")));
    }
}

#[test]
fn it_accepts_coherent_error_lists() {
    let errors = vec![entry(1, 500, ""), entry(2, 400, ""), entry(4, 503, "")];
    assert!(errors_well_formed(5, &errors));
}

#[test]
fn it_rejects_out_of_bounds_retryable_entries() {
    let errors = vec![entry(5, 500, "")];
    assert!(!errors_well_formed(5, &errors));
}

#[test]
fn it_rejects_unordered_retryable_entries() {
    let errors = vec![entry(3, 500, ""), entry(1, 503, "")];
    assert!(!errors_well_formed(5, &errors));
}

#[test]
fn it_ignores_order_of_entries_that_are_not_retryable() {
    // Entries that are not retryable never touch the batch, so their
    // positions are not constrained.
    let errors = vec![entry(4, 400, ""), entry(1, 400, ""), entry(2, 500, "")];
    assert!(errors_well_formed(5, &errors));
}

#[test]
fn it_retains_exactly_the_retryable_items_in_order() {
    let mut batch = items();
    let content = Transmission {
        items_accepted: 12,
        items_received: 15,
        errors: vec![entry(0, 500, ""), entry(2, 400, ""), entry(3, 429, "")],
    };
    retain_retry_items(&mut batch, content);
    assert_eq!(batch, vec![envelope("event 0"), envelope("event 3")]);
}

#[test]
fn it_retains_nothing_when_no_entry_is_retryable() {
    let mut batch = items();
    retain_retry_items(&mut batch, partial_no_retries());
    assert!(batch.is_empty());
}
