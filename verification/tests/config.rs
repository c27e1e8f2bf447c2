use appinsights::config::{create_client, TelemetryConfig};

#[test]
fn it_builds_the_default_configuration() {
    let config = TelemetryConfig::builder().i_key("a key").build();
    assert_eq!(config.i_key, "a key");
    assert_eq!(config.endpoint, "https://dc.services.visualstudio.com/v2/track");
    assert_eq!(config.interval_millis, 2_000);
    assert_eq!(config.request_timeout_millis, 30_000);
    assert_eq!(
        config.retry_delays_millis,
        vec![10_000, 30_000, 60_000, 300_000, 900_000, 1_800_000, 3_600_000, 7_200_000]
    );
}

#[test]
fn it_accepts_a_custom_retry_schedule() {
    let config = TelemetryConfig::builder().retry_schedule(vec![1_000, 2_000]).build();
    assert_eq!(config.retry_delays_millis, vec![1_000, 2_000]);

    let disabled = TelemetryConfig::builder().retry_schedule(vec![]).build();
    assert!(disabled.retry_delays_millis.is_empty());
}

#[test]
fn it_overrides_every_field_through_the_builder() {
    let config = TelemetryConfig::builder()
        .i_key("key")
        .endpoint("http://localhost:8080/track")
        .interval(300)
        .request_timeout(5_000)
        .build();
    assert_eq!(config.i_key, "key");
    assert_eq!(config.endpoint, "http://localhost:8080/track");
    assert_eq!(config.interval_millis, 300);
    assert_eq!(config.request_timeout_millis, 5_000);
}

#[test]
fn it_creates_the_test_client_configuration() {
    let config = create_client("http://localhost:9090/track");
    assert_eq!(config.i_key, "instrumentation key");
    assert_eq!(config.endpoint, "http://localhost:9090/track");
    assert_eq!(config.interval_millis, 300);
}
