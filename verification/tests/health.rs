use terroir_api::health::health_check;
use terroir_api::models::HealthResponse;

#[test]
fn healthy_database_is_reported_as_connected() {
    assert_eq!(
        health_check(&Ok(()), "0.1.0"),
        HealthResponse {
            status: "ok".to_string(),
            version: "0.1.0".to_string(),
            database: "connected".to_string(),
        }
    );
}

#[test]
fn failing_database_is_reported_with_its_error() {
    let r = health_check(&Err("connection refused".to_string()), "2.3.4");
    assert_eq!(r.status, "ok");
    assert_eq!(r.version, "2.3.4");
    assert_eq!(r.database, "error: connection refused");
}
