use mongo_health::service::check_mongo_response;
use mongo_health::service::health_response;
use mongo_health::service::route_get;
use mongo_health::service::Route;

#[test]
fn health_always_ok() {
    let r = health_response();
    assert_eq!(r.status, 200);
    assert_eq!(r.body, "Server is running!");
}

#[test]
fn health_is_pure() {
    let a = health_response();
    let b = health_response();
    assert_eq!(a.status, b.status);
    assert_eq!(a.body, b.body);
}

#[test]
fn check_mongo_success() {
    let r = check_mongo_response(Ok(()));
    assert_eq!(r.status, 200);
    assert_eq!(r.body, "MongoDB connection is successful!");
}

#[test]
fn check_mongo_failure() {
    let r = check_mongo_response(Err("connection refused".to_string()));
    assert_eq!(r.status, 500);
    assert_eq!(r.body, "MongoDB connection failed: connection refused");
    assert!(r.body.starts_with("MongoDB connection failed: "));
    let detail = &r.body["MongoDB connection failed: ".len()..];
    assert!(!detail.is_empty());
}

#[test]
fn check_mongo_failure_keeps_error_verbatim() {
    let detail = "Error { kind: ServerSelection, labels: {} }";
    let r = check_mongo_response(Err(detail.to_string()));
    assert_eq!(r.status, 500);
    assert_eq!(r.body, format!("MongoDB connection failed: {}", detail));
}

#[test]
fn check_mongo_failure_empty_detail() {
    let r = check_mongo_response(Err(String::new()));
    assert_eq!(r.status, 500);
    assert_eq!(r.body, "MongoDB connection failed: ");
}

#[test]
fn routes_to_handlers() {
    assert_eq!(route_get("/"), Some(Route::Health));
    assert_eq!(route_get("/check_mongo"), Some(Route::CheckMongo));
}

#[test]
fn unknown_paths_have_no_route() {
    assert_eq!(route_get(""), None);
    assert_eq!(route_get("/health"), None);
    assert_eq!(route_get("/check_mongo/"), None);
    assert_eq!(route_get("check_mongo"), None);
}

#[test]
fn responses_independent_of_order() {
    // The same mixed batch of outcomes, handled in opposite orders, yields
    // the same response for each outcome: no call observes another.
    let outcomes: Vec<Result<(), String>> = (0..100)
        .map(|i: i32| {
            if i % 2 == 0 {
                Ok(())
            } else {
                Err(format!("failure {}", i))
            }
        })
        .collect();
    let forward: Vec<(u16, String)> = outcomes
        .iter()
        .map(|o| {
            let r = check_mongo_response(o.clone());
            (r.status, r.body)
        })
        .collect();
    let mut backward: Vec<(u16, String)> = outcomes
        .iter()
        .rev()
        .map(|o| {
            let r = check_mongo_response(o.clone());
            (r.status, r.body)
        })
        .collect();
    backward.reverse();
    assert_eq!(forward, backward);
    for (i, (status, body)) in forward.iter().enumerate() {
        if i % 2 == 0 {
            assert_eq!(*status, 200);
            assert_eq!(body, "MongoDB connection is successful!");
        } else {
            assert_eq!(*status, 500);
            assert_eq!(*body, format!("MongoDB connection failed: failure {}", i));
        }
    }
}
