use service_router::cache::Cache;
use service_router::registry::{Backend, BackendRegistry};
use service_router::response::Response;
use service_router::router::{complete_backend_call, handle_request, route_request, RouteAction};

/// Routes one request and, when the router dispatches, plays the backend
/// with the registered call, counting every dispatch.
fn drive(
    method: &str,
    path: &str,
    cache: &mut Cache,
    registry: &BackendRegistry,
    invoke_count: &mut usize,
) -> Response {
    match route_request(method, path, cache, registry) {
        RouteAction::Reply(response) => response,
        RouteAction::CallBackend(id) => {
            *invoke_count += 1;
            let payload = registry.lookup(id.as_str()).unwrap().invoke();
            complete_backend_call(id, Ok(payload), cache)
        }
    }
}

/// Like `drive`, but the test itself supplies each backend payload.
fn drive_with(
    method: &str,
    path: &str,
    cache: &mut Cache,
    registry: &BackendRegistry,
    payload_for: &dyn Fn(&str) -> String,
    invoke_count: &mut usize,
) -> Response {
    match route_request(method, path, cache, registry) {
        RouteAction::Reply(response) => response,
        RouteAction::CallBackend(id) => {
            *invoke_count += 1;
            let payload = payload_for(id.as_str());
            complete_backend_call(id, Ok(payload), cache)
        }
    }
}

fn two_service_registry() -> BackendRegistry {
    let mut registry = BackendRegistry::new();
    registry.register(
        String::from("service1"),
        Backend {
            label: String::from("Service 1"),
            url: String::from("http://default-service1-url"),
        },
    );
    registry.register(
        String::from("service2"),
        Backend {
            label: String::from("Service 2"),
            url: String::from("http://default-service2-url"),
        },
    );
    registry
}

#[test]
fn first_request_invokes_once_then_serves_from_cache() {
    let mut cache = Cache::new();
    let registry = two_service_registry();
    let mut invokes: usize = 0;

    let first = drive("GET", "/service/service1", &mut cache, &registry, &mut invokes);
    assert_eq!(first.status, 200);
    assert_eq!(
        first.body,
        "Result from Service 1 at URL: http://default-service1-url"
    );
    assert_eq!(invokes, 1);

    for _ in 0..5 {
        let again = drive("GET", "/service/service1", &mut cache, &registry, &mut invokes);
        assert_eq!(again.status, 200);
        assert_eq!(again.body, first.body);
    }
    assert_eq!(invokes, 1);
}

#[test]
fn unregistered_service_is_404_and_never_cached() {
    let mut cache = Cache::new();
    let mut registry = BackendRegistry::new();
    let mut invokes: usize = 0;

    let missing = drive("GET", "/service/late", &mut cache, &registry, &mut invokes);
    assert_eq!(missing.status, 404);
    assert_eq!(missing.body, "Service not found");
    assert_eq!(invokes, 0);

    registry.register(
        String::from("late"),
        Backend {
            label: String::from("Late"),
            url: String::from("http://late-url"),
        },
    );
    let after = drive("GET", "/service/late", &mut cache, &registry, &mut invokes);
    assert_eq!(after.status, 200);
    assert_eq!(after.body, "Result from Late at URL: http://late-url");
    assert_eq!(invokes, 1);
}

#[test]
fn non_get_methods_are_405_and_touch_nothing() {
    let mut cache = Cache::new();
    let registry = two_service_registry();
    let mut invokes: usize = 0;

    for method in ["POST", "PUT", "DELETE", "HEAD", "get"] {
        for path in ["/service/service1", "/health", "/whatever"] {
            let response = drive(method, path, &mut cache, &registry, &mut invokes);
            assert_eq!(response.status, 405);
            assert_eq!(response.body, "Method Not Allowed");
        }
    }
    assert_eq!(invokes, 0);
    // the cache was untouched: the next GET still has to invoke
    drive("GET", "/service/service1", &mut cache, &registry, &mut invokes);
    assert_eq!(invokes, 1);
}

#[test]
fn health_is_200_ok_in_every_state() {
    let mut cache = Cache::new();
    let registry = two_service_registry();
    let mut invokes: usize = 0;

    let before = drive("GET", "/health", &mut cache, &registry, &mut invokes);
    assert_eq!(before.status, 200);
    assert_eq!(before.body, "OK");

    drive("GET", "/service/service2", &mut cache, &registry, &mut invokes);
    let after = drive("GET", "/health", &mut cache, &registry, &mut invokes);
    assert_eq!(after.status, 200);
    assert_eq!(after.body, "OK");
    assert_eq!(invokes, 1);
}

#[test]
fn unknown_route_is_404_not_found() {
    let mut cache = Cache::new();
    let registry = two_service_registry();
    let mut invokes: usize = 0;

    for path in ["/", "/services/x", "/service/", "/service/a/b", "/healthz"] {
        let response = drive("GET", path, &mut cache, &registry, &mut invokes);
        assert_eq!(response.status, 404);
        assert_eq!(response.body, "Not Found");
    }
    assert_eq!(invokes, 0);
}

#[test]
fn failed_backend_call_is_500_and_never_cached() {
    let mut cache = Cache::new();
    let registry = two_service_registry();

    let action = route_request("GET", "/service/service1", &cache, &registry);
    let id = match action {
        RouteAction::CallBackend(id) => id,
        RouteAction::Reply(_) => panic!("expected a dispatch"),
    };
    let response = complete_backend_call(
        id,
        Err(service_router::router::BackendError {}),
        &mut cache,
    );
    assert_eq!(response.status, 500);
    assert_eq!(response.body, "Backend call failed");
    assert!(cache.get("service1").is_none());
}

#[test]
fn example_scenario_two_services() {
    let mut cache = Cache::new();
    let registry = two_service_registry();
    let mut invokes: usize = 0;
    let doubles = |id: &str| -> String {
        match id {
            "service1" => String::from("R1"),
            "service2" => String::from("R2"),
            _ => panic!("dispatched an unregistered service"),
        }
    };

    let first = drive_with(
        "GET",
        "/service/service1",
        &mut cache,
        &registry,
        &doubles,
        &mut invokes,
    );
    assert_eq!((first.status, first.body.as_str()), (200, "R1"));
    assert_eq!(invokes, 1);

    let second = drive_with(
        "GET",
        "/service/service1",
        &mut cache,
        &registry,
        &doubles,
        &mut invokes,
    );
    assert_eq!((second.status, second.body.as_str()), (200, "R1"));
    assert_eq!(invokes, 1);

    let third = drive_with(
        "GET",
        "/service/service3",
        &mut cache,
        &registry,
        &doubles,
        &mut invokes,
    );
    assert_eq!((third.status, third.body.as_str()), (404, "Service not found"));
    assert_eq!(invokes, 1);
}

#[test]
fn handle_request_runs_the_whole_pipeline() {
    let mut cache = Cache::new();
    let registry = two_service_registry();

    let first = handle_request("GET", "/service/service2", &mut cache, &registry);
    assert_eq!(first.status, 200);
    assert_eq!(
        first.body,
        "Result from Service 2 at URL: http://default-service2-url"
    );
    assert_eq!(cache.get("service2").unwrap(), first.body);

    let cached = handle_request("GET", "/service/service2", &mut cache, &registry);
    assert_eq!(cached.status, 200);
    assert_eq!(cached.body, first.body);

    let rejected = handle_request("POST", "/health", &mut cache, &registry);
    assert_eq!(rejected.status, 405);
    assert_eq!(rejected.body, "Method Not Allowed");
}

#[test]
fn racing_cold_misses_leave_one_winner() {
    let mut cache = Cache::new();
    let registry = two_service_registry();

    // all of the racing requests observe the miss before any store lands
    let mut dispatched: Vec<String> = Vec::new();
    for _ in 0..100 {
        match route_request("GET", "/service/service1", &cache, &registry) {
            RouteAction::CallBackend(id) => dispatched.push(id),
            RouteAction::Reply(_) => panic!("expected a dispatch on a cold cache"),
        }
    }
    assert_eq!(dispatched.len(), 100);

    let mut payloads: Vec<String> = Vec::new();
    for (index, id) in dispatched.into_iter().enumerate() {
        let payload = format!("payload {}", index);
        payloads.push(payload.clone());
        let response = complete_backend_call(id, Ok(payload), &mut cache);
        assert_eq!(response.status, 200);
    }

    let winner = cache.get("service1").unwrap();
    assert_eq!(winner, *payloads.last().unwrap());
    assert!(payloads.contains(&winner));
}
