use vstd::prelude::*;

verus! {

use vstd::string::StrSliceExecFns;
use vstd::string::StringExecFns;
use crate::cache::Cache;
use crate::registry::Backend;
use crate::registry::BackendRegistry;
use crate::response::Response;
use crate::text::str_contains_char;
use crate::text::str_eq;
use crate::text::str_starts_with;

/// The service identifier captured from a path of the shape
/// `/service/{id}`: the part after the prefix, which must be a single
/// non-empty segment (no further `/`). Any other path captures nothing.
pub open spec fn spec_service_id(path: Seq<char>) -> Option<Seq<char>> {
    let prefix = "/service/"@;
    if prefix.is_prefix_of(path) && path.len() > prefix.len() && !path.subrange(
        prefix.len() as int,
        path.len() as int,
    ).contains('/') {
        Some(path.subrange(prefix.len() as int, path.len() as int))
    } else {
        None
    }
}

/// What the router decides for one request: either a finished response, or
/// a dispatch of the captured service identifier to its registered backend.
pub enum RouteDecision {
    Respond(u16, Seq<char>),
    Dispatch(Seq<char>),
}

/// The routing policy. A method other than GET is rejected with 405; GET
/// `/health` is answered 200 "OK" without consulting cache or registry; a
/// service path is answered from the cache when possible, dispatched to the
/// backend when registered, and otherwise answered 404; every other path is
/// answered 404.
pub open spec fn route_model(
    method: Seq<char>,
    path: Seq<char>,
    cache: Map<Seq<char>, Seq<char>>,
    registry: Map<Seq<char>, Backend>,
) -> RouteDecision {
    if method != "GET"@ {
        RouteDecision::Respond(405, "Method Not Allowed"@)
    } else if path == "/health"@ {
        RouteDecision::Respond(200, "OK"@)
    } else {
        match spec_service_id(path) {
            Some(id) => if cache.contains_key(id) {
                RouteDecision::Respond(200, cache[id])
            } else if registry.contains_key(id) {
                RouteDecision::Dispatch(id)
            } else {
                RouteDecision::Respond(404, "Service not found"@)
            },
            None => RouteDecision::Respond(404, "Not Found"@),
        }
    }
}

/// The whole cache-or-compute pipeline for one request, with the library's
/// own backends: the response status, the response body, and the cache
/// contents afterwards. A dispatched call stores its payload; every other
/// outcome leaves the cache as it was.
pub open spec fn handle_model(
    method: Seq<char>,
    path: Seq<char>,
    cache: Map<Seq<char>, Seq<char>>,
    registry: Map<Seq<char>, Backend>,
) -> (u16, Seq<char>, Map<Seq<char>, Seq<char>>) {
    match route_model(method, path, cache, registry) {
        RouteDecision::Respond(status, body) => (status, body, cache),
        RouteDecision::Dispatch(id) => {
            let payload = registry[id].spec_payload();
            (200, payload, cache.insert(id, payload))
        },
    }
}

/// The executable counterpart of a routing decision: a finished response,
/// or the identifier whose backend call still has to run.
pub enum RouteAction {
    Reply(Response),
    CallBackend(String),
}

/// The decision an executable action stands for.
pub open spec fn action_model(action: RouteAction) -> RouteDecision {
    match action {
        RouteAction::Reply(response) => RouteDecision::Respond(response.status, response.body@),
        RouteAction::CallBackend(id) => RouteDecision::Dispatch(id@),
    }
}

/// Captures the service identifier from a `/service/{id}` path, if the path
/// has that shape.
pub fn extract_service_id(path: &str) -> (result: Option<String>)
    ensures
        match result {
            Some(id) => spec_service_id(path@) == Some(id@),
            None => spec_service_id(path@) is None,
        },
{
    proof {
        reveal_strlit("/service/");
    }
    if !str_starts_with(path, "/service/") {
        return None;
    }
    let path_len = path.unicode_len();
    if path_len <= 9 {
        return None;
    }
    let id = path.substring_char(9, path_len);
    if str_contains_char(id, '/') {
        None
    } else {
        Some(String::from_str(id))
    }
}

/// Routes one request without running any backend call: the returned
/// action is exactly what the routing policy decides for this method, path,
/// cache state and registry state.
pub fn route_request(method: &str, path: &str, cache: &Cache, registry: &BackendRegistry) -> (action:
    RouteAction)
    ensures
        action_model(action) == route_model(method@, path@, cache@, registry@),
{
    if !str_eq(method, "GET") {
        return RouteAction::Reply(
            Response { status: 405, body: String::from_str("Method Not Allowed") },
        );
    }
    if str_eq(path, "/health") {
        return RouteAction::Reply(Response { status: 200, body: String::from_str("OK") });
    }
    match extract_service_id(path) {
        Some(id) => match cache.get(id.as_str()) {
            Some(payload) => RouteAction::Reply(Response { status: 200, body: payload }),
            None => match registry.lookup(id.as_str()) {
                Some(_) => RouteAction::CallBackend(id),
                None => RouteAction::Reply(
                    Response { status: 404, body: String::from_str("Service not found") },
                ),
            },
        },
        None => RouteAction::Reply(Response { status: 404, body: String::from_str("Not Found") }),
    }
}

/// The failure of a dispatched backend call, as the completion step sees
/// it; any detail belongs to the shell's logging, not to the client-facing
/// body.
#[derive(Debug, Clone)]
pub struct BackendError {}

/// Completes a dispatched backend call whose outcome arrived from outside:
/// a successful payload is stored in the cache and answered with 200; a
/// failure is answered with 500, a generic body, and an untouched cache —
/// a failed result is never cached.
pub fn complete_backend_call(
    id: String,
    outcome: Result<String, BackendError>,
    cache: &mut Cache,
) -> (response: Response)
    ensures
        match outcome {
            Ok(payload) => response.status == 200 && response.body@ == payload@
                && final(cache)@ == old(cache)@.insert(id@, payload@),
            Err(_) => response.status == 500 && response.body@ == "Backend call failed"@
                && final(cache)@ == old(cache)@,
        },
{
    match outcome {
        Ok(payload) => {
            cache.store(id, payload.clone());
            Response { status: 200, body: payload }
        },
        Err(_) => Response { status: 500, body: String::from_str("Backend call failed") },
    }
}

/// Handles one request end to end against the library's own backends:
/// routes it, runs the registered backend call on a cache miss, stores the
/// payload, and returns the response the pipeline model prescribes.
pub fn handle_request(method: &str, path: &str, cache: &mut Cache, registry: &BackendRegistry) -> (response:
    Response)
    ensures
        ({
            let (status, body, cache_after) = handle_model(
                method@,
                path@,
                old(cache)@,
                registry@,
            );
            &&& response.status == status
            &&& response.body@ == body
            &&& final(cache)@ == cache_after
        }),
{
    let action = route_request(method, path, cache, registry);
    match action {
        RouteAction::Reply(response) => response,
        RouteAction::CallBackend(id) => match registry.lookup(id.as_str()) {
            Some(backend) => {
                let payload = backend.invoke();
                let response = Response { status: 200, body: payload.clone() };
                cache.store(id, payload);
                response
            },
            None => vstd::pervasive::unreached(),
        },
    }
}

/// A path that names a service cannot be the health route: the service
/// prefix alone is longer than the whole health path.
proof fn lemma_service_path_not_health(path: Seq<char>, id: Seq<char>)
    requires
        spec_service_id(path) == Some(id),
    ensures
        path != "/health"@,
{
    reveal_strlit("/health");
    reveal_strlit("/service/");
    if path == "/health"@ {
        assert("/service/"@.is_prefix_of(path));
    }
}

/// The first GET for a registered, uncached service dispatches its backend
/// call exactly once: the request routes to a dispatch, the pipeline
/// answers 200 with the backend's payload and stores it, and a later GET
/// for the same service is answered from the cache with that same payload
/// and dispatches nothing.
pub proof fn lemma_cold_request_dispatches_once(
    path: Seq<char>,
    id: Seq<char>,
    cache: Map<Seq<char>, Seq<char>>,
    registry: Map<Seq<char>, Backend>,
)
    requires
        spec_service_id(path) == Some(id),
        registry.contains_key(id),
        !cache.contains_key(id),
    ensures
        route_model("GET"@, path, cache, registry) == RouteDecision::Dispatch(id),
        handle_model("GET"@, path, cache, registry) == (
            200u16,
            registry[id].spec_payload(),
            cache.insert(id, registry[id].spec_payload()),
        ),
        route_model("GET"@, path, cache.insert(id, registry[id].spec_payload()), registry)
            == RouteDecision::Respond(200, registry[id].spec_payload()),
        handle_model("GET"@, path, cache.insert(id, registry[id].spec_payload()), registry) == (
            200u16,
            registry[id].spec_payload(),
            cache.insert(id, registry[id].spec_payload()),
        ),
{
    lemma_service_path_not_health(path, id);
}

/// A GET for an unregistered, uncached service identifier is answered 404
/// "Service not found" and never populates the cache.
pub proof fn lemma_unregistered_service_not_cached(
    path: Seq<char>,
    id: Seq<char>,
    cache: Map<Seq<char>, Seq<char>>,
    registry: Map<Seq<char>, Backend>,
)
    requires
        spec_service_id(path) == Some(id),
        !registry.contains_key(id),
        !cache.contains_key(id),
    ensures
        handle_model("GET"@, path, cache, registry) == (404u16, "Service not found"@, cache),
{
    lemma_service_path_not_health(path, id);
}

/// Any request whose method is not GET is rejected with 405 "Method Not
/// Allowed" and leaves the cache untouched, whatever the path; the registry
/// is never consulted (the routing policy reads it only on a GET service
/// path).
pub proof fn lemma_non_get_rejected(
    method: Seq<char>,
    path: Seq<char>,
    cache: Map<Seq<char>, Seq<char>>,
    registry: Map<Seq<char>, Backend>,
)
    requires
        method != "GET"@,
    ensures
        handle_model(method, path, cache, registry) == (405u16, "Method Not Allowed"@, cache),
{
}

/// GET `/health` is answered 200 "OK" in every cache and registry state,
/// and changes neither.
pub proof fn lemma_health_always_ok(
    cache: Map<Seq<char>, Seq<char>>,
    registry: Map<Seq<char>, Backend>,
)
    ensures
        handle_model("GET"@, "/health"@, cache, registry) == (200u16, "OK"@, cache),
{
}

} // verus!
