use vstd::prelude::*;

verus! {

use vstd::hash_map::StringHashMap;
use vstd::string::StringExecFns;

/// The configuration of one registered backend call: a human-readable label
/// and the target URL, both injected at construction time by whoever loads
/// configuration. Invoking the backend produces its payload from these two
/// values alone.
pub struct Backend {
    pub label: String,
    pub url: String,
}

impl Backend {
    /// The payload the backend call produces.
    pub open spec fn spec_payload(&self) -> Seq<char> {
        "Result from "@ + self.label@ + " at URL: "@ + self.url@
    }

    /// Executes the backend call: builds the payload naming the backend and
    /// the URL it targets.
    pub fn invoke(&self) -> (payload: String)
        ensures
            payload@ == self.spec_payload(),
    {
        let mut payload = String::from_str("Result from ");
        payload.append(self.label.as_str());
        payload.append(" at URL: ");
        payload.append(self.url.as_str());
        payload
    }
}

/// Mapping from a service identifier to its registered backend call.
/// Registration happens at startup; lookups never fail — an unknown
/// identifier is a normal `None` outcome, not an error.
pub struct BackendRegistry {
    entries: StringHashMap<Backend>,
}

impl View for BackendRegistry {
    type V = Map<Seq<char>, Backend>;

    closed spec fn view(&self) -> Map<Seq<char>, Backend> {
        self.entries@
    }
}

impl BackendRegistry {
    /// An empty registry; backends are added with `register`.
    pub fn new() -> (registry: BackendRegistry)
        ensures
            registry@ == Map::<Seq<char>, Backend>::empty(),
    {
        BackendRegistry { entries: StringHashMap::new() }
    }

    /// Registers `backend` under `id`, replacing any earlier registration
    /// for the same identifier.
    pub fn register(&mut self, id: String, backend: Backend)
        ensures
            final(self)@ == old(self)@.insert(id@, backend),
    {
        self.entries.insert(id, backend);
    }

    /// Looks the identifier up; `None` is the normal outcome for an
    /// unregistered identifier.
    pub fn lookup(&self, id: &str) -> (result: Option<&Backend>)
        ensures
            match result {
                Some(backend) => self@.contains_key(id@) && *backend == self@[id@],
                None => !self@.contains_key(id@),
            },
    {
        self.entries.get(id)
    }
}

} // verus!
