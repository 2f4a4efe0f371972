//! Application configuration.

use vstd::hash_map::StringHashMap;
use vstd::prelude::*;

verus! {

/// Configured HTTP clients, by their names.
#[verifier::reject_recursive_types(C)]
pub struct HttpClients<C> {
    /// Configuration of clients.
    clients: StringHashMap<C>,
}

impl<C> View for HttpClients<C> {
    type V = Map<Seq<char>, C>;

    closed spec fn view(&self) -> Map<Seq<char>, C> {
        self.clients@
    }
}

impl<C> HttpClients<C> {
    /// No clients.
    #[must_use]
    pub fn new() -> (clients: Self)
        ensures
            clients@ == Map::<Seq<char>, C>::empty(),
    {
        HttpClients { clients: StringHashMap::new() }
    }

    /// Find configuration of a client by its name.
    pub fn get(&self, name: &str) -> (res: Option<&C>)
        ensures
            self@.contains_key(name@) ==> res == Some(&self@[name@]),
            !self@.contains_key(name@) ==> res is None,
    {
        self.clients.get(name)
    }

    /// Set configuration of a client. Any other configuration under the same name is dropped.
    pub fn insert(&mut self, name: String, config: C)
        ensures
            final(self)@ == old(self)@.insert(name@, config),
    {
        self.clients.insert(name, config);
    }
}

/// Application configuration.
///
/// Configuration of HTTP clients is of any type that clients can be built from.
#[verifier::reject_recursive_types(C)]
pub struct AppConfig<C> {
    /// Short application name.
    pub app_name: Option<String>,
    /// Application version.
    pub app_version: Option<String>,
    /// Configured HTTP clients.
    pub http_clients: HttpClients<C>,
    /// Trace collection and propagation is configured.
    pub tracing: bool,
    /// Metrics collection is configured.
    pub metrics: bool,
    /// Metrics state was already built.
    pub metrics_state: bool,
}

impl<C> AppConfig<C> {
    /// Configuration of the client of that name, if there is one.
    pub open spec fn client(self, name: Seq<char>) -> Option<C> {
        if self.http_clients@.contains_key(name) {
            Some(self.http_clients@[name])
        } else {
            None
        }
    }
}

} // verus!
