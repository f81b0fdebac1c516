use crate::error::TransportError;
use crate::open::WatchOpening;
use crate::transport::{RestClient, RoundTripper};
use vstd::prelude::*;
use vstd::string::*;

verus! {

/// The path under which the resources of the core group live: those of
/// `namespace`, or those that belong to no namespace.
pub open spec fn core_path(namespace: Option<Seq<char>>) -> Seq<char> {
    match namespace {
        Some(ns) => "/api/v1/namespaces/"@ + ns,
        None => "/api/v1"@,
    }
}

/// The path of the collection `plural` under `base`.
pub open spec fn collection_path(base: Seq<char>, plural: Seq<char>) -> Seq<char> {
    base + "/"@ + plural
}

/// The path of the object `name` of the collection `plural` under `base`.
pub open spec fn object_path(base: Seq<char>, plural: Seq<char>, name: Seq<char>) -> Seq<char> {
    collection_path(base, plural) + "/"@ + name
}

/// A namespace as the contracts see it.
pub open spec fn scope(namespace: Option<String>) -> Option<Seq<char>> {
    match namespace {
        Some(ns) => Some(ns@),
        None => None,
    }
}

/// A client for the objects of one resource kind, in one namespace or outside any.
pub struct ResourceClient<'c, T: RoundTripper> {
    rest_client: &'c RestClient<T>,
    resource_plural: String,
    base_path: String,
}

impl<'c, T: RoundTripper> ResourceClient<'c, T> {
    /// The client that requests are sent through.
    pub closed spec fn rest(self) -> RestClient<T> {
        *self.rest_client
    }

    /// The plural name of the resource kind.
    pub closed spec fn plural(self) -> Seq<char> {
        self.resource_plural@
    }

    /// The path that the kind's collection hangs under.
    pub closed spec fn base(self) -> Seq<char> {
        self.base_path@
    }

    /// A client for the kind named `resource_plural`, in `namespace` or outside any.
    pub fn new(client: &'c RestClient<T>, resource_plural: String, namespace: Option<String>) -> (made: Self)
        ensures
            made.rest() == *client,
            made.plural() == resource_plural@,
            made.base() == core_path(scope(namespace)),
    {
        let base_path = match namespace {
            Some(ns) => String::from_str("/api/v1/namespaces/").concat(ns.as_str()),
            None => String::from_str("/api/v1"),
        };
        ResourceClient { rest_client: client, resource_plural, base_path }
    }

    /// The path of the kind's collection.
    fn collection(&self) -> (path: String)
        ensures
            path@ == collection_path(self.base(), self.plural()),
    {
        self.base_path.clone().concat("/").concat(self.resource_plural.as_str())
    }

    /// The path of the object `name`.
    fn object(&self, name: &str) -> (path: String)
        ensures
            path@ == object_path(self.base(), self.plural(), name@),
    {
        self.collection().concat("/").concat(name)
    }

    /// Reads the object `name`: sends the request for its path through the
    /// chain and returns what the chain gives.
    pub fn get(&self, name: &str) -> (result: Result<T::Response, TransportError>)
        ensures
            self.rest().transport().exchanges(
                self.rest().request_for(object_path(self.base(), self.plural(), name@)),
                result,
            ),
    {
        self.rest_client.get(self.object(name))
    }

    /// Begins to open a watch on the object `name`, from the resource
    /// version `start` on, or from the object's current one where `start` is
    /// `None`. The object is to be read first, from the opening's
    /// `object_path`; the opening takes the answer.
    pub fn watch(&self, name: &str, start: Option<String>) -> (opening: WatchOpening)
        ensures
            opening.object_path@ == object_path(self.base(), self.plural(), name@),
            opening.collection_path@ == collection_path(self.base(), self.plural()),
            opening.name@ == name@,
            opening.requested == start,
    {
        WatchOpening {
            object_path: self.object(name),
            collection_path: self.collection(),
            name: String::from_str(name),
            requested: start,
        }
    }
}

/// A client for a resource kind whose objects can also be listed. What
/// `ResourceClient` offers for single objects is reached through it.
pub struct ResourceClientWithList<'c, T: RoundTripper> {
    resource_client: ResourceClient<'c, T>,
}

impl<'c, T: RoundTripper> ResourceClientWithList<'c, T> {
    /// The client for the single objects of the kind.
    pub closed spec fn objects(self) -> ResourceClient<'c, T> {
        self.resource_client
    }

    /// A client for the kind named `resource_plural`, in `namespace` or outside any.
    pub fn new(client: &'c RestClient<T>, resource_plural: String, namespace: Option<String>) -> (made: Self)
        ensures
            made.objects().rest() == *client,
            made.objects().plural() == resource_plural@,
            made.objects().base() == core_path(scope(namespace)),
    {
        ResourceClientWithList { resource_client: ResourceClient::new(client, resource_plural, namespace) }
    }

    /// Lists the objects of the kind: sends the request for the collection's
    /// path through the chain and returns what the chain gives.
    pub fn list(&self) -> (result: Result<T::Response, TransportError>)
        ensures
            self.objects().rest().transport().exchanges(
                self.objects().rest().request_for(collection_path(self.objects().base(), self.objects().plural())),
                result,
            ),
    {
        self.resource_client.rest_client.get(self.resource_client.collection())
    }
}

impl<'c, T: RoundTripper> std::ops::Deref for ResourceClientWithList<'c, T> {
    type Target = ResourceClient<'c, T>;

    fn deref(&self) -> (client: &ResourceClient<'c, T>)
        ensures
            *client == self.objects(),
    {
        &self.resource_client
    }
}

fn new_namespace_client<'c, T: RoundTripper>(client: &'c RestClient<T>) -> (made: ResourceClientWithList<'c, T>)
    ensures
        made.objects().rest() == *client,
        made.objects().plural() == "namespaces"@,
        made.objects().base() == core_path(None),
{
    ResourceClientWithList::new(client, String::from_str("namespaces"), None)
}

fn new_pod_client<'c, T: RoundTripper>(client: &'c RestClient<T>, namespace: &str) -> (made: ResourceClientWithList<'c, T>)
    ensures
        made.objects().rest() == *client,
        made.objects().plural() == "pods"@,
        made.objects().base() == core_path(Some(namespace@)),
{
    ResourceClientWithList::new(client, String::from_str("pods"), Some(String::from_str(namespace)))
}

fn new_service_client<'c, T: RoundTripper>(client: &'c RestClient<T>, namespace: &str) -> (made: ResourceClientWithList<'c, T>)
    ensures
        made.objects().rest() == *client,
        made.objects().plural() == "services"@,
        made.objects().base() == core_path(Some(namespace@)),
{
    ResourceClientWithList::new(client, String::from_str("services"), Some(String::from_str(namespace)))
}

fn new_configmap_client<'c, T: RoundTripper>(client: &'c RestClient<T>, namespace: &str) -> (made: ResourceClientWithList<'c, T>)
    ensures
        made.objects().rest() == *client,
        made.objects().plural() == "configmaps"@,
        made.objects().base() == core_path(Some(namespace@)),
{
    ResourceClientWithList::new(client, String::from_str("configmaps"), Some(String::from_str(namespace)))
}

fn new_secret_client<'c, T: RoundTripper>(client: &'c RestClient<T>, namespace: &str) -> (made: ResourceClientWithList<'c, T>)
    ensures
        made.objects().rest() == *client,
        made.objects().plural() == "secrets"@,
        made.objects().base() == core_path(Some(namespace@)),
{
    ResourceClientWithList::new(client, String::from_str("secrets"), Some(String::from_str(namespace)))
}

/// The clients for the resource kinds of the core group.
pub struct CoreV1Client<'c, T: RoundTripper> {
    rest_client: &'c RestClient<T>,
}

impl<'c, T: RoundTripper> CoreV1Client<'c, T> {
    /// The client that requests are sent through.
    pub closed spec fn rest(self) -> RestClient<T> {
        *self.rest_client
    }

    /// The clients of the core group over `rest_client`.
    pub fn new(rest_client: &'c RestClient<T>) -> (made: Self)
        ensures
            made.rest() == *rest_client,
    {
        CoreV1Client { rest_client }
    }

    /// The client that requests are sent through.
    pub fn rest_client(&self) -> (client: &RestClient<T>)
        ensures
            *client == self.rest(),
    {
        self.rest_client
    }

    /// The client for namespaces, which belong to no namespace.
    pub fn namespaces(&self) -> (made: ResourceClientWithList<'_, T>)
        ensures
            made.objects().rest() == self.rest(),
            made.objects().plural() == "namespaces"@,
            made.objects().base() == core_path(None),
    {
        new_namespace_client(self.rest_client)
    }

    /// The client for the pods of `namespace`.
    pub fn pods(&self, namespace: &str) -> (made: ResourceClientWithList<'_, T>)
        ensures
            made.objects().rest() == self.rest(),
            made.objects().plural() == "pods"@,
            made.objects().base() == core_path(Some(namespace@)),
    {
        new_pod_client(self.rest_client, namespace)
    }

    /// The client for the services of `namespace`.
    pub fn services(&self, namespace: &str) -> (made: ResourceClientWithList<'_, T>)
        ensures
            made.objects().rest() == self.rest(),
            made.objects().plural() == "services"@,
            made.objects().base() == core_path(Some(namespace@)),
    {
        new_service_client(self.rest_client, namespace)
    }

    /// The client for the config maps of `namespace`.
    pub fn configmaps(&self, namespace: &str) -> (made: ResourceClientWithList<'_, T>)
        ensures
            made.objects().rest() == self.rest(),
            made.objects().plural() == "configmaps"@,
            made.objects().base() == core_path(Some(namespace@)),
    {
        new_configmap_client(self.rest_client, namespace)
    }

    /// The client for the secrets of `namespace`.
    pub fn secrets(&self, namespace: &str) -> (made: ResourceClientWithList<'_, T>)
        ensures
            made.objects().rest() == self.rest(),
            made.objects().plural() == "secrets"@,
            made.objects().base() == core_path(Some(namespace@)),
    {
        new_secret_client(self.rest_client, namespace)
    }
}

} // verus!
