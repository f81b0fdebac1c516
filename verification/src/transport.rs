use crate::error::TransportError;
use vstd::prelude::*;
use vstd::string::*;

verus! {

/// One header of a request: a name and a value.
#[derive(Debug, Clone, PartialEq, Eq)]
pub struct Header {
    pub name: String,
    pub value: String,
}

/// A GET request on its way to a server. Headers are kept in the order in
/// which they were set; where a name occurs more than once, the last entry
/// counts.
#[derive(Debug, Clone, PartialEq, Eq)]
pub struct Request {
    pub url: String,
    pub headers: Vec<Header>,
}

/// A request as the contracts see it: its address, and the value that each
/// header name stands for.
pub struct RequestView {
    pub url: Seq<char>,
    pub headers: Map<Seq<char>, Seq<char>>,
}

/// The value that the last entry named `name` gives, if there is one.
pub open spec fn last_value(entries: Seq<Header>, name: Seq<char>) -> Option<Seq<char>>
    decreases entries.len(),
{
    if entries.len() == 0 {
        None
    } else if entries.last().name@ == name {
        Some(entries.last().value@)
    } else {
        last_value(entries.drop_last(), name)
    }
}

impl View for Request {
    type V = RequestView;

    open spec fn view(&self) -> RequestView {
        RequestView {
            url: self.url@,
            headers: Map::new(
                |name: Seq<char>| last_value(self.headers@, name) is Some,
                |name: Seq<char>| last_value(self.headers@, name)->0,
            ),
        }
    }
}

/// The name of the header that carries a credential.
pub open spec fn authorization() -> Seq<char> {
    "authorization"@
}

/// The value of the authorization header for a bearer credential.
pub open spec fn bearer(token: Seq<char>) -> Seq<char> {
    "Bearer "@ + token
}

impl RequestView {
    /// A request for `url` without headers.
    pub open spec fn plain(url: Seq<char>) -> RequestView {
        RequestView { url, headers: Map::empty() }
    }

    /// This request with the header `name` set to `value`.
    pub open spec fn with_header(self, name: Seq<char>, value: Seq<char>) -> RequestView {
        RequestView { headers: self.headers.insert(name, value), ..self }
    }

    /// This request with a bearer credential.
    pub open spec fn authorized(self, token: Seq<char>) -> RequestView {
        self.with_header(authorization(), bearer(token))
    }
}

impl Request {
    /// A request for `url` without headers.
    pub fn get(url: String) -> (request: Request)
        ensures
            request@ == RequestView::plain(url@),
    {
        let request = Request { url, headers: Vec::new() };
        assert(request@.headers =~= Map::empty());
        request
    }

    /// Sets the header `name` to `value`, in place of any value it had.
    pub fn set_header(&mut self, name: String, value: String)
        ensures
            final(self)@ == old(self)@.with_header(name@, value@),
    {
        let ghost before = self.headers@;
        self.headers.push(Header { name, value });
        assert(self.headers@.drop_last() =~= before);
        assert(self@.headers =~= old(self)@.headers.insert(name@, value@));
    }

    /// The value of the header `name`, if the request has one.
    pub fn header(&self, name: &String) -> (value: Option<String>)
        ensures
            match value {
                Some(v) => self@.headers.contains_key(name@) && self@.headers[name@] == v@,
                None => !self@.headers.contains_key(name@),
            },
    {
        let mut i: usize = self.headers.len();
        assert(self.headers@.take(i as int) =~= self.headers@);
        while i > 0
            invariant
                i <= self.headers@.len(),
                last_value(self.headers@, name@) == last_value(self.headers@.take(i as int), name@),
            decreases i,
        {
            let ghost prefix = self.headers@.take(i as int);
            assert(prefix.last() == self.headers@[i - 1]);
            assert(prefix.drop_last() =~= self.headers@.take(i - 1));
            if self.headers[i - 1].name == *name {
                return Some(self.headers[i - 1].value.clone());
            }
            i -= 1;
        }
        None
    }
}

/// One link of a transport chain, or the transport that ends it.
///
/// A transport that ends a chain carries requests to a server. Its
/// `exchanges` is left at the default, under which nothing is known of its
/// answers. A link states in `exchanges` what it hands on, and to whom.
pub trait RoundTripper {
    /// What the transport hands back for a request that was answered.
    type Response;

    /// Whether this transport, handed `request`, may give `result`.
    open spec fn exchanges(&self, request: RequestView, result: Result<Self::Response, TransportError>) -> bool {
        true
    }

    /// Carries `request` to the server and returns the answer.
    fn round_trip(&self, request: Request) -> (result: Result<Self::Response, TransportError>)
        ensures
            self.exchanges(request@, result),
    ;
}

/// A link that adds a bearer credential to every request and hands it on.
pub struct BearerTokenClient<T: RoundTripper> {
    client: T,
    token: String,
}

impl<T: RoundTripper> BearerTokenClient<T> {
    /// The transport that this link hands its requests to.
    pub closed spec fn inner(self) -> T {
        self.client
    }

    /// The credential that this link adds.
    pub closed spec fn credential(self) -> Seq<char> {
        self.token@
    }

    /// A link that adds `token` to the requests it hands to `client`.
    pub fn new(client: T, token: &str) -> (link: Self)
        ensures
            link.inner() == client,
            link.credential() == token@,
    {
        BearerTokenClient { client, token: String::from_str(token) }
    }
}

impl<T: RoundTripper> RoundTripper for BearerTokenClient<T> {
    type Response = T::Response;

    /// The answers of this link are those that the next transport gives to
    /// the request with the credential added.
    open spec fn exchanges(&self, request: RequestView, result: Result<T::Response, TransportError>) -> bool {
        self.inner().exchanges(request.authorized(self.credential()), result)
    }

    fn round_trip(&self, request: Request) -> (result: Result<T::Response, TransportError>) {
        let mut request = request;
        let value = String::from_str("Bearer ").concat(self.token.as_str());
        request.set_header(String::from_str("authorization"), value);
        self.client.round_trip(request)
    }
}

/// The chain that a configuration asks for: the base transport alone, or
/// behind a link that adds the configured credential.
pub enum Transport<T: RoundTripper> {
    Direct(T),
    Authorized(BearerTokenClient<T>),
}

impl<T: RoundTripper> Transport<T> {
    /// The transport that ends this chain.
    pub open spec fn base(self) -> T {
        match self {
            Transport::Direct(base) => base,
            Transport::Authorized(link) => link.inner(),
        }
    }

    /// The request that reaches the base transport when the chain is handed `request`.
    pub open spec fn reaching_base(self, request: RequestView) -> RequestView {
        match self {
            Transport::Direct(_) => request,
            Transport::Authorized(link) => request.authorized(link.credential()),
        }
    }
}

impl<T: RoundTripper> RoundTripper for Transport<T> {
    type Response = T::Response;

    /// The answers of a chain are those that its base transport gives to the
    /// request that reaches it.
    open spec fn exchanges(&self, request: RequestView, result: Result<T::Response, TransportError>) -> bool {
        self.base().exchanges(self.reaching_base(request), result)
    }

    fn round_trip(&self, request: Request) -> (result: Result<T::Response, TransportError>) {
        match self {
            Transport::Direct(base) => base.round_trip(request),
            Transport::Authorized(link) => link.round_trip(request),
        }
    }
}

/// What a client is configured with.
#[derive(Debug, Clone, PartialEq, Eq)]
pub struct Config {
    /// The address that every request path is appended to.
    pub base_url: String,
    /// How the client names itself to the server.
    pub user_agent: Option<String>,
    /// The credential to send with every request, if any.
    pub bearer_token: Option<String>,
}

/// The name under which a client without a configured one presents itself.
pub open spec fn default_user_agent() -> Seq<char> {
    "kube-client-rs"@
}

impl Config {
    /// The name that the base transport presents to the server.
    pub fn effective_user_agent(&self) -> (agent: String)
        ensures
            agent@ == match self.user_agent {
                Some(name) => name@,
                None => default_user_agent(),
            },
    {
        match &self.user_agent {
            Some(name) => name.clone(),
            None => String::from_str("kube-client-rs"),
        }
    }
}

/// A client for plain reads: it turns paths into requests and sends them
/// through its transport.
pub struct RestClient<T: RoundTripper> {
    transport: T,
    base_url: String,
}

impl<T: RoundTripper> RestClient<T> {
    /// The transport that the client sends its requests through.
    pub closed spec fn transport(self) -> T {
        self.transport
    }

    /// The address that the client appends paths to.
    pub closed spec fn base_url(self) -> Seq<char> {
        self.base_url@
    }

    /// The request that the client makes for `path`.
    pub open spec fn request_for(self, path: Seq<char>) -> RequestView {
        RequestView::plain(self.base_url() + path)
    }

    /// A client that sends through `client` to the server at `base_url`.
    pub fn new(client: T, base_url: &str) -> (rest: Self)
        ensures
            rest.transport() == client,
            rest.base_url() == base_url@,
    {
        RestClient { transport: client, base_url: String::from_str(base_url) }
    }

    /// Reads `path` from the server: sends a request without headers for the
    /// base address followed by `path` through the transport, and returns
    /// what the transport gives, as it gives it.
    pub fn get(&self, path: String) -> (result: Result<T::Response, TransportError>)
        ensures
            self.transport().exchanges(self.request_for(path@), result),
    {
        let url = self.base_url.clone().concat(path.as_str());
        self.transport.round_trip(Request::get(url))
    }
}

/// Builds the chain that `config` asks for on top of `base`, and the client
/// that sends through it: `base` behind a bearer link where a credential is
/// configured, `base` alone where none is.
pub fn rest_client_for<T: RoundTripper>(base: T, config: &Config) -> (rest: RestClient<Transport<T>>)
    ensures
        rest.base_url() == config.base_url@,
        rest.transport().base() == base,
        match config.bearer_token {
            Some(token) => rest.transport() matches Transport::Authorized(link) && link.credential() == token@,
            None => rest.transport() is Direct,
        },
{
    let chain = match &config.bearer_token {
        Some(token) => Transport::Authorized(BearerTokenClient::new(base, token.as_str())),
        None => Transport::Direct(base),
    };
    RestClient::new(chain, config.base_url.as_str())
}

/// A credential reaches the base transport: whatever a client built for a
/// configuration with a credential reads, its base transport is handed the
/// request with that credential in the authorization header.
pub proof fn law_credential_reaches_base<T: RoundTripper>(
    rest: RestClient<Transport<T>>,
    token: Seq<char>,
    path: Seq<char>,
    result: Result<T::Response, TransportError>,
)
    requires
        rest.transport() matches Transport::Authorized(link) && link.credential() == token,
        rest.transport().exchanges(rest.request_for(path), result),
    ensures
        rest.transport().base().exchanges(rest.transport().reaching_base(rest.request_for(path)), result),
        rest.transport().reaching_base(rest.request_for(path)).url == rest.base_url() + path,
        rest.transport().reaching_base(rest.request_for(path)).headers.contains_key(authorization()),
        rest.transport().reaching_base(rest.request_for(path)).headers[authorization()] == bearer(token),
{
}

/// No link, no credential: whatever a client built for a configuration
/// without a credential reads, its base transport is handed the request as
/// the client made it, without an authorization header.
pub proof fn law_no_credential_without_link<T: RoundTripper>(
    rest: RestClient<Transport<T>>,
    path: Seq<char>,
    result: Result<T::Response, TransportError>,
)
    requires
        rest.transport() is Direct,
        rest.transport().exchanges(rest.request_for(path), result),
    ensures
        rest.transport().base().exchanges(rest.request_for(path), result),
        !rest.request_for(path).headers.contains_key(authorization()),
{
}

/// A link changes nothing but the credential: the request that a bearer
/// link hands on has the address and every other header of the one it was
/// handed, and the answer comes back as the next transport gave it.
pub proof fn law_link_adds_only_credential<T: RoundTripper>(
    link: BearerTokenClient<T>,
    request: RequestView,
    result: Result<T::Response, TransportError>,
)
    requires
        link.exchanges(request, result),
    ensures
        link.inner().exchanges(request.authorized(link.credential()), result),
        request.authorized(link.credential()).url == request.url,
        request.authorized(link.credential()).headers[authorization()] == bearer(link.credential()),
        forall|name: Seq<char>|
            name != authorization() ==> (request.authorized(link.credential()).headers.contains_key(name)
                <==> request.headers.contains_key(name)) && (request.headers.contains_key(name)
                ==> request.authorized(link.credential()).headers[name] == request.headers[name]),
{
}

} // verus!
