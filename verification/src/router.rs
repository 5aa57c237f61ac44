//! Request router.
//!
//! The router answers the liveness path from the shared health verdict,
//! serves the info path from a write-once cache, forwards every other
//! API-prefixed request verbatim to the backend, and rejects the rest.
//! The HTTP listener itself lives outside the library; it hands in the
//! request's path and receives either a ready response plan or a forward
//! plan to execute against the backend.
use vstd::prelude::*;

verus! {

/// The liveness path, `/health`.
pub open spec fn health_path() -> Seq<u8> {
    seq![47u8, 104u8, 101u8, 97u8, 108u8, 116u8, 104u8]
}

/// The metadata path, `/v1/info`.
pub open spec fn info_path() -> Seq<u8> {
    seq![47u8, 118u8, 49u8, 47u8, 105u8, 110u8, 102u8, 111u8]
}

/// The backend's API prefix, `/v1/`.
pub open spec fn api_prefix() -> Seq<u8> {
    seq![47u8, 118u8, 49u8, 47u8]
}

/// Where one inbound request goes.
#[derive(Clone, Copy, Debug, PartialEq, Eq, Structural)]
pub enum RouteDecision {
    /// Answer from the shared health verdict; never touches the backend.
    Health,
    /// Serve the augmented backend info document, fetching it once.
    Info,
    /// Forward verbatim to the backend.
    Proxy,
    /// Unknown endpoint.
    NotFound,
}

/// Routing, as a function of the request path (without the query string).
pub open spec fn route_spec(path: Seq<u8>) -> RouteDecision {
    if path == health_path() {
        RouteDecision::Health
    } else if path == info_path() {
        RouteDecision::Info
    } else if path.len() >= 4 && path.subrange(0, 4) == api_prefix() {
        RouteDecision::Proxy
    } else {
        RouteDecision::NotFound
    }
}

/// Decides where an inbound request goes.
pub fn route(path: &Vec<u8>) -> (r: RouteDecision)
    ensures
        r == route_spec(path@),
{
    if is_health_path(path) {
        RouteDecision::Health
    } else if is_info_path(path) {
        RouteDecision::Info
    } else if has_api_prefix(path) {
        RouteDecision::Proxy
    } else {
        RouteDecision::NotFound
    }
}

/// Is the path exactly `/health`?
fn is_health_path(path: &Vec<u8>) -> (r: bool)
    ensures
        r == (path@ == health_path()),
{
    let r = path.len() == 7 && path[0] == 47 && path[1] == 104 && path[2] == 101 && path[3] == 97
        && path[4] == 108 && path[5] == 116 && path[6] == 104;
    proof {
        if r {
            assert(path@ =~= health_path());
        } else {
            if path@ == health_path() {
                assert(path@[0] == health_path()[0]);
                assert(path@[1] == health_path()[1]);
                assert(path@[2] == health_path()[2]);
                assert(path@[3] == health_path()[3]);
                assert(path@[4] == health_path()[4]);
                assert(path@[5] == health_path()[5]);
                assert(path@[6] == health_path()[6]);
            }
        }
    }
    r
}

/// Is the path exactly `/v1/info`?
fn is_info_path(path: &Vec<u8>) -> (r: bool)
    ensures
        r == (path@ == info_path()),
{
    let r = path.len() == 8 && path[0] == 47 && path[1] == 118 && path[2] == 49 && path[3] == 47
        && path[4] == 105 && path[5] == 110 && path[6] == 102 && path[7] == 111;
    proof {
        if r {
            assert(path@ =~= info_path());
        } else {
            if path@ == info_path() {
                assert(path@[0] == info_path()[0]);
                assert(path@[1] == info_path()[1]);
                assert(path@[2] == info_path()[2]);
                assert(path@[3] == info_path()[3]);
                assert(path@[4] == info_path()[4]);
                assert(path@[5] == info_path()[5]);
                assert(path@[6] == info_path()[6]);
                assert(path@[7] == info_path()[7]);
            }
        }
    }
    r
}

/// Does the path start with the API prefix `/v1/`?
fn has_api_prefix(path: &Vec<u8>) -> (r: bool)
    ensures
        r == (path@.len() >= 4 && path@.subrange(0, 4) == api_prefix()),
{
    let r = path.len() >= 4 && path[0] == 47 && path[1] == 118 && path[2] == 49 && path[3] == 47;
    proof {
        if r {
            assert(path@.subrange(0, 4) =~= api_prefix());
        } else {
            if path@.len() >= 4 && path@.subrange(0, 4) == api_prefix() {
                assert(path@[0] == api_prefix()[0]);
                assert(path@[1] == api_prefix()[1]);
                assert(path@[2] == api_prefix()[2]);
                assert(path@[3] == api_prefix()[3]);
            }
        }
    }
    r
}

/// A response the router can answer by itself.
pub struct HttpResponse {
    /// HTTP status code.
    pub status: u16,
    /// Response headers, name/value pairs in order.
    pub headers: Vec<(String, String)>,
    /// Response body.
    pub body: String,
}

/// The permissive cross-origin headers that every error response carries.
pub fn cors_headers() -> (h: Vec<(String, String)>)
    ensures
        h@.len() == 3,
        h@[0].0@ == "Access-Control-Allow-Origin"@ && h@[0].1@ == "*"@,
        h@[1].0@ == "Access-Control-Allow-Methods"@ && h@[1].1@ == "*"@,
        h@[2].0@ == "Access-Control-Allow-Headers"@ && h@[2].1@ == "*"@,
{
    let mut h: Vec<(String, String)> = Vec::new();
    h.push((String::from_str("Access-Control-Allow-Origin"), String::from_str("*")));
    h.push((String::from_str("Access-Control-Allow-Methods"), String::from_str("*")));
    h.push((String::from_str("Access-Control-Allow-Headers"), String::from_str("*")));
    h
}

/// The `/health` answer: plain success while the verdict is healthy, a
/// server-error status with a descriptive body (and cross-origin headers)
/// while it is not.  Never touches the backend.
pub fn health_response(healthy: bool) -> (r: HttpResponse)
    ensures
        healthy ==> r.status == 200 && r.body@ == "OK"@ && r.headers@.len() == 0,
        !healthy ==> r.status == 503 && r.body@ == "API server is not healthy"@
            && r.headers@.len() == 3,
{
    if healthy {
        HttpResponse { status: 200, headers: Vec::new(), body: String::from_str("OK") }
    } else {
        HttpResponse {
            status: 503,
            headers: cors_headers(),
            body: String::from_str("API server is not healthy"),
        }
    }
}

/// The answer for a path outside the routed surface.
pub fn not_found_response() -> (r: HttpResponse)
    ensures
        r.status == 404,
        r.body@ == "Unknown endpoint"@,
        r.headers@.len() == 3,
{
    HttpResponse {
        status: 404,
        headers: cors_headers(),
        body: String::from_str("Unknown endpoint"),
    }
}

/// A request to forward to the backend: everything is preserved verbatim —
/// method, headers, body, path and query string — and only the authority
/// (host and port) is rewritten to the backend's address.
pub struct ForwardPlan {
    /// HTTP method, unchanged.
    pub method: String,
    /// The backend's authority (host and port).
    pub authority: String,
    /// Path and query string, unchanged.
    pub path_and_query: Vec<u8>,
    /// Request headers, unchanged and in order.
    pub headers: Vec<(String, String)>,
    /// Request body, unchanged.
    pub body: Vec<u8>,
}

/// Plans the transparent forwarding of one request.  The plan carries the
/// inbound method, headers, body, path and query untouched; only the
/// authority is the backend's.  The backend's response travels back to the
/// caller unmodified, outside the library.
pub fn proxy_plan(
    method: String,
    path_and_query: Vec<u8>,
    headers: Vec<(String, String)>,
    body: Vec<u8>,
    backend_authority: String,
) -> (p: ForwardPlan)
    ensures
        p.method == method,
        p.authority == backend_authority,
        p.path_and_query == path_and_query,
        p.headers == headers,
        p.body == body,
{
    ForwardPlan { method, authority: backend_authority, path_and_query, headers, body }
}

/// The backend info document, cached on first fetch and immutable from
/// then on for the life of the process.
pub struct ServerInfoCache {
    value: Option<String>,
}

impl ServerInfoCache {
    /// The cached document, if the one-time fetch has happened.
    pub closed spec fn cached(&self) -> Option<Seq<char>> {
        match self.value {
            Some(d) => Some(d@),
            None => None,
        }
    }

    /// An unset cache.
    pub fn new() -> (c: ServerInfoCache)
        ensures
            c.cached() is None,
    {
        ServerInfoCache { value: None }
    }

    /// Is the document cached already?
    pub fn is_set(&self) -> (r: bool)
        ensures
            r == (self.cached() is Some),
    {
        self.value.is_some()
    }

    /// Stores the document — but only the first time.  A second store is
    /// refused and the cache keeps what it has: set once, then immutable.
    pub fn set_once(&mut self, doc: String) -> (stored: bool)
        ensures
            old(self).cached() is None ==> stored && final(self).cached() == Some(doc@),
            old(self).cached() is Some ==> !stored && final(self).cached() == old(self).cached(),
    {
        if self.value.is_none() {
            self.value = Some(doc);
            true
        } else {
            false
        }
    }

    /// Copy of the cached document, if any.
    pub fn get(&self) -> (r: Option<String>)
        ensures
            r is Some <==> self.cached() is Some,
            r matches Some(d) ==> self.cached() == Some(d@),
    {
        match &self.value {
            Some(d) => Some(d.clone()),
            None => None,
        }
    }
}

/// The bytes of the scheme prefix `http://`.
pub open spec fn http_scheme() -> Seq<u8> {
    seq![104u8, 116u8, 116u8, 112u8, 58u8, 47u8, 47u8]
}

/// The bytes of the wildcard listen address `0.0.0.0`.
pub open spec fn zero_authority() -> Seq<u8> {
    seq![48u8, 46u8, 48u8, 46u8, 48u8, 46u8, 48u8]
}

/// The bytes of the host name `localhost`.
pub open spec fn localhost_name() -> Seq<u8> {
    seq![108u8, 111u8, 99u8, 97u8, 108u8, 104u8, 111u8, 115u8, 116u8]
}

/// An authority with a leading wildcard listen address rewritten to
/// `localhost`; any other authority unchanged.
pub open spec fn localhost_of(a: Seq<u8>) -> Seq<u8> {
    if a.len() >= 7 && a.subrange(0, 7) == zero_authority() {
        localhost_name() + a.skip(7)
    } else {
        a
    }
}

/// Rewrites a leading wildcard listen address (`0.0.0.0`) to `localhost`,
/// keeping the port: the backend cannot be reached on the address it binds
/// to, only on the loopback name.
pub fn localhost_authority(addr: &Vec<u8>) -> (r: Vec<u8>)
    ensures
        r@ == localhost_of(addr@),
{
    let m = addr.len() >= 7 && addr[0] == 48 && addr[1] == 46 && addr[2] == 48 && addr[3] == 46
        && addr[4] == 48 && addr[5] == 46 && addr[6] == 48;
    proof {
        if m {
            assert(addr@.subrange(0, 7) =~= zero_authority());
        } else {
            if addr@.len() >= 7 && addr@.subrange(0, 7) == zero_authority() {
                assert(addr@[0] == zero_authority()[0]);
                assert(addr@[1] == zero_authority()[1]);
                assert(addr@[2] == zero_authority()[2]);
                assert(addr@[3] == zero_authority()[3]);
                assert(addr@[4] == zero_authority()[4]);
                assert(addr@[5] == zero_authority()[5]);
                assert(addr@[6] == zero_authority()[6]);
            }
        }
    }
    if m {
        let mut r: Vec<u8> = Vec::new();
        r.push(108);
        r.push(111);
        r.push(99);
        r.push(97);
        r.push(108);
        r.push(104);
        r.push(111);
        r.push(115);
        r.push(116);
        proof {
            assert(r@ =~= localhost_name());
        }
        let mut rest = crate::parser::copy_range(addr, 7, addr.len());
        r.append(&mut rest);
        proof {
            assert(addr@.subrange(7, addr@.len() as int) =~= addr@.skip(7));
        }
        r
    } else {
        let r = crate::parser::copy_range(addr, 0, addr.len());
        proof {
            assert(addr@.subrange(0, addr@.len() as int) =~= addr@);
        }
        r
    }
}

/// The URL of the backend's own info endpoint, reached through the
/// loopback name when the configured authority is the wildcard address.
pub fn info_fetch_url(addr: &Vec<u8>) -> (r: Vec<u8>)
    ensures
        r@ == http_scheme() + localhost_of(addr@) + info_path(),
{
    let mut r: Vec<u8> = Vec::new();
    r.push(104);
    r.push(116);
    r.push(116);
    r.push(112);
    r.push(58);
    r.push(47);
    r.push(47);
    proof {
        assert(r@ =~= http_scheme());
    }
    let mut host = localhost_authority(addr);
    r.append(&mut host);
    let mut p: Vec<u8> = Vec::new();
    p.push(47);
    p.push(118);
    p.push(49);
    p.push(47);
    p.push(105);
    p.push(110);
    p.push(102);
    p.push(111);
    proof {
        assert(p@ =~= info_path());
    }
    r.append(&mut p);
    r
}

/// Where one augmentation entry goes in the info document.
#[derive(Clone, Copy, Debug, PartialEq, Eq, Structural)]
pub enum InfoSection {
    /// The document's top-level object.
    Root,
    /// The document's `extras` object.
    Extras,
    /// The document's `chat_model` object.
    ChatModel,
    /// The document's `embedding_model` object.
    EmbeddingModel,
}

/// One key to insert into the fetched info document.
pub struct AugmentStep {
    /// Target object.
    pub section: InfoSection,
    /// Key to insert.
    pub key: String,
    /// Value to insert.
    pub value: String,
}

/// An augmentation entry, at the specification level.
pub ghost struct AugmentStepModel {
    pub section: InfoSection,
    pub key: Seq<char>,
    pub value: Seq<char>,
}

impl View for AugmentStep {
    type V = AugmentStepModel;

    open spec fn view(&self) -> AugmentStepModel {
        AugmentStepModel { section: self.section, key: self.key@, value: self.value@ }
    }
}

/// The augmentation owed to a fetched info document: the retrieval prompt
/// for a retrieval-augmented backend, the system prompt, and the model
/// digests where they were computed.  Hardware facts are appended outside
/// the library, after these.
pub open spec fn augment_plan_spec(
    server_type: Seq<char>,
    system_prompt: Seq<char>,
    rag_prompt: Seq<char>,
    sha_chat: Seq<char>,
    sha_embed: Seq<char>,
) -> Seq<AugmentStepModel> {
    (if server_type == "rag"@ {
        seq![
            AugmentStepModel {
                section: InfoSection::Root,
                key: "rag_prompt"@,
                value: rag_prompt,
            },
        ]
    } else {
        Seq::empty()
    }) + seq![
        AugmentStepModel {
            section: InfoSection::Extras,
            key: "system_prompt"@,
            value: system_prompt,
        },
    ] + (if sha_chat.len() > 0 {
        seq![
            AugmentStepModel { section: InfoSection::ChatModel, key: "sha256"@, value: sha_chat },
        ]
    } else {
        Seq::empty()
    }) + (if sha_embed.len() > 0 {
        seq![
            AugmentStepModel {
                section: InfoSection::EmbeddingModel,
                key: "sha256"@,
                value: sha_embed,
            },
        ]
    } else {
        Seq::empty()
    })
}

/// Plans the one-time augmentation of the fetched info document.
pub fn plan_augmentations(
    server_type: &String,
    system_prompt: &String,
    rag_prompt: &String,
    sha_chat: &String,
    sha_embed: &String,
) -> (steps: Vec<AugmentStep>)
    ensures
        steps@.map_values(|s: AugmentStep| s@) == augment_plan_spec(
            server_type@,
            system_prompt@,
            rag_prompt@,
            sha_chat@,
            sha_embed@,
        ),
{
    let mut steps: Vec<AugmentStep> = Vec::new();
    let rag = String::from_str("rag");
    if server_type.eq(&rag) {
        steps.push(
            AugmentStep {
                section: InfoSection::Root,
                key: String::from_str("rag_prompt"),
                value: rag_prompt.clone(),
            },
        );
    }
    steps.push(
        AugmentStep {
            section: InfoSection::Extras,
            key: String::from_str("system_prompt"),
            value: system_prompt.clone(),
        },
    );
    if !sha_chat.as_str().is_empty() {
        steps.push(
            AugmentStep {
                section: InfoSection::ChatModel,
                key: String::from_str("sha256"),
                value: sha_chat.clone(),
            },
        );
    }
    if !sha_embed.as_str().is_empty() {
        steps.push(
            AugmentStep {
                section: InfoSection::EmbeddingModel,
                key: String::from_str("sha256"),
                value: sha_embed.clone(),
            },
        );
    }
    proof {
        assert(steps@.map_values(|s: AugmentStep| s@) =~= augment_plan_spec(
            server_type@,
            system_prompt@,
            rag_prompt@,
            sha_chat@,
            sha_embed@,
        ));
    }
    steps
}

} // verus!
