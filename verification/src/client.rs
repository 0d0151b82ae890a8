//! The two backends, the requests they assemble and the resolution of a
//! completed exchange.

use crate::json::{parsed_document, FromJson, Json, JsonView, ToJson};
use crate::response_wrapper::{ApiErrorResponse, OpenAIError};
use vstd::prelude::*;
use vstd::string::*;

verus! {

pub const ORGANIZATION_HEADER: &'static str = "OpenAI-Organization";

/// The HTTP method of an outgoing request.
#[derive(Debug, Clone, Copy, PartialEq, Eq, Structural)]
pub enum Method {
    Get,
    Post,
}

/// One header of an outgoing request.
#[derive(Debug)]
pub struct Header {
    pub name: String,
    pub value: String,
}

/// What an outgoing request carries besides its headers.
#[derive(Debug)]
pub enum Payload {
    /// Pairs for the query string, in order.
    Query(Vec<(String, String)>),
    /// A JSON body.
    Json(Json),
}

/// An outgoing request, assembled and not yet sent.
#[derive(Debug)]
pub struct HttpRequest {
    pub method: Method,
    pub url: String,
    pub headers: Vec<Header>,
    /// The token of the bearer authentication.
    pub bearer_token: String,
    pub payload: Payload,
}

/// Names and values of a sequence of headers.
pub open spec fn header_pairs(headers: Seq<Header>) -> Seq<(Seq<char>, Seq<char>)> {
    Seq::new(headers.len(), |i: int| (headers[i].name@, headers[i].value@))
}

impl HttpRequest {
    /// Whether the request has this method, address, headers and token.
    pub open spec fn addressed(
        &self,
        method: Method,
        url: Seq<char>,
        headers: Seq<(Seq<char>, Seq<char>)>,
        token: Seq<char>,
    ) -> bool {
        &&& self.method == method
        &&& self.url@ == url
        &&& header_pairs(self.headers@) == headers
        &&& self.bearer_token@ == token
    }

    /// Whether the request carries `doc` as its JSON body.
    pub open spec fn has_body(&self, doc: JsonView) -> bool {
        self.payload matches Payload::Json(body) && body@ == doc
    }

    /// Whether the request carries `query` as its query pairs.
    pub open spec fn has_query(&self, query: Vec<(String, String)>) -> bool {
        self.payload matches Payload::Query(pairs) && pairs == query
    }
}

/// Configuration shared by the backends: the key and the base address.
#[derive(Debug)]
pub struct ClientBase {
    pub api_key: String,
    pub base_url: String,
}

impl ClientBase {
    pub fn new(api_key: String, base_url: String) -> (base: Self)
        ensures
            base.api_key == api_key,
            base.base_url == base_url,
    {
        Self { api_key, base_url }
    }

    /// The headers of the transport itself: none.
    pub fn headers(&self) -> (headers: Vec<Header>)
        ensures
            headers@.len() == 0,
    {
        Vec::new()
    }

    pub fn api_key(&self) -> (key: &str)
        ensures
            key@ == self.api_key@,
    {
        self.api_key.as_str()
    }

    pub fn api_base(&self) -> (base: &str)
        ensures
            base@ == self.base_url@,
    {
        self.base_url.as_str()
    }

    /// Assembles one request: the base address followed by `route`, the
    /// caller's headers, the key as bearer token, and the payload.
    pub fn request(&self, method: Method, route: &str, headers: Vec<Header>, payload: Payload) -> (req:
        HttpRequest)
        ensures
            req.addressed(method, self.base_url@ + route@, header_pairs(headers@), self.api_key@),
            req.payload == payload,
    {
        let mut url = self.base_url.clone();
        url.append(route);
        HttpRequest { method, url, headers, bearer_token: self.api_key.clone(), payload }
    }

    pub fn get(&self, route: &str, headers: Vec<Header>, query: Vec<(String, String)>) -> (req:
        HttpRequest)
        ensures
            req.addressed(
                Method::Get,
                self.base_url@ + route@,
                header_pairs(headers@),
                self.api_key@,
            ),
            req.has_query(query),
    {
        self.request(Method::Get, route, headers, Payload::Query(query))
    }

    pub fn post<F: ToJson>(&self, route: &str, headers: Vec<Header>, json: &F) -> (req: HttpRequest)
        ensures
            req.addressed(
                Method::Post,
                self.base_url@ + route@,
                header_pairs(headers@),
                self.api_key@,
            ),
            req.has_body(json.json()),
    {
        self.request(Method::Post, route, headers, Payload::Json(json.to_json()))
    }
}

/// What every backend offers: its headers, key and base address, and the
/// requests for a route.
pub trait ReqClient: Sync + Send {
    /// The key that requests are authenticated with.
    spec fn key(&self) -> Seq<char>;

    /// The base address that routes are appended to.
    spec fn base(&self) -> Seq<char>;

    /// The headers that the backend adds to each request.
    spec fn header_list(&self) -> Seq<(Seq<char>, Seq<char>)>;

    /// The route that is sent for a caller's route.
    spec fn routed(&self, route: Seq<char>) -> Seq<char>;

    fn headers(&self) -> (headers: Vec<Header>)
        ensures
            header_pairs(headers@) == self.header_list(),
    ;

    fn api_key(&self) -> (key: &str)
        ensures
            key@ == self.key(),
    ;

    fn api_base(&self) -> (base: String)
        ensures
            base@ == self.base(),
    ;

    /// The request that reads `route` with the given query pairs.
    fn get(&self, route: &str, query: Vec<(String, String)>) -> (req: HttpRequest)
        ensures
            req.addressed(
                Method::Get,
                self.base() + self.routed(route@),
                self.header_list(),
                self.key(),
            ),
            req.has_query(query),
    ;

    /// The request that posts `json` to `route`.
    fn post<F: ToJson>(&self, route: &str, json: &F) -> (req: HttpRequest)
        ensures
            req.addressed(
                Method::Post,
                self.base() + self.routed(route@),
                self.header_list(),
                self.key(),
            ),
            req.has_body(json.json()),
    ;
}

/// The direct backend: a fixed address, and an organization header where an
/// organization was given.
#[derive(Debug)]
pub struct OpenAI {
    pub base: ClientBase,
    pub org_id: Option<String>,
}

impl OpenAI {
    pub fn new(api_key: String, org_id: Option<String>) -> (client: Self)
        ensures
            client.key() == api_key@,
            client.base() == "https://api.openai.com/v1"@,
            client.org_id == org_id,
    {
        let base_url = String::from_str("https://api.openai.com/v1");
        Self { base: ClientBase::new(api_key, base_url), org_id }
    }
}

impl ReqClient for OpenAI {
    open spec fn key(&self) -> Seq<char> {
        self.base.api_key@
    }

    open spec fn base(&self) -> Seq<char> {
        self.base.base_url@
    }

    open spec fn header_list(&self) -> Seq<(Seq<char>, Seq<char>)> {
        match self.org_id {
            Some(org_id) => seq![(ORGANIZATION_HEADER@, org_id@)],
            None => Seq::empty(),
        }
    }

    open spec fn routed(&self, route: Seq<char>) -> Seq<char> {
        route
    }

    fn headers(&self) -> (headers: Vec<Header>) {
        let mut headers = self.base.headers();
        if let Some(org_id) = &self.org_id {
            headers.push(
                Header { name: String::from_str(ORGANIZATION_HEADER), value: org_id.clone() },
            );
        }
        proof {
            assert(header_pairs(headers@) =~= self.header_list());
        }
        headers
    }

    fn api_key(&self) -> (key: &str) {
        self.base.api_key()
    }

    fn api_base(&self) -> (base: String) {
        String::from_str(self.base.api_base())
    }

    fn get(&self, route: &str, query: Vec<(String, String)>) -> (req: HttpRequest) {
        self.base.get(route, self.headers(), query)
    }

    fn post<F: ToJson>(&self, route: &str, json: &F) -> (req: HttpRequest) {
        self.base.post(route, self.headers(), json)
    }
}

/// A caller's route without its leading slash, if it has one.
pub open spec fn route_suffix(route: Seq<char>) -> Seq<char> {
    if route.len() > 0 && route[0] == '/' {
        route.subrange(1, route.len() as int)
    } else {
        route
    }
}

/// The route of a deployment: the deployment, the caller's route as a suffix,
/// and the API version as a query parameter.
pub open spec fn deployment_route(
    deployment_id: Seq<char>,
    route: Seq<char>,
    api_version: Seq<char>,
) -> Seq<char> {
    "/openai/deployments/"@ + deployment_id + "/"@ + route_suffix(route) + "?api-version="@
        + api_version
}

/// The gateway-routed backend: an address made from the resource name, and
/// every route rewritten to the deployment's.
#[derive(Debug)]
pub struct AzureOpenAI {
    pub base: ClientBase,
    pub resource_name: String,
    pub deployment_id: String,
    pub api_version: String,
}

impl AzureOpenAI {
    pub fn new(
        api_key: String,
        resource_name: String,
        deployment_id: String,
        api_version: String,
    ) -> (client: Self)
        ensures
            client.key() == api_key@,
            client.base() == "https://"@ + resource_name@ + ".openai.azure.com"@,
            client.resource_name == resource_name,
            client.deployment_id == deployment_id,
            client.api_version == api_version,
    {
        let mut base_url = String::from_str("https://");
        base_url.append(resource_name.as_str());
        base_url.append(".openai.azure.com");
        Self { base: ClientBase::new(api_key, base_url), resource_name, deployment_id, api_version }
    }

    /// Rewrites a caller's route to the route of the deployment.
    pub fn route_with_deployment(&self, route: &str) -> (path: String)
        ensures
            path@ == deployment_route(self.deployment_id@, route@, self.api_version@),
    {
        let length = route.unicode_len();
        let mut path = String::from_str("/openai/deployments/");
        path.append(self.deployment_id.as_str());
        path.append("/");
        if length > 0 && route.get_char(0) == '/' {
            path.append(route.substring_char(1, length));
        } else {
            path.append(route);
        }
        path.append("?api-version=");
        path.append(self.api_version.as_str());
        path
    }
}

impl ReqClient for AzureOpenAI {
    open spec fn key(&self) -> Seq<char> {
        self.base.api_key@
    }

    open spec fn base(&self) -> Seq<char> {
        self.base.base_url@
    }

    open spec fn header_list(&self) -> Seq<(Seq<char>, Seq<char>)> {
        Seq::empty()
    }

    open spec fn routed(&self, route: Seq<char>) -> Seq<char> {
        deployment_route(self.deployment_id@, route, self.api_version@)
    }

    fn headers(&self) -> (headers: Vec<Header>) {
        let headers = self.base.headers();
        proof {
            assert(header_pairs(headers@) =~= self.header_list());
        }
        headers
    }

    fn api_key(&self) -> (key: &str) {
        self.base.api_key()
    }

    fn api_base(&self) -> (base: String) {
        String::from_str(self.base.api_base())
    }

    fn get(&self, route: &str, query: Vec<(String, String)>) -> (req: HttpRequest) {
        let route = self.route_with_deployment(route);
        self.base.get(route.as_str(), self.headers(), query)
    }

    fn post<F: ToJson>(&self, route: &str, json: &F) -> (req: HttpRequest) {
        let route = self.route_with_deployment(route);
        self.base.post(route.as_str(), self.headers(), json)
    }
}

/// Either backend, behind one call surface.
#[derive(Debug)]
pub enum ClientEnum {
    OpenAI(OpenAI),
    AzureOpenAI(AzureOpenAI),
}

impl ClientEnum {
    /// The key of the backend that is held.
    pub open spec fn key(&self) -> Seq<char> {
        match self {
            ClientEnum::OpenAI(client) => client.key(),
            ClientEnum::AzureOpenAI(client) => client.key(),
        }
    }

    /// The base address of the backend that is held.
    pub open spec fn base(&self) -> Seq<char> {
        match self {
            ClientEnum::OpenAI(client) => client.base(),
            ClientEnum::AzureOpenAI(client) => client.base(),
        }
    }

    /// The headers of the backend that is held.
    pub open spec fn header_list(&self) -> Seq<(Seq<char>, Seq<char>)> {
        match self {
            ClientEnum::OpenAI(client) => client.header_list(),
            ClientEnum::AzureOpenAI(client) => client.header_list(),
        }
    }

    /// The route that the backend that is held sends for a caller's route.
    pub open spec fn routed(&self, route: Seq<char>) -> Seq<char> {
        match self {
            ClientEnum::OpenAI(client) => client.routed(route),
            ClientEnum::AzureOpenAI(client) => client.routed(route),
        }
    }

    pub fn headers(&self) -> (headers: Vec<Header>)
        ensures
            header_pairs(headers@) == self.header_list(),
    {
        match self {
            ClientEnum::OpenAI(client) => client.headers(),
            ClientEnum::AzureOpenAI(client) => client.headers(),
        }
    }

    pub fn api_key(&self) -> (key: &str)
        ensures
            key@ == self.key(),
    {
        match self {
            ClientEnum::OpenAI(client) => client.api_key(),
            ClientEnum::AzureOpenAI(client) => client.api_key(),
        }
    }

    pub fn api_base(&self) -> (base: String)
        ensures
            base@ == self.base(),
    {
        match self {
            ClientEnum::OpenAI(client) => client.api_base(),
            ClientEnum::AzureOpenAI(client) => client.api_base(),
        }
    }

    /// The request that reads `route` with the given query pairs.
    pub fn get(&self, route: &str, query: Vec<(String, String)>) -> (req: HttpRequest)
        ensures
            req.addressed(
                Method::Get,
                self.base() + self.routed(route@),
                self.header_list(),
                self.key(),
            ),
            req.has_query(query),
    {
        match self {
            ClientEnum::OpenAI(client) => client.get(route, query),
            ClientEnum::AzureOpenAI(client) => client.get(route, query),
        }
    }

    /// The request that posts `json` to `route`.
    pub fn post<F: ToJson>(&self, route: &str, json: &F) -> (req: HttpRequest)
        ensures
            req.addressed(
                Method::Post,
                self.base() + self.routed(route@),
                self.header_list(),
                self.key(),
            ),
            req.has_body(json.json()),
    {
        match self {
            ClientEnum::OpenAI(client) => client.post(route, json),
            ClientEnum::AzureOpenAI(client) => client.post(route, json),
        }
    }
}

/// How an exchange ended: with a reply, or without one.
#[derive(Debug)]
pub enum Exchange {
    /// The service replied with this status code and these body bytes.
    Replied { status: u16, body: Vec<u8> },
    /// The transport failed: connection, TLS or timeout.
    Failed { reason: String },
}

/// Whether a status code reports success: 200 to 299.
pub open spec fn is_success(status: u16) -> bool {
    200 <= status < 300
}

pub fn status_is_success(status: u16) -> (success: bool)
    ensures
        success == is_success(status),
{
    200 <= status && status < 300
}

/// Whether `r` is a decode failure with this message.
pub open spec fn decode_failure<T>(r: Result<T, OpenAIError>, message: Seq<char>) -> bool {
    r matches Err(OpenAIError::JSONDeserialize(text)) && text@ == message
}

/// The result that a reply resolves to, given its status and the document in
/// its body. The status alone selects the shape that is read: the error body
/// for a failure status, `T` for a success status.
pub open spec fn resolves_to<T: FromJson>(
    status: u16,
    doc: JsonView,
    r: Result<T, OpenAIError>,
) -> bool {
    if !is_success(status) {
        if ApiErrorResponse::accepts(doc) {
            r matches Err(OpenAIError::ApiError(error)) && error.agrees_with(doc)
        } else {
            decode_failure(r, "the body does not have the shape of an error"@)
        }
    } else {
        if T::accepts(doc) {
            r matches Ok(value) && value.agrees_with(doc)
        } else {
            decode_failure(r, "the body does not have the expected shape"@)
        }
    }
}

/// Resolves a reply whose body has been read: the document, or the
/// message of the reader that refused it.
pub fn resolve_document<T: FromJson>(status: u16, parsed: Result<Json, String>) -> (r: Result<
    T,
    OpenAIError,
>)
    ensures
        match parsed {
            Ok(doc) => resolves_to(status, doc@, r),
            Err(message) => decode_failure(r, message@),
        },
{
    let doc = match parsed {
        Ok(doc) => doc,
        Err(message) => {
            return Err(OpenAIError::JSONDeserialize(message));
        },
    };
    if !status_is_success(status) {
        match ApiErrorResponse::from_json(&doc) {
            Some(error) => Err(OpenAIError::ApiError(error)),
            None => Err(
                OpenAIError::JSONDeserialize(
                    String::from_str("the body does not have the shape of an error"),
                ),
            ),
        }
    } else {
        match T::from_json(&doc) {
            Some(value) => Ok(value),
            None => Err(
                OpenAIError::JSONDeserialize(
                    String::from_str("the body does not have the expected shape"),
                ),
            ),
        }
    }
}

/// Resolves a completed exchange to a value of `T` or to an error.
///
/// A transport failure is a network error. A reply whose body is no JSON
/// text is a decode failure; any other reply resolves by its status.
pub fn resolve_response<T: FromJson>(exchange: Exchange) -> (r: Result<T, OpenAIError>)
    ensures
        match exchange {
            Exchange::Failed { reason } => r matches Err(OpenAIError::Reqwest(text)) && text@
                == reason@,
            Exchange::Replied { status, body } => match parsed_document(body@) {
                Some(doc) => resolves_to(status, doc, r),
                None => r matches Err(OpenAIError::JSONDeserialize(_)),
            },
        },
{
    match exchange {
        Exchange::Failed { reason } => Err(OpenAIError::Reqwest(reason)),
        Exchange::Replied { status, body } => resolve_document(status, Json::parse(body.as_slice())),
    }
}

} // verus!
