//! The request/response envelope of the platform API: status codes, reply
//! and response bodies with optional headers, and the typestate API client.

use std::ops::Deref;
use std::sync::Arc;
use vstd::prelude::*;
use crate::text::str_eq;

verus! {

/// An HTTP status code, 100 to 999.
#[derive(Clone, Copy, Debug, PartialEq, Eq)]
pub struct StatusCode {
    code: u16,
}

impl StatusCode {
    /// The numeric code.
    pub closed spec fn spec_code(self) -> u16 {
        self.code
    }

    #[verifier::type_invariant]
    closed spec fn in_range(self) -> bool {
        100 <= self.code < 1000
    }

    /// The status of `code`, when it lies in 100 to 999.
    pub fn from_u16(code: u16) -> (s: Option<StatusCode>)
        ensures
            s is Some <==> 100 <= code < 1000,
            s matches Some(st) ==> st.spec_code() == code,
    {
        if 100 <= code && code < 1000 {
            Some(StatusCode { code })
        } else {
            None
        }
    }

    /// The numeric code.
    pub fn as_u16(&self) -> (c: u16)
        ensures
            c == self.spec_code(),
            100 <= c < 1000,
    {
        proof {
            use_type_invariant(self);
        }
        self.code
    }

    /// Whether the status is a success (2xx).
    pub fn is_success(&self) -> (b: bool)
        ensures
            b == (200 <= self.spec_code() < 300),
    {
        200 <= self.code && self.code < 300
    }

    /// The status 200 OK.
    pub closed spec fn spec_ok() -> StatusCode {
        StatusCode { code: 200 }
    }

    /// 200 OK.
    pub fn ok() -> (s: StatusCode)
        ensures
            s.spec_code() == 200,
            s == StatusCode::spec_ok(),
    {
        StatusCode { code: 200 }
    }

    /// 201 Created.
    pub fn created() -> (s: StatusCode)
        ensures
            s.spec_code() == 201,
    {
        StatusCode { code: 201 }
    }

    /// 202 Accepted.
    pub fn accepted() -> (s: StatusCode)
        ensures
            s.spec_code() == 202,
    {
        StatusCode { code: 202 }
    }

    /// 500 Internal Server Error.
    pub fn internal_server_error() -> (s: StatusCode)
        ensures
            s.spec_code() == 500,
    {
        StatusCode { code: 500 }
    }
}

/// Marker for the provider of a [`Client`].
pub trait Provider: Send + Sync {}

impl<T: Send + Sync> Provider for T {}

/// Typestate marker: a [`Client`] that has no provider yet.
#[derive(Clone, Copy, Debug, Default)]
pub struct NoProvider;

/// Marker for the types that may carry request or reply headers.
pub trait Headers: core::fmt::Debug + Send + Sync {}

/// The empty set of headers, for handlers that need none.
#[derive(Clone, Copy, Debug, Default)]
pub struct NoHeaders;

impl Headers for NoHeaders {}

/// Marker for the types that may be a request or reply body.
pub trait Body: core::fmt::Debug + Send + Sync {}

impl<T: core::fmt::Debug + Send + Sync> Body for T {}

/// Top-level reply common to all handlers.
#[derive(Debug)]
pub struct Reply<B: Body, H: Headers = NoHeaders> {
    /// Reply HTTP status code.
    pub status: StatusCode,
    /// Reply HTTP headers, if any.
    pub headers: Option<H>,
    /// The endpoint-specific body.
    pub body: B,
}

impl<B: Body> Reply<B> {
    /// A 200 OK reply.
    pub fn ok(body: B) -> (r: Self)
        ensures
            r.status.spec_code() == 200,
            r.headers is None,
            r.body == body,
    {
        Reply { status: StatusCode::ok(), headers: None, body }
    }

    /// A 201 Created reply.
    pub fn created(body: B) -> (r: Self)
        ensures
            r.status.spec_code() == 201,
            r.headers is None,
            r.body == body,
    {
        Reply { status: StatusCode::created(), headers: None, body }
    }

    /// A 202 Accepted reply.
    pub fn accepted(body: B) -> (r: Self)
        ensures
            r.status.spec_code() == 202,
            r.headers is None,
            r.body == body,
    {
        Reply { status: StatusCode::accepted(), headers: None, body }
    }

    /// Whether the reply is a success (2xx).
    pub fn is_success(&self) -> (b: bool)
        ensures
            b == (200 <= self.status.spec_code() < 300),
    {
        self.status.is_success()
    }
}

impl<B: Body, H: Headers> Reply<B, H> {
    /// The same reply with another status code.
    pub fn status(self, status: StatusCode) -> (r: Self)
        ensures
            r.status == status,
            r.headers == self.headers,
            r.body == self.body,
    {
        let mut r = self;
        r.status = status;
        r
    }

    /// The same reply with `headers`.
    pub fn headers(self, headers: H) -> (r: Self)
        ensures
            r.status == self.status,
            r.headers == Some(headers),
            r.body == self.body,
    {
        let mut r = self;
        r.headers = Some(headers);
        r
    }
}

/// Top-level response common to all handlers.
#[derive(Debug)]
pub struct Response<B: Body, H: Headers = NoHeaders> {
    /// Response HTTP status code.
    pub status: StatusCode,
    /// Response HTTP headers, if any.
    pub headers: Option<H>,
    /// The endpoint-specific body.
    pub body: B,
}

impl<B: Body> Response<B> {
    /// A 200 OK response.
    pub fn ok(body: B) -> (r: Self)
        ensures
            r.status.spec_code() == 200,
            r.headers is None,
            r.body == body,
    {
        Response { status: StatusCode::ok(), headers: None, body }
    }

    /// A 201 Created response.
    pub fn created(body: B) -> (r: Self)
        ensures
            r.status.spec_code() == 201,
            r.headers is None,
            r.body == body,
    {
        Response { status: StatusCode::created(), headers: None, body }
    }

    /// A 202 Accepted response.
    pub fn accepted(body: B) -> (r: Self)
        ensures
            r.status.spec_code() == 202,
            r.headers is None,
            r.body == body,
    {
        Response { status: StatusCode::accepted(), headers: None, body }
    }

    /// Whether the response is a success (2xx).
    pub fn is_success(&self) -> (b: bool)
        ensures
            b == (200 <= self.status.spec_code() < 300),
    {
        self.status.is_success()
    }
}

impl<B: Body, H: Headers> Response<B, H> {
    /// The same response with another status code.
    pub fn status(self, status: StatusCode) -> (r: Self)
        ensures
            r.status == status,
            r.headers == self.headers,
            r.body == self.body,
    {
        let mut r = self;
        r.status = status;
        r
    }

    /// The same response with `headers`.
    pub fn headers(self, headers: H) -> (r: Self)
        ensures
            r.status == self.status,
            r.headers == Some(headers),
            r.body == self.body,
    {
        let mut r = self;
        r.headers = Some(headers);
        r
    }
}

/// The API client: the owning tenant and, once configured, the provider used
/// while handling requests.
#[derive(Clone, Debug)]
pub struct Client<P> {
    owner: String,
    provider: P,
}

impl<P> Client<P> {
    /// The owning tenant.
    pub closed spec fn spec_owner(&self) -> Seq<char> {
        self.owner@
    }

    /// The provider.
    pub closed spec fn spec_provider(&self) -> P {
        self.provider
    }

    /// The owning tenant.
    pub fn owner(&self) -> (o: &str)
        ensures
            o@ == self.spec_owner(),
    {
        self.owner.as_str()
    }

    /// The provider.
    pub fn provider_ref(&self) -> (p: &P)
        ensures
            *p == self.spec_provider(),
    {
        &self.provider
    }
}

impl Client<NoProvider> {
    /// Starts building a client for `owner`.
    pub fn new(owner: String) -> (c: Self)
        ensures
            c.spec_owner() == owner@,
    {
        Client { owner, provider: NoProvider }
    }

    /// Finishes building the client with its provider.
    pub fn provider<P: Provider>(self, provider: P) -> (c: Client<Arc<P>>)
        ensures
            c.spec_owner() == self.spec_owner(),
            *c.spec_provider() == provider,
    {
        Client { owner: self.owner, provider: Arc::new(provider) }
    }
}


/// A request that can be handled: its output body, its error, and the
/// handling itself, given the owning tenant and the provider. Implemented by
/// the users of the API for each of their request types.
pub trait Handler<P: Provider>: Sized {
    /// The body of a successful response.
    type Output: Body;

    /// The error of a failed request.
    type Error;

    /// Handles the request for `owner` with `provider`.
    fn handle(self, owner: &str, provider: &P) -> Result<Response<Self::Output>, Self::Error>;
}

/// Routes a request to its handler with the client's owner and provider and
/// the headers that were set.
pub struct RequestHandler<P: Provider, H: Headers, R: Handler<P>> {
    client: Client<Arc<P>>,
    request: R,
    headers: H,
}

impl<P: Provider, H: Headers, R: Handler<P>> RequestHandler<P, H, R> {
    /// The client the request is routed with.
    pub closed spec fn spec_client(&self) -> Client<Arc<P>> {
        self.client
    }

    /// The request.
    pub closed spec fn spec_request(&self) -> R {
        self.request
    }

    /// The headers.
    pub closed spec fn spec_headers(&self) -> H {
        self.headers
    }

    /// Handles the request: the handler's own result for the client's owner
    /// and provider.
    pub fn handle(self) -> (r: Result<Response<R::Output>, R::Error>)
        ensures
            exists|owner: &str| owner@ == self.spec_client().spec_owner() && call_ensures(
                R::handle,
                (self.spec_request(), owner, &*self.spec_client().spec_provider()),
                r,
            ),
    {
        let RequestHandler { client, request, headers: _ } = self;
        request.handle(client.owner(), &*client.provider_ref())
    }
}

impl<P: Provider, R: Handler<P>> RequestHandler<P, NoHeaders, R> {
    /// A router for `request` with `client`, without headers.
    pub fn new(client: Client<Arc<P>>, request: R) -> (h: Self)
        ensures
            h.spec_client() == client,
            h.spec_request() == request,
    {
        RequestHandler { client, request, headers: NoHeaders }
    }

    /// Sets the request headers.
    pub fn headers<H: Headers>(self, headers: H) -> (h: RequestHandler<P, H, R>)
        ensures
            h.spec_client() == self.spec_client(),
            h.spec_request() == self.spec_request(),
            h.spec_headers() == headers,
    {
        RequestHandler { client: self.client, request: self.request, headers }
    }
}

impl<P: Provider> Client<Arc<P>> {
    /// A router for `request` with this client, without headers.
    pub fn request<R: Handler<P>>(&self, request: R) -> (h: RequestHandler<P, NoHeaders, R>)
        ensures
            h.spec_client().spec_owner() == self.spec_owner(),
            *h.spec_client().spec_provider() == *self.spec_provider(),
            h.spec_request() == request,
    {
        let client = Client { owner: self.owner.clone(), provider: Arc::clone(&self.provider) };
        RequestHandler::new(client, request)
    }
}

impl<B: Body> From<B> for Reply<B> {
    /// A 200 OK reply with `body`.
    fn from(body: B) -> (r: Self) {
        Reply { status: StatusCode::ok(), headers: None, body }
    }
}

impl<B: Body> vstd::std_specs::convert::FromSpecImpl<B> for Reply<B> {
    open spec fn obeys_from_spec() -> bool {
        true
    }

    open spec fn from_spec(body: B) -> Self {
        Reply { status: StatusCode::spec_ok(), headers: None, body }
    }
}

impl<B: Body> Deref for Reply<B> {
    type Target = B;

    /// The reply's body.
    fn deref(&self) -> (b: &B)
        ensures
            *b == self.body,
    {
        &self.body
    }
}

impl<B: Body> From<B> for Response<B> {
    /// A 200 OK response with `body`.
    fn from(body: B) -> (r: Self) {
        Response { status: StatusCode::ok(), headers: None, body }
    }
}

impl<B: Body> vstd::std_specs::convert::FromSpecImpl<B> for Response<B> {
    open spec fn obeys_from_spec() -> bool {
        true
    }

    open spec fn from_spec(body: B) -> Self {
        Response { status: StatusCode::spec_ok(), headers: None, body }
    }
}

impl<B: Body> Deref for Response<B> {
    type Target = B;

    /// The response's body.
    fn deref(&self) -> (b: &B)
        ensures
            *b == self.body,
    {
        &self.body
    }
}

/// A reply as an HTTP response: its status code, its headers in order (as
/// name and value, names in the lower case an HTTP header map keeps), and its
/// body.
#[derive(Clone, Debug, PartialEq, Eq)]
pub struct HttpReply {
    pub status: u16,
    pub headers: Vec<(String, String)>,
    pub body: Vec<u8>,
}

/// Headers by views.
pub open spec fn header_views(h: Seq<(String, String)>) -> Seq<(Seq<char>, Seq<char>)> {
    h.map_values(|p: (String, String)| (p.0@, p.1@))
}

/// Whether `headers` hold a header named `name`.
pub open spec fn has_header(headers: Seq<(Seq<char>, Seq<char>)>, name: Seq<char>) -> bool {
    exists|i: int| 0 <= i < headers.len() && #[trigger] headers[i].0 == name
}

/// The headers of a reply: those its headers applied, with the body's
/// content type added when they set none.
pub open spec fn reply_headers(applied: Seq<(Seq<char>, Seq<char>)>, content_type: Seq<char>) -> Seq<(Seq<char>, Seq<char>)> {
    if has_header(applied, "content-type"@) {
        applied
    } else {
        applied.push(("content-type"@, content_type))
    }
}

/// The HTTP response of a reply with status `status`, whose headers applied
/// `applied` to the response, and whose body encoded as `encoded` (its bytes
/// and content type, or why it could not be encoded). A body that cannot be
/// encoded gives a 500 response with the reason as plain text; otherwise the
/// response has the reply's status and body, and the body's content type
/// unless the headers set one.
pub fn http_reply(status: StatusCode, applied: Vec<(String, String)>, encoded: Result<(Vec<u8>, String), String>) -> (r: HttpReply)
    ensures
        match encoded {
            Err(m) => r.status == 500 && header_views(r.headers@) == seq![("content-type"@, "text/plain; charset=utf-8"@)]
                && r.body@ == vstd::utf8::encode_utf8(m@),
            Ok((bytes, content_type)) => r.status == status.spec_code() && r.body@ == bytes@
                && header_views(r.headers@) == reply_headers(header_views(applied@), content_type@),
        },
{
    match encoded {
        Err(m) => {
            let mut headers: Vec<(String, String)> = Vec::new();
            headers.push(("content-type".to_owned(), "text/plain; charset=utf-8".to_owned()));
            assert(header_views(headers@) =~= seq![("content-type"@, "text/plain; charset=utf-8"@)]);
            let text: &str = m.as_str();
            let body = vstd::slice::slice_to_vec(text.as_bytes());
            HttpReply { status: 500, headers, body }
        },
        Ok((bytes, content_type)) => {
            let ghost av = header_views(applied@);
            let mut found = false;
            let mut i: usize = 0;
            while i < applied.len()
                invariant
                    i <= applied@.len(),
                    av == header_views(applied@),
                    found <==> exists|j: int| 0 <= j < i && #[trigger] av[j].0 == "content-type"@,
                decreases applied@.len() - i,
            {
                assert(av[i as int].0 == applied@[i as int].0@);
                if str_eq(applied[i].0.as_str(), "content-type") {
                    found = true;
                }
                assert(found <==> exists|j: int| 0 <= j < i + 1 && #[trigger] av[j].0 == "content-type"@) by {
                    if found && !(exists|j: int| 0 <= j < i && #[trigger] av[j].0 == "content-type"@) {
                        assert(av[i as int].0 == "content-type"@);
                    }
                }
                i = i + 1;
            }
            let mut headers = applied;
            if !found {
                let ghost before = headers@;
                headers.push(("content-type".to_owned(), content_type));
                assert(header_views(headers@) =~= header_views(before).push(("content-type"@, content_type@)));
            }
            HttpReply { status: status.as_u16(), headers, body: bytes }
        },
    }
}

} // verus!
