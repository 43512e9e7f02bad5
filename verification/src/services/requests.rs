//! Building the request that goes to the server.
//!
//! A [`Request`] says everything that the transport has to know: where to
//! send, with which method, under which authorization, and whether a payload
//! travels with it and in which encoding. Sending it is the caller's part;
//! what came back is settled in [`crate::services::classify`].
use crate::services::credentials::{get_token, TokenStore};
use vstd::prelude::*;
use vstd::string::StringExecFns;

verus! {

/// The origin that every path is appended to.
pub const API_ROOT: &'static str = "http://localhost:8081/";

/// The HTTP methods that requests are made with.
#[derive(Clone, Copy, Debug, PartialEq, Eq, Hash, Structural)]
pub enum Method {
    Get,
    Post,
    Put,
    Patch,
    Delete,
}

/// How the payload of a request is put on the wire.
#[derive(Clone, Copy, Debug, PartialEq, Eq, Hash, Structural)]
pub enum Encoding {
    /// Structured text.
    Json,
    /// A form of several parts, which may hold files.
    Multipart,
}

/// A request that is ready to be sent.
#[derive(Clone, Debug, PartialEq, Eq)]
pub struct Request<B> {
    pub method: Method,
    /// The absolute address.
    pub url: String,
    /// The value of the authorization header, where the request has one.
    pub authorization: Option<String>,
    /// The encoding of the payload.
    pub encoding: Encoding,
    /// What is sent as the payload, where the request has one.
    pub payload: Option<B>,
}

/// A [`Request`] with its texts as sequences of characters.
pub struct RequestView<B> {
    pub method: Method,
    pub url: Seq<char>,
    pub authorization: Option<Seq<char>>,
    pub encoding: Encoding,
    pub payload: Option<B>,
}

impl<B> View for Request<B> {
    type V = RequestView<B>;

    open spec fn view(&self) -> RequestView<B> {
        RequestView {
            method: self.method,
            url: self.url@,
            authorization: self.authorization.deep_view(),
            encoding: self.encoding,
            payload: self.payload,
        }
    }
}

impl Method {
    /// Whether requests with this method carry a payload: all but `Get` do.
    pub open spec fn is_body_bearing(self) -> bool {
        self is Post || self is Put || self is Patch || self is Delete
    }

    /// Whether requests with this method carry a payload.
    pub fn allows_body(self) -> (allowed: bool)
        ensures
            allowed == self.is_body_bearing(),
    {
        match self {
            Method::Post | Method::Put | Method::Patch | Method::Delete => true,
            Method::Get => false,
        }
    }
}

/// The absolute address of `path`: the origin with the path behind it.
pub open spec fn absolute_url(path: Seq<char>) -> Seq<char> {
    API_ROOT@ + path
}

/// The authorization header that presents `token` as a bearer credential.
pub open spec fn bearer(token: Seq<char>) -> Seq<char> {
    "Bearer "@ + token
}

/// The authorization header of a request that is made while `token` is the
/// cached credential: none without a credential.
pub open spec fn authorization_for(token: Option<Seq<char>>) -> Option<Seq<char>> {
    match token {
        Some(text) => Some(bearer(text)),
        None => None,
    }
}

/// The request for `method` and `path` that is made with `body` at hand while
/// `token` is the cached credential.
pub open spec fn planned<B>(
    token: Option<Seq<char>>,
    method: Method,
    path: Seq<char>,
    body: B,
    encoding: Encoding,
) -> RequestView<B> {
    RequestView {
        method,
        url: absolute_url(path),
        authorization: authorization_for(token),
        encoding,
        payload: if method.is_body_bearing() {
            Some(body)
        } else {
            None
        },
    }
}

/// Builds the authorization header for `token`.
pub fn bearer_header(token: &str) -> (header: String)
    ensures
        header@ == bearer(token@),
{
    String::from_str("Bearer ").concat(token)
}

/// Builds the request in the given encoding.
fn build<B>(store: &TokenStore, method: Method, url: String, body: B, encoding: Encoding) -> (built:
    Request<B>)
    ensures
        built@ == planned(store@, method, url@, body, encoding),
{
    let address = String::from_str(API_ROOT).concat(url.as_str());
    let authorization = match get_token(store) {
        Some(token) => Some(bearer_header(token.as_str())),
        None => None,
    };
    let payload = if method.allows_body() {
        Some(body)
    } else {
        None
    };
    Request { method, url: address, authorization, encoding, payload }
}

/// Builds a request whose payload is structured text.
///
/// The address is the origin followed by `url`. The credential that `store`
/// holds is attached as a bearer authorization; without one the request has
/// no authorization. `body` becomes the payload where the method carries one,
/// and is dropped where it does not.
pub fn request<B>(store: &TokenStore, method: Method, url: String, body: B) -> (built: Request<B>)
    ensures
        built@ == planned(store@, method, url@, body, Encoding::Json),
{
    build(store, method, url, body, Encoding::Json)
}

/// Builds a request whose payload is a form of several parts. But for the
/// encoding it is the request that [`request`] builds.
pub fn request_multipart<B>(store: &TokenStore, method: Method, url: String, body: B) -> (built:
    Request<B>)
    ensures
        built@ == planned(store@, method, url@, body, Encoding::Multipart),
{
    build(store, method, url, body, Encoding::Multipart)
}

/// Delete request
pub fn request_delete<B>(store: &TokenStore, url: String, body: B) -> (built: Request<B>)
    ensures
        built@ == planned(store@, Method::Delete, url@, body, Encoding::Json),
{
    request(store, Method::Delete, url, body)
}

/// Get request
pub fn request_get(store: &TokenStore, url: String) -> (built: Request<()>)
    ensures
        built@ == planned(store@, Method::Get, url@, (), Encoding::Json),
        built.payload is None,
{
    request(store, Method::Get, url, ())
}

/// Post request with a body
pub fn request_post<B>(store: &TokenStore, url: String, body: B) -> (built: Request<B>)
    ensures
        built@ == planned(store@, Method::Post, url@, body, Encoding::Json),
{
    request(store, Method::Post, url, body)
}

/// Post request with a form as its body
pub fn request_post_multipart<B>(store: &TokenStore, url: String, body: B) -> (built: Request<B>)
    ensures
        built@ == planned(store@, Method::Post, url@, body, Encoding::Multipart),
{
    request_multipart(store, Method::Post, url, body)
}

/// Put request with a body
pub fn request_put<B>(store: &TokenStore, url: String, body: B) -> (built: Request<B>)
    ensures
        built@ == planned(store@, Method::Put, url@, body, Encoding::Json),
{
    request(store, Method::Put, url, body)
}

/// Patch request with a body
pub fn request_patch<B>(store: &TokenStore, url: String, body: B) -> (built: Request<B>)
    ensures
        built@ == planned(store@, Method::Patch, url@, body, Encoding::Json),
{
    request(store, Method::Patch, url, body)
}

/// A request that is made while a credential is cached carries the bearer
/// authorization of exactly that credential, and one that is made without a
/// credential carries no authorization. The header names the credential
/// without loss: what follows the seven characters of its prefix is the
/// credential itself.
pub proof fn lemma_credential_attached<B>(
    token: Option<Seq<char>>,
    method: Method,
    path: Seq<char>,
    body: B,
    encoding: Encoding,
)
    ensures
        token is None ==> planned(token, method, path, body, encoding).authorization is None,
        token matches Some(text) ==> {
            &&& planned(token, method, path, body, encoding).authorization == Some(bearer(text))
            &&& bearer(text).len() == 7 + text.len()
            &&& bearer(text).subrange(7, bearer(text).len() as int) == text
        },
{
    reveal_strlit("Bearer ");
    if let Some(text) = token {
        assert(bearer(text).subrange(7, bearer(text).len() as int) =~= text);
    }
}

/// A `Get` request has no payload even where a body was supplied; a request
/// of any other method has the supplied body as its payload, unchanged.
pub proof fn lemma_body_bearing_rule<B>(
    token: Option<Seq<char>>,
    method: Method,
    path: Seq<char>,
    body: B,
    encoding: Encoding,
)
    ensures
        method == Method::Get ==> planned(token, method, path, body, encoding).payload is None,
        method != Method::Get ==> planned(token, method, path, body, encoding).payload == Some(
            body,
        ),
{
}

/// The two encodings differ in nothing but the encoding: for the same
/// credential, method and path both requests have the same address and the
/// same authorization, and either both carry their body or neither does.
pub proof fn lemma_encodings_agree<B, F>(
    token: Option<Seq<char>>,
    method: Method,
    path: Seq<char>,
    body: B,
    form: F,
)
    ensures
        ({
            let plain = planned(token, method, path, body, Encoding::Json);
            let parts = planned(token, method, path, form, Encoding::Multipart);
            &&& plain.method == parts.method
            &&& plain.url == parts.url
            &&& plain.authorization == parts.authorization
            &&& plain.payload is Some <==> parts.payload is Some
            &&& plain.payload is Some ==> plain.payload == Some(body) && parts.payload == Some(form)
        }),
{
}

} // verus!
