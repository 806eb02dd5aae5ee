//! Building HTTP requests and judging their responses.
//!
//! A [`Reqwest`] describes one request as plain values: the method, the
//! parsed endpoint, the bearer tokens, the query pairs and the JSON body.
//! Sending it is left to the caller; [`Reqwest::data`] judges what came back.

pub use reqwest::Method;
use reqwest::Url;
use std::borrow::Cow;
use vstd::prelude::*;

verus! {

/// `reqwest::Method`, carried through and never looked into.
#[verifier::external_type_specification]
#[verifier::external_body]
pub struct ExMethod(reqwest::Method);

/// What `reqwest::Url::parse` makes of an endpoint: the serialization of the
/// URL it returns, or `None` where it refuses the text.
pub uninterp spec fn parsed_endpoint(endpoint: Seq<char>) -> Option<Seq<char>>;

/// Calls `reqwest::Url::parse` and hands back the serialization of the URL,
/// or `None` where the endpoint is refused.
#[verifier::external_body]
fn parse_endpoint(endpoint: &str) -> (url: Option<String>)
    ensures
        match url {
            Some(text) => parsed_endpoint(endpoint@) == Some(text@),
            None => parsed_endpoint(endpoint@) is None,
        },
{
    match Url::parse(endpoint) {
        Ok(url) => Some(url.into()),
        Err(_) => None,
    }
}

/// A status code of an HTTP response.
pub type StatusCode = u16;

/// The endpoint is no absolute URL.
#[derive(Debug, Clone, Copy, PartialEq, Eq)]
pub struct InvalidEndpoint;

/// Key and value pairs of a query string, in order.
#[derive(Debug, Clone, PartialEq, Eq, PartialOrd, Ord)]
pub struct QueryParams<'a> {
    pub params: Vec<(Cow<'a, str>, Cow<'a, str>)>,
}

impl<'a> View for QueryParams<'a> {
    type V = Seq<(Seq<char>, Seq<char>)>;

    open spec fn view(&self) -> Seq<(Seq<char>, Seq<char>)> {
        self.params.deep_view()
    }
}

impl<'a> Default for QueryParams<'a> {
    fn default() -> (r: Self)
        ensures
            r@ == Seq::<(Seq<char>, Seq<char>)>::empty(),
    {
        let r = QueryParams { params: Vec::new() };
        assert(r@ =~= Seq::empty());
        r
    }
}

/// Something that can be asked for over HTTP.
///
/// Only the endpoint has to be given. An implementor that gives params or a
/// body of its own says so in [`Query::has_params`] or [`Query::has_body`].
pub trait Query {
    /// Making HTTP request to this endpoint.
    fn endpoint(&self) -> Cow<'static, str>;

    /// Optional. Key and value pairs; none unless an implementor says so.
    fn params(&self) -> (params: QueryParams<'_>)
        ensures
            !self.has_params() ==> params@ == Seq::<(Seq<char>, Seq<char>)>::empty(),
    {
        QueryParams::default()
    }

    /// Optional. Generally JSON text; none unless an implementor says so.
    fn body(&self) -> (body: Result<Option<&'static str>, &'static str>)
        ensures
            !self.has_body() ==> body == Ok::<Option<&'static str>, &'static str>(None),
    {
        Ok(None)
    }

    /// Whether the implementor gives params of its own: `false` unless it says
    /// otherwise. Where it is `false`, `params` hands out none.
    open spec fn has_params(&self) -> bool {
        false
    }

    /// Whether the implementor gives a body of its own: `false` unless it says
    /// otherwise. Where it is `false`, `body` is `Ok(None)`.
    open spec fn has_body(&self) -> bool {
        false
    }
}

/// A way of carrying a request out.
pub trait Strategy {
    /// Type of data being returned.
    type Type;

    /// HTTP method.
    fn method(&self) -> Method;

    /// Execute the `Strategy`.
    fn execute(&self) -> Self::Type;
}

/// What came back for a request: the status code and the bytes of the body.
#[derive(Debug, Clone, PartialEq, Eq)]
pub struct Response {
    pub status: StatusCode,
    pub body: Vec<u8>,
}

impl Response {
    /// Whether the status is within 200-299.
    pub open spec fn spec_is_success(&self) -> bool {
        200 <= self.status < 300
    }

    /// Whether the status is within 200-299.
    #[verifier::when_used_as_spec(spec_is_success)]
    pub fn is_success(&self) -> (r: bool)
        ensures
            r == self.spec_is_success(),
    {
        200 <= self.status && self.status < 300
    }
}

/// What a request holds, as plain values.
pub ghost struct Request {
    pub method: Method,
    pub url: Seq<char>,
    pub tokens: Seq<Seq<char>>,
    pub query: Seq<(Seq<char>, Seq<char>)>,
    pub body: Option<Seq<char>>,
}

impl Request {
    /// A request for `method` to `url` with nothing added.
    pub open spec fn fresh(method: Method, url: Seq<char>) -> Request {
        Request { method, url, tokens: Seq::empty(), query: Seq::empty(), body: None }
    }

    /// This request with one more bearer token, after those it has.
    pub open spec fn with_auth(self, token: Seq<char>) -> Request {
        Request { tokens: self.tokens.push(token), ..self }
    }

    /// This request with `pairs` after the query pairs it has.
    pub open spec fn with_query(self, pairs: Seq<(Seq<char>, Seq<char>)>) -> Request {
        Request { query: self.query + pairs, ..self }
    }

    /// This request with `json` as its body, in place of any it had.
    pub open spec fn with_body(self, json: Seq<char>) -> Request {
        Request { body: Some(json), ..self }
    }
}

/// A request in the making: an owned value that the `add_` calls fill in.
#[derive(Debug)]
pub struct Reqwest {
    method: Method,
    url: String,
    tokens: Vec<String>,
    query: Vec<(String, String)>,
    body: Option<String>,
}

impl View for Reqwest {
    type V = Request;

    closed spec fn view(&self) -> Request {
        Request {
            method: self.method,
            url: self.url@,
            tokens: self.tokens.deep_view(),
            query: self.query.deep_view(),
            body: match self.body {
                Some(json) => Some(json@),
                None => None,
            },
        }
    }
}

/// An owned copy of `text`.
fn owned(text: &Cow<'_, str>) -> (r: String)
    ensures
        r@ == text@,
{
    match text {
        Cow::Borrowed(b) => (*b).to_owned(),
        Cow::Owned(o) => o.clone(),
    }
}

impl Reqwest {
    /// A request for `method` to the endpoint that `url` is the parsed form
    /// of, with nothing added yet; none where the endpoint did not parse.
    pub fn from_parsed(method: Method, url: Option<String>) -> (r: Result<Self, InvalidEndpoint>)
        ensures
            match r {
                Ok(req) => url matches Some(text) && req@ == Request::fresh(method, text@),
                Err(_) => url is None,
            },
    {
        match url {
            Some(url) => {
                let req = Reqwest { method, url, tokens: Vec::new(), query: Vec::new(), body: None };
                assert(req.tokens.deep_view() =~= Seq::empty());
                assert(req.query.deep_view() =~= Seq::empty());
                Ok(req)
            },
            None => Err(InvalidEndpoint),
        }
    }

    /// Parses `endpoint` and starts a request for `method` to it.
    pub fn new(method: Method, endpoint: &str) -> (r: Result<Self, InvalidEndpoint>)
        ensures
            match r {
                Ok(req) => parsed_endpoint(endpoint@) matches Some(url) && req@ == Request::fresh(
                    method,
                    url,
                ),
                Err(_) => parsed_endpoint(endpoint@) is None,
            },
    {
        Reqwest::from_parsed(method, parse_endpoint(endpoint))
    }

    /// Starts over: on success `self` is a fresh request for `method` to
    /// `endpoint`; where the endpoint does not parse, `self` stays as it was.
    pub fn init(&mut self, method: Method, endpoint: &str) -> (r: Result<&mut Self, InvalidEndpoint>)
        ensures
            match r {
                Ok(req) => parsed_endpoint(endpoint@) matches Some(url) && req@ == Request::fresh(
                    method,
                    url,
                ) && *final(self) == *final(req),
                Err(_) => parsed_endpoint(endpoint@) is None && *final(self) == *old(self),
            },
    {
        match Reqwest::new(method, endpoint) {
            Ok(req) => {
                *self = req;
                Ok(self)
            },
            Err(e) => Err(e),
        }
    }

    /// Add an auth header + bearer `auth_token` to this request. Each call
    /// adds one more; none replaces another.
    pub fn add_auth(&mut self, auth_token: &str) -> (r: &mut Self)
        ensures
            r@ == old(self)@.with_auth(auth_token@),
            *final(self) == *final(r),
    {
        self.tokens.push(auth_token.to_owned());
        assert(self.tokens.deep_view() =~= old(self).tokens.deep_view().push(auth_token@));
        self
    }

    /// Add a query, e.g. `?id=123&foo=abc`, as the pairs `("id", "123")` and
    /// `("foo", "abc")`. The pairs go after those added before.
    pub fn add_query(&mut self, query: &QueryParams<'_>) -> (r: &mut Self)
        ensures
            r@ == old(self)@.with_query(query@),
            *final(self) == *final(r),
    {
        let n: usize = query.params.len();
        let mut i: usize = 0;
        while i < n
            invariant
                i <= n,
                n == query.params.len(),
                self.method == old(self).method,
                self.url == old(self).url,
                self.tokens == old(self).tokens,
                self.body == old(self).body,
                self.query.deep_view() == old(self).query.deep_view() + query@.take(i as int),
            decreases n - i,
        {
            let ghost before = self.query.deep_view();
            let pair = &query.params[i];
            let key = owned(&pair.0);
            let value = owned(&pair.1);
            self.query.push((key, value));
            proof {
                assert(query@[i as int] == (key@, value@));
                assert(self.query.deep_view() =~= before.push((key@, value@)));
                assert(query@.take(i + 1) =~= query@.take(i as int).push(query@[i as int]));
            }
            i = i + 1;
        }
        assert(query@.take(n as int) =~= query@);
        self
    }

    /// Add JSON body to this request, in place of any added before.
    pub fn add_body(&mut self, json: String) -> (r: &mut Self)
        ensures
            r@ == old(self)@.with_body(json@),
            *final(self) == *final(r),
    {
        self.body = Some(json);
        self
    }

    /// The body of a response whose status is within 200-299, else nothing
    /// but its status code.
    pub fn data(response: Response) -> (r: Result<Vec<u8>, StatusCode>)
        ensures
            r == if response.is_success() {
                Ok::<Vec<u8>, StatusCode>(response.body)
            } else {
                Err::<Vec<u8>, StatusCode>(response.status)
            },
    {
        if response.is_success() {
            Ok(response.body)
        } else {
            Err(response.status)
        }
    }

    /// The HTTP method.
    pub fn method(&self) -> (r: &Method)
        ensures
            *r == self@.method,
    {
        &self.method
    }

    /// The endpoint, as it was parsed.
    pub fn url(&self) -> (r: &str)
        ensures
            r@ == self@.url,
    {
        self.url.as_str()
    }

    /// The bearer tokens, in the order they were added.
    pub fn tokens(&self) -> (r: &Vec<String>)
        ensures
            r.deep_view() == self@.tokens,
    {
        &self.tokens
    }

    /// The query pairs, in the order they were added.
    pub fn query(&self) -> (r: &Vec<(String, String)>)
        ensures
            r.deep_view() == self@.query,
    {
        &self.query
    }

    /// The JSON body, if one was added.
    pub fn body(&self) -> (r: Option<&str>)
        ensures
            r.is_some() == self@.body.is_some(),
            r matches Some(json) ==> self@.body == Some(json@),
    {
        match &self.body {
            Some(json) => Some(json.as_str()),
            None => None,
        }
    }
}

/// A body added later replaces the one added before.
pub proof fn lemma_body_replaces(request: Request, first: Seq<char>, second: Seq<char>)
    ensures
        request.with_body(first).with_body(second) == request.with_body(second),
{
}

/// Adding query pairs in two steps is adding all of them in one, and adding
/// none changes nothing.
pub proof fn lemma_query_appends(
    request: Request,
    first: Seq<(Seq<char>, Seq<char>)>,
    second: Seq<(Seq<char>, Seq<char>)>,
)
    ensures
        request.with_query(first).with_query(second) == request.with_query(first + second),
        request.with_query(Seq::empty()) == request,
{
    assert((request.query + first) + second =~= request.query + (first + second));
    assert(request.query + Seq::<(Seq<char>, Seq<char>)>::empty() =~= request.query);
}

/// Additions of different kinds do not disturb one another: a token, query
/// pairs and a body may be added in any order.
pub proof fn lemma_additions_commute(
    request: Request,
    token: Seq<char>,
    pairs: Seq<(Seq<char>, Seq<char>)>,
    json: Seq<char>,
)
    ensures
        request.with_auth(token).with_query(pairs) == request.with_query(pairs).with_auth(token),
        request.with_auth(token).with_body(json) == request.with_body(json).with_auth(token),
        request.with_query(pairs).with_body(json) == request.with_body(json).with_query(pairs),
{
}

} // verus!
