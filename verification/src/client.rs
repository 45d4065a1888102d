use vstd::prelude::*;
use vstd::string::*;

verus! {

/// The HTTP verbs the endpoints use.
#[derive(Clone, Copy, Debug, PartialEq, Eq, Structural)]
pub enum Method {
    Get,
    Post,
    Put,
    Delete,
}

/// One outbound call, built fresh each time: the verb, the absolute URL, the
/// headers, the query parameters in the order they were attached, and the
/// JSON body where there is one.
#[derive(Debug)]
pub struct Request {
    pub method: Method,
    pub url: String,
    pub headers: Vec<(String, String)>,
    pub query: Vec<(String, String)>,
    pub body: Option<String>,
}

pub struct RequestView {
    pub method: Method,
    pub url: Seq<char>,
    pub headers: Seq<(Seq<char>, Seq<char>)>,
    pub query: Seq<(Seq<char>, Seq<char>)>,
    pub body: Option<Seq<char>>,
}

/// Name and value of each pair, as texts.
pub open spec fn pairs(items: Seq<(String, String)>) -> Seq<(Seq<char>, Seq<char>)> {
    items.map_values(|p: (String, String)| (p.0@, p.1@))
}

pub open spec fn opt_text(s: Option<String>) -> Option<Seq<char>> {
    match s {
        Some(t) => Some(t@),
        None => None,
    }
}

impl View for Request {
    type V = RequestView;

    open spec fn view(&self) -> RequestView {
        RequestView {
            method: self.method,
            url: self.url@,
            headers: pairs(self.headers@),
            query: pairs(self.query@),
            body: opt_text(self.body),
        }
    }
}

/// Where every request goes.
pub open spec fn origin() -> Seq<char> {
    "https://marketplace.bestbuy.ca"@
}

/// The three headers that every request carries, once each: the token, the
/// no-cache directive, and JSON as the accepted answer.
pub open spec fn mandated_headers(token: Seq<char>) -> Seq<(Seq<char>, Seq<char>)> {
    seq![
        ("Authorization"@, token),
        ("Cache-Control"@, "no-cache"@),
        ("Accept"@, "application/json"@),
    ]
}

/// A request as the builder leaves it: nothing attached yet.
pub open spec fn bare_request(method: Method, token: Seq<char>, path: Seq<char>) -> RequestView {
    RequestView {
        method,
        url: origin() + path,
        headers: mandated_headers(token),
        query: Seq::empty(),
        body: None,
    }
}

/// One pair, as `query` and `header` append it.
pub open spec fn one_param(name: Seq<char>, value: Seq<char>) -> Seq<(Seq<char>, Seq<char>)> {
    seq![(name, value)]
}

impl Request {
    /// Attaches one query parameter after those already there.
    pub fn query(self, name: &str, value: String) -> (r: Request)
        ensures
            r@ == (RequestView { query: self@.query + one_param(name@, value@), ..self@ }),
    {
        let mut req = self;
        let ghost before = req.query@;
        req.query.push((String::from_str(name), value));
        proof {
            assert(pairs(req.query@) =~= pairs(before) + one_param(name@, value@));
        }
        req
    }

    /// Attaches one header after those already there.
    pub fn header(self, name: &str, value: String) -> (r: Request)
        ensures
            r@ == (RequestView { headers: self@.headers + one_param(name@, value@), ..self@ }),
    {
        let mut req = self;
        let ghost before = req.headers@;
        req.headers.push((String::from_str(name), value));
        proof {
            assert(pairs(req.headers@) =~= pairs(before) + one_param(name@, value@));
        }
        req
    }

    /// Sets the body to an already encoded JSON text.
    pub fn json(self, body: String) -> (r: Request)
        ensures
            r@ == (RequestView { body: Some(body@), ..self@ }),
    {
        let mut req = self;
        req.body = Some(body);
        req
    }
}

/// The client: the bearer token. It never changes after construction; the
/// transport that sends the requests lives with the caller.
pub struct BestbuyClient {
    token: String,
}

impl BestbuyClient {
    pub closed spec fn token(&self) -> Seq<char> {
        self.token@
    }

    pub fn new(token: &str) -> (c: BestbuyClient)
        ensures
            c.token() == token@,
    {
        BestbuyClient { token: String::from_str(token) }
    }

    /// Starts a request for `path`, which is put behind the fixed origin as
    /// it is. The three mandated headers are set; query and body are empty.
    pub fn request(&self, method: Method, path: &str) -> (r: Request)
        ensures
            r@ == bare_request(method, self.token(), path@),
    {
        let mut url = String::from_str("https://marketplace.bestbuy.ca");
        url.append(path);
        let mut headers: Vec<(String, String)> = Vec::new();
        headers.push((String::from_str("Authorization"), self.token.clone()));
        headers.push((String::from_str("Cache-Control"), String::from_str("no-cache")));
        headers.push((String::from_str("Accept"), String::from_str("application/json")));
        let query: Vec<(String, String)> = Vec::new();
        proof {
            assert(pairs(headers@) =~= mandated_headers(self.token@));
            assert(pairs(query@) =~= Seq::empty());
        }
        Request { method, url, headers, query, body: None }
    }
}

/// Whatever the verb, the path and the token, a request starts with exactly
/// the three mandated headers, each once: the token unchanged, and three
/// names of which no two are the same.
pub proof fn lemma_mandated_headers(method: Method, token: Seq<char>, path: Seq<char>)
    ensures
        bare_request(method, token, path).headers.len() == 3,
        bare_request(method, token, path).headers[0] == ("Authorization"@, token),
        bare_request(method, token, path).headers[1] == ("Cache-Control"@, "no-cache"@),
        bare_request(method, token, path).headers[2] == ("Accept"@, "application/json"@),
        "Authorization"@ != "Cache-Control"@,
        "Authorization"@ != "Accept"@,
        "Cache-Control"@ != "Accept"@,
{
    reveal_strlit("Authorization");
    reveal_strlit("Cache-Control");
    reveal_strlit("Accept");
    assert("Authorization"@.len() == 13);
    assert("Cache-Control"@.len() == 13);
    assert("Accept"@.len() == 6);
    assert("Authorization"@[0] == 'A');
    assert("Cache-Control"@[0] == 'C');
}

/// Attaching query parameters, further headers or a body leaves the three
/// mandated headers where they are.
pub proof fn lemma_attachments_keep_headers(
    before: RequestView,
    token: Seq<char>,
    name: Seq<char>,
    value: Seq<char>,
)
    requires
        before.headers.len() >= 3,
        before.headers.take(3) == mandated_headers(token),
    ensures
        (RequestView { query: before.query + one_param(name, value), ..before }).headers.take(3)
            == mandated_headers(token),
        (RequestView { body: Some(value), ..before }).headers.take(3) == mandated_headers(token),
        (RequestView { headers: before.headers + one_param(name, value), ..before }).headers.take(
            3,
        ) == mandated_headers(token),
{
    assert((before.headers + one_param(name, value)).take(3) =~= before.headers.take(3));
}

} // verus!
