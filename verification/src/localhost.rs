//! The localhost asset server's request logic: the server configuration
//! builder, the request and response values handed to the on-request hook,
//! and the path resolution from a request URL to asset path segments with
//! a guessed content type.
//!
//! Binding the socket, reading files and writing responses is the I/O
//! shell's work; it feeds each request URL through these functions.

use vstd::prelude::*;

use crate::text::string_from_chars;

verus! {

/// One incoming request, as the on-request hook sees it.
pub struct Request {
    url: String,
}

impl View for Request {
    type V = Seq<char>;

    closed spec fn view(&self) -> Seq<char> {
        self.url@
    }
}

impl Request {
    pub fn new(url: String) -> (r: Request)
        ensures
            r@ == url@,
    {
        Request { url }
    }

    /// The raw request URL.
    pub fn url(&self) -> (r: &str)
        ensures
            r@ == self@,
    {
        self.url.as_str()
    }
}

/// The map denoted by a header list; a header added again wins over the
/// earlier value.
pub open spec fn headers_map_of(headers: Seq<(String, String)>) -> Map<Seq<char>, Seq<char>>
    decreases headers.len(),
{
    if headers.len() == 0 {
        Map::empty()
    } else {
        headers_map_of(headers.drop_last()).insert(headers.last().0@, headers.last().1@)
    }
}

/// One response under construction: its headers.
pub struct Response {
    headers: Vec<(String, String)>,
}

impl View for Response {
    type V = Map<Seq<char>, Seq<char>>;

    closed spec fn view(&self) -> Map<Seq<char>, Seq<char>> {
        headers_map_of(self.headers@)
    }
}

impl Response {
    pub fn new() -> (r: Response)
        ensures
            r@ == Map::<Seq<char>, Seq<char>>::empty(),
    {
        Response { headers: Vec::new() }
    }

    /// Set a header, replacing any earlier value under the same name.
    pub fn add_header(&mut self, header: String, value: String)
        ensures
            final(self)@ == old(self)@.insert(header@, value@),
    {
        let ghost prev = self.headers@;
        self.headers.push((header, value));
        proof {
            assert(self.headers@.drop_last() =~= prev);
        }
    }

    /// The headers to put on the wire; reading them through
    /// [`headers_map_of`] gives exactly this response's header map.
    pub fn header_list(&self) -> (r: &Vec<(String, String)>)
        ensures
            headers_map_of(r@) == self@,
    {
        &self.headers
    }
}

/// Configuration of the localhost asset server.
pub struct Builder {
    port: u16,
    host: Option<String>,
}

impl Builder {
    pub closed spec fn spec_port(&self) -> u16 {
        self.port
    }

    pub closed spec fn spec_host(&self) -> Option<Seq<char>> {
        match self.host {
            Some(ref h) => Some(h@),
            None => None,
        }
    }

    pub fn new(port: u16) -> (r: Builder)
        ensures
            r.spec_port() == port,
            r.spec_host() is None,
    {
        Builder { port, host: None }
    }

    /// Change the host the server binds to; it defaults to localhost.
    pub fn host(self, host: String) -> (r: Builder)
        ensures
            r.spec_port() == self.spec_port(),
            r.spec_host() == Some(host@),
    {
        Builder { port: self.port, host: Some(host) }
    }

    /// The port to bind.
    pub fn port(&self) -> (r: u16)
        ensures
            r == self.spec_port(),
    {
        self.port
    }

    /// The host to bind: the configured one, or localhost.
    pub fn host_or_default(&self) -> (r: String)
        ensures
            match self.spec_host() {
                Some(h) => r@ == h,
                None => r@ == "localhost"@,
            },
    {
        match &self.host {
            Some(h) => h.clone(),
            None => "localhost".to_owned(),
        }
    }
}

/// What http::Uri makes of a request target: its path component, where the
/// target parses as a URI at all.
pub uninterp spec fn uri_path_of(url: Seq<char>) -> Option<Seq<char>>;

/// Relies on http::Uri (its FromStr impl and Uri::path): parses the
/// request target and extracts the path component, dropping query and
/// fragment; a target that is no valid URI yields nothing. The result is a
/// function of the string alone.
#[verifier::external_body]
fn parse_uri_path(url: &str) -> (r: Option<String>)
    ensures
        match r {
            Some(p) => uri_path_of(url@) == Some(p@),
            None => uri_path_of(url@) is None,
        },
{
    url.parse::<http::Uri>().ok().map(|uri| uri.path().to_string())
}

/// The path a request is served under: the URL's URI path, or the raw URL
/// where it does not parse as a URI.
pub open spec fn resolved_request_path(url: Seq<char>) -> Seq<char> {
    match uri_path_of(url) {
        Some(p) => p,
        None => url,
    }
}

pub fn resolve_request_path(url: &str) -> (r: String)
    ensures
        r@ == resolved_request_path(url@),
{
    match parse_uri_path(url) {
        Some(p) => p,
        None => url.to_owned(),
    }
}

/// Splitting a path on slashes, written as the scan that performs it: the
/// segment built so far is closed at every slash and at the end, so a path
/// of n slashes yields n + 1 segments, empty ones included.
pub open spec fn split_scan(
    remaining: Seq<char>,
    current: Seq<char>,
    done: Seq<Seq<char>>,
) -> Seq<Seq<char>>
    decreases remaining.len(),
{
    if remaining.len() == 0 {
        done.push(current)
    } else if remaining[0] == '/' {
        split_scan(remaining.skip(1), Seq::empty(), done.push(current))
    } else {
        split_scan(remaining.skip(1), current.push(remaining[0]), done)
    }
}

/// The slash-separated segments of a path.
pub open spec fn path_segments(path: Seq<char>) -> Seq<Seq<char>> {
    split_scan(path, Seq::empty(), Seq::empty())
}

/// Split a served path into the segments joined onto the asset root.
#[verifier::loop_isolation(false)]
pub fn asset_segments(path: &str) -> (segments: Vec<String>)
    ensures
        segments.deep_view() == path_segments(path@),
{
    let n = path.unicode_len();
    let mut done: Vec<String> = Vec::new();
    let mut current: Vec<char> = Vec::new();
    let mut i: usize = 0;
    proof {
        assert(path@.skip(0) =~= path@);
        assert(done.deep_view() =~= Seq::<Seq<char>>::empty());
    }
    while i < n
        invariant
            0 <= i <= n,
            split_scan(path@.skip(i as int), current@, done.deep_view()) == path_segments(path@),
        decreases n - i,
    {
        let c = path.get_char(i);
        proof {
            assert(path@.skip(i as int)[0] == c);
            assert(path@.skip(i as int).skip(1) =~= path@.skip(i + 1));
        }
        if c == '/' {
            let ghost prev = done.deep_view();
            let ghost cur_pre = current@;
            let segment = string_from_chars(&current);
            done.push(segment);
            current = Vec::new();
            proof {
                assert(done.deep_view() =~= prev.push(cur_pre));
            }
        } else {
            current.push(c);
        }
        i += 1;
    }
    proof {
        assert(path@.skip(n as int) =~= Seq::<char>::empty());
    }
    let ghost prev = done.deep_view();
    let last = string_from_chars(&current);
    done.push(last);
    proof {
        assert(done.deep_view() =~= prev.push(current@));
    }
    done
}

/// What mime_guess finds for a path: the essence (type and subtype) of the
/// media type its extension names.
pub uninterp spec fn mime_essence_of(path: Seq<char>) -> Seq<char>;

/// Relies on mime_guess::from_path and Mime::essence_str: the media type
/// guessed from the path's extension, falling back to the octet-stream
/// type where none is known; a function of the path alone, and never
/// empty, since every guess carries a type and a subtype.
#[verifier::external_body]
fn guess_mime_essence(path: &str) -> (r: String)
    ensures
        r@ == mime_essence_of(path@),
        r@.len() > 0,
{
    mime_guess::from_path(path).first_or_octet_stream().essence_str().to_string()
}

/// The response every asset starts from: a Content-Type header guessed
/// from the asset path, set before the on-request hook runs.
pub fn content_type_response(asset_path: &str) -> (r: Response)
    ensures
        r@ == Map::<Seq<char>, Seq<char>>::empty().insert(
            "Content-Type"@,
            mime_essence_of(asset_path@),
        ),
{
    let mut response = Response::new();
    response.add_header("Content-Type".to_owned(), guess_mime_essence(asset_path));
    response
}

} // verus!
