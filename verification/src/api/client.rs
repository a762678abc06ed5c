//! Addresses of the remote API, resource references and paginated listings.

use crate::text::{
    chars_of, decimal, last_segment, last_segment_start, parse_i64, parse_i64_spec, push_decimal,
    push_range, push_str, string_of, trim_end, trim_start, trimmed_end, trimmed_start,
};
use vstd::prelude::*;

verus! {

/// Where the remote API lives.
#[derive(Debug, Clone)]
pub struct PokeApiClient {
    pub base_url: String,
}

/// One page of a paginated listing.
#[derive(Debug, Clone)]
pub struct PaginatedList {
    pub count: i64,
    pub next: Option<String>,
    pub previous: Option<String>,
    pub results: Vec<NamedApiResource>,
}

/// A reference to a named resource of the API.
#[derive(Debug, Clone)]
pub struct NamedApiResource {
    pub name: String,
    pub url: String,
}

/// The address of `path` below `base`: one slash between them, whatever
/// slashes `path` begins with.
pub open spec fn url_spec(base: Seq<char>, path: Seq<char>) -> Seq<char> {
    base + seq!['/'] + trim_start(path, '/')
}

/// The numeric identifier that a resource address ends with: its last path
/// segment, trailing slashes aside, read as a decimal `i64`.
pub open spec fn id_from_url_spec(url: Seq<char>) -> Option<i64> {
    parse_i64_spec(last_segment(trim_end(url, '/'), '/'))
}

/// The query that asks for the first page of a listing.
pub open spec fn first_page_query() -> Seq<char> {
    "?limit=100&offset=0"@
}

impl PokeApiClient {
    /// A client for the public API.
    pub fn new() -> (client: Self)
        ensures
            client.base_url@ == "https://pokeapi.co/api/v2"@,
    {
        PokeApiClient { base_url: "https://pokeapi.co/api/v2".to_owned() }
    }

    /// The full address of a path relative to the base address.
    pub fn url(&self, path: &str) -> (full: String)
        ensures
            full@ == url_spec(self.base_url@, path@),
    {
        let mut out = chars_of(self.base_url.as_str());
        out.push('/');
        let rel = chars_of(path);
        let start = trimmed_start(&rel, '/');
        push_range(&mut out, &rel, start, rel.len());
        assert(rel@.subrange(start as int, rel@.len() as int) =~= rel@.skip(start as int));
        assert(out@ =~= url_spec(self.base_url@, path@));
        string_of(&out)
    }

    /// The address of the first page of the listing of `endpoint`.
    pub fn list_url(&self, endpoint: &str) -> (full: String)
        ensures
            full@ == url_spec(self.base_url@, endpoint@ + first_page_query()),
    {
        let mut path = chars_of(endpoint);
        push_str(&mut path, "?limit=100&offset=0");
        let path = string_of(&path);
        self.url(path.as_str())
    }

    /// The address of the record `id` of `endpoint`.
    pub fn detail_url(&self, endpoint: &str, id: i64) -> (full: String)
        ensures
            full@ == url_spec(self.base_url@, endpoint@ + seq!['/'] + decimal(id as int)),
    {
        let mut path = chars_of(endpoint);
        path.push('/');
        push_decimal(&mut path, id);
        assert(path@ =~= endpoint@ + seq!['/'] + decimal(id as int));
        let path = string_of(&path);
        self.url(path.as_str())
    }

    /// The numeric identifier at the end of a resource address, such as `25`
    /// in `https://pokeapi.co/api/v2/pokemon/25/`.
    pub fn id_from_url(url: &str) -> (id: Option<i64>)
        ensures
            id == id_from_url_spec(url@),
    {
        let chars = chars_of(url);
        let end = trimmed_end(&chars, '/');
        let start = last_segment_start(&chars, end, '/');
        parse_i64(&chars, start, end)
    }
}

impl Default for PokeApiClient {
    fn default() -> (client: Self)
        ensures
            client.base_url@ == "https://pokeapi.co/api/v2"@,
    {
        PokeApiClient::new()
    }
}

/// A listing that is put together page by page: the entries gathered so far
/// and the address of the page that is to be fetched next.
#[derive(Debug)]
pub struct ResourceListing {
    results: Vec<NamedApiResource>,
    next: Option<String>,
}

impl ResourceListing {
    /// The entries gathered so far, in the order of the pages.
    pub closed spec fn results(&self) -> Seq<NamedApiResource> {
        self.results@
    }

    /// The address of the page that is to be fetched next; none when the
    /// listing is complete.
    pub closed spec fn next(&self) -> Option<String> {
        self.next
    }

    /// The listing of `endpoint` before its first page has been fetched.
    pub fn begin(client: &PokeApiClient, endpoint: &str) -> (listing: Self)
        ensures
            listing.results() == Seq::<NamedApiResource>::empty(),
            listing.next() is Some,
            listing.next()->0@ == url_spec(client.base_url@, endpoint@ + first_page_query()),
    {
        ResourceListing { results: Vec::new(), next: Some(client.list_url(endpoint)) }
    }

    /// The address of the page that is to be fetched next; none when the
    /// listing is complete.
    pub fn next_url(&self) -> (url: Option<&String>)
        ensures
            url is Some <==> self.next() is Some,
            url is Some ==> *url->0 == self.next()->0,
    {
        self.next.as_ref()
    }

    /// Takes in a page: its entries follow those gathered so far, and the
    /// page says where the next one is.
    pub fn absorb(&mut self, page: PaginatedList)
        ensures
            final(self).results() == old(self).results() + page.results@,
            final(self).next() == page.next,
    {
        let mut page = page;
        self.results.append(&mut page.results);
        self.next = page.next;
    }

    /// The entries of the listing.
    pub fn finish(self) -> (results: Vec<NamedApiResource>)
        ensures
            results@ == self.results(),
    {
        self.results
    }
}

} // verus!
