//! The request normalizer: every verb's handler builds the same canonical
//! request from the same inputs.
use vstd::prelude::*;
use crate::query::{pairs_view, AllHeaders, QueryString};

verus! {

/// The HTTP verbs that the gateway serves.
#[derive(PartialEq, Eq, Structural, Clone, Copy, Debug)]
pub enum Verb {
    Get,
    Post,
    Put,
    Patch,
    Delete,
}

/// Whether a request of this verb hands its body on: GET never does.
pub open spec fn carries_body(m: Verb) -> bool {
    !(m is Get)
}

/// The framework-independent form of a request, as the backend takes it.
pub struct CanonicalRequest {
    pub method: Verb,
    pub resource: String,
    pub path: String,
    pub query: Vec<(String, String)>,
    pub body: Option<String>,
    pub headers: Vec<(String, String)>,
    pub cookies: Vec<(String, String)>,
}

pub struct CanonicalRequestView {
    pub method: Verb,
    pub resource: Seq<char>,
    pub path: Seq<char>,
    pub query: Seq<(Seq<char>, Seq<char>)>,
    pub body: Option<Seq<char>>,
    pub headers: Seq<(Seq<char>, Seq<char>)>,
    pub cookies: Seq<(Seq<char>, Seq<char>)>,
}

impl View for CanonicalRequest {
    type V = CanonicalRequestView;

    open spec fn view(&self) -> CanonicalRequestView {
        CanonicalRequestView {
            method: self.method,
            resource: self.resource@,
            path: self.path@,
            query: pairs_view(self.query@),
            body: body_view(self.body),
            headers: pairs_view(self.headers@),
            cookies: pairs_view(self.cookies@),
        }
    }
}

pub open spec fn body_view(b: Option<String>) -> Option<Seq<char>> {
    match b {
        Some(s) => Some(s@),
        None => None,
    }
}

/// The canonical request for the given inputs: everything is transcribed as it
/// is, but the body, which only a body-carrying verb keeps.
pub open spec fn canonical(
    method: Verb,
    resource: Seq<char>,
    path: Seq<char>,
    query: Seq<(Seq<char>, Seq<char>)>,
    body: Option<Seq<char>>,
    headers: Seq<(Seq<char>, Seq<char>)>,
    cookies: Seq<(Seq<char>, Seq<char>)>,
) -> CanonicalRequestView {
    CanonicalRequestView {
        method,
        resource,
        path,
        query,
        body: if carries_body(method) { body } else { None },
        headers,
        cookies,
    }
}

/// The same request under another verb.
pub open spec fn with_method(r: CanonicalRequestView, m: Verb) -> CanonicalRequestView {
    CanonicalRequestView { method: m, ..r }
}

/// The text served at the root path.
pub fn index() -> (r: &'static str)
    ensures
        r@ == "Hello, world!"@,
{
    "Hello, world!"
}

/// Builds the canonical request; nothing is validated or reordered.
pub fn normalize(
    method: Verb,
    resource: &String,
    path: &str,
    parameters: QueryString,
    body: Option<String>,
    cookies: Vec<(String, String)>,
    headers: AllHeaders,
) -> (r: CanonicalRequest)
    ensures
        r@ == canonical(
            method,
            resource@,
            path@,
            parameters@,
            body_view(body),
            headers@,
            pairs_view(cookies@),
        ),
{
    let kept = match method {
        Verb::Get => None,
        _ => body,
    };
    CanonicalRequest {
        method,
        resource: resource.clone(),
        path: path.to_owned(),
        query: parameters.into_pairs(),
        body: kept,
        headers: headers.into_pairs(),
        cookies,
    }
}

/// The handler of GET: the request carries no body.
pub fn get(
    resource: &String,
    path: &str,
    parameters: QueryString,
    cookies: Vec<(String, String)>,
    headers: AllHeaders,
) -> (r: CanonicalRequest)
    ensures
        r@ == canonical(Verb::Get, resource@, path@, parameters@, None, headers@, pairs_view(cookies@)),
{
    normalize(Verb::Get, resource, path, parameters, None, cookies, headers)
}

/// The handler of POST.
pub fn post(
    resource: &String,
    path: &str,
    parameters: QueryString,
    body: String,
    cookies: Vec<(String, String)>,
    headers: AllHeaders,
) -> (r: CanonicalRequest)
    ensures
        r@ == canonical(
            Verb::Post,
            resource@,
            path@,
            parameters@,
            Some(body@),
            headers@,
            pairs_view(cookies@),
        ),
{
    normalize(Verb::Post, resource, path, parameters, Some(body), cookies, headers)
}

/// The handler of DELETE.
pub fn delete(
    resource: &String,
    path: &str,
    parameters: QueryString,
    body: String,
    cookies: Vec<(String, String)>,
    headers: AllHeaders,
) -> (r: CanonicalRequest)
    ensures
        r@ == canonical(
            Verb::Delete,
            resource@,
            path@,
            parameters@,
            Some(body@),
            headers@,
            pairs_view(cookies@),
        ),
{
    normalize(Verb::Delete, resource, path, parameters, Some(body), cookies, headers)
}

/// The handler of PATCH.
pub fn patch(
    resource: &String,
    path: &str,
    parameters: QueryString,
    body: String,
    cookies: Vec<(String, String)>,
    headers: AllHeaders,
) -> (r: CanonicalRequest)
    ensures
        r@ == canonical(
            Verb::Patch,
            resource@,
            path@,
            parameters@,
            Some(body@),
            headers@,
            pairs_view(cookies@),
        ),
{
    normalize(Verb::Patch, resource, path, parameters, Some(body), cookies, headers)
}

/// The handler of PUT.
pub fn put(
    resource: &String,
    path: &str,
    parameters: QueryString,
    body: String,
    cookies: Vec<(String, String)>,
    headers: AllHeaders,
) -> (r: CanonicalRequest)
    ensures
        r@ == canonical(
            Verb::Put,
            resource@,
            path@,
            parameters@,
            Some(body@),
            headers@,
            pairs_view(cookies@),
        ),
{
    normalize(Verb::Put, resource, path, parameters, Some(body), cookies, headers)
}

/// Verb invariance: from the same inputs, two body-carrying verbs give
/// requests that differ in the method alone, and GET gives the same request
/// with no body.
pub proof fn lemma_verb_invariance(
    m1: Verb,
    m2: Verb,
    resource: Seq<char>,
    path: Seq<char>,
    query: Seq<(Seq<char>, Seq<char>)>,
    body: Option<Seq<char>>,
    headers: Seq<(Seq<char>, Seq<char>)>,
    cookies: Seq<(Seq<char>, Seq<char>)>,
)
    ensures
        carries_body(m1) && carries_body(m2) ==> canonical(m1, resource, path, query, body, headers, cookies)
            == with_method(canonical(m2, resource, path, query, body, headers, cookies), m1),
        canonical(Verb::Get, resource, path, query, body, headers, cookies) == with_method(
            canonical(m2, resource, path, query, None, headers, cookies),
            Verb::Get,
        ),
{
}

} // verus!
