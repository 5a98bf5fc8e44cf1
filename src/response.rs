//! The response assembler and the error translator: backend outcomes and
//! failures become HTTP responses.
use vstd::prelude::*;
use crate::query::pairs_view;

verus! {

/// What kind of body the backend produced.
#[derive(PartialEq, Eq, Structural, Clone, Copy, Debug)]
pub enum ContentType {
    /// Exactly one JSON object, not wrapped in an array.
    SingularJson,
    ApplicationJson,
    TextCsv,
}

/// The media type sent for each kind of body.
pub open spec fn media_type_of(ct: ContentType) -> Seq<char> {
    match ct {
        ContentType::SingularJson => "application/vnd.pgrst.object+json"@,
        ContentType::ApplicationJson => "application/json"@,
        ContentType::TextCsv => "text/csv; charset=utf-8"@,
    }
}

pub open spec fn content_type_header() -> Seq<char> {
    "Content-Type"@
}

/// The codes that an HTTP status can have.
pub open spec fn is_valid_status(code: u16) -> bool {
    100 <= code <= 599
}

/// The status of a response whose body tells of an invalid status code.
pub open spec fn invalid_status_code() -> u16 {
    500
}

pub open spec fn invalid_status_body() -> Seq<char> {
    "{\"message\":\"response status code out of range\"}"@
}

/// The media type of a kind of body.
pub fn media_type(ct: ContentType) -> (r: String)
    ensures
        r@ == media_type_of(ct),
{
    match ct {
        ContentType::SingularJson => String::from_str("application/vnd.pgrst.object+json"),
        ContentType::ApplicationJson => String::from_str("application/json"),
        ContentType::TextCsv => String::from_str("text/csv; charset=utf-8"),
    }
}

/// An HTTP status; its code lies in the valid range.
#[derive(PartialEq, Eq, Structural, Clone, Copy, Debug)]
pub struct Status {
    code: u16,
}

impl View for Status {
    type V = u16;

    closed spec fn view(&self) -> u16 {
        self.code
    }
}

impl Status {
    /// The status of a code, where the code is a valid one.
    pub fn from_code(code: u16) -> (r: Option<Status>)
        ensures
            r is Some <==> is_valid_status(code),
            r matches Some(s) ==> s@ == code,
    {
        if 100 <= code && code <= 599 {
            Some(Status { code })
        } else {
            None
        }
    }

    pub fn code(&self) -> (r: u16)
        ensures
            r == self@,
    {
        self.code
    }
}

/// A successful result of the backend.
pub struct Outcome {
    pub status: u16,
    pub content_type: ContentType,
    pub body: String,
    pub headers: Vec<(String, String)>,
}

/// A failed result, of the backend or of the gateway; `body` is a JSON object.
pub struct Failure {
    pub status: u16,
    pub body: String,
    pub headers: Vec<(String, String)>,
}

/// What the gateway itself finds wrong while it translates a result.
#[derive(PartialEq, Eq, Structural, Clone, Copy, Debug)]
pub enum GatewayError {
    /// A status code outside the range of HTTP status codes.
    InvalidStatus { code: u16 },
}

impl GatewayError {
    /// The failure under which this error reaches the client.
    pub fn into_failure(self) -> (r: Failure)
        ensures
            r.status == invalid_status_code(),
            r.body@ == invalid_status_body(),
            r.headers@.len() == 0,
    {
        Failure {
            status: 500,
            body: String::from_str("{\"message\":\"response status code out of range\"}"),
            headers: Vec::new(),
        }
    }
}

/// A response as it is sent: status, headers in order, body.
pub struct HttpResponse {
    pub status: u16,
    pub headers: Vec<(String, String)>,
    pub body: String,
}

pub struct HttpResponseView {
    pub status: u16,
    pub headers: Seq<(Seq<char>, Seq<char>)>,
    pub body: Seq<char>,
}

impl View for HttpResponse {
    type V = HttpResponseView;

    open spec fn view(&self) -> HttpResponseView {
        HttpResponseView { status: self.status, headers: pairs_view(self.headers@), body: self.body@ }
    }
}

/// A successful response before it is sent: status, media type and body, and
/// the extra headers of the backend.
pub struct ApiResponse {
    pub status: Status,
    pub content_type: String,
    pub body: String,
    pub headers: Vec<(String, String)>,
}

/// The response sent for an outcome whose status code is valid: the extra
/// headers follow the content type, in their order.
pub open spec fn assembled(o: Outcome) -> HttpResponseView {
    HttpResponseView {
        status: o.status,
        headers: seq![(content_type_header(), media_type_of(o.content_type))] + pairs_view(
            o.headers@,
        ),
        body: o.body@,
    }
}

/// The response sent for a failure whose status code is valid.
pub open spec fn translated(f: Failure) -> HttpResponseView {
    HttpResponseView { status: f.status, headers: pairs_view(f.headers@), body: f.body@ }
}

/// The response sent in place of one with an invalid status code.
pub open spec fn invalid_status_response() -> HttpResponseView {
    HttpResponseView {
        status: invalid_status_code(),
        headers: Seq::empty(),
        body: invalid_status_body(),
    }
}

/// The response sent for a result of the backend.
pub open spec fn response_of(r: Result<Outcome, Failure>) -> HttpResponseView {
    match r {
        Ok(o) => if is_valid_status(o.status) {
            assembled(o)
        } else {
            invalid_status_response()
        },
        Err(f) => if is_valid_status(f.status) {
            translated(f)
        } else {
            invalid_status_response()
        },
    }
}

/// Maps an outcome to a response: its status, the media type of its kind of
/// body, the body untouched and its headers in order.
pub fn assemble(outcome: Outcome) -> (r: Result<ApiResponse, GatewayError>)
    ensures
        r is Ok <==> is_valid_status(outcome.status),
        r matches Ok(a) ==> {
            &&& a.status@ == outcome.status
            &&& a.content_type@ == media_type_of(outcome.content_type)
            &&& a.body@ == outcome.body@
            &&& pairs_view(a.headers@) == pairs_view(outcome.headers@)
        },
        r matches Err(e) ==> e == (GatewayError::InvalidStatus { code: outcome.status }),
{
    let content_type = media_type(outcome.content_type);
    match Status::from_code(outcome.status) {
        Some(status) => Ok(
            ApiResponse { status, content_type, body: outcome.body, headers: outcome.headers },
        ),
        None => Err(GatewayError::InvalidStatus { code: outcome.status }),
    }
}

impl ApiResponse {
    /// The response as sent: the content type first, then every extra header,
    /// added beside it and never in its place.
    pub fn respond_to(self) -> (r: HttpResponse)
        ensures
            r@.status == self.status@,
            r@.headers == seq![(content_type_header(), self.content_type@)] + pairs_view(
                self.headers@,
            ),
            r@.body == self.body@,
    {
        let mut headers: Vec<(String, String)> = Vec::new();
        headers.push((String::from_str("Content-Type"), self.content_type));
        let mut extra = self.headers;
        headers.append(&mut extra);
        proof {
            assert(pairs_view(headers@) =~= seq![(content_type_header(), self.content_type@)]
                + pairs_view(self.headers@));
        }
        HttpResponse { status: self.status.code(), headers, body: self.body }
    }
}

/// A failure on its way to the client.
pub struct RocketError(pub Failure);

impl RocketError {
    /// The error response: the failure's status, its JSON body as text and its
    /// headers as they are; a status code outside the valid range is refused.
    pub fn respond_to(self) -> (r: Result<HttpResponse, GatewayError>)
        ensures
            r is Ok <==> is_valid_status(self.0.status),
            r matches Ok(resp) ==> resp@ == translated(self.0),
            r matches Err(e) ==> e == (GatewayError::InvalidStatus { code: self.0.status }),
    {
        let failure = self.0;
        match Status::from_code(failure.status) {
            Some(status) => Ok(
                HttpResponse { status: status.code(), headers: failure.headers, body: failure.body },
            ),
            None => Err(GatewayError::InvalidStatus { code: failure.status }),
        }
    }
}

/// The whole way from a result of the backend to the response sent: an
/// outcome is assembled, a failure translated, and an invalid status code
/// becomes a response of its own; no result is left without a response.
pub fn respond(result: Result<Outcome, Failure>) -> (r: HttpResponse)
    ensures
        r@ == response_of(result),
{
    let failure = match result {
        Ok(outcome) => {
            let ghost o = outcome;
            match assemble(outcome) {
                Ok(api) => {
                    let resp = api.respond_to();
                    assert(resp@.headers =~= assembled(o).headers);
                    return resp;
                },
                Err(e) => {
                    let replaced = e.into_failure();
                    assert(pairs_view(replaced.headers@) =~= Seq::empty());
                    replaced
                },
            }
        },
        Err(f) => f,
    };
    match RocketError(failure).respond_to() {
        Ok(resp) => resp,
        Err(e) => {
            let replaced = e.into_failure();
            let resp = HttpResponse {
                status: replaced.status,
                headers: replaced.headers,
                body: replaced.body,
            };
            assert(resp@.headers =~= invalid_status_response().headers);
            resp
        },
    }
}

/// An outcome of a single JSON object is sent with the vendor media type for
/// one object, and its body is sent as it came.
pub proof fn lemma_singular_object_round_trip(o: Outcome)
    requires
        o.content_type == ContentType::SingularJson,
        is_valid_status(o.status),
    ensures
        response_of(Ok(o)).headers[0] == (
        content_type_header(),
        "application/vnd.pgrst.object+json"@,
        ),
        response_of(Ok(o)).body == o.body@,
        response_of(Ok(o)).status == o.status,
{
}

} // verus!
