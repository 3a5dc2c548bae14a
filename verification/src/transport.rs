//! The boundary to the transport: a request as the client plans it, a
//! response as the transport hands it back, and the step from a response to
//! a resource in its envelope.
//!
//! The library performs no network call. Its caller sends the
//! [`ApiRequest`] and brings back the status, the header lines and the body
//! as an [`HttpResponse`]. Decoding then captures the headers of that very
//! response, reads the body, and attaches the captured headers to the
//! resource; a body that cannot be read gives a `DecodeError` and no
//! resource at all.

use crate::error::APIError;
use crate::json::{text_as_json, Json};
use crate::resource::Enveloped;
use crate::string_map::{
    lemma_pairs_map_domain, lemma_pairs_map_last_wins, pair_views, pairs_map, StringMap,
};
use crate::text::{ascii_lower, is_ascii_lower, lemma_ascii_lower_is_lower, to_ascii_lower};
use vstd::prelude::*;
use vstd::string::*;

verus! {

/// The verbs that the API uses.
#[derive(Debug, Clone, Copy, PartialEq, Eq, Structural)]
pub enum Method {
    /// Read a resource.
    Get,
    /// Create or change a resource.
    Post,
    /// Delete a resource.
    Delete,
}

/// A call of the API, ready to be sent.
#[derive(Debug, Clone)]
pub struct ApiRequest {
    /// The verb.
    pub method: Method,
    /// The full address: the endpoint of the client followed by the path
    /// of the operation.
    pub url: String,
    /// The JSON document to send, if the call has one.
    pub body: Option<Json>,
}

/// A response, as the transport received it.
#[derive(Debug, Clone)]
pub struct HttpResponse {
    /// The status code.
    pub status: u16,
    /// The header lines in the order of the response: name and value. A
    /// name may occur more than once and in any case.
    pub headers: Vec<(String, String)>,
    /// The body, as text.
    pub body: String,
}

/// The header lines with their names folded to lower case.
pub open spec fn folded(lines: Seq<(Seq<char>, Seq<char>)>) -> Seq<(Seq<char>, Seq<char>)> {
    Seq::new(lines.len(), |i: int| (ascii_lower(lines[i].0), lines[i].1))
}

/// The headers of a response as a map: from the lower-case name to the
/// value, where the last line with a name gives its value.
pub open spec fn header_map(lines: Seq<(Seq<char>, Seq<char>)>) -> Map<Seq<char>, Seq<char>> {
    pairs_map(folded(lines))
}

/// Statuses `200` to `299` are success.
pub open spec fn success(status: u16) -> bool {
    200 <= status <= 299
}

/// Every name in the header map is in lower case.
pub proof fn lemma_header_names_are_lower(lines: Seq<(Seq<char>, Seq<char>)>, name: Seq<char>)
    requires
        header_map(lines).contains_key(name),
    ensures
        is_ascii_lower(name),
{
    lemma_pairs_map_domain(folded(lines), name);
    let i = choose|i: int| 0 <= i < folded(lines).len() && (#[trigger] folded(lines)[i]).0 == name;
    lemma_ascii_lower_is_lower(lines[i].0);
}

/// A header line whose name no later line repeats, in whatever case, gives
/// that name its value.
pub proof fn lemma_last_header_wins(lines: Seq<(Seq<char>, Seq<char>)>, i: int)
    requires
        0 <= i < lines.len(),
        forall|j: int|
            i < j < lines.len() ==> ascii_lower((#[trigger] lines[j]).0) != ascii_lower(
                lines[i].0,
            ),
    ensures
        header_map(lines).contains_key(ascii_lower(lines[i].0)),
        header_map(lines)[ascii_lower(lines[i].0)] == lines[i].1,
{
    assert forall|j: int| i < j < folded(lines).len() implies (#[trigger] folded(lines)[j]).0
        != folded(lines)[i].0 by {
        assert(ascii_lower(lines[j].0) != ascii_lower(lines[i].0));
    }
    lemma_pairs_map_last_wins(folded(lines), i);
}

/// Captures the headers of a response: one entry for each name, folded to
/// lower case, with the value of the last line that carries the name.
pub fn capture_headers(lines: &Vec<(String, String)>) -> (r: StringMap)
    ensures
        r@ == header_map(pair_views(lines@)),
{
    let mut map = StringMap::new();
    let mut i: usize = 0;
    while i < lines.len()
        invariant
            i <= lines@.len(),
            map@ == pairs_map(folded(pair_views(lines@)).take(i as int)),
        decreases lines@.len() - i,
    {
        let name = to_ascii_lower(lines[i].0.as_str());
        let value = lines[i].1.clone();
        map.insert(name, value);
        proof {
            let all = folded(pair_views(lines@));
            assert(all.take(i + 1).drop_last() =~= all.take(i as int));
            assert(all.take(i + 1).last() == all[i as int]);
        }
        i += 1;
    }
    assert(folded(pair_views(lines@)).take(i as int) =~= folded(pair_views(lines@)));
    map
}

/// Reads a resource from the document of a response body and attaches the
/// headers of the response to it. Fails with `DecodeError` exactly when
/// the document describes no value of the resource type.
pub fn enveloped<T: Enveloped>(lines: &Vec<(String, String)>, document: &Json) -> (r: Result<
    T,
    APIError,
>)
    ensures
        match r {
            Ok(value) => value.decoded_from(document@) && value.envelope() == Some(
                header_map(pair_views(lines@)),
            ),
            Err(e) => e is DecodeError && forall|x: T| !x.decoded_from(document@),
        },
{
    let headers = capture_headers(lines);
    match T::from_json(document) {
        Ok(value) => Ok(value.with_headers(headers)),
        Err(e) => Err(e),
    }
}

/// What decoding makes of a response: on success a resource that is what
/// the body says, in an envelope with the headers of this response; for a
/// status outside `200..=299` an `HttpStatusError` with the status and the
/// body; for a body that is not JSON, or describes no value of the
/// resource type, a `DecodeError`.
pub open spec fn decodes_to<T: Enveloped>(response: HttpResponse, r: Result<T, APIError>) -> bool {
    match r {
        Ok(value) => success(response.status) && text_as_json(response.body@) is Some
            && value.decoded_from(text_as_json(response.body@)->Some_0) && value.envelope()
            == Some(header_map(pair_views(response.headers@))),
        Err(APIError::HttpStatusError { status, body }) => !success(response.status) && status
            == response.status && body@ == response.body@,
        Err(APIError::DecodeError(_)) => success(response.status) && (text_as_json(
            response.body@,
        ) matches Some(j) ==> forall|x: T| !x.decoded_from(j)),
        Err(_) => false,
    }
}

/// What a call comes to when the transport answered it with `answer`: the
/// error of the transport, unchanged, or what decoding makes of the
/// response.
pub open spec fn dispatched<T: Enveloped>(
    answer: Result<HttpResponse, APIError>,
    r: Result<T, APIError>,
) -> bool {
    match answer {
        Ok(response) => decodes_to(response, r),
        Err(e) => r == Err::<T, APIError>(e),
    }
}

/// Sends a call through the transport `send` and decodes the answer.
///
/// An error of the transport is returned as it is, without a retry; a
/// response is decoded as [`HttpResponse::decode`] says.
pub fn dispatch<T: Enveloped, F: Fn(ApiRequest) -> Result<HttpResponse, APIError>>(
    send: &F,
    call: ApiRequest,
) -> (r: Result<T, APIError>)
    requires
        call_requires(*send, (call,)),
    ensures
        exists|answer: Result<HttpResponse, APIError>|
            #![trigger call_ensures(*send, (call,), answer)]
            call_ensures(*send, (call,), answer) && dispatched(answer, r),
{
    match send(call) {
        Ok(response) => response.decode::<T>(),
        Err(e) => Err(e),
    }
}

impl HttpResponse {
    /// Whether the status is a success.
    pub fn is_success(&self) -> (r: bool)
        ensures
            r == success(self.status),
    {
        200 <= self.status && self.status <= 299
    }

    /// The document of the body.
    ///
    /// A status outside `200..=299` fails with `HttpStatusError`, which
    /// carries the status and the body as received. A body that is not
    /// JSON fails with `DecodeError`.
    pub fn json(&self) -> (r: Result<Json, APIError>)
        ensures
            match r {
                Ok(j) => success(self.status) && text_as_json(self.body@) == Some(j@),
                Err(APIError::HttpStatusError { status, body }) => !success(self.status) && status
                    == self.status && body@ == self.body@,
                Err(APIError::DecodeError(_)) => success(self.status) && text_as_json(self.body@)
                    is None,
                Err(_) => false,
            },
    {
        if !self.is_success() {
            return Err(APIError::HttpStatusError { status: self.status, body: self.body.clone() });
        }
        Json::parse(self.body.as_str())
    }

    /// The resource that the response carries, in its envelope.
    ///
    /// On success the resource is what the body says and its envelope
    /// holds the headers of this response. A status outside `200..=299`
    /// fails with `HttpStatusError`; a body that is not JSON, or that
    /// describes no value of the resource type, fails with `DecodeError`.
    pub fn decode<T: Enveloped>(&self) -> (r: Result<T, APIError>)
        ensures
            decodes_to(*self, r),
    {
        let document = self.json()?;
        enveloped::<T>(&self.headers, &document)
    }
}

} // verus!
