//! etcd's members API: the calls that manage cluster membership.
//!
//! Listing the members of a cluster is a `GET` on the members resource of one endpoint.
//! This module holds what that call computes: the URL of the resource, and what a
//! response means. Sending the request is left to the host.

use std::str::FromStr;
use vstd::prelude::*;
use crate::client::{ClusterInfo, Response};
use crate::error::{ApiError, EtcdError};

verus! {

/// hyper's parsed URI. Nothing is known of its contents.
#[verifier::external_type_specification]
#[verifier::external_body]
pub struct ExUri(hyper::Uri);

/// An etcd server that is a member of a cluster.
#[derive(Clone, Debug, PartialEq, Eq, Hash)]
pub struct Member {
    /// An internal identifier for the cluster member.
    pub id: String,
    /// A human-readable name for the cluster member.
    pub name: String,
    /// URLs exposing this cluster member's peer API.
    pub peer_urls: Vec<String>,
    /// URLs exposing this cluster member's client API.
    pub client_urls: Vec<String>,
}

/// The URL of the members resource under the endpoint `endpoint`, followed by `path`:
/// the endpoint, a `/` unless the endpoint ends in one, `v2/members`, and the path.
pub open spec fn members_url(endpoint: Seq<char>, path: Seq<char>) -> Seq<char> {
    let slash = if endpoint.len() > 0 && endpoint.last() == '/' {
        Seq::<char>::empty()
    } else {
        seq!['/']
    };
    endpoint + slash + "v2/members"@ + path
}

/// Constructs the full URL for an API call.
pub fn build_url(endpoint: &str, path: &str) -> (url: String)
    ensures
        url@ == members_url(endpoint@, path@),
{
    let length = endpoint.unicode_len();
    let ends_in_slash = length > 0 && endpoint.get_char(length - 1) == '/';
    let mut url = endpoint.to_owned();
    if !ends_in_slash {
        proof {
            reveal_strlit("/");
        }
        url.append("/");
    }
    url.append("v2/members");
    url.append(path);
    url
}

/// What hyper's `Uri::from_str` returns on `text`: the parsed URI, or its reason to
/// refuse the text.
pub uninterp spec fn uri_parsed(text: Seq<char>) -> Result<hyper::Uri, hyper::error::UriError>;

/// Parses `text` with hyper's `Uri::from_str`.
///
/// Trusted, not proved: the call returns what [`uri_parsed`] stands for. This claims that
/// hyper's result is decided by the text alone, and nothing of what that result is: which
/// texts are accepted, and as what, is hyper's to say.
#[verifier::external_body]
fn parse_uri(text: &str) -> (parsed: Result<hyper::Uri, hyper::error::UriError>)
    ensures
        parsed == uri_parsed(text@),
{
    hyper::Uri::from_str(text)
}

/// What the outcome of parsing a request URL means for the request: the URI to send it
/// to, or the parser's error as the reason the request cannot be made.
pub open spec fn request_target(parsed: Result<hyper::Uri, hyper::error::UriError>) -> Result<
    hyper::Uri,
    EtcdError,
> {
    match parsed {
        Ok(target) => Ok(target),
        Err(error) => Err(EtcdError::InvalidUri(error)),
    }
}

/// Turns the outcome of parsing a request URL into the outcome of preparing the request.
pub fn checked_uri(parsed: Result<hyper::Uri, hyper::error::UriError>) -> (uri: Result<
    hyper::Uri,
    EtcdError,
>)
    ensures
        uri == request_target(parsed),
{
    match parsed {
        Ok(target) => Ok(target),
        Err(error) => Err(EtcdError::from(error)),
    }
}

/// The URI to ask for the members of the cluster at `endpoint`: what hyper parses the URL
/// of the members resource under that endpoint into. Where hyper refuses the URL, the
/// request cannot be made, and hyper's error is returned as an invalid URI.
pub fn request_uri(endpoint: &str) -> (uri: Result<hyper::Uri, EtcdError>)
    ensures
        uri == request_target(uri_parsed(members_url(endpoint@, Seq::<char>::empty()))),
{
    proof {
        reveal_strlit("");
    }
    let url = build_url(endpoint, "");
    checked_uri(parse_uri(url.as_str()))
}

/// What the body of a response has to be read as.
#[derive(Clone, Copy, Debug, PartialEq, Eq, Structural)]
pub enum Expected {
    /// The list of the members of the cluster.
    Members,
    /// An error of the API.
    ApiError,
}

/// The HTTP status with which the cluster answers a successful listing.
pub const STATUS_OK: u16 = 200;

/// How to read the body of a response with the status `status`: only the status 200
/// carries the members, every other one an error of the API.
pub fn expected_body(status: u16) -> (expected: Expected)
    ensures
        expected == (if status == STATUS_OK {
            Expected::Members
        } else {
            Expected::ApiError
        }),
{
    if status == STATUS_OK {
        Expected::Members
    } else {
        Expected::ApiError
    }
}

/// The body of a response after the host tried to decode it as [`expected_body`] said.
#[derive(Debug)]
pub enum Decoded {
    /// The body of a response with status 200, read as the list of members.
    Members(Result<Vec<Member>, serde_json::Error>),
    /// The body of any other response, read as an error of the API.
    ApiError(Result<ApiError, serde_json::Error>),
}

/// The outcome of listing the members at one endpoint, given the response it sent.
///
/// Only a decoded list of members is a success; it is returned with the cluster
/// information of the response. A decoded API error is that error, and a body that could
/// not be decoded is a serialization error, whatever it was expected to be.
pub fn conclude(cluster_info: ClusterInfo, decoded: Decoded) -> (outcome: Result<
    Response<Vec<Member>>,
    EtcdError,
>)
    ensures
        outcome == (match decoded {
            Decoded::Members(Ok(members)) => Ok::<Response<Vec<Member>>, EtcdError>(
                Response { cluster_info, data: members },
            ),
            Decoded::Members(Err(error)) => Err::<Response<Vec<Member>>, EtcdError>(
                EtcdError::Serialization(error),
            ),
            Decoded::ApiError(Ok(error)) => Err::<Response<Vec<Member>>, EtcdError>(
                EtcdError::Api(error),
            ),
            Decoded::ApiError(Err(error)) => Err::<Response<Vec<Member>>, EtcdError>(
                EtcdError::Serialization(error),
            ),
        }),
{
    match decoded {
        Decoded::Members(Ok(members)) => Ok(Response { cluster_info, data: members }),
        Decoded::Members(Err(error)) => Err(EtcdError::Serialization(error)),
        Decoded::ApiError(Ok(error)) => Err(EtcdError::Api(error)),
        Decoded::ApiError(Err(error)) => Err(EtcdError::Serialization(error)),
    }
}

} // verus!
