//! The outbound HTTP request: the request object sent to the host's HTTP
//! service, and the reading of the envelope it answers with.
use std::collections::BTreeMap;

use vstd::prelude::*;
use vstd::string::*;

use crate::io::HostResult;
use crate::json::{bytes_json, quote_json, string_map_json, json_byte_array, json_quoted, json_string_map};

verus! {

/// What the host reports of a finished HTTP request.
#[derive(Debug)]
pub struct HttpRequestOutput {
    pub status_code: u16,
    pub headers: Option<BTreeMap<String, Vec<String>>>,
    pub body: Option<String>,
}

/// Why an HTTP request through the host failed.
#[derive(Debug)]
pub enum HttpRequestError {
    /// The request could not be serialized.
    BadSerialization(serde_json::Error),
    /// The host's answer could not be deserialized.
    BadDeserialization(serde_json::Error),
    /// The host reported a failure, with this message.
    RequestFailed(String),
}

/// The request object the host's HTTP service takes.
pub open spec fn http_request_json(
    method: Seq<char>,
    url: Seq<char>,
    headers: Map<Seq<char>, Seq<Seq<char>>>,
    body: Seq<u8>,
) -> Seq<char> {
    "{\"body\":"@ + json_byte_array(body) + ",\"headers\":"@ + json_string_map(headers)
        + ",\"method\":"@ + json_quoted(method) + ",\"url\":"@ + json_quoted(url) + "}"@
}

/// Serializes an HTTP request for the host: an object of body bytes, headers
/// (each name with its values), method and URL, keys in sorted order.
pub fn http_request_payload(
    method: &str,
    url: &str,
    headers: &BTreeMap<String, Vec<String>>,
    body: &[u8],
) -> (r: Result<String, HttpRequestError>)
    ensures
        r is Ok,
        r matches Ok(t) ==> t@ == http_request_json(method@, url@, headers.deep_view(), body@),
        r matches Err(e) ==> e is BadSerialization,
{
    let body_json = match bytes_json(body) {
        Ok(t) => t,
        Err(e) => {
            return Err(HttpRequestError::BadSerialization(e));
        },
    };
    let headers_text = match string_map_json(headers) {
        Ok(t) => t,
        Err(e) => {
            return Err(HttpRequestError::BadSerialization(e));
        },
    };
    let method_json = match quote_json(method) {
        Ok(t) => t,
        Err(e) => {
            return Err(HttpRequestError::BadSerialization(e));
        },
    };
    let url_json = match quote_json(url) {
        Ok(t) => t,
        Err(e) => {
            return Err(HttpRequestError::BadSerialization(e));
        },
    };
    let mut out = String::from_str("{\"body\":");
    out.append(body_json.as_str());
    out.append(",\"headers\":");
    out.append(headers_text.as_str());
    out.append(",\"method\":");
    out.append(method_json.as_str());
    out.append(",\"url\":");
    out.append(url_json.as_str());
    out.append("}");
    Ok(out)
}

/// Reads the host's answer to an HTTP request. The envelope must deserialize;
/// when it says `ok`, its value is decoded with `decode_value`, and when it
/// does not, the host's error message is returned verbatim and the value is
/// not looked at.
pub fn http_request_result<V, D>(
    response: Result<HostResult<V>, serde_json::Error>,
    decode_value: D,
) -> (r: Result<HttpRequestOutput, HttpRequestError>) where
    D: FnOnce(V) -> Result<HttpRequestOutput, serde_json::Error>,

    requires
        forall|v: V| decode_value.requires((v,)),
    ensures
        match response {
            Err(e) => r matches Err(HttpRequestError::BadDeserialization(f)) && f == e,
            Ok(h) => if h.ok {
                exists|d: Result<HttpRequestOutput, serde_json::Error>|
                    decode_value.ensures((h.value,), d) && match d {
                        Ok(v) => r matches Ok(w) && w == v,
                        Err(e) => r matches Err(HttpRequestError::BadDeserialization(f)) && f == e,
                    }
            } else {
                r matches Err(HttpRequestError::RequestFailed(m)) && m == h.error
            },
        },
{
    match response {
        Err(e) => Err(HttpRequestError::BadDeserialization(e)),
        Ok(h) => match h.into_result() {
            Ok(v) => match decode_value(v) {
                Ok(out) => Ok(out),
                Err(e) => Err(HttpRequestError::BadDeserialization(e)),
            },
            Err(m) => Err(HttpRequestError::RequestFailed(m)),
        },
    }
}

} // verus!
