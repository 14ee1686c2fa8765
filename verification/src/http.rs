//! The one HTTP request that an operation asks its caller to send.

use vstd::prelude::*;

verus! {

/// The request methods that the server's endpoints take.
#[derive(Clone, Copy, Debug, PartialEq, Eq, Structural)]
pub enum Method {
    Get,
    Post,
}

/// A request to the server: method, address, one header, and a body for the
/// endpoints that take one.
#[derive(Debug)]
pub struct HttpCall {
    pub method: Method,
    pub url: String,
    pub header_name: String,
    pub header_value: String,
    pub body: Option<String>,
}

/// An `HttpCall` as mathematics.
pub struct CallModel {
    pub method: Method,
    pub url: Seq<char>,
    pub header_name: Seq<char>,
    pub header_value: Seq<char>,
    pub body: Option<Seq<char>>,
}

impl View for HttpCall {
    type V = CallModel;

    open spec fn view(&self) -> CallModel {
        CallModel {
            method: self.method,
            url: self.url@,
            header_name: self.header_name@,
            header_value: self.header_value@,
            body: match self.body {
                Some(b) => Some(b@),
                None => None,
            },
        }
    }
}

/// The address of an endpoint: the base address with the path behind it.
pub open spec fn endpoint(base_url: Seq<char>, path: Seq<char>) -> Seq<char> {
    base_url + path
}

/// A `POST` of a JSON body.
pub open spec fn post_json(url: Seq<char>, body: Seq<char>) -> CallModel {
    CallModel {
        method: Method::Post,
        url,
        header_name: "Content-Type"@,
        header_value: "application/json"@,
        body: Some(body),
    }
}

/// A `GET` that asks for JSON and carries no body.
pub open spec fn get_json(url: Seq<char>) -> CallModel {
    CallModel {
        method: Method::Get,
        url,
        header_name: "Accept"@,
        header_value: "application/json"@,
        body: None,
    }
}

/// Joins a base address and a path.
pub fn endpoint_url(base_url: &str, path: &str) -> (r: String)
    ensures
        r@ == endpoint(base_url@, path@),
{
    String::from_str(base_url).concat(path)
}

impl HttpCall {
    /// A `POST` to `url` with `body` as JSON.
    pub fn post(url: String, body: String) -> (r: HttpCall)
        ensures
            r@ == post_json(url@, body@),
    {
        HttpCall {
            method: Method::Post,
            url,
            header_name: String::from_str("Content-Type"),
            header_value: String::from_str("application/json"),
            body: Some(body),
        }
    }

    /// A `GET` of `url` that asks for JSON.
    pub fn get(url: String) -> (r: HttpCall)
        ensures
            r@ == get_json(url@),
    {
        HttpCall {
            method: Method::Get,
            url,
            header_name: String::from_str("Accept"),
            header_value: String::from_str("application/json"),
            body: None,
        }
    }
}

} // verus!
