use vstd::prelude::*;
use crate::headers::Header;
use crate::uri::UriParts;

verus! {

/// The request methods the client issues.
#[derive(Clone, Copy, Debug, PartialEq, Eq, Structural)]
pub enum Method {
    /// Fetch a representation; the request body is empty.
    Get,
    /// Like `Get`, but only the response head is wanted; the body is empty.
    Head,
    /// Submit a buffered body under a caller-supplied content type.
    Post,
}

/// The parts of an outgoing request that the dispatcher reads or rebuilds:
/// method, target URI, the caller's headers in order, and the buffered body.
pub struct RequestModel {
    /// Request method.
    pub method: Method,
    /// Target URI, already reduced to the parts the pipeline reads.
    pub uri: UriParts,
    /// Caller-supplied headers, in the order they were written.
    pub headers: Vec<Header>,
    /// Buffered request body; empty for `Get` and `Head`.
    pub body: Vec<u8>,
}

/// The `Content-Type` header name, lower-cased.
pub open spec fn spec_content_type_name() -> Seq<u8> {
    seq![99u8, 111u8, 110u8, 116u8, 101u8, 110u8, 116u8, 45u8, 116u8, 121u8, 112u8, 101u8]
}

/// The `Content-Type` header name as a byte vector.
fn content_type_name_vec() -> (r: Vec<u8>)
    ensures
        r@ == spec_content_type_name(),
{
    let mut v: Vec<u8> = Vec::new();
    v.push(99);
    v.push(111);
    v.push(110);
    v.push(116);
    v.push(101);
    v.push(110);
    v.push(116);
    v.push(45);
    v.push(116);
    v.push(121);
    v.push(112);
    v.push(101);
    proof {
        assert(v@ =~= spec_content_type_name());
    }
    v
}

impl RequestModel {
    /// A GET request for `uri`: no headers of its own and an empty body.
    pub fn get(uri: UriParts) -> (r: Self)
        ensures
            r.method == Method::Get,
            r.uri == uri,
            r.headers@.len() == 0,
            r.body@.len() == 0,
    {
        RequestModel { method: Method::Get, uri, headers: Vec::new(), body: Vec::new() }
    }

    /// A HEAD request for `uri`: no headers of its own and an empty body.
    pub fn head(uri: UriParts) -> (r: Self)
        ensures
            r.method == Method::Head,
            r.uri == uri,
            r.headers@.len() == 0,
            r.body@.len() == 0,
    {
        RequestModel { method: Method::Head, uri, headers: Vec::new(), body: Vec::new() }
    }

    /// A POST request for `uri`: its only header carries the caller's
    /// content type, and the body holds exactly the supplied bytes.
    pub fn post(uri: UriParts, content_type: Vec<u8>, body: Vec<u8>) -> (r: Self)
        ensures
            r.method == Method::Post,
            r.uri == uri,
            r.headers@.len() == 1,
            r.headers@[0].name@ == spec_content_type_name(),
            r.headers@[0].value@ == content_type@,
            r.body@ == body@,
    {
        let mut headers: Vec<Header> = Vec::new();
        headers.push(Header { name: content_type_name_vec(), value: content_type });
        RequestModel { method: Method::Post, uri, headers, body }
    }
}

} // verus!
