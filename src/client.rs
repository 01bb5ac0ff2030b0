//! Requests, errors, the transport seam, and how a transport outcome becomes
//! an operation's result.

use vstd::prelude::*;
use crate::decode::{DecodeError, FromJson, has, has_opt, required, optional};
use crate::json::{Json, field};

verus! {

/// The HTTP verb of a request.
#[derive(Debug, Clone, Copy, PartialEq, Eq, Structural)]
pub enum Method {
    Get,
    Post,
}

/// A request as the transport is to send it: the path is already filled in
/// with its identifiers, the body already encoded.
#[derive(Debug)]
pub struct Request {
    pub method: Method,
    pub path: String,
    pub body: Option<Json>,
}

/// A failure of the transport itself (connection, timeout, TLS), passed on
/// as the transport reported it.
#[derive(Debug)]
pub struct TransportError {
    pub message: String,
}

/// The error object that the server sends in place of a resource.
#[derive(Debug)]
pub struct ApiError {
    pub error_type: String,
    pub message: Option<String>,
    pub code: Option<String>,
    pub param: Option<String>,
}

impl FromJson for ApiError {
    open spec fn decodes_as(j: Json, v: ApiError) -> bool {
        j is Obj
        && has(j, "type"@, v.error_type)
        && has_opt(j, "message"@, v.message)
        && has_opt(j, "code"@, v.code)
        && has_opt(j, "param"@, v.param)
    }

    fn from_json(j: &Json) -> (r: Result<ApiError, DecodeError>) {
        if !j.is_object() {
            return Err(DecodeError::Malformed);
        }
        let error_type = required::<String>(j, "type")?;
        let message = optional::<String>(j, "message")?;
        let code = optional::<String>(j, "code")?;
        let param = optional::<String>(j, "param")?;
        Ok(ApiError { error_type, message, code, param })
    }
}

/// What an operation can fail with.
#[derive(Debug)]
pub enum Error {
    /// The transport could not complete the call.
    Transport(TransportError),
    /// The server rejected the request and said why.
    Api(ApiError),
    /// The server's answer does not have the expected shape.
    Decode(DecodeError),
}

/// A body is an error report when it is an object with an `error` member.
pub open spec fn is_error_report(j: Json) -> bool {
    field(j, "error"@) is Some
}

/// `r` is what an operation that expects a `T` returns for the transport
/// outcome `raw`: a transport failure passes through; an error report becomes
/// `Error::Api` (or `Error::Decode` where the report itself is malformed) and
/// is never read as a `T`; any other body is read as a `T`.
pub open spec fn responds<T: FromJson>(raw: Result<Json, TransportError>, r: Result<T, Error>) -> bool {
    match raw {
        Err(t) => r matches Err(Error::Transport(u)) && u.message@ == t.message@,
        Ok(j) => if is_error_report(j) {
            match r {
                Err(Error::Api(a)) => has(j, "error"@, a),
                Err(Error::Decode(_)) => forall|a: ApiError| !#[trigger] has(j, "error"@, a),
                _ => false,
            }
        } else {
            match r {
                Ok(v) => T::decodes_as(j, v),
                Err(Error::Decode(_)) => forall|v: T| !#[trigger] T::decodes_as(j, v),
                _ => false,
            }
        },
    }
}

/// A successful transport answer that is an error report gives an error,
/// never a value read from it; with a well-formed report, the `Api` error.
pub proof fn lemma_error_report_not_decoded<T: FromJson>(j: Json, a: ApiError, r: Result<T, Error>)
    requires
        has(j, "error"@, a),
        responds(Ok::<Json, TransportError>(j), r),
    ensures
        r matches Err(Error::Api(_)),
{
}

/// Turns what the transport returned into the operation's result.
pub fn respond<T: FromJson>(raw: Result<Json, TransportError>) -> (r: Result<T, Error>)
    ensures
        responds(raw, r),
{
    match raw {
        Err(t) => Err(Error::Transport(t)),
        Ok(j) => {
            if j.get("error").is_some() {
                match required::<ApiError>(&j, "error") {
                    Ok(a) => Err(Error::Api(a)),
                    Err(e) => Err(Error::Decode(e)),
                }
            } else {
                match T::from_json(&j) {
                    Ok(v) => Ok(v),
                    Err(e) => Err(Error::Decode(e)),
                }
            }
        },
    }
}

/// The transport: sends a request and hands back the parsed JSON body, or
/// the reason it could not.
pub trait Client {
    fn send(&self, req: &Request) -> Result<Json, TransportError>;
}

/// Sends `req` through `client` and reads the answer as a `T`.
pub fn call<C: Client, T: FromJson>(client: &C, req: &Request) -> (r: Result<T, Error>)
    ensures
        exists|raw: Result<Json, TransportError>| responds(raw, r),
{
    let raw = client.send(req);
    let ghost g = raw;
    let r = respond::<T>(raw);
    assert(responds(g, r));
    r
}

/// `"base/id"`, and the like: `pre` followed by `id` followed by `post`.
pub fn path_with(pre: &str, id: &str, post: &str) -> (r: String)
    ensures
        r@ == pre@ + id@ + post@,
{
    let mut p = pre.to_owned();
    p.append(id);
    p.append(post);
    p
}

} // verus!
