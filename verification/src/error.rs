use vstd::prelude::*;

verus! {

/// The error taxonomy of the client core.
///
/// `Unauthenticated` and `RefreshTokenMissing` come from the token cache,
/// `AuthProtocolError` and `TransportError` carry failures reported by the
/// OAuth gateway and the HTTP transport, `ProtocolError` is a non-401 HTTP
/// error status (or a 401 that survived the single retry) together with the
/// response body, `DecodeError` is a response body that does not match the
/// expected schema, and `SignatureKeyError` is malformed compiled-in key
/// material.
#[derive(Debug)]
pub enum Error {
    Unauthenticated,
    RefreshTokenMissing,
    AuthProtocolError(String),
    TransportError(String),
    ProtocolError { status: u16, body: Vec<u8> },
    DecodeError(String),
    SignatureKeyError,
}

} // verus!
