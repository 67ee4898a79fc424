//! The WebSocket connection core: the connection error type, the step
//! that decides the outcome of one connection attempt, a
//! `Result`-style bridging type for foreign trait implementations, and
//! the fixed values the mock-server harness feeds to clients under
//! test.

use vstd::prelude::*;
use vstd::string::*;

use tokio_tungstenite::tungstenite::Error as WebSocketError;

verus! {

#[verifier::external_type_specification]
#[verifier::external_body]
pub struct ExWebSocketError(WebSocketError);

/// An error as can occur when connecting to a WebSocket server.
#[derive(Debug)]
pub enum Error {
    /// A connection-category error, wrapping whatever the underlying
    /// transport's handshake reported.
    WebSocket(WebSocketError),
}

/// Decides one connection attempt from the outcome of its handshake: an
/// established stream is passed on unchanged, for the framing adapter
/// to take over at the caller's asynchronous edge, and a handshake
/// failure is propagated unchanged, wrapped as a connection-category
/// error.
pub fn finish_connect<S>(result: Result<S, WebSocketError>) -> (r: Result<S, Error>)
    ensures
        r is Ok <==> result is Ok,
        result matches Ok(s) ==> r matches Ok(t) && t == s,
        result matches Err(e) ==> r matches Err(f) && f == Error::WebSocket(e),
{
    match result {
        Ok(stream) => Ok(stream),
        Err(e) => Err(Error::WebSocket(e)),
    }
}

/// A custom [`Result`]-style type that we can implement a foreign trait
/// on.
#[derive(Debug)]
pub enum MessageResult<T, E> {
    /// The success value.
    Success(T),
    /// The error value.
    Failure(E),
}

/// What converting a native result into a [`MessageResult`] yields:
/// success maps to the success variant, failure to the failure variant.
pub open spec fn message_result_of<T, E>(result: Result<T, E>) -> MessageResult<T, E> {
    match result {
        Ok(t) => MessageResult::Success(t),
        Err(e) => MessageResult::Failure(e),
    }
}

impl<T, E> From<Result<T, E>> for MessageResult<T, E> {
    fn from(result: Result<T, E>) -> (r: Self) {
        match result {
            Ok(t) => Self::Success(t),
            Err(e) => Self::Failure(e),
        }
    }
}

impl<T, E> vstd::std_specs::convert::FromSpecImpl<Result<T, E>> for MessageResult<T, E> {
    open spec fn obeys_from_spec() -> bool {
        true
    }

    open spec fn from_spec(v: Result<T, E>) -> Self {
        message_result_of(v)
    }
}

/// The conversion from a native result is total: a success value `t`
/// becomes the success variant carrying `t`, a failure value `e` becomes
/// the failure variant carrying `e`, and no other outcome is reachable.
pub proof fn lemma_message_result_from_total<T, E>(result: Result<T, E>)
    ensures
        result matches Ok(t) ==> message_result_of(result) == MessageResult::<T, E>::Success(t),
        result matches Err(e) ==> message_result_of(result) == MessageResult::<T, E>::Failure(e),
        message_result_of(result) is Success || message_result_of(result) is Failure,
        message_result_of(result) is Success <==> result is Ok,
{
}

/// The fake key-id the mock harness uses.
pub const KEY_ID: &'static str = "USER12345678";

/// The fake secret the mock harness uses.
pub const SECRET: &'static str = "justletmein";

/// The endpoint URL under which a mock server listening on the given
/// local address is reached: the plain WebSocket scheme applied to that
/// address.
pub fn mock_url(addr: &str) -> (url: String)
    ensures
        url@ == "ws://"@ + addr@,
{
    let prefix = String::from_str("ws://");
    prefix.concat(addr)
}

} // verus!
