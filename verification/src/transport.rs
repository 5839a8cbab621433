//! The trusted boundary to the network transport. Everything that actually
//! touches the wire lives here, behind small wrappers whose contracts Verus
//! believes; the rest of the crate is verified against those contracts.

use vstd::prelude::*;

verus! {

use crate::client::ClientError;

/// Declares reqwest::blocking::Client, the reusable transport handle, so
/// that it can stand in fields and signatures; its values are opaque here.
#[verifier::external_type_specification]
#[verifier::external_body]
pub struct ExClient(reqwest::blocking::Client);

/// Relies on reqwest's blocking client (`ClientBuilder::build` after
/// `ClientBuilder::timeout`): a reusable handle whose every exchange is
/// bounded by a thirty-second timeout, or `None` when the client cannot be
/// constructed. reqwest's blocking API demands a caller outside an async
/// runtime.
#[verifier::external_body]
pub(crate) fn build_transport() -> (r: Option<reqwest::blocking::Client>) {
    let built = reqwest::blocking::Client::builder().timeout(
        core::time::Duration::from_secs(30),
    ).build();
    match built {
        Ok(c) => Some(c),
        Err(_) => None,
    }
}

/// Relies on reqwest::blocking::Client::clone: the client is a shareable
/// handle to one connection pool, safe for concurrent use by simultaneous
/// calls.
#[verifier::external_body]
pub(crate) fn clone_transport(client: &reqwest::blocking::Client) -> (r: reqwest::blocking::Client) {
    client.clone()
}

/// Relies on reqwest's blocking client (`Client::post`,
/// `RequestBuilder::header`, `RequestBuilder::body`, `RequestBuilder::send`,
/// `Response::text`): one blocking POST of `body` to `url` with a JSON
/// content type, bounded by the client's timeout. A failure to issue the
/// request or to complete the exchange (connection refused, timed out,
/// dropped) comes back as `TransportError`; a response whose body cannot be
/// decoded as text comes back as `ProtocolError`; otherwise the response
/// text is returned verbatim, whatever the remote service decided.
#[verifier::external_body]
pub(crate) fn post_text(client: &reqwest::blocking::Client, url: &str, body: String) -> (r: Result<
    String,
    ClientError,
>)
    ensures
        r matches Err(e) ==> (e == ClientError::TransportError || e == ClientError::ProtocolError),
{
    let outcome = client.post(url).header("Content-Type", "application/json").body(body).send();
    match outcome {
        Err(_) => Err(ClientError::TransportError),
        Ok(resp) => match resp.text() {
            Ok(t) => Ok(t),
            Err(_) => Err(ClientError::ProtocolError),
        },
    }
}

} // verus!
