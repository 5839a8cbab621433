//! The remote execution client: four stateless operations, each one
//! blocking request/response exchange. Every operation snapshots the
//! connection configuration consistently, builds its request with an exact
//! contract, issues one POST, and passes the remote service's response
//! text through verbatim or classifies the failure.

use vstd::prelude::*;

verus! {

use vstd::string::StringExecFns;
use crate::config::SharedConfig;
use crate::transport::post_text;
use crate::wire::build_execute_body;
use crate::wire::build_load_blocks_body;
use crate::wire::build_send_code_body;
use crate::wire::build_undefine_body;
use crate::wire::build_url;
use crate::wire::execute_body;
use crate::wire::load_blocks_body;
use crate::wire::send_code_body;
use crate::wire::undefine_body;
use crate::wire::url_spec;

/// The failure of a protocol operation.
#[derive(Clone, Copy, Debug, PartialEq, Eq, Structural)]
pub enum ClientError {
    /// The caller supplied a block range whose start exceeds its stop;
    /// rejected before any network activity.
    InvalidRange,
    /// The connection could not be established, timed out, or dropped.
    TransportError,
    /// A response arrived but its body could not be decoded as text.
    ProtocolError,
}

impl ClientError {
    /// A short text for showing the failure to a user.
    pub fn describe(&self) -> (r: String)
        ensures
            *self is InvalidRange ==> r@ == "invalid block range: start exceeds stop"@,
            *self is TransportError ==> r@ == "transport failure: the endpoint could not be reached"@,
            *self is ProtocolError ==> r@ == "protocol failure: the response could not be decoded as text"@,
    {
        match self {
            ClientError::InvalidRange => String::from_str(
                "invalid block range: start exceeds stop",
            ),
            ClientError::TransportError => String::from_str(
                "transport failure: the endpoint could not be reached",
            ),
            ClientError::ProtocolError => String::from_str(
                "protocol failure: the response could not be decoded as text",
            ),
        }
    }
}

/// Route of the direct evaluation operation on the nrepl endpoint.
pub open spec fn direct_route() -> Seq<char> {
    "nrepl"@
}

/// Route of the module retraction operation on the management endpoint.
pub open spec fn undefine_route() -> Seq<char> {
    "undefine"@
}

/// Route of the block loading operation on the management endpoint.
pub open spec fn load_route() -> Seq<char> {
    "load_blocks"@
}

/// Route of the module execution operation on the management endpoint.
pub open spec fn execute_route() -> Seq<char> {
    "execute"@
}

/// One request ready to issue: the endpoint URL and the JSON body.
pub struct HttpRequest {
    pub url: String,
    pub body: String,
}

/// Builds the one request that `send_code` issues against the direct
/// evaluation endpoint.
pub fn build_send_code_request(host: &str, port: i32, code: &str) -> (r: HttpRequest)
    ensures
        r.url@ == url_spec(host@, port as int, direct_route()),
        r.body@ == send_code_body(code@),
{
    HttpRequest { url: build_url(host, port, "nrepl"), body: build_send_code_body(code) }
}

/// Builds the one request that `undefine_module` issues against the
/// management endpoint.
pub fn build_undefine_request(host: &str, port: i32, module_name: &str) -> (r: HttpRequest)
    ensures
        r.url@ == url_spec(host@, port as int, undefine_route()),
        r.body@ == undefine_body(module_name@),
{
    HttpRequest { url: build_url(host, port, "undefine"), body: build_undefine_body(module_name) }
}

/// Builds the one request that `load_blocks` issues, or rejects the range:
/// exactly the ranges with `start_block > stop_block` fail, with
/// `InvalidRange`, and nothing is built for them.
pub fn build_load_blocks_request(host: &str, port: i32, start_block: i32, stop_block: i32) -> (r:
    Result<HttpRequest, ClientError>)
    ensures
        start_block > stop_block ==> r == Err::<HttpRequest, ClientError>(
            ClientError::InvalidRange,
        ),
        start_block <= stop_block ==> (r matches Ok(req) && req.url@ == url_spec(
            host@,
            port as int,
            load_route(),
        ) && req.body@ == load_blocks_body(start_block as int, stop_block as int)),
{
    if start_block > stop_block {
        Err(ClientError::InvalidRange)
    } else {
        Ok(
            HttpRequest {
                url: build_url(host, port, "load_blocks"),
                body: build_load_blocks_body(start_block, stop_block),
            },
        )
    }
}

/// Builds the one request that `execute_module` issues, or rejects the
/// range: exactly the ranges with `start_block > stop_block` fail, with
/// `InvalidRange`, and nothing is built for them.
pub fn build_execute_request(
    host: &str,
    port: i32,
    start_block: i32,
    stop_block: i32,
    module_name: &str,
) -> (r: Result<HttpRequest, ClientError>)
    ensures
        start_block > stop_block ==> r == Err::<HttpRequest, ClientError>(
            ClientError::InvalidRange,
        ),
        start_block <= stop_block ==> (r matches Ok(req) && req.url@ == url_spec(
            host@,
            port as int,
            execute_route(),
        ) && req.body@ == execute_body(start_block as int, stop_block as int, module_name@)),
{
    if start_block > stop_block {
        Err(ClientError::InvalidRange)
    } else {
        Ok(
            HttpRequest {
                url: build_url(host, port, "execute"),
                body: build_execute_body(start_block, stop_block, module_name),
            },
        )
    }
}

impl SharedConfig {
    /// Sends source text to the direct evaluation endpoint and returns the
    /// remote service's verbatim response text. The body is exactly the
    /// `send_code` request body for `code`; the remote service's verdict on
    /// the source is passed through, never classified locally, so the only
    /// local failures are transport and protocol failures. The
    /// configuration is read as one consistent snapshot and the lock is
    /// released before the exchange.
    pub fn send_code(&self, code: &str) -> (r: Result<String, ClientError>)
        ensures
            (r matches Err(e) ==> (e == ClientError::TransportError || e
                == ClientError::ProtocolError)),
    {
        let snap = self.snapshot();
        let req = build_send_code_request(snap.nrepl_host.as_str(), snap.nrepl_port, code);
        post_text(&snap.client, req.url.as_str(), req.body)
    }

    /// Asks the remote service to retract the named module's definition.
    /// The operation depends on nothing local but the name — no local
    /// module store is consulted — and a name that was never defined
    /// remotely is an acknowledged no-op there, so repeating the call is
    /// safe; the only local failures are transport and protocol failures.
    pub fn undefine_module(&self, module_name: &str) -> (r: Result<String, ClientError>)
        ensures
            (r matches Err(e) ==> (e == ClientError::TransportError || e
                == ClientError::ProtocolError)),
    {
        let snap = self.snapshot();
        let req = build_undefine_request(
            snap.streamline_host.as_str(),
            snap.streamline_server_port,
            module_name,
        );
        post_text(&snap.client, req.url.as_str(), req.body)
    }

    /// Asks the remote service to load the inclusive block range
    /// `start_block ..= stop_block` into its working context. A range with
    /// `start_block > stop_block` fails with `InvalidRange`, and only such
    /// a range does; it is rejected before any network activity. Otherwise
    /// exactly one exchange happens and only transport and protocol
    /// failures arise.
    pub fn load_blocks(&self, start_block: i32, stop_block: i32) -> (r: Result<String, ClientError>)
        ensures
            (r == Err::<String, ClientError>(ClientError::InvalidRange)) <==> start_block
                > stop_block,
            start_block <= stop_block ==> (r matches Err(e) ==> (e == ClientError::TransportError
                || e == ClientError::ProtocolError)),
    {
        let snap = self.snapshot();
        match build_load_blocks_request(
            snap.streamline_host.as_str(),
            snap.streamline_server_port,
            start_block,
            stop_block,
        ) {
            Err(e) => Err(e),
            Ok(req) => post_text(&snap.client, req.url.as_str(), req.body),
        }
    }

    /// Asks the remote service to execute the named module over the
    /// inclusive block range `start_block ..= stop_block`. A range with
    /// `start_block > stop_block` fails with `InvalidRange`, and only such
    /// a range does; it is rejected before any network activity. Whether
    /// the module exists remotely is the remote service's verdict and
    /// surfaces only in the response text.
    pub fn execute_module(&self, start_block: i32, stop_block: i32, module_name: &str) -> (r:
        Result<String, ClientError>)
        ensures
            (r == Err::<String, ClientError>(ClientError::InvalidRange)) <==> start_block
                > stop_block,
            start_block <= stop_block ==> (r matches Err(e) ==> (e == ClientError::TransportError
                || e == ClientError::ProtocolError)),
    {
        let snap = self.snapshot();
        match build_execute_request(
            snap.streamline_host.as_str(),
            snap.streamline_server_port,
            start_block,
            stop_block,
            module_name,
        ) {
            Err(e) => Err(e),
            Ok(req) => post_text(&snap.client, req.url.as_str(), req.body),
        }
    }
}

} // verus!
