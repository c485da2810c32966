//! HTTP/0.9 client for loading a kernel over the network: `GET /path`,
//! then the raw binary until the connection closes. No TCP stack is
//! available yet, so every fetch reports the network as not ready.
use vstd::prelude::*;

verus! {

/// HTTP client errors.
#[derive(Debug, Clone, Copy, PartialEq, Eq, Structural)]
pub enum HttpError {
    ConnectionFailed,
    SendFailed,
    ReceiveFailed,
    ResponseTooLarge,
    NetworkNotReady,
}

/// Fetch `path` from `server_ip:port`: not possible without a TCP stack.
pub fn get_binary(server_ip: [u8; 4], port: u16, path: &str) -> (r: Result<Vec<u8>, HttpError>)
    ensures
        r == Err::<Vec<u8>, HttpError>(HttpError::NetworkNotReady),
{
    Err(HttpError::NetworkNotReady)
}

} // verus!
