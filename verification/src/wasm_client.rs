//! The browser client: the same facade over a bridge that tunnels calls
//! through the host's fetch interface.
//!
//! Unlike the native client, the bridge is made without parsing the endpoint
//! and without connecting: it only remembers the text and prefixes it to the
//! path of every call. A malformed endpoint therefore shows on the first call
//! and not here. The bridge takes no credential.

use vstd::prelude::*;
use grpc_web_client::Client as Bridge;

verus! {

/// `grpc_web_client::Client`, carried through as an opaque value.
#[verifier::external_type_specification]
#[verifier::external_body]
pub struct ExBridge(Bridge);

/// `grpc_web_client::Client::new`: a bridge that will send to the given base
/// address. The call stores the text and looks at nothing; the bridge offers
/// no way to read it back, so there is nothing to state of the result.
#[verifier::external_body]
pub(crate) fn bridge_to(base_uri: String) -> Bridge {
    Bridge::new(base_uri)
}

/// What a call through the bridge can fail on besides the transport.
#[derive(Clone, Copy, Debug, PartialEq, Eq, Structural)]
pub enum Error {
    /// The server's answer to the creation of a data reference held none.
    DataRefMissing,
    /// The configuration holds no access token.
    NoAccessToken,
}

/// The handle that applications hold in a browser.
pub struct Client {
    endpoint: String,
    client: Bridge,
}

impl Client {
    /// The endpoint text that the bridge sends to.
    pub closed spec fn target(&self) -> Seq<char> {
        self.endpoint@
    }

    /// The bridge itself.
    pub closed spec fn bridge(&self) -> Bridge {
        self.client
    }

    /// A facade over a bridge to `url`. This succeeds for every text.
    pub fn new(url: String) -> (r: Result<Client, Error>)
        ensures
            r matches Ok(client) && client.target() == url@,
    {
        let endpoint = url.clone();
        Ok(Client { endpoint, client: bridge_to(url) })
    }

    /// The endpoint text that the bridge sends to.
    pub fn endpoint(&self) -> (r: &String)
        ensures
            r@ == self.target(),
    {
        &self.endpoint
    }

    /// Hands out the bridge, for the stub that sends the calls.
    pub fn into_bridge(self) -> (r: Bridge)
        ensures
            r == self.bridge(),
    {
        self.client
    }
}

} // verus!
