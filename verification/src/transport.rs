//! The pieces of `tonic`'s transport that the client carries: the endpoint
//! that a locator text resolves to, the channel that a connection attempt
//! gives, and the errors of both.
//!
//! Verus sees none of them from the inside. The one call made here, the
//! parsing of the locator, has its contract on trust from `tonic` 0.6.

use vstd::prelude::*;
use http::uri::InvalidUri;
use tonic::transport::{Channel, Endpoint};
use tonic::transport::Error as TransportError;
use tonic::Status;

verus! {

/// `tonic::transport::Endpoint`, carried through as an opaque value.
#[verifier::external_type_specification]
#[verifier::external_body]
pub struct ExEndpoint(Endpoint);

/// `tonic::transport::Channel`, carried through as an opaque value.
#[verifier::external_type_specification]
#[verifier::external_body]
pub struct ExChannel(Channel);

/// `tonic::transport::Error`, the failure of a connection attempt.
#[verifier::external_type_specification]
#[verifier::external_body]
pub struct ExTransportError(TransportError);

/// `http::uri::InvalidUri`, the refusal of `Channel::from_shared`.
#[verifier::external_type_specification]
#[verifier::external_body]
pub struct ExInvalidUri(InvalidUri);

/// `tonic::Status`, the failure of a single call.
#[verifier::external_type_specification]
#[verifier::external_body]
pub struct ExStatus(Status);

/// What `tonic::transport::Channel::from_shared` makes of a locator text: the
/// endpoint for it, or nothing where `http` does not parse the text as a URI.
/// Both depend on the text alone.
pub uninterp spec fn endpoint_for(url: Seq<char>) -> Option<Endpoint>;

/// The text is the locator of an endpoint.
pub open spec fn endpoint_accepted(url: Seq<char>) -> bool {
    endpoint_for(url) is Some
}

/// `tonic::transport::Channel::from_shared`: the endpoint for the text where
/// it is a URI, the parser's refusal where it is not.
#[verifier::external_body]
pub(crate) fn endpoint_from_shared(url: String) -> (r: Result<Endpoint, InvalidUri>)
    ensures
        match r {
            Ok(endpoint) => endpoint_for(url@) == Some(endpoint),
            Err(_) => endpoint_for(url@) is None,
        },
{
    Channel::from_shared(url)
}

/// `Clone::clone` of `tonic::transport::Channel`: a second handle on the same
/// connection. Nothing is stated of it.
#[verifier::external_body]
pub(crate) fn channel_clone(channel: &Channel) -> Channel {
    channel.clone()
}

} // verus!
