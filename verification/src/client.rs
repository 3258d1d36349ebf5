//! The native client: endpoint resolution, the decision for or against
//! encryption, and the facade that holds the connected channel together with
//! the authorization interceptor.
//!
//! Connecting is network work and setting up TLS reads the platform's trust
//! store, so neither happens here. Construction is therefore cut in two around
//! the one connection attempt: [`Client::resolve`] decides everything that
//! can be decided beforehand and yields a [`ConnectPlan`], the caller makes
//! the attempt that the plan describes, and [`Client::new`] turns the plan and
//! the outcome of the attempt into the facade or into the error. A malformed
//! endpoint yields no plan, and without a plan there is nothing to connect.

use vstd::prelude::*;
use tonic::metadata::MetadataMap;
use tonic::transport::Error as TransportError;
use tonic::transport::{Channel, Endpoint};
use tonic::Status;
pub use crate::error::Error;
use crate::interceptor::{adds_key, fits, intercepted, token_text, AuthInterceptor};
use crate::metadata::metadata_entries;
use crate::transport::{channel_clone, endpoint_for, endpoint_from_shared};

verus! {

/// What a plan is to the contracts: the endpoint that is to be connected and
/// the credential that the facade will carry.
pub struct Plan {
    pub target: Endpoint,
    pub credential: Option<Seq<char>>,
}

impl Plan {
    /// Encryption is asked for exactly when there is a credential, so that
    /// no credential ever travels in the clear. It is no setting of its own.
    pub open spec fn encrypted(self) -> bool {
        self.credential is Some
    }
}

/// What a facade is to the contracts: the credential it was built with.
pub struct Facade {
    pub credential: Option<Seq<char>>,
}

impl Facade {
    /// The transport of a facade is encrypted exactly when it carries a
    /// credential.
    pub open spec fn encrypted(self) -> bool {
        self.credential is Some
    }

    /// What the facade makes of the metadata of one call before it is sent.
    pub open spec fn outbound(self, entries: Map<Seq<char>, Seq<Seq<u8>>>) -> Result<
        Map<Seq<char>, Seq<Seq<u8>>>,
        Error,
    > {
        intercepted(entries, self.credential)
    }
}

/// What resolution decides for an endpoint text and an optional credential.
pub open spec fn resolved(url: Seq<char>, credential: Option<Seq<char>>) -> Result<Plan, Error> {
    match endpoint_for(url) {
        Some(target) => Ok(Plan { target, credential }),
        None => Err(Error::InvalidEndpoint),
    }
}

/// What becomes of a plan once its one connection attempt is over.
pub open spec fn finished(plan: Plan, connected: bool) -> Result<Facade, Error> {
    if connected {
        Ok(Facade { credential: plan.credential })
    } else {
        Err(Error::ConnectionFailed)
    }
}

/// What construction as a whole ends in, given how the connection attempt
/// would end. Where resolution fails no attempt is made, and `connected`
/// plays no part.
pub open spec fn constructed(
    url: Seq<char>,
    credential: Option<Seq<char>>,
    connected: bool,
) -> Result<Facade, Error> {
    match resolved(url, credential) {
        Ok(plan) => finished(plan, connected),
        Err(e) => Err(e),
    }
}

/// A resolved endpoint that has not been connected yet: what to connect to,
/// whether to encrypt, and the interceptor that the facade will carry.
pub struct ConnectPlan {
    endpoint: Endpoint,
    interceptor: AuthInterceptor,
}

impl View for ConnectPlan {
    type V = Plan;

    closed spec fn view(&self) -> Plan {
        Plan { target: self.endpoint, credential: self.interceptor.token() }
    }
}

impl ConnectPlan {
    /// The endpoint to connect to.
    pub fn endpoint(&self) -> (r: &Endpoint)
        ensures
            *r == self@.target,
    {
        &self.endpoint
    }

    /// Whether the connection is to be encrypted.
    pub fn encrypted(&self) -> (r: bool)
        ensures
            r == self@.encrypted(),
    {
        self.interceptor.has_credential()
    }
}

/// The handle that applications hold: the connected channel and the
/// interceptor bound to it. Neither changes after construction.
pub struct Client {
    channel: Channel,
    interceptor: AuthInterceptor,
}

impl View for Client {
    type V = Facade;

    closed spec fn view(&self) -> Facade {
        Facade { credential: self.interceptor.token() }
    }
}

impl Client {
    /// The channel that the facade owns.
    pub closed spec fn transport(&self) -> Channel {
        self.channel
    }

    /// The first half of construction: everything that is decided before the
    /// connection attempt.
    ///
    /// A text that is no locator is refused with `InvalidEndpoint`, and then
    /// there is no plan and nothing to connect. Any other text gives a plan
    /// that asks for encryption exactly when a credential was supplied. The
    /// credential is taken as it is; whether it can be carried in metadata is
    /// found out call by call.
    pub fn resolve(url: String, access_token: Option<String>) -> (r: Result<ConnectPlan, Error>)
        ensures
            match resolved(url@, token_text(access_token)) {
                Ok(plan) => r matches Ok(made) && made@ == plan,
                Err(e) => r matches Err(x) && x == e,
            },
    {
        match endpoint_from_shared(url) {
            Ok(endpoint) => Ok(ConnectPlan { endpoint, interceptor: AuthInterceptor::new(access_token) }),
            Err(_) => Err(Error::InvalidEndpoint),
        }
    }

    /// The second half of construction: the facade for a plan whose one
    /// connection attempt gave a channel, `ConnectionFailed` for one whose
    /// attempt failed. Nothing is retried.
    pub fn new(plan: ConnectPlan, outcome: Result<Channel, TransportError>) -> (r: Result<
        Client,
        Error,
    >)
        ensures
            match finished(plan@, outcome is Ok) {
                Ok(facade) => r matches Ok(client) && client@ == facade && outcome == Ok::<
                    Channel,
                    TransportError,
                >(client.transport()),
                Err(e) => r matches Err(x) && x == e,
            },
    {
        match outcome {
            Ok(channel) => Ok(Client { channel, interceptor: plan.interceptor }),
            Err(_) => Err(Error::ConnectionFailed),
        }
    }

    /// Whether the facade's transport is encrypted.
    pub fn encrypted(&self) -> (r: bool)
        ensures
            r == self@.encrypted(),
    {
        self.interceptor.has_credential()
    }

    /// The interceptor bound to the channel.
    pub fn interceptor(&self) -> (r: &AuthInterceptor)
        ensures
            r.token() == self@.credential,
    {
        &self.interceptor
    }

    /// Takes the facade apart into its channel and its interceptor, for the
    /// stub that sends the calls.
    pub fn into_parts(self) -> (r: (Channel, AuthInterceptor))
        ensures
            r.0 == self.transport(),
            r.1.token() == self@.credential,
    {
        (self.channel, self.interceptor)
    }

    /// Prepares the metadata of one outbound call, as the facade's
    /// interceptor does. An `Err` means that the call must not be sent; the
    /// facade itself stays usable.
    pub fn intercept(&self, metadata: MetadataMap) -> (r: Result<MetadataMap, Error>)
        requires
            fits(metadata, self@.credential),
        ensures
            match self@.outbound(metadata_entries(metadata)) {
                Ok(entries) => r matches Ok(out) && metadata_entries(out) == entries,
                Err(e) => r matches Err(x) && x == e,
            },
            r is Ok && !adds_key(metadata_entries(metadata), self@.credential) ==> r == Ok::<
                MetadataMap,
                Error,
            >(metadata),
    {
        self.interceptor.intercept(metadata)
    }

    /// As [`Client::intercept`], for metadata of any size: `None` where a key
    /// would have to be added to metadata that has no room for it.
    pub fn try_intercept(&self, metadata: MetadataMap) -> (r: Option<Result<MetadataMap, Error>>)
        ensures
            r is Some <==> fits(metadata, self@.credential),
            r matches Some(outcome) ==> {
                &&& match self@.outbound(metadata_entries(metadata)) {
                    Ok(entries) => outcome matches Ok(out) && metadata_entries(out) == entries,
                    Err(e) => outcome matches Err(x) && x == e,
                }
                &&& outcome is Ok && !adds_key(metadata_entries(metadata), self@.credential) ==> outcome
                    == Ok::<MetadataMap, Error>(metadata)
            },
    {
        self.interceptor.try_intercept(metadata)
    }

    /// The result of one call as the caller sees it: the response as it came,
    /// or `CallFailed` for whatever status the transport or the remote side
    /// reported.
    pub fn complete<T>(&self, outcome: Result<T, Status>) -> (r: Result<T, Error>)
        ensures
            match outcome {
                Ok(response) => r matches Ok(x) && x == response,
                Err(_) => r matches Err(e) && e == Error::CallFailed,
            },
    {
        match outcome {
            Ok(response) => Ok(response),
            Err(_) => Err(Error::CallFailed),
        }
    }
}

impl Clone for Client {
    /// A second handle on the same channel, with the same credential.
    fn clone(&self) -> (r: Self)
        ensures
            r@ == self@,
    {
        Client { channel: channel_clone(&self.channel), interceptor: self.interceptor.clone() }
    }
}

} // verus!
