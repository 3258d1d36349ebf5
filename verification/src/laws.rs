//! What holds of construction and of calls taken together, over every
//! endpoint, credential and metadata.

use vstd::prelude::*;
use crate::client::{constructed, resolved, Facade, Plan};
use crate::error::Error;
use crate::interceptor::{bearer_bytes, credential_ok, intercepted, AUTHORIZATION};
use crate::transport::endpoint_accepted;

verus! {

/// With a well-formed endpoint and no credential, construction succeeds as
/// soon as the connection attempt does; the facade is not encrypted and sends
/// the metadata of every call exactly as it was handed over, so a call
/// carries no authorization entry unless its caller put one there.
pub proof fn law_anonymous_facade(url: Seq<char>, entries: Map<Seq<char>, Seq<Seq<u8>>>)
    requires
        endpoint_accepted(url),
    ensures
        ({
            let facade = (Facade { credential: None });
            &&& constructed(url, None, true) == Ok::<Facade, Error>(facade)
            &&& !facade.encrypted()
            &&& facade.outbound(entries) == Ok::<Map<Seq<char>, Seq<Seq<u8>>>, Error>(entries)
        }),
{
}

/// With a well-formed endpoint and a credential, construction succeeds as
/// soon as the connection attempt does, and the facade is encrypted. If the
/// credential can be carried in metadata, every call that does not bring an
/// authorization entry of its own goes out with exactly one: the bytes of
/// `"Bearer "` and the token. Everything else in the metadata is untouched.
pub proof fn law_authenticated_facade(
    url: Seq<char>,
    token: Seq<char>,
    entries: Map<Seq<char>, Seq<Seq<u8>>>,
)
    requires
        endpoint_accepted(url),
    ensures
        ({
            let facade = (Facade { credential: Some(token) });
            let sent = entries.insert(AUTHORIZATION@, seq![bearer_bytes(token)]);
            &&& constructed(url, Some(token), true) == Ok::<Facade, Error>(facade)
            &&& facade.encrypted()
            &&& credential_ok(token) && !entries.dom().contains(AUTHORIZATION@) ==> {
                &&& facade.outbound(entries) == Ok::<Map<Seq<char>, Seq<Seq<u8>>>, Error>(sent)
                &&& sent.dom().contains(AUTHORIZATION@)
                &&& sent[AUTHORIZATION@].len() == 1
                &&& sent[AUTHORIZATION@][0] == bearer_bytes(token)
                &&& sent.remove(AUTHORIZATION@) == entries
            }
        }),
{
    let sent = entries.insert(AUTHORIZATION@, seq![bearer_bytes(token)]);
    if !entries.dom().contains(AUTHORIZATION@) {
        assert(sent.remove(AUTHORIZATION@) =~= entries);
    }
}

/// A credential never gets lost: with one, a call either goes out with an
/// authorization entry or does not go out at all.
pub proof fn law_never_unauthenticated(token: Seq<char>, entries: Map<Seq<char>, Seq<Seq<u8>>>)
    ensures
        intercepted(entries, Some(token)) matches Ok(sent) ==> sent.dom().contains(AUTHORIZATION@),
{
}

/// An authorization entry that a call brings along is neither doubled nor
/// replaced.
pub proof fn law_authorization_kept(token: Seq<char>, entries: Map<Seq<char>, Seq<Seq<u8>>>)
    requires
        entries.dom().contains(AUTHORIZATION@),
    ensures
        intercepted(entries, Some(token)) matches Ok(sent) ==> sent == entries,
{
}

/// A malformed endpoint ends construction with `InvalidEndpoint` whatever the
/// credential and whatever a connection attempt would have given: none is
/// made.
pub proof fn law_malformed_endpoint(url: Seq<char>, credential: Option<Seq<char>>, connected: bool)
    requires
        !endpoint_accepted(url),
    ensures
        resolved(url, credential) == Err::<Plan, Error>(Error::InvalidEndpoint),
        constructed(url, credential, connected) == Err::<Facade, Error>(
            Error::InvalidEndpoint,
        ),
{
}

/// A credential with a character that metadata cannot carry fails every
/// call with `InvalidCredential`, whatever the metadata holds.
pub proof fn law_illegal_credential(token: Seq<char>, entries: Map<Seq<char>, Seq<Seq<u8>>>)
    requires
        !credential_ok(token),
    ensures
        intercepted(entries, Some(token)) == Err::<Map<Seq<char>, Seq<Seq<u8>>>, Error>(
            Error::InvalidCredential,
        ),
{
}

} // verus!
