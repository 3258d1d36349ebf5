//! The authorization interceptor: the hook that runs before every outbound
//! call and puts the bearer credential, if there is one, into the call's
//! metadata.
//!
//! The interceptor holds a snapshot of the credential taken at construction
//! and nothing else; it has no state that a call could change.

use vstd::prelude::*;
use vstd::utf8::*;
use tonic::metadata::MetadataMap;
use crate::error::Error;
use crate::metadata::{
    ascii_value_bytes, ascii_value_from_bytes, has_room, metadata_contains_key, metadata_entries,
    metadata_insert, metadata_key_count, plain_key, value_byte_ok, value_bytes_ok, AsciiValue,
    KEY_LIMIT,
};

verus! {

/// The metadata key under which the credential travels.
pub const AUTHORIZATION: &'static str = "authorization";

/// The text of the authorization entry for a token: `"Bearer "` and the token.
pub open spec fn bearer(token: Seq<char>) -> Seq<char> {
    "Bearer "@ + token
}

/// The bytes of the authorization entry for a token.
pub open spec fn bearer_bytes(token: Seq<char>) -> Seq<u8> {
    encode_utf8(bearer(token))
}

/// A character that may stand in a metadata value: a tab, or anything from
/// the space up except DEL.
pub open spec fn value_char_ok(c: char) -> bool {
    c == '\t' || (c >= ' ' && c != '\x7f')
}

/// A text that may stand in a metadata value.
pub open spec fn value_text_ok(text: Seq<char>) -> bool {
    forall|i: int| 0 <= i < text.len() ==> value_char_ok(#[trigger] text[i])
}

/// A credential that can be carried in request metadata.
pub open spec fn credential_ok(token: Seq<char>) -> bool {
    value_text_ok(token)
}

/// The text of an optional credential.
pub open spec fn token_text(credential: Option<String>) -> Option<Seq<char>> {
    match credential {
        Some(token) => Some(token@),
        None => None,
    }
}

/// The metadata of a call after a well-formed token has been attached: an
/// authorization entry that is already there stays as it is, otherwise the
/// key gets the one bearer value.
pub open spec fn authorized(entries: Map<Seq<char>, Seq<Seq<u8>>>, token: Seq<char>) -> Map<
    Seq<char>,
    Seq<Seq<u8>>,
> {
    if entries.dom().contains(AUTHORIZATION@) {
        entries
    } else {
        entries.insert(AUTHORIZATION@, seq![bearer_bytes(token)])
    }
}

/// What the interceptor makes of a call's metadata under a credential.
pub open spec fn intercepted(
    entries: Map<Seq<char>, Seq<Seq<u8>>>,
    credential: Option<Seq<char>>,
) -> Result<Map<Seq<char>, Seq<Seq<u8>>>, Error> {
    match credential {
        None => Ok(entries),
        Some(token) => if credential_ok(token) {
            Ok(authorized(entries, token))
        } else {
            Err(Error::InvalidCredential)
        },
    }
}

/// Whether the interceptor has to put a new key into the metadata.
pub open spec fn adds_key(entries: Map<Seq<char>, Seq<Seq<u8>>>, credential: Option<Seq<char>>) -> bool {
    credential matches Some(token) && credential_ok(token) && !entries.dom().contains(
        AUTHORIZATION@,
    )
}

/// The metadata can take whatever the interceptor has to put into it.
pub open spec fn fits(metadata: MetadataMap, credential: Option<Seq<char>>) -> bool {
    adds_key(metadata_entries(metadata), credential) ==> has_room(metadata)
}

proof fn lemma_high_bytes(y: u8)
    by (bit_vector)
    ensures
        0x80u8 | y >= 0x80u8,
        0xC0u8 | y >= 0x80u8,
        0xE0u8 | y >= 0x80u8,
        0xF0u8 | y >= 0x80u8,
{
}

proof fn lemma_low_byte(v: u32)
    by (bit_vector)
    requires
        v <= 0x7F,
    ensures
        v & 0x7F == v,
{
}

/// The encoding of one character is made of legal bytes exactly when the
/// character is legal.
proof fn lemma_scalar_bytes(c: char)
    ensures
        value_bytes_ok(encode_scalar(c as u32)) <==> value_char_ok(c),
{
    let v = c as u32;
    let bytes = encode_scalar(v);
    if has_width_1_encoding(v) {
        lemma_low_byte(v);
        assert(bytes[0] == v as u8);
        assert(value_byte_ok(bytes[0]) <==> value_char_ok(c));
    } else {
        lemma_high_bytes(((v >> 6) & 0x1F) as u8);
        lemma_high_bytes(((v >> 12) & 0x0F) as u8);
        lemma_high_bytes(((v >> 18) & 0x7) as u8);
        lemma_high_bytes((v & 0x3F) as u8);
        lemma_high_bytes(((v >> 6) & 0x3F) as u8);
        lemma_high_bytes(((v >> 12) & 0x3F) as u8);
        assert forall|i: int| 0 <= i < bytes.len() implies value_byte_ok(#[trigger] bytes[i]) by {
            assert(bytes[i] >= 0x80);
        }
        assert(value_char_ok(c));
    }
}

/// A text encodes to legal bytes exactly when each of its characters is legal.
pub proof fn lemma_encoded_text_ok(text: Seq<char>)
    ensures
        value_bytes_ok(encode_utf8(text)) <==> value_text_ok(text),
    decreases text.len(),
{
    if text.len() == 0 {
    } else {
        let head = encode_scalar(text[0] as u32);
        let rest = text.drop_first();
        let tail = encode_utf8(rest);
        lemma_scalar_bytes(text[0]);
        lemma_encoded_text_ok(rest);
        assert(encode_utf8(text) == head + tail);
        if value_bytes_ok(head + tail) {
            assert forall|i: int| 0 <= i < head.len() implies value_byte_ok(#[trigger] head[i]) by {
                assert((head + tail)[i] == head[i]);
            }
            assert forall|i: int| 0 <= i < tail.len() implies value_byte_ok(#[trigger] tail[i]) by {
                assert((head + tail)[head.len() + i] == tail[i]);
            }
            assert forall|i: int| 0 <= i < text.len() implies value_char_ok(#[trigger] text[i]) by {
                if i > 0 {
                    assert(rest[i - 1] == text[i]);
                }
            }
        }
        if value_text_ok(text) {
            assert forall|i: int| 0 <= i < rest.len() implies value_char_ok(#[trigger] rest[i]) by {
                assert(rest[i] == text[i + 1]);
            }
            assert(value_bytes_ok(head + tail));
        }
    }
}

/// The authorization entry of a token is made of legal bytes exactly when the
/// token is a credential that metadata can carry.
pub proof fn lemma_bearer_bytes_ok(token: Seq<char>)
    ensures
        value_bytes_ok(bearer_bytes(token)) <==> credential_ok(token),
{
    reveal_strlit("Bearer ");
    let prefix = "Bearer "@;
    let text = bearer(token);
    lemma_encoded_text_ok(text);
    if value_text_ok(text) {
        assert forall|i: int| 0 <= i < token.len() implies value_char_ok(#[trigger] token[i]) by {
            assert(text[prefix.len() + i] == token[i]);
        }
    }
    if value_text_ok(token) {
        assert forall|i: int| 0 <= i < text.len() implies value_char_ok(#[trigger] text[i]) by {
            if i >= prefix.len() {
                assert(text[i] == token[i - prefix.len()]);
            }
        }
    }
}

/// For a token of ASCII characters the authorization entry is, byte for
/// byte, the characters of `"Bearer "` followed by those of the token.
pub proof fn lemma_bearer_bytes_ascii(token: Seq<char>)
    requires
        is_ascii_chars(token),
    ensures
        bearer_bytes(token).len() == 7 + token.len(),
        bearer_bytes(token).subrange(0, 7) == seq![66u8, 101u8, 97u8, 114u8, 101u8, 114u8, 32u8],
        forall|i: int|
            0 <= i < token.len() ==> #[trigger] bearer_bytes(token)[7 + i] == token[i] as u8,
{
    reveal_strlit("Bearer ");
    let text = bearer(token);
    assert forall|i: int| 0 <= i < text.len() implies '\0' <= #[trigger] text[i] <= '\u{7f}' by {
        if i >= 7 {
            assert(text[i] == token[i - 7]);
        }
    }
    is_ascii_chars_encode_utf8(text);
    let bytes = bearer_bytes(token);
    assert forall|i: int| 0 <= i < token.len() implies #[trigger] bytes[7 + i] == token[i] as u8 by {
        assert(text[7 + i] == token[i]);
    }
    let head = seq![66u8, 101u8, 97u8, 114u8, 101u8, 114u8, 32u8];
    assert forall|i: int| 0 <= i < 7 implies bytes.subrange(0, 7)[i] == head[i] by {
        assert(text[i] as u8 == bytes[i]);
    }
    assert(bytes.subrange(0, 7) =~= head);
}

/// The authorization key is a plain metadata key.
pub proof fn lemma_authorization_key()
    ensures
        plain_key(AUTHORIZATION@),
{
    reveal_strlit("authorization");
}

/// The per-call hook that attaches the credential.
pub struct AuthInterceptor {
    credential: Option<String>,
}

impl AuthInterceptor {
    /// The credential that the interceptor attaches, if any.
    pub closed spec fn token(&self) -> Option<Seq<char>> {
        token_text(self.credential)
    }

    /// An interceptor that holds the given credential from now on.
    pub fn new(credential: Option<String>) -> (r: Self)
        ensures
            r.token() == token_text(credential),
    {
        AuthInterceptor { credential }
    }

    /// Whether the interceptor attaches a credential at all.
    pub fn has_credential(&self) -> (r: bool)
        ensures
            r == self.token().is_some(),
    {
        self.credential.is_some()
    }

    /// Runs the interceptor on the metadata of one call.
    ///
    /// Without a credential the metadata comes back as it went in. With one,
    /// the call is refused with `InvalidCredential` when the credential
    /// cannot be carried in metadata, whatever the metadata holds; otherwise
    /// the metadata comes back with the bearer value under the authorization
    /// key, unless an authorization entry was already there: then nothing is
    /// added and nothing replaced.
    ///
    /// Where a key has to be added the metadata must have room for it.
    pub fn intercept(&self, metadata: MetadataMap) -> (r: Result<MetadataMap, Error>)
        requires
            fits(metadata, self.token()),
        ensures
            match intercepted(metadata_entries(metadata), self.token()) {
                Ok(entries) => r matches Ok(out) && metadata_entries(out) == entries,
                Err(e) => r matches Err(x) && x == e,
            },
            r is Ok && !adds_key(metadata_entries(metadata), self.token()) ==> r == Ok::<
                MetadataMap,
                Error,
            >(metadata),
    {
        match &self.credential {
            None => Ok(metadata),
            Some(token) => match bearer_value(token) {
                None => Err(Error::InvalidCredential),
                Some(value) => {
                    let mut metadata = metadata;
                    proof {
                        lemma_authorization_key();
                    }
                    if !metadata_contains_key(&metadata, AUTHORIZATION) {
                        metadata_insert(&mut metadata, AUTHORIZATION, value);
                    }
                    Ok(metadata)
                },
            },
        }
    }

    /// Runs the interceptor on metadata of any size: as
    /// [`AuthInterceptor::intercept`] wherever that can be called, and `None`,
    /// with the call left unmade, where a key would have to be added to
    /// metadata that has no room for it.
    pub fn try_intercept(&self, metadata: MetadataMap) -> (r: Option<Result<MetadataMap, Error>>)
        ensures
            r is Some <==> fits(metadata, self.token()),
            r matches Some(outcome) ==> {
                &&& match intercepted(metadata_entries(metadata), self.token()) {
                    Ok(entries) => outcome matches Ok(out) && metadata_entries(out) == entries,
                    Err(e) => outcome matches Err(x) && x == e,
                }
                &&& outcome is Ok && !adds_key(metadata_entries(metadata), self.token()) ==> outcome
                    == Ok::<MetadataMap, Error>(metadata)
            },
    {
        let fitting = match &self.credential {
            None => true,
            Some(token) => {
                proof {
                    lemma_authorization_key();
                }
                metadata_contains_key(&metadata, AUTHORIZATION) || metadata_key_count(&metadata)
                    < KEY_LIMIT || bearer_value(token).is_none()
            },
        };
        if fitting {
            Some(self.intercept(metadata))
        } else {
            None
        }
    }
}

impl Clone for AuthInterceptor {
    /// A second interceptor with the same credential.
    fn clone(&self) -> (r: Self)
        ensures
            r.token() == self.token(),
    {
        AuthInterceptor { credential: self.credential.clone() }
    }
}

/// The metadata value for a token: the bytes of `"Bearer "` and the token,
/// or nothing where the token cannot be carried in metadata.
fn bearer_value(token: &String) -> (r: Option<AsciiValue>)
    ensures
        r is Some <==> credential_ok(token@),
        r matches Some(value) ==> ascii_value_bytes(value) == bearer_bytes(token@),
{
    let mut header = String::from_str("Bearer ");
    header.append(token.as_str());
    let bytes = header.as_str().as_bytes_vec();
    proof {
        lemma_bearer_bytes_ok(token@);
    }
    match ascii_value_from_bytes(bytes) {
        Ok(value) => Some(value),
        Err(_) => None,
    }
}

} // verus!
