//! Authentication utilities for Langfuse.

use crate::base64::{base64_bytes, base64_encode, base64_text, lemma_base64_round_trip};
use crate::constants::{ENV_LANGFUSE_PUBLIC_KEY, ENV_LANGFUSE_SECRET_KEY};
use crate::environment::Environment;
use crate::error::Error;
use crate::text::{concat, concat3, lemma_split_at_first, split_at_first};
use vstd::prelude::*;
use vstd::utf8::{decode_utf8, encode_utf8, encode_utf8_decode_utf8, encode_utf8_valid_utf8, valid_utf8};

verus! {

/// The scheme with which every header value built here begins.
pub const BASIC_PREFIX: &'static str = "Basic ";

/// The header value for a key pair: the scheme, then the base64 text of the
/// UTF-8 bytes of `public:secret`.
pub open spec fn auth_header(public_key: Seq<char>, secret_key: Seq<char>) -> Seq<char> {
    BASIC_PREFIX@ + base64_text(encode_utf8(public_key + ":"@ + secret_key))
}

/// The key pair that a header value carries, read back from it: the text
/// after the scheme is decoded from base64 and from UTF-8, and split at the
/// first colon.
pub open spec fn credentials_of(header: Seq<char>) -> Option<(Seq<char>, Seq<char>)> {
    if BASIC_PREFIX@.is_prefix_of(header) {
        match base64_bytes(header.skip(BASIC_PREFIX@.len() as int)) {
            Some(bytes) => if valid_utf8(bytes) {
                split_at_first(decode_utf8(bytes), ':')
            } else {
                None
            },
            None => None,
        }
    } else {
        None
    }
}

/// Builds a Langfuse authentication header value from public and secret keys.
///
/// The keys are joined by a colon, the UTF-8 bytes of the result are encoded
/// in base64, and the text is returned behind `Basic `.
pub fn build_auth_header(public_key: &str, secret_key: &str) -> (header: String)
    ensures
        header@ == auth_header(public_key@, secret_key@),
{
    let auth_string = concat3(public_key, ":", secret_key);
    let encoded = base64_encode(auth_string.as_str().as_bytes());
    concat(BASIC_PREFIX, encoded.as_str())
}

/// The header value that the Langfuse keys of an environment give, or the
/// name of the first of the two variables that is not set.
pub open spec fn auth_header_of_env(env: Environment) -> Result<Seq<char>, Seq<char>> {
    match (env.langfuse_public_key, env.langfuse_secret_key) {
        (Some(public_key), Some(secret_key)) => Ok(auth_header(public_key@, secret_key@)),
        (None, _) => Err(ENV_LANGFUSE_PUBLIC_KEY@),
        (Some(_), None) => Err(ENV_LANGFUSE_SECRET_KEY@),
    }
}

/// Builds a Langfuse authentication header value from the keys that the
/// environment holds.
///
/// Fails with `MissingEnvironmentVariable` if `LANGFUSE_PUBLIC_KEY` or
/// `LANGFUSE_SECRET_KEY` is not set, naming the public key where both are
/// missing.
pub fn build_auth_header_from_env(env: &Environment) -> (result: Result<String, Error>)
    ensures
        match auth_header_of_env(*env) {
            Ok(header) => result matches Ok(value) && value@ == header,
            Err(variable) => result matches Err(Error::MissingEnvironmentVariable(name))
                && name@ == variable,
        },
{
    match &env.langfuse_public_key {
        None => Err(Error::MissingEnvironmentVariable(ENV_LANGFUSE_PUBLIC_KEY)),
        Some(public_key) => match &env.langfuse_secret_key {
            None => Err(Error::MissingEnvironmentVariable(ENV_LANGFUSE_SECRET_KEY)),
            Some(secret_key) => Ok(build_auth_header(public_key.as_str(), secret_key.as_str())),
        },
    }
}

/// The header value of a key pair carries the pair: read back from the
/// header, it is the pair that went in. The public key must hold no colon,
/// since the first colon is where the pair is split.
pub proof fn lemma_auth_header_round_trip(public_key: Seq<char>, secret_key: Seq<char>)
    requires
        !public_key.contains(':'),
    ensures
        credentials_of(auth_header(public_key, secret_key)) == Some((public_key, secret_key)),
{
    reveal_strlit(":");
    let joined = public_key + ":"@ + secret_key;
    let bytes = encode_utf8(joined);
    let header = auth_header(public_key, secret_key);
    assert(header.skip(BASIC_PREFIX@.len() as int) =~= base64_text(bytes));
    lemma_base64_round_trip(bytes);
    encode_utf8_valid_utf8(joined);
    encode_utf8_decode_utf8(joined);
    assert(":"@ =~= seq![':']);
    lemma_split_at_first(public_key, ':', secret_key);
}

} // verus!
