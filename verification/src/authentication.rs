//! Who asks for a publication: credentials taken from the `Authorization`
//! header, and their check against the stored password hash.

use crate::error::{failure_of, AuthError, StorageContext, StorageError, StorageFault};
use crate::routes::newsletter::{PublishError, PublishFailure};
use crate::store::{EditorRecord, EditorRow};
use crate::text::{push_char, string_from_utf8};
use argon2::{Argon2, PasswordHash, PasswordVerifier};
use vstd::prelude::*;
use vstd::slice::slice_subrange;
use vstd::utf8::{decode_utf8, valid_utf8};

verus! {

/// A username and the password presented with it.
#[derive(Debug, PartialEq, Eq)]
pub struct Credentials {
    pub username: String,
    pub password: String,
}

/// The bytes that a header value may hold to count as text: visible ASCII
/// and the tab.
pub open spec fn is_visible_ascii(b: u8) -> bool {
    (32 <= b && b < 127) || b == 9
}

/// Whether every byte of the header value `v` is visible ASCII.
pub open spec fn is_header_text(v: Seq<u8>) -> bool {
    forall|i: int| 0 <= i < v.len() ==> is_visible_ascii(#[trigger] v[i])
}

/// The bytes of `Basic `, the scheme and the space after it.
pub open spec fn basic_prefix() -> Seq<u8> {
    seq![66u8, 97u8, 115u8, 105u8, 99u8, 32u8]
}

/// Whether the header value `v` starts with `Basic `.
pub open spec fn has_basic_scheme(v: Seq<u8>) -> bool {
    v.len() >= 6 && v.take(6) == basic_prefix()
}

/// The bytes that `input` is the standard base64 encoding of, if it is
/// such an encoding at all.
pub uninterp spec fn base64_decoded(input: Seq<u8>) -> Option<Seq<u8>>;

/// Whether `k` is the place of the first colon of `s`.
pub open spec fn first_colon_at(s: Seq<char>, k: int) -> bool {
    &&& 0 <= k < s.len()
    &&& s[k] == ':'
    &&& forall|j: int| 0 <= j < k ==> s[j] != ':'
}

/// The username and the password in the decoded bytes of a `Basic`
/// header: UTF-8 text that the first colon divides.
pub open spec fn credentials_in(decoded: Seq<u8>) -> Result<(Seq<char>, Seq<char>), AuthError> {
    if !valid_utf8(decoded) {
        Err(AuthError::CredentialsNotUtf8)
    } else {
        let text = decode_utf8(decoded);
        if exists|k: int| first_colon_at(text, k) {
            let k = choose|k: int| first_colon_at(text, k);
            Ok((text.take(k), text.skip(k + 1)))
        } else {
            Err(AuthError::MissingPassword)
        }
    }
}

/// What a `Basic` header value gives once its base64 part was decoded to
/// `decoded`, or found not to be base64.
pub open spec fn credentials_of_decoding(decoded: Option<Seq<u8>>) -> Result<
    (Seq<char>, Seq<char>),
    AuthError,
> {
    match decoded {
        None => Err(AuthError::InvalidBase64),
        Some(bytes) => credentials_in(bytes),
    }
}

/// The credentials that the value of an `Authorization` header carries,
/// or the reason why it carries none.
pub open spec fn credentials_of_header(header: Option<Seq<u8>>) -> Result<
    (Seq<char>, Seq<char>),
    AuthError,
> {
    match header {
        None => Err(AuthError::MissingHeader),
        Some(value) => if !is_header_text(value) {
            Err(AuthError::HeaderNotText)
        } else if !has_basic_scheme(value) {
            Err(AuthError::NotBasicScheme)
        } else {
            credentials_of_decoding(base64_decoded(value.skip(6)))
        },
    }
}

/// Whether `outcome` is the result `expected`, the credentials compared by
/// what they hold.
pub open spec fn credentials_match(
    outcome: Result<Credentials, AuthError>,
    expected: Result<(Seq<char>, Seq<char>), AuthError>,
) -> bool {
    match outcome {
        Ok(credentials) => expected == Ok::<(Seq<char>, Seq<char>), AuthError>(
            (credentials.username@, credentials.password@),
        ),
        Err(reason) => expected == Err::<(Seq<char>, Seq<char>), AuthError>(reason),
    }
}

/// The error type of base64's decoder.
#[verifier::external_type_specification]
#[verifier::external_body]
pub struct ExDecodeError(base64::DecodeError);

/// `base64::decode` of base64: trusted to decode `input` with the standard
/// alphabet, and to fail exactly when `input` is no such encoding.
#[verifier::external_body]
fn decode_base64(input: &[u8]) -> (r: Result<Vec<u8>, base64::DecodeError>)
    ensures
        r matches Ok(bytes) ==> base64_decoded(input@) == Some(bytes@),
        r is Err ==> base64_decoded(input@) is None,
{
    base64::decode(input)
}

fn header_is_text(value: &[u8]) -> (b: bool)
    ensures
        b == is_header_text(value@),
{
    let mut i: usize = 0;
    while i < value.len()
        invariant
            0 <= i <= value.len(),
            forall|j: int| 0 <= j < i ==> is_visible_ascii(#[trigger] value@[j]),
        decreases value.len() - i,
    {
        let b = value[i];
        if !((32 <= b && b < 127) || b == 9) {
            return false;
        }
        i += 1;
    }
    true
}

fn starts_with_basic(value: &[u8]) -> (b: bool)
    ensures
        b == has_basic_scheme(value@),
{
    if value.len() < 6 {
        return false;
    }
    let matches = value[0] == 66 && value[1] == 97 && value[2] == 115 && value[3] == 105
        && value[4] == 99 && value[5] == 32;
    proof {
        let head = value@.take(6);
        if matches {
            assert(head =~= basic_prefix());
        } else {
            assert(head[0] == value@[0] && head[1] == value@[1] && head[2] == value@[2]
                && head[3] == value@[3] && head[4] == value@[4] && head[5] == value@[5]);
            assert(basic_prefix()[0] == 66 && basic_prefix()[1] == 97 && basic_prefix()[2] == 115
                && basic_prefix()[3] == 105 && basic_prefix()[4] == 99 && basic_prefix()[5]
                == 32);
        }
    }
    matches
}

/// Splits `text` at its first colon into a username and a password.
pub fn split_credentials(text: &str) -> (r: Option<Credentials>)
    ensures
        r is Some <==> exists|k: int| first_colon_at(text@, k),
        r matches Some(credentials) ==> exists|k: int|
            first_colon_at(text@, k) && credentials.username@ == text@.take(k)
                && credentials.password@ == text@.skip(k + 1),
{
    let mut username = String::new();
    let mut password = String::new();
    let mut seen = false;
    let ghost mut at: int = 0;
    for c in it: text.chars()
        invariant
            it.seq() == text@,
            !seen ==> username@ == text@.take(it.index() as int) && password@.len() == 0
                && forall|j: int| 0 <= j < it.index() ==> text@[j] != ':',
            seen ==> first_colon_at(text@, at) && at < it.index() && username@ == text@.take(at)
                && password@ == text@.subrange(at + 1, it.index() as int),
    {
        if seen {
            push_char(&mut password, c);
            assert(text@.subrange(at + 1, it.index() + 1) =~= text@.subrange(
                at + 1,
                it.index() as int,
            ).push(c));
        } else if c == ':' {
            seen = true;
            proof {
                at = it.index() as int;
                assert(text@.subrange(at + 1, at + 1) =~= Seq::<char>::empty());
            }
        } else {
            push_char(&mut username, c);
            assert(text@.take(it.index() + 1) =~= text@.take(it.index() as int).push(c));
        }
    }
    if seen {
        proof {
            assert(text@.subrange(at + 1, text@.len() as int) =~= text@.skip(at + 1));
        }
        Some(Credentials { username, password })
    } else {
        None
    }
}

/// Reads the credentials out of the decoded bytes of a `Basic` header.
pub fn credentials_from_decoded(decoded: Vec<u8>) -> (r: Result<Credentials, AuthError>)
    ensures
        credentials_match(r, credentials_in(decoded@)),
{
    let text = match string_from_utf8(decoded) {
        Ok(text) => text,
        Err(_) => {
            return Err(AuthError::CredentialsNotUtf8);
        },
    };
    match split_credentials(text.as_str()) {
        Some(credentials) => {
            proof {
                let k = choose|k: int| first_colon_at(text@, k);
                let k2 = choose|k: int|
                    first_colon_at(text@, k) && credentials.username@ == text@.take(k)
                        && credentials.password@ == text@.skip(k + 1);
                assert(k == k2);
            }
            Ok(credentials)
        },
        None => Err(AuthError::MissingPassword),
    }
}

/// Reads the credentials out of the value of the `Authorization` header,
/// if the request has one: it must be text, name the `Basic` scheme, and
/// carry base64 of `username:password`.
pub fn basic_authentication(header: Option<&[u8]>) -> (r: Result<Credentials, AuthError>)
    ensures
        credentials_match(
            r,
            credentials_of_header(
                match header {
                    Some(value) => Some(value@),
                    None => None,
                },
            ),
        ),
{
    let value = match header {
        Some(value) => value,
        None => {
            return Err(AuthError::MissingHeader);
        },
    };
    if !header_is_text(value) {
        return Err(AuthError::HeaderNotText);
    }
    if !starts_with_basic(value) {
        return Err(AuthError::NotBasicScheme);
    }
    let segment = slice_subrange(value, 6, value.len());
    assert(segment@ =~= value@.skip(6));
    match decode_base64(segment) {
        Ok(decoded) => credentials_from_decoded(decoded),
        Err(_) => Err(AuthError::InvalidBase64),
    }
}

/// Whether `hash` is a password hash in the PHC string format.
pub uninterp spec fn phc_well_formed(hash: Seq<char>) -> bool;

/// Whether Argon2, run with the parameters and the salt that the PHC string
/// `hash` names, turns `password` into the output that `hash` holds.
pub uninterp spec fn argon2_accepts(hash: Seq<char>, password: Seq<char>) -> bool;

/// The error type of argon2's password hashes.
#[verifier::external_type_specification]
#[verifier::external_body]
pub struct ExPasswordHashError(argon2::password_hash::Error);

/// `PasswordHash::new` of argon2: trusted to succeed exactly on the texts
/// in the PHC string format.
#[verifier::external_body]
fn parse_phc(hash: &str) -> (r: Result<(), argon2::password_hash::Error>)
    ensures
        r is Ok <==> phc_well_formed(hash@),
{
    PasswordHash::new(hash).map(|_| ())
}

/// `verify_password` of argon2, on the default `Argon2` and the parsed
/// `hash`: trusted to succeed exactly when `password` hashes to `hash`.
#[verifier::external_body]
fn argon2_verify(hash: &str, password: &str) -> (r: Result<(), argon2::password_hash::Error>)
    requires
        phc_well_formed(hash@),
    ensures
        r is Ok <==> argon2_accepts(hash@, password@),
{
    Argon2::default().verify_password(password.as_bytes(), &PasswordHash::new(hash)?)
}

/// The failure that reports a stored hash which is no PHC string.
pub open spec fn malformed_hash() -> PublishFailure {
    PublishFailure::Storage(
        StorageFault { context: StorageContext::ParseStoredHash, cause: Seq::<char>::empty() },
    )
}

/// The verdict on a password, given whether the stored hash is well formed
/// and whether it accepts the password.
pub open spec fn password_verdict(well_formed: bool, accepted: bool) -> Result<(), PublishFailure> {
    if !well_formed {
        Err(malformed_hash())
    } else if !accepted {
        Err(PublishFailure::Auth(AuthError::InvalidPassword))
    } else {
        Ok(())
    }
}

/// Judges a password by whether the stored hash is well formed and
/// whether it accepts the password: a hash that is no PHC string is a
/// fault of the store, a hash that does not accept the password a failed
/// authentication.
pub fn judge_password(well_formed: bool, accepted: bool) -> (r: Result<(), PublishError>)
    ensures
        failure_of(r) == password_verdict(well_formed, accepted),
{
    if !well_formed {
        Err(
            PublishError::StorageError(
                StorageError { context: StorageContext::ParseStoredHash, cause: String::new() },
            ),
        )
    } else if !accepted {
        Err(PublishError::AuthError(AuthError::InvalidPassword))
    } else {
        Ok(())
    }
}

/// Checks the password `password_candidate` against the PHC string
/// `expected_password_hash`.
pub fn verify_password_hash(expected_password_hash: &str, password_candidate: &str) -> (r: Result<
    (),
    PublishError,
>)
    ensures
        failure_of(r) == password_verdict(
            phc_well_formed(expected_password_hash@),
            argon2_accepts(expected_password_hash@, password_candidate@),
        ),
{
    match parse_phc(expected_password_hash) {
        Ok(_) => {
            let accepted = argon2_verify(expected_password_hash, password_candidate).is_ok();
            judge_password(true, accepted)
        },
        Err(_) => judge_password(false, false),
    }
}

/// Whom the credentials authenticate, given the editor that the store
/// holds under their username, if any.
pub open spec fn editor_verdict(stored: Option<EditorRow>, password: Seq<char>) -> Result<
    u128,
    PublishFailure,
> {
    match stored {
        None => Err(PublishFailure::Auth(AuthError::UnknownUsername)),
        Some(row) => match password_verdict(
            phc_well_formed(row.password_hash),
            argon2_accepts(row.password_hash, password),
        ) {
            Ok(_) => Ok(row.user_id),
            Err(failure) => Err(failure),
        },
    }
}

/// Authenticates `credentials` against `stored`, the editor found under
/// their username: an unknown username and a wrong password both fail the
/// authentication, and a match yields the editor's id.
pub fn validate_credentials(stored: Option<&EditorRecord>, credentials: &Credentials) -> (r: Result<
    u128,
    PublishError,
>)
    ensures
        failure_of(r) == editor_verdict(
            match stored {
                Some(row) => Some(row@),
                None => None,
            },
            credentials.password@,
        ),
{
    let row = match stored {
        Some(row) => row,
        None => {
            return Err(PublishError::AuthError(AuthError::UnknownUsername));
        },
    };
    match verify_password_hash(row.password_hash.as_str(), credentials.password.as_str()) {
        Ok(_) => Ok(row.user_id),
        Err(error) => Err(error),
    }
}

} // verus!
