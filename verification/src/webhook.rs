//! Checking that a request was signed by who knows the secret: the tag of
//! the request is `sha256=` and, in hexadecimal, the HMAC-SHA256 of the
//! payload under the secret.

use vstd::prelude::*;
use vstd::slice::slice_subrange;
use vstd::string::StringSliceAdditionalSpecFns;

verus! {

/// Why a request is not accepted as signed.
#[derive(Debug, Clone)]
pub enum WebhookVerificationError {
    /// The request has no tag.
    MissingTag,
    /// The tag is not the signature of the payload.
    InvalidTag { tag: Vec<u8> },
}

/// Why a request is not accepted as signed, with the bytes of its tag.
pub enum VerificationFault {
    MissingTag,
    InvalidTag { tag: Seq<u8> },
}

impl View for WebhookVerificationError {
    type V = VerificationFault;

    open spec fn view(&self) -> VerificationFault {
        match *self {
            WebhookVerificationError::MissingTag => VerificationFault::MissingTag,
            WebhookVerificationError::InvalidTag { tag } => VerificationFault::InvalidTag {
                tag: tag@,
            },
        }
    }
}

pub type WebhookVerificationResult<T> = Result<T, WebhookVerificationError>;

/// Why a request failed.
#[derive(Debug, Clone)]
pub enum RequestError {
    WebhookVerification(WebhookVerificationError),
    InternalError,
}

pub type RequestResult<T> = Result<T, RequestError>;

impl RequestError {
    /// The error that a failed verification is for a request.
    pub fn from_verification(error: WebhookVerificationError) -> (wrapped: Self)
        ensures
            wrapped == RequestError::WebhookVerification(error),
    {
        RequestError::WebhookVerification(error)
    }

    /// The status with which the request is answered: 400 without a tag,
    /// 401 with a tag that is not the signature, 500 for a failure within.
    pub fn status_code(&self) -> (code: u16)
        ensures
            code == match *self {
                RequestError::WebhookVerification(WebhookVerificationError::MissingTag) => 400u16,
                RequestError::WebhookVerification(
                    WebhookVerificationError::InvalidTag { .. },
                ) => 401u16,
                RequestError::InternalError => 500u16,
            },
    {
        match self {
            RequestError::WebhookVerification(e) => match e {
                WebhookVerificationError::MissingTag => 400,
                WebhookVerificationError::InvalidTag { .. } => 401,
            },
            RequestError::InternalError => 500,
        }
    }
}

/// The value of a hexadecimal digit, of either case.
pub open spec fn hex_digit(c: u8) -> Option<int> {
    if 48 <= c <= 57 {
        Some(c - 48)
    } else if 65 <= c <= 70 {
        Some(c - 65 + 10)
    } else if 97 <= c <= 102 {
        Some(c - 97 + 10)
    } else {
        None
    }
}

/// The bytes that `data` is the hexadecimal writing of: two digits a byte,
/// the higher first. There are none if the length is odd or if some
/// character is not a hexadecimal digit.
pub open spec fn hex_decoded(data: Seq<u8>) -> Option<Seq<u8>> {
    if data.len() % 2 != 0 || exists|i: int| 0 <= i < data.len() && hex_digit(data[i]) is None {
        None
    } else {
        Some(
            Seq::new(
                (data.len() / 2) as nat,
                |i: int| (hex_digit(data[2 * i])->0 * 16 + hex_digit(data[2 * i + 1])->0) as u8,
            ),
        )
    }
}

/// The bytes of an optional vector.
pub open spec fn bytes_of(bytes: Option<Vec<u8>>) -> Option<Seq<u8>> {
    match bytes {
        Some(bytes) => Some(bytes@),
        None => None,
    }
}

/// The bytes that `data` is the hexadecimal writing of.
///
/// Calls `hex::decode`, which refuses a text of odd length and any
/// character that is not a hexadecimal digit of either case, and otherwise
/// makes one byte of each two digits, the higher first.
#[verifier::external_body]
fn hex_decode(data: &[u8]) -> (decoded: Option<Vec<u8>>)
    ensures
        bytes_of(decoded) == hex_decoded(data@),
{
    hex::decode(data).ok()
}

/// Whether `tag` is the HMAC-SHA256 of `payload` under the key `secret`.
pub uninterp spec fn hmac_sha256_verifies(secret: Seq<u8>, payload: Seq<u8>, tag: Seq<u8>) -> bool;

/// The longest key, in bytes, that is ever handed to the digest: one
/// longer could not be hashed down to a block.
pub const MAX_SECRET_LEN: u64 = 0x1000_0000_0000_0000;

/// Whether `tag` is the HMAC-SHA256 of `payload` under the key `secret`.
///
/// Makes a key with `ring::hmac::Key::new` for `HMAC_SHA256` and calls
/// `ring::hmac::verify`, which computes the tag of the payload and
/// compares it with `tag` in constant time. The result is named, not
/// stated. Making the key fails, by a panic, only for a secret too long to
/// be hashed, which `requires` leaves out.
#[verifier::external_body]
fn hmac_sha256_verify(secret: &[u8], payload: &[u8], tag: &[u8]) -> (ok: bool)
    requires
        secret@.len() < MAX_SECRET_LEN,
    ensures
        ok == hmac_sha256_verifies(secret@, payload@, tag@),
{
    let key = ring::hmac::Key::new(ring::hmac::HMAC_SHA256, secret);
    ring::hmac::verify(&key, payload, tag).is_ok()
}

/// The bytes of `sha256=`, with which a tag begins.
pub open spec fn tag_prefix() -> Seq<u8> {
    seq![115u8, 104u8, 97u8, 50u8, 53u8, 54u8, 61u8]
}

/// The signature that a tag carries: what follows `sha256=`, read as
/// hexadecimal. A tag that begins otherwise, or goes on otherwise, carries
/// none.
pub open spec fn signature_of(tag: Seq<u8>) -> Option<Seq<u8>> {
    if tag_prefix().is_prefix_of(tag) {
        hex_decoded(tag.skip(7))
    } else {
        None
    }
}

/// Whether `tag` begins with `sha256=`.
fn has_tag_prefix(tag: &[u8]) -> (has: bool)
    ensures
        has == tag_prefix().is_prefix_of(tag@),
{
    if tag.len() < 7 {
        return false;
    }
    let has = tag[0] == 115 && tag[1] == 104 && tag[2] == 97 && tag[3] == 50 && tag[4] == 53
        && tag[5] == 54 && tag[6] == 61;
    proof {
        if has {
            assert(tag_prefix() =~= tag@.subrange(0, 7));
        } else {
            if tag_prefix().is_prefix_of(tag@) {
                assert(tag@.subrange(0, 7) == tag_prefix());
                assert(forall|i: int| 0 <= i < 7 ==> tag@[i] == tag@.subrange(0, 7)[i]);
            }
        }
    }
    has
}

/// The signature that `tag` carries.
pub fn tag_signature(tag: &[u8]) -> (signature: Option<Vec<u8>>)
    ensures
        bytes_of(signature) == signature_of(tag@),
{
    if !has_tag_prefix(tag) {
        return None;
    }
    let digits = slice_subrange(tag, 7, tag.len());
    assert(digits@ =~= tag@.skip(7));
    hex_decode(digits)
}

/// What is said of a request with the tag `tag` once its signature was
/// held against the payload: accepted if it `verifies`, and refused with
/// the tag if not.
pub fn tag_verdict(tag: &[u8], verifies: bool) -> (verdict: WebhookVerificationResult<()>)
    ensures
        verifies ==> verdict is Ok,
        !verifies ==> verdict is Err && verdict->Err_0@ == (VerificationFault::InvalidTag {
            tag: tag@,
        }),
{
    if verifies {
        Ok(())
    } else {
        Err(WebhookVerificationError::InvalidTag { tag: vstd::slice::slice_to_vec(tag) })
    }
}

/// What is said of a request. Without a secret every request is accepted.
/// With one, the request needs a tag, the tag must carry a signature, and
/// the signature must be that of the payload under the secret.
pub open spec fn request_verdict(
    secret: Option<Seq<u8>>,
    payload: Seq<u8>,
    tag: Option<Seq<u8>>,
) -> Result<(), VerificationFault> {
    match secret {
        None => Ok(()),
        Some(secret) => match tag {
            None => Err(VerificationFault::MissingTag),
            Some(tag) => match signature_of(tag) {
                None => Err(VerificationFault::InvalidTag { tag }),
                Some(signature) => if secret.len() < MAX_SECRET_LEN && hmac_sha256_verifies(
                    secret,
                    payload,
                    signature,
                ) {
                    Ok(())
                } else {
                    Err(VerificationFault::InvalidTag { tag })
                },
            },
        },
    }
}

/// Checks that the request with the body `payload` and the tag `tag` was
/// signed with `secret`.
pub fn verify_github_request(secret: Option<&str>, payload: &[u8], tag: Option<&[u8]>) -> (verdict:
    WebhookVerificationResult<()>)
    ensures
        match request_verdict(
            match secret {
                Some(secret) => Some(secret.spec_bytes()),
                None => None,
            },
            payload@,
            match tag {
                Some(tag) => Some(tag@),
                None => None,
            },
        ) {
            Ok(_) => verdict is Ok,
            Err(fault) => verdict is Err && verdict->Err_0@ == fault,
        },
{
    let secret = match secret {
        Some(secret) => secret.as_bytes(),
        None => {
            return Ok(());
        },
    };
    let tag = match tag {
        Some(tag) => tag,
        None => {
            return Err(WebhookVerificationError::MissingTag);
        },
    };
    let signature = match tag_signature(tag) {
        Some(signature) => signature,
        None => {
            return tag_verdict(tag, false);
        },
    };
    if secret.len() as u64 >= MAX_SECRET_LEN {
        return tag_verdict(tag, false);
    }
    tag_verdict(tag, hmac_sha256_verify(secret, payload, signature.as_slice()))
}

} // verus!
