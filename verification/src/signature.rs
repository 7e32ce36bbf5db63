//! The signature verifier: the `algorithm=hexdigest` header, the keyed hash
//! of a request body, and the comparison of the two.

use hmac::{Hmac, Mac, NewMac};
use sha1::Sha1;
use vstd::prelude::*;

verus! {

/// The length in bytes of an HMAC-SHA1 code.
pub const SIGNATURE_LEN: usize = 20;

/// The byte `=`, which parts the algorithm token from the digest.
pub const SEPARATOR: u8 = 0x3d;

/// Why a signature header was not accepted.
#[derive(Clone, Copy, Debug, PartialEq, Eq, Structural)]
pub enum SignatureParseError {
    /// No separator, a digit that is not hexadecimal, or a digest of the wrong length.
    Malformed,
    /// The token before the separator names no algorithm that is recognized.
    UnknownAlgorithm,
}

/// The token `sha1`, the one algorithm that is recognized.
pub open spec fn sha1_token() -> Seq<u8> {
    seq![0x73u8, 0x68u8, 0x61u8, 0x31u8]
}

/// Whether `b` is one of `0-9`, `a-f`, `A-F`.
pub open spec fn is_hex_digit(b: u8) -> bool {
    (0x30 <= b <= 0x39) || (0x41 <= b <= 0x46) || (0x61 <= b <= 0x66)
}

/// The value of a hexadecimal digit, in either case.
pub open spec fn hex_digit_value(b: u8) -> int {
    if 0x30 <= b <= 0x39 {
        b - 0x30
    } else if 0x41 <= b <= 0x46 {
        b - 0x41 + 10
    } else {
        b - 0x61 + 10
    }
}

/// Whether `text` is an even number of hexadecimal digits.
pub open spec fn is_hex(text: Seq<u8>) -> bool {
    &&& text.len() % 2 == 0
    &&& forall|i: int| 0 <= i < text.len() ==> is_hex_digit(#[trigger] text[i])
}

/// The bytes that `text` spells, two digits to the byte, the high digit first.
pub open spec fn hex_decoded(text: Seq<u8>) -> Seq<u8> {
    Seq::new(
        text.len() / 2,
        |i: int| (16 * hex_digit_value(text[2 * i]) + hex_digit_value(text[2 * i + 1])) as u8,
    )
}

/// Whether the first separator of `header` stands at index `i`.
pub open spec fn splits_at(header: Seq<u8>, i: int) -> bool {
    &&& 0 <= i < header.len()
    &&& header[i] == SEPARATOR
    &&& forall|j: int| 0 <= j < i ==> header[j] != SEPARATOR
}

/// The index of the first separator of a header that has one.
pub open spec fn split_point(header: Seq<u8>) -> int {
    choose|i: int| splits_at(header, i)
}

/// What stands before the first separator.
pub open spec fn algorithm_token(header: Seq<u8>) -> Seq<u8> {
    header.subrange(0, split_point(header))
}

/// What stands behind the first separator.
pub open spec fn digest_text(header: Seq<u8>) -> Seq<u8> {
    header.subrange(split_point(header) + 1, header.len() as int)
}

/// The digest that a signature header carries, or the reason it carries none.
///
/// The header is split at its first separator. An unrecognized algorithm is
/// reported whatever follows the separator; under a recognized one the digest
/// must be exactly forty hexadecimal digits.
pub open spec fn parsed_signature(header: Seq<u8>) -> Result<Seq<u8>, SignatureParseError> {
    if !header.contains(SEPARATOR) {
        Err(SignatureParseError::Malformed)
    } else if algorithm_token(header) != sha1_token() {
        Err(SignatureParseError::UnknownAlgorithm)
    } else if digest_text(header).len() != 2 * SIGNATURE_LEN || !is_hex(digest_text(header)) {
        Err(SignatureParseError::Malformed)
    } else {
        Ok(hex_decoded(digest_text(header)))
    }
}

/// A header has at most one first separator.
pub proof fn lemma_split_point_unique(header: Seq<u8>, i: int)
    requires
        splits_at(header, i),
    ensures
        split_point(header) == i,
        header.contains(SEPARATOR),
{
    let k = split_point(header);
    assert(splits_at(header, k));
    if k < i {
        assert(header[k] != SEPARATOR);
    }
    if i < k {
        assert(header[i] != SEPARATOR);
    }
}

/// `hex::FromHexError`, the error of the `hex` crate's decoders. It is
/// carried as it comes: nothing is read from it.
#[verifier::external_type_specification]
#[verifier::external_body]
pub struct ExFromHexError(hex::FromHexError);

/// `hex::decode_to_slice` into a buffer of `SIGNATURE_LEN` bytes.
///
/// The call succeeds exactly when `text` is twice as long as the buffer and
/// holds hexadecimal digits only, of either case; the buffer then holds the
/// bytes they spell, each from the digit pair at twice its index. Of the
/// buffer after a failure nothing is claimed.
#[verifier::external_body]
fn decode_hex(text: &[u8], out: &mut [u8; SIGNATURE_LEN]) -> (r: Result<(), hex::FromHexError>)
    ensures
        r.is_ok() == (text@.len() == 2 * SIGNATURE_LEN && is_hex(text@)),
        r.is_ok() ==> final(out)@ == hex_decoded(text@),
{
    hex::decode_to_slice(text, out)
}

/// Whether `token` is the four bytes `sha1`.
fn is_sha1(token: &[u8]) -> (b: bool)
    ensures
        b == (token@ == sha1_token()),
{
    let b = token.len() == 4 && token[0] == 0x73 && token[1] == 0x68 && token[2] == 0x61
        && token[3] == 0x31;
    proof {
        if b {
            assert(token@ =~= sha1_token());
        } else if token@.len() == 4 {
            assert(sha1_token()[0] == 0x73u8 && sha1_token()[1] == 0x68u8 && sha1_token()[2]
                == 0x61u8 && sha1_token()[3] == 0x31u8);
        } else {
            assert(sha1_token().len() == 4);
        }
    }
    b
}

/// Reads a signature header of the form `algorithm=hexdigest`.
///
/// Returns the digest's bytes where the algorithm is `sha1` and the digest is
/// forty hexadecimal digits, and says otherwise which of the two was wrong.
pub fn parse_signature_header(header: &[u8]) -> (r: Result<
    [u8; SIGNATURE_LEN],
    SignatureParseError,
>)
    ensures
        match r {
            Ok(signature) => parsed_signature(header@) == Ok::<Seq<u8>, SignatureParseError>(
                signature@,
            ),
            Err(e) => parsed_signature(header@) == Err::<Seq<u8>, SignatureParseError>(e),
        },
{
    let n = header.len();
    let mut i: usize = 0;
    while i < n && header[i] != SEPARATOR
        invariant
            i <= n,
            n == header@.len(),
            forall|j: int| 0 <= j < i ==> header@[j] != SEPARATOR,
        decreases n - i,
    {
        i += 1;
    }
    if i == n {
        return Err(SignatureParseError::Malformed);
    }
    proof {
        lemma_split_point_unique(header@, i as int);
    }
    let token = vstd::slice::slice_subrange(header, 0, i);
    let digits = vstd::slice::slice_subrange(header, i + 1, n);
    if !is_sha1(token) {
        return Err(SignatureParseError::UnknownAlgorithm);
    }
    let mut signature = [0u8; SIGNATURE_LEN];
    match decode_hex(digits, &mut signature) {
        Ok(()) => Ok(signature),
        Err(_) => Err(SignatureParseError::Malformed),
    }
}

/// The HMAC-SHA1 code of `message` under `key`, as the `hmac` and `sha1`
/// crates compute it. It is a function of the two byte strings alone.
pub uninterp spec fn hmac_sha1(key: Seq<u8>, message: Seq<u8>) -> Seq<u8>;

/// `Hmac::<Sha1>`: `new_varkey` on `key`, one `update` with `message`, then
/// `finalize` and `into_bytes`.
///
/// The claim is that the code depends on the key and the message only, and so
/// is the named value. `new_varkey` accepts a key of any length, so it is
/// unwrapped; the twenty bytes of the result are those of SHA-1's output.
#[verifier::external_body]
fn compute_hmac_sha1(key: &[u8], message: &[u8]) -> (code: [u8; SIGNATURE_LEN])
    ensures
        code@ == hmac_sha1(key@, message@),
{
    let mut mac = Hmac::<Sha1>::new_varkey(key).unwrap();
    mac.update(message);
    mac.finalize().into_bytes().into()
}

/// Whether two codes are the same, byte for byte.
///
/// Every byte of both is read whatever the result, so that the time taken
/// does not tell how long a common prefix they have.
pub fn digests_equal(a: &[u8; SIGNATURE_LEN], b: &[u8; SIGNATURE_LEN]) -> (same: bool)
    ensures
        same == (a@ == b@),
{
    let mut difference: u8 = 0;
    let mut i: usize = 0;
    while i < SIGNATURE_LEN
        invariant
            i <= SIGNATURE_LEN,
            (difference == 0) == (forall|j: int| 0 <= j < i ==> a@[j] == b@[j]),
        decreases SIGNATURE_LEN - i,
    {
        let x: u8 = a[i];
        let y: u8 = b[i];
        assert(((difference | (x ^ y)) == 0) == (difference == 0 && x == y)) by (bit_vector);
        difference = difference | (x ^ y);
        i += 1;
    }
    proof {
        if difference == 0 {
            assert(a@ =~= b@);
        }
    }
    difference == 0
}

/// Whether `expected` is the code of `body` under `secret`.
pub fn authenticate(secret: &[u8], body: &[u8], expected: &[u8; SIGNATURE_LEN]) -> (genuine: bool)
    ensures
        genuine == (hmac_sha1(secret@, body@) == expected@),
{
    let code = compute_hmac_sha1(secret, body);
    digests_equal(&code, expected)
}

/// What the verifier finds of a request.
#[derive(Clone, Copy, Debug, PartialEq, Eq, Structural)]
pub enum Verdict {
    /// The header's digest is the code of the body.
    Valid,
    /// The header is well formed and its digest is not the code of the body.
    Mismatch,
    /// The header has no separator, or its digest is not forty hexadecimal digits.
    MalformedHeader,
    /// The header names an algorithm other than `sha1`.
    UnsupportedAlgorithm,
}

/// The verdict on a header, given the code that the body has under the secret.
pub open spec fn verdict_of(header: Seq<u8>, code: Seq<u8>) -> Verdict {
    match parsed_signature(header) {
        Err(SignatureParseError::Malformed) => Verdict::MalformedHeader,
        Err(SignatureParseError::UnknownAlgorithm) => Verdict::UnsupportedAlgorithm,
        Ok(expected) => if expected == code {
            Verdict::Valid
        } else {
            Verdict::Mismatch
        },
    }
}

/// Judges a header against a code that was computed already.
pub fn judge(header: &[u8], code: &[u8; SIGNATURE_LEN]) -> (verdict: Verdict)
    ensures
        verdict == verdict_of(header@, code@),
{
    match parse_signature_header(header) {
        Err(SignatureParseError::Malformed) => Verdict::MalformedHeader,
        Err(SignatureParseError::UnknownAlgorithm) => Verdict::UnsupportedAlgorithm,
        Ok(expected) => if digests_equal(&expected, code) {
            Verdict::Valid
        } else {
            Verdict::Mismatch
        },
    }
}

/// Judges a header against the body that it is meant to sign: the header's
/// digest must be the HMAC-SHA1 code of `body` under `secret`.
pub fn verify(header: &[u8], secret: &[u8], body: &[u8]) -> (verdict: Verdict)
    ensures
        verdict == verdict_of(header@, hmac_sha1(secret@, body@)),
{
    match parse_signature_header(header) {
        Err(SignatureParseError::Malformed) => Verdict::MalformedHeader,
        Err(SignatureParseError::UnknownAlgorithm) => Verdict::UnsupportedAlgorithm,
        Ok(expected) => if authenticate(secret, body, &expected) {
            Verdict::Valid
        } else {
            Verdict::Mismatch
        },
    }
}

} // verus!
