use vstd::prelude::*;
use crate::text::concat2;

verus! {

// ---------------------------------------------------------------------------
// Hex digits and hex decoding
// ---------------------------------------------------------------------------

/// A lowercase hexadecimal digit.
pub open spec fn is_hex_digit(c: char) -> bool {
    (48 <= c as u32 && c as u32 <= 57) || (97 <= c as u32 && c as u32 <= 102)
}

/// Every character of the sequence is a lowercase hexadecimal digit.
pub open spec fn is_hex_seq(s: Seq<char>) -> bool {
    forall|i: int| 0 <= i < s.len() ==> is_hex_digit(#[trigger] s[i])
}

/// The numeric value of a lowercase hexadecimal digit.
pub open spec fn hex_val(c: char) -> u8 {
    if 48 <= c as u32 && c as u32 <= 57 {
        (c as u32 - 48) as u8
    } else {
        (c as u32 - 97 + 10) as u8
    }
}

/// The bytes that a string of hexadecimal digit pairs spells, two digits to
/// a byte, high nibble first.
pub open spec fn bytes_of_hex(s: Seq<char>) -> Seq<u8>
    decreases s.len(),
{
    if s.len() < 2 {
        seq![]
    } else {
        seq![(hex_val(s[0]) * 16 + hex_val(s[1])) as u8] + bytes_of_hex(s.skip(2))
    }
}

/// The numeric value of one hexadecimal digit, or `None` for any other
/// character.
fn hex_digit_value(c: char) -> (r: Option<u8>)
    ensures
        match r {
            Some(v) => is_hex_digit(c) && v == hex_val(c),
            None => !is_hex_digit(c),
        },
{
    let u = c as u32;
    if 48 <= u && u <= 57 {
        Some((u - 48) as u8)
    } else if 97 <= u && u <= 102 {
        Some((u - 97 + 10) as u8)
    } else {
        None
    }
}

/// Decodes a string of hexadecimal digit pairs into the bytes it spells.
/// Returns `None` when the length is odd or a character is not a lowercase
/// hexadecimal digit.
pub fn hex_to_bytes(s: &str) -> (r: Option<Vec<u8>>)
    ensures
        is_hex_seq(s@) && s@.len() % 2 == 0 ==> (r matches Some(v) && v@ == bytes_of_hex(s@)),
        r matches Some(v) ==> v@ == bytes_of_hex(s@),
{
    let n = s.unicode_len();
    if n % 2 != 0 {
        return None;
    }
    let mut out: Vec<u8> = Vec::new();
    let mut i: usize = 0;
    proof {
        assert(s@.skip(0) == s@);
    }
    while i < n
        invariant
            n == s@.len(),
            n % 2 == 0,
            i % 2 == 0,
            i <= n,
            bytes_of_hex(s@) == out@ + bytes_of_hex(s@.skip(i as int)),
        decreases n - i,
    {
        let hi = match hex_digit_value(s.get_char(i)) {
            Some(v) => v,
            None => {
                return None;
            },
        };
        let lo = match hex_digit_value(s.get_char(i + 1)) {
            Some(v) => v,
            None => {
                return None;
            },
        };
        let b: u8 = hi * 16 + lo;
        out.push(b);
        proof {
            assert(s@.skip(i as int)[0] == s@[i as int]);
            assert(s@.skip(i as int)[1] == s@[i as int + 1]);
            assert(s@.skip(i as int).skip(2) == s@.skip(i as int + 2));
            assert(bytes_of_hex(s@.skip(i as int)) == seq![b] + bytes_of_hex(
                s@.skip(i as int + 2),
            ));
            assert(out@ == (out@.drop_last()) + seq![b]);
            assert(bytes_of_hex(s@) == out@ + bytes_of_hex(s@.skip(i as int + 2)));
        }
        i = i + 2;
    }
    proof {
        assert(s@.skip(n as int) =~= Seq::<char>::empty());
        assert(bytes_of_hex(s@.skip(n as int)) == Seq::<u8>::empty());
        assert(bytes_of_hex(s@) =~= out@);
    }
    Some(out)
}

// ---------------------------------------------------------------------------
// Outside computations: SHA-256, base64, RSA signing
// ---------------------------------------------------------------------------

/// The lowercase hexadecimal text of the SHA-256 hash of a string's bytes.
pub uninterp spec fn sha256_hex_of(data: Seq<char>) -> Seq<char>;

/// Relies on sha256::digest: the SHA-256 hash of the input's bytes as 64
/// lowercase hexadecimal digits (the crate encodes the 32 digest bytes with
/// hex::encode). The result depends on the input alone.
#[verifier::external_body]
fn sha256_hex(data: &str) -> (r: String)
    ensures
        r@ == sha256_hex_of(data@),
        r@.len() == 64,
        is_hex_seq(r@),
{
    sha256::digest(data)
}

/// The standard padded base64 text of a byte sequence.
pub uninterp spec fn base64_of(data: Seq<u8>) -> Seq<char>;

/// Relies on base64's STANDARD engine: the padded base64 text of the bytes.
/// The result depends on the bytes alone.
#[verifier::external_body]
fn base64_encode(data: &[u8]) -> (r: String)
    ensures
        r@ == base64_of(data@),
{
    base64::Engine::encode(&base64::engine::general_purpose::STANDARD, data)
}

/// The RSA signature, with SHA-256 and PKCS#1 v1.5 padding, of a string's
/// bytes under the private key written in a PEM text. PKCS#1 v1.5 signing is
/// deterministic, so the result depends on the key text and the data alone.
pub uninterp spec fn rsa_sha256_sig_of(pem: Seq<char>, data: Seq<char>) -> Seq<u8>;

/// Whether a PEM text holds a private key that openssl's RSA-SHA256 PKCS#1
/// v1.5 signer accepts. Every failure of the signing sequence — key parsing,
/// signer setup, padding, the signature itself — is decided by the key text
/// alone (the data is hashed first and never rejected), so this too is a
/// function of the key text.
pub uninterp spec fn rsa_key_usable(pem: Seq<char>) -> bool;

/// Relies on openssl's `PKey::private_key_from_pem` and `Signer` with
/// `MessageDigest::sha256` and `Padding::PKCS1`: the deterministic RSA
/// PKCS#1 v1.5 signature of the data's bytes under the key. Succeeds exactly
/// when the PEM text holds a usable RSA private key.
#[verifier::external_body]
fn rsa_sha256_sign(pem: &str, data: &str) -> (r: Option<Vec<u8>>)
    ensures
        r is Some <==> rsa_key_usable(pem@),
        r matches Some(v) ==> v@ == rsa_sha256_sig_of(pem@, data@),
{
    let key = match openssl::pkey::PKey::private_key_from_pem(pem.as_bytes()) {
        Ok(k) => k,
        Err(_) => return None,
    };
    let mut signer = match openssl::sign::Signer::new(openssl::hash::MessageDigest::sha256(), &key)
    {
        Ok(s) => s,
        Err(_) => return None,
    };
    if signer.set_rsa_padding(openssl::rsa::Padding::PKCS1).is_err() {
        return None;
    }
    signer.sign_oneshot_to_vec(data.as_bytes()).ok()
}

/// A generator of fresh RSA key pairs for new users.
pub struct RsaKeyService {}

impl RsaKeyService {
    /// Relies on openssl's `Rsa::generate` and its PEM encoders: a fresh
    /// 2048-bit RSA key pair as (private key PEM, public key PEM). The pair
    /// is random, so nothing is claimed of its text beyond this: the private
    /// PEM was written by openssl's own encoder, so it parses back into a
    /// usable signing key.
    #[verifier::external_body]
    pub fn generate_key_pair() -> (r: (String, String))
        ensures
            rsa_key_usable(r.0@),
    {
        let key_pair = openssl::rsa::Rsa::generate(2048).unwrap();
        let private_pem = key_pair.private_key_to_pem().unwrap();
        let public_pem = key_pair.public_key_to_pem().unwrap();
        (
            String::from_utf8(private_pem).unwrap(),
            String::from_utf8(public_pem).unwrap(),
        )
    }
}

// ---------------------------------------------------------------------------
// The signature engine: digest header, signing string, signature header
// ---------------------------------------------------------------------------

/// The `Digest` header value for a request body: the body's SHA-256 digest
/// bytes, base64-encoded, after the fixed algorithm prefix.
pub open spec fn digest_header_spec(body: Seq<char>) -> Seq<char> {
    "SHA-256="@ + base64_of(bytes_of_hex(sha256_hex_of(body)))
}

/// Computes the `Digest` header value of a request body: the raw SHA-256
/// digest bytes of the body, base64-encoded, behind `"SHA-256="`.
pub fn digest_header(body: &str) -> (r: String)
    ensures
        r@ == digest_header_spec(body@),
{
    let hex = sha256_hex(body);
    let bytes = match hex_to_bytes(hex.as_str()) {
        Some(b) => b,
        None => {
            proof {
                assert(false);
            }
            Vec::new()
        },
    };
    let b64 = base64_encode(bytes.as_slice());
    concat2("SHA-256=", b64.as_str())
}

/// The canonical string that an outbound POST signs: four lines over the
/// request target, host, date and digest, with lowercase header names.
pub open spec fn signing_string_spec(
    path: Seq<char>,
    host: Seq<char>,
    date: Seq<char>,
    digest: Seq<char>,
) -> Seq<char> {
    "(request-target): post "@ + path + "\nhost: "@ + host + "\ndate: "@ + date + "\ndigest: "@
        + digest
}

/// Builds the canonical signing string of a request.
pub fn signing_string(path: &str, host: &str, date: &str, digest: &str) -> (r: String)
    ensures
        r@ == signing_string_spec(path@, host@, date@, digest@),
{
    let mut s = "(request-target): post ".to_owned();
    s.append(path);
    s.append("\nhost: ");
    s.append(host);
    s.append("\ndate: ");
    s.append(date);
    s.append("\ndigest: ");
    s.append(digest);
    proof {
        assert(s@ =~= signing_string_spec(path@, host@, date@, digest@));
    }
    s
}

/// The base64 text of the RSA signature of a signing string under a key.
pub open spec fn signature_value_spec(pem: Seq<char>, data: Seq<char>) -> Seq<char> {
    base64_of(rsa_sha256_sig_of(pem, data))
}

/// Signs a string with an RSA private key held as PEM text and returns the
/// base64 text of the signature. Succeeds exactly when the key text holds a
/// usable private key; a failure is confined to this one call.
pub fn sign(private_key_pem: &str, data: &str) -> (r: Option<String>)
    ensures
        r is Some <==> rsa_key_usable(private_key_pem@),
        r matches Some(s) ==> s@ == signature_value_spec(private_key_pem@, data@),
{
    match rsa_sha256_sign(private_key_pem, data) {
        Some(v) => Some(base64_encode(v.as_slice())),
        None => None,
    }
}

/// The `Signature` header value: the key id and the base64 signature in the
/// fixed header skeleton.
pub open spec fn signature_header_spec(key_id: Seq<char>, signature: Seq<char>) -> Seq<char> {
    "keyId=\""@ + key_id
        + "\",algorithm=\"rsa-sha256\",headers=\"(request-target) host date digest\",signature=\""@
        + signature + "\""@
}

/// Builds the `Signature` header value from a key id and a signature text.
pub fn signature_header(key_id: &str, signature: &str) -> (r: String)
    ensures
        r@ == signature_header_spec(key_id@, signature@),
{
    let mut s = "keyId=\"".to_owned();
    s.append(key_id);
    s.append(
        "\",algorithm=\"rsa-sha256\",headers=\"(request-target) host date digest\",signature=\"",
    );
    s.append(signature);
    s.append("\"");
    proof {
        assert(s@ =~= signature_header_spec(key_id@, signature@));
    }
    s
}

/// Signing determinism: one key text and one signing string give one
/// signature text, however often they are signed.
pub proof fn lemma_sign_deterministic(
    pem: Seq<char>,
    data: Seq<char>,
    s1: Seq<char>,
    s2: Seq<char>,
)
    requires
        s1 == signature_value_spec(pem, data),
        s2 == signature_value_spec(pem, data),
    ensures
        s1 == s2,
{
}

} // verus!
