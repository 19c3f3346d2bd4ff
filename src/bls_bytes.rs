use vstd::prelude::*;

verus! {

/// What base64 decoding with the standard alphabet and padding gives, or
/// nothing where the text is not such base64.
pub uninterp spec fn base64_decoded(s: Seq<char>) -> Option<Seq<u8>>;

/// The standard base64 text, with padding, of some bytes.
pub uninterp spec fn base64_encoded(b: Seq<u8>) -> Seq<char>;

/// Relies on base64::decode (standard alphabet, padded): the decoded bytes,
/// or an error where the text is not valid base64.
#[verifier::external_body]
fn decode_base64(s: &str) -> (r: Option<Vec<u8>>)
    ensures
        match r {
            Some(v) => base64_decoded(s@) == Some(v@),
            None => base64_decoded(s@) is None,
        },
{
    base64::decode(s).ok()
}

/// Relies on base64::encode (standard alphabet, padded).
#[verifier::external_body]
fn encode_base64(b: &[u8]) -> (r: String)
    ensures
        r@ == base64_encoded(b@),
{
    base64::encode(b)
}

/// Why bytes given as text were refused.
#[derive(Clone, Copy, Debug, PartialEq, Eq, Structural)]
pub enum MalformedReason {
    /// The text is not valid base64.
    InvalidBase64,
    /// The decoded bytes have the wrong length for what they encode.
    WrongLength,
}

/// Malformed key or signature material.
#[derive(Debug)]
pub enum CryptoError {
    MalformedSignature { sig_bytes: Vec<u8>, internal_error: MalformedReason },
    MalformedPop { pop_bytes: Vec<u8>, internal_error: MalformedReason },
    MalformedPublicKey { key_bytes: Option<Vec<u8>>, internal_error: MalformedReason },
    MalformedSecretKey { internal_error: MalformedReason },
}

/// A BLS12-381 individual signature: a compressed G1 point.
pub struct IndividualSignatureBytes(pub [u8; 48]);

/// A BLS12-381 combined signature: a compressed G1 point.
pub struct CombinedSignatureBytes(pub [u8; 48]);

/// A proof of possession of a key: a compressed G1 point.
pub struct PopBytes(pub [u8; 48]);

/// A BLS12-381 public key: a compressed G2 point.
pub struct PublicKeyBytes(pub [u8; 96]);

/// A BLS12-381 secret key: a scalar.
pub struct SecretKeyBytes(pub [u8; 32]);

fn to_array<const N: usize>(v: &Vec<u8>) -> (r: [u8; N])
    requires
        v@.len() == N,
    ensures
        r@ == v@,
{
    let mut a = [0u8; N];
    let mut i: usize = 0;
    while i < N
        invariant
            i <= N,
            v@.len() == N,
            a@.len() == N,
            forall|j: int| 0 <= j < i ==> a@[j] == v@[j],
        decreases N - i,
    {
        a[i] = v[i];
        i = i + 1;
    }
    assert(a@ =~= v@);
    a
}

/// Decodes base64 text into exactly `N` bytes: the bytes, or the reason for
/// refusal together with the decoded bytes where there are any.
fn decode_exact<const N: usize>(s: &str) -> (r: Result<[u8; N], (MalformedReason, Vec<u8>)>)
    ensures
        match base64_decoded(s@) {
            None => r matches Err((reason, b)) && reason == MalformedReason::InvalidBase64
                && b@.len() == 0,
            Some(d) => if d.len() == N {
                r matches Ok(a) && a@ == d
            } else {
                r matches Err((reason, b)) && reason == MalformedReason::WrongLength && b@ == d
            },
        },
{
    match decode_base64(s) {
        None => Err((MalformedReason::InvalidBase64, Vec::new())),
        Some(d) => {
            if d.len() == N {
                Ok(to_array(&d))
            } else {
                Err((MalformedReason::WrongLength, d))
            }
        },
    }
}

impl IndividualSignatureBytes {
    /// The standard base64 text of the bytes.
    pub fn to_base64(&self) -> (r: String)
        ensures
            r@ == base64_encoded(self.0@),
    {
        encode_base64(self.0.as_slice())
    }

    /// Reads the bytes from base64 text, which must decode to exactly 48
    /// bytes.
    pub fn try_from_base64(s: &str) -> (r: Result<IndividualSignatureBytes, CryptoError>)
        ensures
            match base64_decoded(s@) {
                None => r matches Err(CryptoError::MalformedSignature { sig_bytes, internal_error })
                    && internal_error == MalformedReason::InvalidBase64 && sig_bytes@.len() == 0,
                Some(d) => if d.len() == 48 {
                    r matches Ok(v) && v.0@ == d
                } else {
                    r matches Err(CryptoError::MalformedSignature { sig_bytes, internal_error })
                        && internal_error == MalformedReason::WrongLength && sig_bytes@ == d
                },
            },
    {
        match decode_exact::<48>(s) {
            Ok(a) => Ok(IndividualSignatureBytes(a)),
            Err((internal_error, sig_bytes)) => {
                Err(CryptoError::MalformedSignature { sig_bytes, internal_error })
            },
        }
    }
}

impl CombinedSignatureBytes {
    /// The standard base64 text of the bytes.
    pub fn to_base64(&self) -> (r: String)
        ensures
            r@ == base64_encoded(self.0@),
    {
        encode_base64(self.0.as_slice())
    }

    /// Reads the bytes from base64 text, which must decode to exactly 48
    /// bytes.
    pub fn try_from_base64(s: &str) -> (r: Result<CombinedSignatureBytes, CryptoError>)
        ensures
            match base64_decoded(s@) {
                None => r matches Err(CryptoError::MalformedSignature { sig_bytes, internal_error })
                    && internal_error == MalformedReason::InvalidBase64 && sig_bytes@.len() == 0,
                Some(d) => if d.len() == 48 {
                    r matches Ok(v) && v.0@ == d
                } else {
                    r matches Err(CryptoError::MalformedSignature { sig_bytes, internal_error })
                        && internal_error == MalformedReason::WrongLength && sig_bytes@ == d
                },
            },
    {
        match decode_exact::<48>(s) {
            Ok(a) => Ok(CombinedSignatureBytes(a)),
            Err((internal_error, sig_bytes)) => {
                Err(CryptoError::MalformedSignature { sig_bytes, internal_error })
            },
        }
    }
}

impl PopBytes {
    /// The standard base64 text of the bytes.
    pub fn to_base64(&self) -> (r: String)
        ensures
            r@ == base64_encoded(self.0@),
    {
        encode_base64(self.0.as_slice())
    }

    /// Reads the bytes from base64 text, which must decode to exactly 48
    /// bytes.
    pub fn try_from_base64(s: &str) -> (r: Result<PopBytes, CryptoError>)
        ensures
            match base64_decoded(s@) {
                None => r matches Err(CryptoError::MalformedPop { pop_bytes, internal_error })
                    && internal_error == MalformedReason::InvalidBase64 && pop_bytes@.len() == 0,
                Some(d) => if d.len() == 48 {
                    r matches Ok(v) && v.0@ == d
                } else {
                    r matches Err(CryptoError::MalformedPop { pop_bytes, internal_error })
                        && internal_error == MalformedReason::WrongLength && pop_bytes@ == d
                },
            },
    {
        match decode_exact::<48>(s) {
            Ok(a) => Ok(PopBytes(a)),
            Err((internal_error, pop_bytes)) => {
                Err(CryptoError::MalformedPop { pop_bytes, internal_error })
            },
        }
    }
}

impl PublicKeyBytes {
    /// The standard base64 text of the bytes.
    pub fn to_base64(&self) -> (r: String)
        ensures
            r@ == base64_encoded(self.0@),
    {
        encode_base64(self.0.as_slice())
    }

    /// Reads the bytes from base64 text, which must decode to exactly 96
    /// bytes.
    pub fn try_from_base64(s: &str) -> (r: Result<PublicKeyBytes, CryptoError>)
        ensures
            match base64_decoded(s@) {
                None => r matches Err(CryptoError::MalformedPublicKey { key_bytes, internal_error })
                    && internal_error == MalformedReason::InvalidBase64 && key_bytes is None,
                Some(d) => if d.len() == 96 {
                    r matches Ok(v) && v.0@ == d
                } else {
                    r matches Err(CryptoError::MalformedPublicKey { key_bytes, internal_error })
                        && internal_error == MalformedReason::WrongLength && (key_bytes matches Some(k) && k@ == d)
                },
            },
    {
        match decode_exact::<96>(s) {
            Ok(a) => Ok(PublicKeyBytes(a)),
            Err((internal_error, b)) => {
                let key_bytes = match internal_error {
                    MalformedReason::InvalidBase64 => None,
                    MalformedReason::WrongLength => Some(b),
                };
                Err(CryptoError::MalformedPublicKey { key_bytes, internal_error })
            },
        }
    }
}

impl SecretKeyBytes {
    /// The standard base64 text of the key.
    pub fn to_base64(&self) -> (r: String)
        ensures
            r@ == base64_encoded(self.0@),
    {
        encode_base64(self.0.as_slice())
    }

    /// Reads a key from base64 text, which must decode to exactly 32 bytes.
    /// A refusal never carries the key material.
    pub fn try_from_base64(s: &str) -> (r: Result<SecretKeyBytes, CryptoError>)
        ensures
            match base64_decoded(s@) {
                None => r == Err::<SecretKeyBytes, _>(CryptoError::MalformedSecretKey {
                    internal_error: MalformedReason::InvalidBase64,
                }),
                Some(d) => if d.len() == 32 {
                    r matches Ok(v) && v.0@ == d
                } else {
                    r == Err::<SecretKeyBytes, _>(CryptoError::MalformedSecretKey {
                        internal_error: MalformedReason::WrongLength,
                    })
                },
            },
    {
        match decode_exact::<32>(s) {
            Ok(a) => Ok(SecretKeyBytes(a)),
            Err((internal_error, _)) => Err(CryptoError::MalformedSecretKey { internal_error }),
        }
    }
}

} // verus!
