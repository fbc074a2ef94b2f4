use base64::Engine;
use vstd::prelude::*;

verus! {

// ---------------------------------------------------------------------------
// Canonical text encodings.
//
// Addresses travel as base-58 text of exactly 32 bytes, signatures as
// base-64 text of exactly 64 bytes, and keypairs as base-58 or base-64 text
// of exactly 64 bytes (secret seed then public key).  Both encoders are
// injective and both decoders invert them, which is what the contracts of
// the wrappers below record.
// ---------------------------------------------------------------------------

/// The base-58 text that `bs58` produces for a byte string.
pub uninterp spec fn b58_of(bytes: Seq<u8>) -> Seq<char>;

/// The standard padded base-64 text for a byte string.
pub uninterp spec fn b64_of(bytes: Seq<u8>) -> Seq<char>;

/// Some byte string has this base-58 text.
pub open spec fn valid_b58(s: Seq<char>) -> bool {
    exists|b: Seq<u8>| b58_of(b) == s
}

/// A byte string of length `n` has this base-58 text.
pub open spec fn valid_b58_len(s: Seq<char>, n: nat) -> bool {
    exists|b: Seq<u8>| b.len() == n && b58_of(b) == s
}

/// The bytes whose base-58 text this is (meaningful when `valid_b58` holds).
pub open spec fn b58_bytes(s: Seq<char>) -> Seq<u8> {
    choose|b: Seq<u8>| b58_of(b) == s
}

/// The bytes of length `n` whose base-58 text this is.
pub open spec fn b58_bytes_len(s: Seq<char>, n: nat) -> Seq<u8> {
    choose|b: Seq<u8>| b.len() == n && b58_of(b) == s
}

/// Some byte string has this base-64 text.
pub open spec fn valid_b64(s: Seq<char>) -> bool {
    exists|b: Seq<u8>| b64_of(b) == s
}

/// A byte string of length `n` has this base-64 text.
pub open spec fn valid_b64_len(s: Seq<char>, n: nat) -> bool {
    exists|b: Seq<u8>| b.len() == n && b64_of(b) == s
}

/// The bytes whose base-64 text this is (meaningful when `valid_b64` holds).
pub open spec fn b64_bytes(s: Seq<char>) -> Seq<u8> {
    choose|b: Seq<u8>| b64_of(b) == s
}

/// The bytes of length `n` whose base-64 text this is.
pub open spec fn b64_bytes_len(s: Seq<char>, n: nat) -> Seq<u8> {
    choose|b: Seq<u8>| b.len() == n && b64_of(b) == s
}

/// Relies on `bs58::encode`: produces the base-58 text of the bytes.
#[verifier::external_body]
fn b58_encode_raw(bytes: &Vec<u8>) -> (r: String)
    ensures
        r@ == b58_of(bytes@),
{
    bs58::encode(bytes.as_slice()).into_string()
}

/// Relies on `bs58::decode`: inverts `bs58::encode`, and fails exactly on
/// text that is not the base-58 form of any byte string (an alphabet error).
#[verifier::external_body]
fn b58_decode_raw(s: &str) -> (r: Option<Vec<u8>>)
    ensures
        r matches Some(v) ==> b58_of(v@) == s@,
        r matches Some(v) ==> forall|b: Seq<u8>| s@ == b58_of(b) ==> v@ == b,
        r is None ==> forall|b: Seq<u8>| s@ != b58_of(b),
{
    bs58::decode(s).into_vec().ok()
}

/// Relies on `base64::engine::general_purpose::STANDARD.encode`: produces
/// the canonical padded base-64 text of the bytes.
#[verifier::external_body]
fn b64_encode_raw(bytes: &Vec<u8>) -> (r: String)
    ensures
        r@ == b64_of(bytes@),
{
    base64::engine::general_purpose::STANDARD.encode(bytes.as_slice())
}

/// Relies on `base64::engine::general_purpose::STANDARD.decode`: accepts
/// exactly the canonical padded encodings and inverts the encoder on them.
#[verifier::external_body]
fn b64_decode_raw(s: &str) -> (r: Option<Vec<u8>>)
    ensures
        r matches Some(v) ==> b64_of(v@) == s@,
        r matches Some(v) ==> forall|b: Seq<u8>| s@ == b64_of(b) ==> v@ == b,
        r is None ==> forall|b: Seq<u8>| s@ != b64_of(b),
{
    base64::engine::general_purpose::STANDARD.decode(s).ok()
}

/// Why a piece of text failed to decode.
#[derive(Debug)]
pub enum FormatError {
    /// Not decodable at all: the text is outside the encoding's alphabet.
    Malformed,
    /// Decodable, but not to the expected number of bytes.
    WrongLength,
}

/// Decode base-58 text that must denote exactly `n` bytes.
pub fn decode_base58(s: &str, n: usize) -> (r: Result<Vec<u8>, FormatError>)
    ensures
        r matches Ok(v) ==> v@.len() == n && b58_of(v@) == s@ && v@ == b58_bytes(s@),
        forall|b: Seq<u8>| s@ == b58_of(b) && b.len() == n ==> (r matches Ok(v) && v@ == b),
        r is Ok <==> valid_b58_len(s@, n as nat),
        r matches Err(e) ==> (e is Malformed <==> !valid_b58(s@)),
        r matches Err(e) && e is WrongLength ==> valid_b58(s@) && b58_bytes(s@).len() != n,
{
    match b58_decode_raw(s) {
        None => Err(FormatError::Malformed),
        Some(v) => {
            if v.len() == n {
                Ok(v)
            } else {
                Err(FormatError::WrongLength)
            }
        },
    }
}

/// Decode base-64 text that must denote exactly `n` bytes.
pub fn decode_base64(s: &str, n: usize) -> (r: Result<Vec<u8>, FormatError>)
    ensures
        r matches Ok(v) ==> v@.len() == n && b64_of(v@) == s@ && v@ == b64_bytes(s@),
        forall|b: Seq<u8>| s@ == b64_of(b) && b.len() == n ==> (r matches Ok(v) && v@ == b),
        r is Ok <==> valid_b64_len(s@, n as nat),
        r matches Err(e) ==> (e is Malformed <==> !valid_b64(s@)),
        r matches Err(e) && e is WrongLength ==> valid_b64(s@) && b64_bytes(s@).len() != n,
{
    match b64_decode_raw(s) {
        None => Err(FormatError::Malformed),
        Some(v) => {
            if v.len() == n {
                Ok(v)
            } else {
                Err(FormatError::WrongLength)
            }
        },
    }
}

/// Whether two byte vectors hold the same bytes.
pub fn bytes_eq(a: &Vec<u8>, b: &Vec<u8>) -> (r: bool)
    ensures
        r == (a@ == b@),
{
    if a.len() != b.len() {
        return false;
    }
    let n = a.len();
    let mut i: usize = 0;
    while i < n
        invariant
            n == a@.len() == b@.len(),
            i <= n,
            forall|k: int| 0 <= k < i ==> a@[k] == b@[k],
        decreases n - i,
    {
        if a[i] != b[i] {
            return false;
        }
        i += 1;
    }
    proof {
        assert(a@ =~= b@);
    }
    true
}

/// A 32-byte account address; base-58 in its canonical text form.
#[derive(Debug)]
pub struct Address {
    bytes: Vec<u8>,
}

impl View for Address {
    type V = Seq<u8>;

    closed spec fn view(&self) -> Seq<u8> {
        self.bytes@
    }
}

impl Address {
    /// An address holds exactly 32 bytes.
    pub open spec fn wf(&self) -> bool {
        self@.len() == 32
    }

    /// Wrap a 32-byte value; any other length is a format error.
    pub fn from_bytes(bytes: Vec<u8>) -> (r: Result<Address, FormatError>)
        ensures
            bytes@.len() == 32 ==> (r matches Ok(a) && a@ == bytes@),
            bytes@.len() != 32 ==> (r matches Err(e) && e is WrongLength),
            r matches Ok(a) ==> a.wf(),
    {
        if bytes.len() == 32 {
            Ok(Address { bytes })
        } else {
            Err(FormatError::WrongLength)
        }
    }

    /// Wrap a value already known to hold 32 bytes.
    pub fn from_bytes_exact(bytes: Vec<u8>) -> (r: Address)
        requires
            bytes@.len() == 32,
        ensures
            r@ == bytes@,
            r.wf(),
    {
        Address { bytes }
    }

    pub fn bytes(&self) -> (r: &Vec<u8>)
        ensures
            r@ == self@,
    {
        &self.bytes
    }

    /// Whether two addresses hold the same bytes.
    pub fn same_as(&self, other: &Address) -> (r: bool)
        ensures
            r == (self@ == other@),
    {
        bytes_eq(&self.bytes, &other.bytes)
    }
}

/// A 64-byte signature; base-64 in its canonical text form.
#[derive(Debug)]
pub struct Signature {
    bytes: Vec<u8>,
}

impl View for Signature {
    type V = Seq<u8>;

    closed spec fn view(&self) -> Seq<u8> {
        self.bytes@
    }
}

impl Signature {
    /// A signature holds exactly 64 bytes.
    pub open spec fn wf(&self) -> bool {
        self@.len() == 64
    }

    /// Wrap a 64-byte value; any other length is a format error.
    pub fn from_bytes(bytes: Vec<u8>) -> (r: Result<Signature, FormatError>)
        ensures
            bytes@.len() == 64 ==> (r matches Ok(sig) && sig@ == bytes@),
            bytes@.len() != 64 ==> (r matches Err(e) && e is WrongLength),
            r matches Ok(sig) ==> sig.wf(),
    {
        if bytes.len() == 64 {
            Ok(Signature { bytes })
        } else {
            Err(FormatError::WrongLength)
        }
    }

    /// Wrap a value already known to hold 64 bytes.
    pub fn from_bytes_exact(bytes: Vec<u8>) -> (r: Signature)
        requires
            bytes@.len() == 64,
        ensures
            r@ == bytes@,
            r.wf(),
    {
        Signature { bytes }
    }

    pub fn bytes(&self) -> (r: &Vec<u8>)
        ensures
            r@ == self@,
    {
        &self.bytes
    }
}

/// A 64-byte keypair: secret seed in the first half, public key in the
/// second.  The secret exists only for the life of one request.
#[derive(Debug)]
pub struct Keypair {
    bytes: Vec<u8>,
}

impl View for Keypair {
    type V = Seq<u8>;

    closed spec fn view(&self) -> Seq<u8> {
        self.bytes@
    }
}

impl Keypair {
    /// A keypair holds exactly 64 bytes.
    pub open spec fn wf(&self) -> bool {
        self@.len() == 64
    }

    /// The secret half.
    pub open spec fn secret(&self) -> Seq<u8> {
        self@.subrange(0, 32)
    }

    /// The public half.
    pub open spec fn public(&self) -> Seq<u8> {
        self@.subrange(32, 64)
    }

    /// Wrap a 64-byte value; any other length is a format error.
    pub fn from_bytes(bytes: Vec<u8>) -> (r: Result<Keypair, FormatError>)
        ensures
            bytes@.len() == 64 ==> (r matches Ok(kp) && kp@ == bytes@),
            bytes@.len() != 64 ==> (r matches Err(e) && e is WrongLength),
            r matches Ok(kp) ==> kp.wf(),
    {
        if bytes.len() == 64 {
            Ok(Keypair { bytes })
        } else {
            Err(FormatError::WrongLength)
        }
    }

    /// Wrap a value already known to hold 64 bytes.
    pub fn from_bytes_exact(bytes: Vec<u8>) -> (r: Keypair)
        requires
            bytes@.len() == 64,
        ensures
            r@ == bytes@,
            r.wf(),
    {
        Keypair { bytes }
    }

    pub fn bytes(&self) -> (r: &Vec<u8>)
        ensures
            r@ == self@,
    {
        &self.bytes
    }

    /// The address held in the public half.
    pub fn public_address(&self) -> (r: Address)
        requires
            self.wf(),
        ensures
            r.wf(),
            r@ == self.public(),
    {
        let half = vstd::slice::slice_subrange(self.bytes.as_slice(), 32, 64);
        Address { bytes: vstd::slice::slice_to_vec(half) }
    }
}

/// The text form a keypair travels in, which differs by endpoint.
#[derive(Debug, Clone, Copy)]
pub enum KeyEncoding {
    Base58,
    Base64,
}

/// The text of `bytes` under the chosen encoding.
pub open spec fn encoded_text(enc: KeyEncoding, bytes: Seq<u8>) -> Seq<char> {
    match enc {
        KeyEncoding::Base58 => b58_of(bytes),
        KeyEncoding::Base64 => b64_of(bytes),
    }
}

/// Whether a byte string of length `n` has this text under the encoding.
pub open spec fn valid_encoded_len(enc: KeyEncoding, s: Seq<char>, n: nat) -> bool {
    match enc {
        KeyEncoding::Base58 => valid_b58_len(s, n),
        KeyEncoding::Base64 => valid_b64_len(s, n),
    }
}

/// The base-58 text of arbitrary bytes.
pub fn encode_base58(bytes: &Vec<u8>) -> (r: String)
    ensures
        r@ == b58_of(bytes@),
{
    b58_encode_raw(bytes)
}

/// The base-64 text of arbitrary bytes.
pub fn encode_base64(bytes: &Vec<u8>) -> (r: String)
    ensures
        r@ == b64_of(bytes@),
{
    b64_encode_raw(bytes)
}

/// The base-58 text of an address.
pub fn encode_address(a: &Address) -> (r: String)
    requires
        a.wf(),
    ensures
        r@ == b58_of(a@),
{
    b58_encode_raw(&a.bytes)
}

/// Decode base-58 text into an address; the text must denote 32 bytes.
pub fn decode_address(s: &str) -> (r: Result<Address, FormatError>)
    ensures
        r matches Ok(a) ==> a.wf() && b58_of(a@) == s@,
        forall|b: Seq<u8>| s@ == b58_of(b) && b.len() == 32 ==> (r matches Ok(a) && a@ == b),
        r is Ok <==> valid_b58_len(s@, 32),
        r matches Ok(a) ==> a@ == b58_bytes_len(s@, 32),
{
    match decode_base58(s, 32) {
        Ok(v) => Ok(Address { bytes: v }),
        Err(e) => Err(e),
    }
}

/// The base-64 text of a signature.
pub fn encode_signature(sig: &Signature) -> (r: String)
    requires
        sig.wf(),
    ensures
        r@ == b64_of(sig@),
{
    b64_encode_raw(&sig.bytes)
}

/// Decode base-64 text into a signature; the text must denote 64 bytes.
pub fn decode_signature(s: &str) -> (r: Result<Signature, FormatError>)
    ensures
        r matches Ok(sig) ==> sig.wf() && b64_of(sig@) == s@ && sig@ == b64_bytes(s@),
        forall|b: Seq<u8>| s@ == b64_of(b) && b.len() == 64 ==> (r matches Ok(sig) && sig@ == b),
        r is Ok <==> valid_b64_len(s@, 64),
        r matches Err(e) ==> (e is Malformed <==> !valid_b64(s@)),
        r matches Err(e) && e is WrongLength ==> valid_b64(s@) && b64_bytes(s@).len() != 64,
{
    match decode_base64(s, 64) {
        Ok(v) => Ok(Signature { bytes: v }),
        Err(e) => Err(e),
    }
}

/// The text of a keypair under the chosen encoding.
pub fn encode_keypair(kp: &Keypair, enc: KeyEncoding) -> (r: String)
    requires
        kp.wf(),
    ensures
        r@ == encoded_text(enc, kp@),
{
    match enc {
        KeyEncoding::Base58 => b58_encode_raw(&kp.bytes),
        KeyEncoding::Base64 => b64_encode_raw(&kp.bytes),
    }
}

/// Decode keypair text under the chosen encoding; it must denote 64 bytes.
pub fn decode_keypair(s: &str, enc: KeyEncoding) -> (r: Result<Keypair, FormatError>)
    ensures
        r matches Ok(kp) ==> kp.wf() && encoded_text(enc, kp@) == s@,
        r matches Ok(kp) ==> match enc {
            KeyEncoding::Base58 => kp@ == b58_bytes(s@),
            KeyEncoding::Base64 => kp@ == b64_bytes(s@),
        },
        forall|b: Seq<u8>|
            s@ == encoded_text(enc, b) && b.len() == 64 ==> (r matches Ok(kp) && kp@ == b),
        r is Ok <==> valid_encoded_len(enc, s@, 64),
        r matches Err(e) ==> (e is Malformed <==> match enc {
            KeyEncoding::Base58 => !valid_b58(s@),
            KeyEncoding::Base64 => !valid_b64(s@),
        }),
        r matches Err(e) && e is WrongLength ==> match enc {
            KeyEncoding::Base58 => valid_b58(s@) && b58_bytes(s@).len() != 64,
            KeyEncoding::Base64 => valid_b64(s@) && b64_bytes(s@).len() != 64,
        },
{
    let d = match enc {
        KeyEncoding::Base58 => decode_base58(s, 64),
        KeyEncoding::Base64 => decode_base64(s, 64),
    };
    match d {
        Ok(v) => Ok(Keypair { bytes: v }),
        Err(e) => Err(e),
    }
}

/// Law: decoding an encoded address yields the address again, for every
/// 32-byte value.
pub fn address_round_trip(a: &Address) -> (ok: bool)
    requires
        a.wf(),
    ensures
        ok,
{
    let text = encode_address(a);
    match decode_address(text.as_str()) {
        Ok(back) => back.same_as(a),
        Err(_) => false,
    }
}

/// Law: decoding an encoded signature yields the signature again, for every
/// 64-byte value.
pub fn signature_round_trip(sig: &Signature) -> (ok: bool)
    requires
        sig.wf(),
    ensures
        ok,
{
    let text = encode_signature(sig);
    match decode_signature(text.as_str()) {
        Ok(back) => bytes_eq(&back.bytes, &sig.bytes),
        Err(_) => false,
    }
}

/// Law: decoding an encoded keypair yields the keypair again, under either
/// encoding, for every 64-byte value.
pub fn keypair_round_trip(kp: &Keypair, enc: KeyEncoding) -> (ok: bool)
    requires
        kp.wf(),
    ensures
        ok,
{
    let text = encode_keypair(kp, enc);
    match decode_keypair(text.as_str(), enc) {
        Ok(back) => bytes_eq(&back.bytes, &kp.bytes),
        Err(_) => false,
    }
}

} // verus!
