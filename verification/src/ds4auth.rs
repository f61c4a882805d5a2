//! The response to an authentication challenge, the key that produces it,
//! and the layout in which a key is kept on flash.
//!
//! A response is 1064 bytes on the wire: the RSA-PSS signature over the
//! challenge, the manufacturer serial, the public modulus and exponent
//! (big-endian, zero-padded on the left to 256 bytes each), the
//! manufacturer's signature over serial, modulus and exponent, and 24 bytes
//! of zero padding.

use crate::bytes::{put, take, zeros};
use ring::signature::KeyPair;
use vstd::prelude::*;

verus! {

/// Length of a response on the wire.
pub const SIGNATURE_LEN: usize = 1064;

/// Length of a challenge.
pub const NONCE_LEN: usize = 256;

/// Length of a key record on flash.
pub const KEY_LEN: usize = 1424;

/// The response to a challenge.
#[derive(Clone, Copy, Debug, PartialEq, Eq)]
pub struct DS4Signature {
    pub nonce_sig: [u8; 256],
    pub serial: [u8; 16],
    pub n: [u8; 256],
    pub e: [u8; 256],
    pub key_sig: [u8; 256],
    pub padding: [u8; 24],
}

impl View for DS4Signature {
    type V = Seq<u8>;

    /// The wire form: the six fields one after the other.
    open spec fn view(&self) -> Seq<u8> {
        self.nonce_sig@ + self.serial@ + self.n@ + self.e@ + self.key_sig@ + self.padding@
    }
}

/// `s` without its leading zero bytes.
pub open spec fn trimmed(s: Seq<u8>) -> Seq<u8>
    decreases s.len(),
{
    if s.len() > 0 && s[0] == 0 {
        trimmed(s.drop_first())
    } else {
        s
    }
}

/// `bytes` padded on the left with zeros to 256 bytes.
pub open spec fn zero_extended(bytes: Seq<u8>) -> Seq<u8> {
    zeros(256 - bytes.len()) + bytes
}

/// Strips the leading zero bytes of a big-endian number.
pub fn trim(slice: &[u8]) -> (r: &[u8])
    ensures
        r@ == trimmed(slice@),
{
    let mut start: usize = 0;
    assert(slice@.subrange(0, slice@.len() as int) =~= slice@);
    while start < slice.len() && slice[start] == 0
        invariant
            start <= slice@.len(),
            trimmed(slice@) == trimmed(slice@.subrange(start as int, slice@.len() as int)),
        decreases slice@.len() - start,
    {
        assert(slice@.subrange(start as int, slice@.len() as int).drop_first()
            =~= slice@.subrange(start + 1, slice@.len() as int));
        start = start + 1;
    }
    &slice[start..slice.len()]
}

/// Pads a big-endian number on the left with zeros to 256 bytes; `None` when
/// it is longer than that.
pub fn zero_extend_256(value: &[u8]) -> (r: Option<[u8; 256]>)
    ensures
        r is None <==> value@.len() > 256,
        r matches Some(buf) ==> buf@ == zero_extended(value@),
{
    if value.len() > 256 {
        None
    } else {
        let mut buf = [0u8; 256];
        let start: usize = 256 - value.len();
        put(&mut buf, start, value);
        assert(buf@ =~= zero_extended(value@));
        Some(buf)
    }
}

/// Stripping the padding of a zero-extended number gives the number back,
/// provided the number itself has no leading zero.
pub proof fn lemma_trim_zero_extended(bytes: Seq<u8>)
    requires
        bytes.len() <= 256,
        bytes.len() == 0 || bytes[0] != 0,
    ensures
        trimmed(zero_extended(bytes)) == bytes,
{
    lemma_trim_padding(256 - bytes.len(), bytes);
}

proof fn lemma_trim_padding(pad: int, bytes: Seq<u8>)
    requires
        0 <= pad,
        bytes.len() == 0 || bytes[0] != 0,
    ensures
        trimmed(zeros(pad) + bytes) == bytes,
    decreases pad,
{
    if pad == 0 {
        assert(zeros(0) + bytes =~= bytes);
    } else {
        assert((zeros(pad) + bytes).drop_first() =~= zeros(pad - 1) + bytes);
        lemma_trim_padding(pad - 1, bytes);
    }
}

/// What a verifier accepts. This names the verdict of RSASSA-PSS verification
/// with SHA-256 and MGF1-SHA-256 for a public key of 2048 to 8192 bits given
/// as big-endian modulus and exponent; the verdict depends on these four
/// byte strings alone.
pub uninterp spec fn rsa_pss_sha256_valid(
    n: Seq<u8>,
    e: Seq<u8>,
    message: Seq<u8>,
    signature: Seq<u8>,
) -> bool;

/// Calls `ring::signature::RsaPublicKeyComponents::verify` with the
/// parameters `RSA_PSS_2048_8192_SHA256`, and reports whether it returned
/// `Ok`. Nothing is proved of the verdict; it is only given its name.
#[verifier::external_body]
fn rsa_pss_sha256_verify(n: &[u8], e: &[u8], message: &[u8], signature: &[u8]) -> (ok: bool)
    ensures
        ok == rsa_pss_sha256_valid(n@, e@, message@, signature@),
{
    ring::signature::RsaPublicKeyComponents { n, e }.verify(
        &ring::signature::RSA_PSS_2048_8192_SHA256,
        message,
        signature,
    ).is_ok()
}

/// A public key as big-endian modulus and exponent without leading zeros.
#[derive(Clone, Copy, Debug, PartialEq, Eq)]
pub struct RsaPublicKey<'a> {
    pub n: &'a [u8],
    pub e: &'a [u8],
}

impl RsaPublicKey<'_> {
    /// Whether `signature` is an RSA-PSS signature (SHA-256, MGF1-SHA-256)
    /// over `message` under this key, for a modulus of 2048 to 8192 bits.
    pub fn verify(&self, message: &[u8], signature: &[u8]) -> (ok: bool)
        ensures
            ok == rsa_pss_sha256_valid(self.n@, self.e@, message@, signature@),
    {
        rsa_pss_sha256_verify(self.n, self.e, message, signature)
    }
}

impl DS4Signature {
    /// Reads a response from its wire form.
    pub fn parse(bytes: [u8; 1064]) -> (r: DS4Signature)
        ensures
            r@ == bytes@,
    {
        let r = DS4Signature {
            nonce_sig: take::<256>(&bytes, 0),
            serial: take::<16>(&bytes, 256),
            n: take::<256>(&bytes, 272),
            e: take::<256>(&bytes, 528),
            key_sig: take::<256>(&bytes, 784),
            padding: take::<24>(&bytes, 1040),
        };
        assert(r@ =~= bytes@);
        r
    }

    /// The public key that the response carries, padding stripped.
    pub fn public_key(&self) -> (r: RsaPublicKey<'_>)
        ensures
            r.n@ == trimmed(self.n@),
            r.e@ == trimmed(self.e@),
    {
        RsaPublicKey { n: trim(self.n.as_slice()), e: trim(self.e.as_slice()) }
    }

    /// Whether the response's signature over `nonce` verifies under the
    /// public key that the response carries.
    pub fn validate(&self, nonce: &[u8]) -> (ok: bool)
        ensures
            ok == rsa_pss_sha256_valid(
                trimmed(self.n@),
                trimmed(self.e@),
                nonce@,
                self.nonce_sig@,
            ),
    {
        self.public_key().verify(nonce, self.nonce_sig.as_slice())
    }

    /// The wire form of the response.
    pub fn as_bytes(&self) -> (r: [u8; 1064])
        ensures
            r@ == self@,
    {
        let mut r = [0u8; 1064];
        put(&mut r, 0, self.nonce_sig.as_slice());
        put(&mut r, 256, self.serial.as_slice());
        put(&mut r, 272, self.n.as_slice());
        put(&mut r, 528, self.e.as_slice());
        put(&mut r, 784, self.key_sig.as_slice());
        put(&mut r, 1040, self.padding.as_slice());
        assert(r@ =~= self@);
        r
    }
}

/// Two responses with the same wire form are the same response.
pub proof fn lemma_wire_form_injective(x: DS4Signature, y: DS4Signature)
    requires
        x@ == y@,
    ensures
        x == y,
{
    let w = x@;
    assert(x.nonce_sig@ =~= w.subrange(0, 256));
    assert(y.nonce_sig@ =~= w.subrange(0, 256));
    assert(x.serial@ =~= w.subrange(256, 272));
    assert(y.serial@ =~= w.subrange(256, 272));
    assert(x.n@ =~= w.subrange(272, 528));
    assert(y.n@ =~= w.subrange(272, 528));
    assert(x.e@ =~= w.subrange(528, 784));
    assert(y.e@ =~= w.subrange(528, 784));
    assert(x.key_sig@ =~= w.subrange(784, 1040));
    assert(y.key_sig@ =~= w.subrange(784, 1040));
    assert(x.padding@ =~= w.subrange(1040, 1064));
    assert(y.padding@ =~= w.subrange(1040, 1064));
    assert(x.nonce_sig =~= y.nonce_sig);
    assert(x.serial =~= y.serial);
    assert(x.n =~= y.n);
    assert(x.e =~= y.e);
    assert(x.key_sig =~= y.key_sig);
    assert(x.padding =~= y.padding);
}

/// Parsing the wire form of a response gives the response back: whatever
/// `parse` returns on the bytes that `as_bytes` produced for `x` is `x`.
pub proof fn lemma_parse_inverts_as_bytes(x: DS4Signature, bytes: [u8; 1064], y: DS4Signature)
    requires
        bytes@ == x@,
        y@ == bytes@,
    ensures
        y == x,
{
    lemma_wire_form_injective(x, y);
}

/// The signing key of `ring`. Nothing inside it is visible here.
#[verifier::external_type_specification]
#[verifier::external_body]
pub struct ExRsaKeyPair(ring::signature::RsaKeyPair);

/// The reason for which `ring` refuses a key.
#[verifier::external_type_specification]
#[verifier::external_body]
pub struct ExKeyRejected(ring::error::KeyRejected);

/// Whether a key parses. This names the verdict of
/// `ring::signature::RsaKeyPair::from_der` on a DER-encoded `RSAPrivateKey`:
/// whether it returns a key pair or refuses the bytes. The verdict depends on
/// the bytes alone.
pub uninterp spec fn rsa_der_accepted(der: Seq<u8>) -> bool;

/// `ring::signature::RsaKeyPair::from_der` parses a DER-encoded
/// `RSAPrivateKey`. Nothing is proved about which inputs it accepts; its
/// verdict is only given its name.
pub assume_specification[ ring::signature::RsaKeyPair::from_der ](input: &[u8]) -> (r: Result<
    ring::signature::RsaKeyPair,
    ring::error::KeyRejected,
>)
    ensures
        r is Ok <==> rsa_der_accepted(input@),
;

/// Reads the public modulus of a key pair through
/// `KeyPair::public_key`, `RsaSubjectPublicKey::modulus` and
/// `Positive::big_endian_without_leading_zero`, which documents its result as
/// non-empty and free of leading zeros.
#[verifier::external_body]
fn public_modulus(keypair: &ring::signature::RsaKeyPair) -> (r: Vec<u8>)
    ensures
        r@.len() > 0,
        r@[0] != 0,
{
    keypair.public_key().modulus().big_endian_without_leading_zero().to_vec()
}

/// Reads the public exponent of a key pair through
/// `KeyPair::public_key`, `RsaSubjectPublicKey::exponent` and
/// `Positive::big_endian_without_leading_zero`, which documents its result as
/// non-empty and free of leading zeros.
#[verifier::external_body]
fn public_exponent(keypair: &ring::signature::RsaKeyPair) -> (r: Vec<u8>)
    ensures
        r@.len() > 0,
        r@[0] != 0,
{
    keypair.public_key().exponent().big_endian_without_leading_zero().to_vec()
}

/// Calls `ring::signature::RsaKeyPair::sign` with the padding
/// `RSA_PSS_SHA256`, a fresh `ring::rand::SystemRandom` for the salt, and a
/// 256-byte output buffer; `None` when it returns an error. The signature
/// depends on the salt, so nothing is claimed about it.
#[verifier::external_body]
fn rsa_pss_sha256_sign(keypair: &ring::signature::RsaKeyPair, message: &[u8]) -> (r: Option<
    [u8; 256],
>) {
    let mut signature = [0u8; 256];
    let rng = ring::rand::SystemRandom::new();
    match keypair.sign(&ring::signature::RSA_PSS_SHA256, &rng, message, &mut signature) {
        Ok(()) => Some(signature),
        Err(_) => None,
    }
}

/// A signing key with the identity that goes out with every response.
pub struct DS4Key {
    serial: [u8; 16],
    keypair: ring::signature::RsaKeyPair,
    modulus: Vec<u8>,
    exponent: Vec<u8>,
    signature: [u8; 256],
}

impl DS4Key {
    /// The manufacturer serial.
    pub closed spec fn serial(&self) -> Seq<u8> {
        self.serial@
    }

    /// The public modulus, big-endian.
    pub closed spec fn modulus(&self) -> Seq<u8> {
        self.modulus@
    }

    /// The public exponent, big-endian.
    pub closed spec fn exponent(&self) -> Seq<u8> {
        self.exponent@
    }

    /// The manufacturer's signature over serial, modulus and exponent.
    pub closed spec fn certificate(&self) -> Seq<u8> {
        self.signature@
    }

    /// Modulus and exponent are non-empty and carry no leading zero.
    pub open spec fn wf(&self) -> bool {
        &&& self.modulus().len() > 0
        &&& self.modulus()[0] != 0
        &&& self.exponent().len() > 0
        &&& self.exponent()[0] != 0
    }

    /// Whether modulus and exponent fit the 256-byte fields of a response.
    pub open spec fn fits(&self) -> bool {
        self.modulus().len() <= 256 && self.exponent().len() <= 256
    }

    /// Whether `s` carries this key's serial, public key and certificate,
    /// and zero padding.
    pub open spec fn issued(&self, s: DS4Signature) -> bool {
        &&& s.serial@ == self.serial()
        &&& s.n@ == zero_extended(self.modulus())
        &&& s.e@ == zero_extended(self.exponent())
        &&& s.key_sig@ == self.certificate()
        &&& s.padding@ == zeros(24)
    }

    /// Wraps a parsed key pair with its serial and certificate.
    pub fn from_keypair(
        keypair: ring::signature::RsaKeyPair,
        serial: [u8; 16],
        signature: [u8; 256],
    ) -> (key: DS4Key)
        ensures
            key.wf(),
            key.serial() == serial@,
            key.certificate() == signature@,
    {
        let modulus = public_modulus(&keypair);
        let exponent = public_exponent(&keypair);
        DS4Key { serial, keypair, modulus, exponent, signature }
    }

    /// Loads the key that the firmware image embeds: a DER-encoded
    /// `RSAPrivateKey`, the serial, and the certificate. The key is loaded
    /// exactly when the private key parses, and then carries the serial and
    /// the certificate that were given.
    pub fn embedded(der: &[u8], serial: [u8; 16], signature: [u8; 256]) -> (r: Option<DS4Key>)
        ensures
            r is Some <==> rsa_der_accepted(der@),
            r matches Some(key) ==> key.wf() && key.serial() == serial@ && key.certificate()
                == signature@,
    {
        match ring::signature::RsaKeyPair::from_der(der) {
            Ok(keypair) => Some(DS4Key::from_keypair(keypair, serial, signature)),
            Err(_) => None,
        }
    }

    /// The manufacturer serial.
    pub fn serial_number(&self) -> (r: &[u8; 16])
        ensures
            r@ == self.serial(),
    {
        &self.serial
    }

    /// The public modulus, big-endian, without leading zeros.
    pub fn public_modulus(&self) -> (r: &[u8])
        ensures
            r@ == self.modulus(),
    {
        self.modulus.as_slice()
    }

    /// The public exponent, big-endian, without leading zeros.
    pub fn public_exponent(&self) -> (r: &[u8])
        ensures
            r@ == self.exponent(),
    {
        self.exponent.as_slice()
    }

    /// Builds the response around a signature over the challenge; `None`
    /// when modulus or exponent does not fit its field.
    pub fn assemble(&self, nonce_sig: [u8; 256]) -> (r: Option<DS4Signature>)
        ensures
            r is Some <==> self.fits(),
            r matches Some(s) ==> s.nonce_sig@ == nonce_sig@ && self.issued(s),
    {
        match zero_extend_256(self.modulus.as_slice()) {
            Some(n) => match zero_extend_256(self.exponent.as_slice()) {
                Some(e) => {
                    let padding = [0u8; 24];
                    assert(padding@ =~= zeros(24));
                    Some(
                        DS4Signature {
                            nonce_sig,
                            serial: self.serial,
                            n,
                            e,
                            key_sig: self.signature,
                            padding,
                        },
                    )
                },
                None => None,
            },
            None => None,
        }
    }

    /// Signs a challenge with RSA-PSS (SHA-256, MGF1-SHA-256, salt as long as
    /// the hash, fresh random salt) and builds the response. `None` when
    /// signing fails or the key does not fit the response.
    pub fn sign(&self, nonce: &[u8]) -> (r: Option<DS4Signature>)
        ensures
            r matches Some(s) ==> self.fits() && self.issued(s),
    {
        match rsa_pss_sha256_sign(&self.keypair, nonce) {
            Some(nonce_sig) => self.assemble(nonce_sig),
            None => None,
        }
    }
}

/// The public key that a response issued by a well-formed key carries is the
/// key's own modulus and exponent, once the padding is stripped.
pub proof fn lemma_issued_public_key(key: DS4Key, s: DS4Signature)
    requires
        key.wf(),
        key.fits(),
        key.issued(s),
    ensures
        trimmed(s.n@) == key.modulus(),
        trimmed(s.e@) == key.exponent(),
{
    lemma_trim_zero_extended(key.modulus());
    lemma_trim_zero_extended(key.exponent());
}

/// A response issued by a well-formed key validates against a challenge
/// exactly when its signature verifies under the key's own modulus and
/// exponent.
pub proof fn lemma_validate_issued(key: DS4Key, s: DS4Signature, nonce: Seq<u8>)
    requires
        key.wf(),
        key.fits(),
        key.issued(s),
    ensures
        rsa_pss_sha256_valid(trimmed(s.n@), trimmed(s.e@), nonce, s.nonce_sig@)
            == rsa_pss_sha256_valid(key.modulus(), key.exponent(), nonce, s.nonce_sig@),
{
    lemma_issued_public_key(key, s);
}

/// A key as it is laid out on flash: serial, public modulus and exponent,
/// the manufacturer's signature over the three, then the private primes and
/// the exponents and coefficient for the Chinese remainder theorem.
#[derive(Clone, Copy, Debug, PartialEq, Eq)]
pub struct DS4KeyEncoded {
    pub serial: [u8; 16],
    pub n: [u8; 256],
    pub e: [u8; 256],
    /// Signature of SHA256(serial | n | e)
    pub sig: [u8; 256],
    pub p: [u8; 128],
    pub q: [u8; 128],
    pub dp: [u8; 128],
    pub dq: [u8; 128],
    pub qinv: [u8; 128],
}

impl View for DS4KeyEncoded {
    type V = Seq<u8>;

    /// The record on flash: the nine fields one after the other.
    open spec fn view(&self) -> Seq<u8> {
        self.serial@ + self.n@ + self.e@ + self.sig@ + self.p@ + self.q@ + self.dp@ + self.dq@
            + self.qinv@
    }
}

impl DS4KeyEncoded {
    /// Reads a key record; `None` unless it is exactly 1424 bytes long.
    pub fn parse(bytes: &[u8]) -> (r: Option<DS4KeyEncoded>)
        ensures
            r is Some <==> bytes@.len() == 1424,
            r matches Some(key) ==> key@ == bytes@,
    {
        if bytes.len() != KEY_LEN {
            None
        } else {
            let key = DS4KeyEncoded {
                serial: take::<16>(bytes, 0),
                n: take::<256>(bytes, 16),
                e: take::<256>(bytes, 272),
                sig: take::<256>(bytes, 528),
                p: take::<128>(bytes, 784),
                q: take::<128>(bytes, 912),
                dp: take::<128>(bytes, 1040),
                dq: take::<128>(bytes, 1168),
                qinv: take::<128>(bytes, 1296),
            };
            assert(key@ =~= bytes@);
            Some(key)
        }
    }

    /// The record as it is written to flash.
    pub fn as_bytes(&self) -> (r: [u8; 1424])
        ensures
            r@ == self@,
    {
        let mut r = [0u8; 1424];
        put(&mut r, 0, self.serial.as_slice());
        put(&mut r, 16, self.n.as_slice());
        put(&mut r, 272, self.e.as_slice());
        put(&mut r, 528, self.sig.as_slice());
        put(&mut r, 784, self.p.as_slice());
        put(&mut r, 912, self.q.as_slice());
        put(&mut r, 1040, self.dp.as_slice());
        put(&mut r, 1168, self.dq.as_slice());
        put(&mut r, 1296, self.qinv.as_slice());
        assert(r@ =~= self@);
        r
    }
}

/// Two key records with the same bytes on flash are the same record.
pub proof fn lemma_key_record_injective(x: DS4KeyEncoded, y: DS4KeyEncoded)
    requires
        x@ == y@,
    ensures
        x == y,
{
    let w = x@;
    assert(x.serial@ =~= w.subrange(0, 16) && y.serial@ =~= w.subrange(0, 16));
    assert(x.n@ =~= w.subrange(16, 272) && y.n@ =~= w.subrange(16, 272));
    assert(x.e@ =~= w.subrange(272, 528) && y.e@ =~= w.subrange(272, 528));
    assert(x.sig@ =~= w.subrange(528, 784) && y.sig@ =~= w.subrange(528, 784));
    assert(x.p@ =~= w.subrange(784, 912) && y.p@ =~= w.subrange(784, 912));
    assert(x.q@ =~= w.subrange(912, 1040) && y.q@ =~= w.subrange(912, 1040));
    assert(x.dp@ =~= w.subrange(1040, 1168) && y.dp@ =~= w.subrange(1040, 1168));
    assert(x.dq@ =~= w.subrange(1168, 1296) && y.dq@ =~= w.subrange(1168, 1296));
    assert(x.qinv@ =~= w.subrange(1296, 1424) && y.qinv@ =~= w.subrange(1296, 1424));
    assert(x.serial =~= y.serial);
    assert(x.n =~= y.n);
    assert(x.e =~= y.e);
    assert(x.sig =~= y.sig);
    assert(x.p =~= y.p);
    assert(x.q =~= y.q);
    assert(x.dp =~= y.dp);
    assert(x.dq =~= y.dq);
    assert(x.qinv =~= y.qinv);
}

} // verus!
