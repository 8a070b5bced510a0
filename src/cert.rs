use vstd::prelude::*;
use jwt_simple::prelude::{ES384KeyPair, ECDSAP384KeyPairLike};
use openssl::pkey::{PKey, Private};
use openssl::x509::{X509Builder, X509Name};

use crate::error::Error;
use crate::text::str_eq;
use crate::state::InnerState;

verus! {

#[verifier::external_type_specification]
#[verifier::external_body]
pub struct ExX509Builder(X509Builder);

#[verifier::external_type_specification]
#[verifier::external_body]
pub struct ExX509Name(X509Name);

#[verifier::external_type_specification]
#[verifier::external_body]
pub struct ExPrivate(Private);

#[verifier::external_type_specification]
#[verifier::external_body]
#[verifier::reject_recursive_types(T)]
pub struct ExPKey<T>(PKey<T>);

/// Validity of the published certificate, in days from now.
pub const CERT_VALID_DAYS: u32 = 365;

/// Bits of the random certificate serial number.
pub const SERIAL_BITS: i32 = 64;

/// Longest text handed to openssl, in characters: its bytes (at most four per
/// character) must fit a C `int`.
pub const MAX_PEM_CHARS: usize = 0x1fff_ffff;

/// Relies on `ES384KeyPair::to_pem`: the private key as PEM; `None` on failure.
#[verifier::external_body]
fn key_pair_pem(key: &ES384KeyPair) -> Option<String> {
    key.to_pem().ok()
}

/// Relies on `EcKey::private_key_from_pem` and `PKey::from_ec_key`: the same key as an
/// openssl key handle; `None` on failure.
#[verifier::external_body]
fn pkey_from_pem(pem: &str) -> Option<PKey<Private>>
    requires
        pem@.len() <= MAX_PEM_CHARS,
{
    let ec_key = openssl::ec::EcKey::private_key_from_pem(pem.as_bytes()).ok()?;
    PKey::from_ec_key(ec_key).ok()
}

/// Relies on `X509NameBuilder::new`, `append_entry_by_text` and `build`: the name holding
/// the single entry `field = value`; `None` on failure.
#[verifier::external_body]
fn x509_name(field: &str, value: &str) -> Option<X509Name>
    requires
        forall|i: int| 0 <= i < field@.len() ==> field@[i] != '\0',
        value@.len() <= MAX_PEM_CHARS,
{
    let mut name = openssl::x509::X509NameBuilder::new().ok()?;
    name.append_entry_by_text(field, value).ok()?;
    Some(name.build())
}

/// Relies on `X509Builder::new`; `None` on failure.
#[verifier::external_body]
fn x509_builder() -> Option<X509Builder> {
    X509Builder::new().ok()
}

/// Relies on `X509Builder::set_version`; `None` on failure.
#[verifier::external_body]
fn set_version(b: &mut X509Builder, version: i32) -> Option<()> {
    b.set_version(version).ok()
}

/// Relies on `X509Builder::set_subject_name`; `None` on failure.
#[verifier::external_body]
fn set_subject_name(b: &mut X509Builder, name: &X509Name) -> Option<()> {
    b.set_subject_name(name).ok()
}

/// Relies on `X509Builder::set_issuer_name`; `None` on failure.
#[verifier::external_body]
fn set_issuer_name(b: &mut X509Builder, name: &X509Name) -> Option<()> {
    b.set_issuer_name(name).ok()
}

/// Relies on `X509Builder::set_pubkey`; `None` on failure.
#[verifier::external_body]
fn set_pubkey(b: &mut X509Builder, key: &PKey<Private>) -> Option<()> {
    b.set_pubkey(key).ok()
}

/// Relies on `Asn1Time::days_from_now` and `X509Builder::set_not_before`; `None` on failure.
#[verifier::external_body]
fn set_not_before_days(b: &mut X509Builder, days: u32) -> Option<()> {
    let t = openssl::asn1::Asn1Time::days_from_now(days).ok()?;
    b.set_not_before(&t).ok()
}

/// Relies on `Asn1Time::days_from_now` and `X509Builder::set_not_after`; `None` on failure.
#[verifier::external_body]
fn set_not_after_days(b: &mut X509Builder, days: u32) -> Option<()> {
    let t = openssl::asn1::Asn1Time::days_from_now(days).ok()?;
    b.set_not_after(&t).ok()
}

/// Relies on `BigNum::new`, `BigNumRef::rand` (cryptographically random, top bit free),
/// `to_asn1_integer` and `X509Builder::set_serial_number`; `None` on failure.
#[verifier::external_body]
fn set_random_serial(b: &mut X509Builder, bits: i32) -> Option<()> {
    let mut serial = openssl::bn::BigNum::new().ok()?;
    serial.rand(bits, openssl::bn::MsbOption::MAYBE_ZERO, false).ok()?;
    let serial = serial.to_asn1_integer().ok()?;
    b.set_serial_number(&serial).ok()
}

/// Relies on `X509Builder::sign` with `MessageDigest::sha384`; `None` on failure.
#[verifier::external_body]
fn sign_sha384(b: &mut X509Builder, key: &PKey<Private>) -> Option<()> {
    b.sign(key, openssl::hash::MessageDigest::sha384()).ok()
}

/// Relies on `X509Builder::build` and `X509Ref::to_pem`; `None` on failure.
#[verifier::external_body]
fn build_pem(b: X509Builder) -> Option<Vec<u8>> {
    b.build().to_pem().ok()
}

/// Longest PEM text read back by openssl, in bytes: it must fit a C `int`.
pub const MAX_PEM_BYTES: usize = 0x7fff_ffff;

// Each name below reads a field of the certificate held by the PEM bytes `pem`: `None`
// when the bytes hold no certificate or the field cannot be read.

/// The common name of the subject, as UTF-8 text.
pub uninterp spec fn cert_subject_cn(pem: Seq<u8>) -> Option<Seq<char>>;

/// The common name of the issuer, as UTF-8 text.
pub uninterp spec fn cert_issuer_cn(pem: Seq<u8>) -> Option<Seq<char>>;

/// The version index (2 is X.509 v3).
pub uninterp spec fn cert_version(pem: Seq<u8>) -> Option<int>;

/// Whole days from the start to the end of the validity.
pub uninterp spec fn cert_validity_days(pem: Seq<u8>) -> Option<int>;

/// The short name of the signature algorithm.
pub uninterp spec fn cert_signature_algorithm(pem: Seq<u8>) -> Option<Seq<char>>;

/// The number of significant bits of the serial number.
pub uninterp spec fn cert_serial_bits(pem: Seq<u8>) -> Option<int>;

/// Whether the certificate's signature verifies under the key it certifies.
pub uninterp spec fn cert_self_signed(pem: Seq<u8>) -> Option<bool>;

/// The certified public key as SubjectPublicKeyInfo DER.
pub uninterp spec fn cert_public_key(pem: Seq<u8>) -> Option<Seq<u8>>;

/// Relies on `X509::from_pem`, `subject_name`, `entries_by_nid(Nid::COMMONNAME)` and
/// `Asn1StringRef::as_utf8`.
#[verifier::external_body]
fn pem_subject_cn(pem: &Vec<u8>) -> (r: Option<String>)
    requires
        pem@.len() <= MAX_PEM_BYTES,
    ensures
        match r {
            Some(v) => cert_subject_cn(pem@) == Some(v@),
            None => cert_subject_cn(pem@) is None,
        },
{
    let cert = openssl::x509::X509::from_pem(pem).ok()?;
    let entry = cert.subject_name().entries_by_nid(openssl::nid::Nid::COMMONNAME).next()?;
    let text = entry.data().as_utf8().ok()?;
    Some(text.to_string())
}

/// Relies on `X509::from_pem`, `issuer_name`, `entries_by_nid(Nid::COMMONNAME)` and
/// `Asn1StringRef::as_utf8`.
#[verifier::external_body]
fn pem_issuer_cn(pem: &Vec<u8>) -> (r: Option<String>)
    requires
        pem@.len() <= MAX_PEM_BYTES,
    ensures
        match r {
            Some(v) => cert_issuer_cn(pem@) == Some(v@),
            None => cert_issuer_cn(pem@) is None,
        },
{
    let cert = openssl::x509::X509::from_pem(pem).ok()?;
    let entry = cert.issuer_name().entries_by_nid(openssl::nid::Nid::COMMONNAME).next()?;
    let text = entry.data().as_utf8().ok()?;
    Some(text.to_string())
}

/// Relies on `X509::from_pem` and `X509Ref::version`.
#[verifier::external_body]
fn pem_version(pem: &Vec<u8>) -> (r: Option<i32>)
    requires
        pem@.len() <= MAX_PEM_BYTES,
    ensures
        match r {
            Some(v) => cert_version(pem@) == Some(v as int),
            None => cert_version(pem@) is None,
        },
{
    let cert = openssl::x509::X509::from_pem(pem).ok()?;
    Some(cert.version())
}

/// Relies on `X509::from_pem`, `not_before`, `not_after` and `Asn1TimeRef::diff`, whose
/// `days` field counts whole days.
#[verifier::external_body]
fn pem_validity_days(pem: &Vec<u8>) -> (r: Option<i32>)
    requires
        pem@.len() <= MAX_PEM_BYTES,
    ensures
        match r {
            Some(v) => cert_validity_days(pem@) == Some(v as int),
            None => cert_validity_days(pem@) is None,
        },
{
    let cert = openssl::x509::X509::from_pem(pem).ok()?;
    let diff = cert.not_before().diff(cert.not_after()).ok()?;
    Some(diff.days)
}

/// Relies on `X509::from_pem`, `signature_algorithm`, `object`, `nid` and
/// `Nid::short_name`.
#[verifier::external_body]
fn pem_signature_algorithm(pem: &Vec<u8>) -> (r: Option<String>)
    requires
        pem@.len() <= MAX_PEM_BYTES,
    ensures
        match r {
            Some(v) => cert_signature_algorithm(pem@) == Some(v@),
            None => cert_signature_algorithm(pem@) is None,
        },
{
    let cert = openssl::x509::X509::from_pem(pem).ok()?;
    let name = cert.signature_algorithm().object().nid().short_name().ok()?;
    Some(name.to_string())
}

/// Relies on `X509::from_pem`, `serial_number`, `Asn1IntegerRef::to_bn` and
/// `BigNumRef::num_bits`.
#[verifier::external_body]
fn pem_serial_bits(pem: &Vec<u8>) -> (r: Option<i32>)
    requires
        pem@.len() <= MAX_PEM_BYTES,
    ensures
        match r {
            Some(v) => cert_serial_bits(pem@) == Some(v as int),
            None => cert_serial_bits(pem@) is None,
        },
{
    let cert = openssl::x509::X509::from_pem(pem).ok()?;
    let serial = cert.serial_number().to_bn().ok()?;
    Some(serial.num_bits())
}

/// Relies on `X509::from_pem`, `X509Ref::public_key` and `X509Ref::verify`.
#[verifier::external_body]
fn pem_self_signed(pem: &Vec<u8>) -> (r: Option<bool>)
    requires
        pem@.len() <= MAX_PEM_BYTES,
    ensures
        match r {
            Some(v) => cert_self_signed(pem@) == Some(v),
            None => cert_self_signed(pem@) is None,
        },
{
    let cert = openssl::x509::X509::from_pem(pem).ok()?;
    let key = cert.public_key().ok()?;
    cert.verify(&key).ok()
}

/// Relies on `X509::from_pem`, `X509Ref::public_key` and `PKeyRef::public_key_to_der`.
#[verifier::external_body]
fn pem_public_key(pem: &Vec<u8>) -> (r: Option<Vec<u8>>)
    requires
        pem@.len() <= MAX_PEM_BYTES,
    ensures
        match r {
            Some(v) => cert_public_key(pem@) == Some(v@),
            None => cert_public_key(pem@) is None,
        },
{
    let cert = openssl::x509::X509::from_pem(pem).ok()?;
    let key = cert.public_key().ok()?;
    key.public_key_to_der().ok()
}

/// The certificate profile of the trust anchor: subject and issuer are `own_url`, the
/// certified key is `key_der`, an X.509 v3 certificate valid for a year, ECDSA with
/// SHA-384, a serial of at most 64 bits, signed by the key it certifies.
pub open spec fn anchor_profile(pem: Seq<u8>, own_url: Seq<char>, key_der: Seq<u8>) -> bool {
    &&& cert_subject_cn(pem) == Some(own_url)
    &&& cert_issuer_cn(pem) == Some(own_url)
    &&& cert_public_key(pem) == Some(key_der)
    &&& cert_version(pem) == Some(2int)
    &&& cert_validity_days(pem) == Some(CERT_VALID_DAYS as int)
    &&& cert_signature_algorithm(pem) == Some("ecdsa-with-SHA384"@)
    &&& (match cert_serial_bits(pem) {
        Some(b) => b <= SERIAL_BITS as int,
        None => false,
    })
    &&& cert_self_signed(pem) == Some(true)
}

/// Whether the PEM certificate `pem` has the trust-anchor profile for `own_url` and the
/// key `key_der`.
pub fn has_anchor_profile(pem: &Vec<u8>, own_url: &str, key_der: &Vec<u8>) -> (r: bool)
    ensures
        r == (pem@.len() <= MAX_PEM_BYTES && anchor_profile(pem@, own_url@, key_der@)),
{
    if pem.len() > MAX_PEM_BYTES {
        return false;
    }
    let subject_ok = match pem_subject_cn(pem) {
        Some(cn) => str_eq(cn.as_str(), own_url),
        None => false,
    };
    let issuer_ok = match pem_issuer_cn(pem) {
        Some(cn) => str_eq(cn.as_str(), own_url),
        None => false,
    };
    let key_ok = match pem_public_key(pem) {
        Some(k) => bytes_eq(&k, key_der),
        None => false,
    };
    let version_ok = match pem_version(pem) {
        Some(v) => v == 2,
        None => false,
    };
    let days_ok = match pem_validity_days(pem) {
        Some(d) => d as i64 == CERT_VALID_DAYS as i64,
        None => false,
    };
    let digest_ok = match pem_signature_algorithm(pem) {
        Some(a) => str_eq(a.as_str(), "ecdsa-with-SHA384"),
        None => false,
    };
    let serial_ok = match pem_serial_bits(pem) {
        Some(b) => b <= SERIAL_BITS,
        None => false,
    };
    let signed_ok = match pem_self_signed(pem) {
        Some(v) => v,
        None => false,
    };
    subject_ok && issuer_ok && key_ok && version_ok && days_ok && digest_ok && serial_ok
        && signed_ok
}

/// Whether two byte strings are equal.
pub fn bytes_eq(a: &Vec<u8>, b: &Vec<u8>) -> (r: bool)
    ensures
        r == (a@ == b@),
{
    if a.len() != b.len() {
        return false;
    }
    let mut i: usize = 0;
    while i < a.len()
        invariant
            a@.len() == b@.len(),
            i <= a@.len(),
            forall|k: int| 0 <= k < i ==> a@[k] == b@[k],
        decreases a.len() - i,
    {
        if a[i] != b[i] {
            return false;
        }
        i = i + 1;
    }
    assert(a@ =~= b@);
    true
}

/// Derives the self-signed trust-anchor certificate of the process key, as PEM: subject
/// and issuer are the deployment's own URL, it is an X.509 v3 certificate valid from now
/// for a year, with a random 64-bit serial, signed by the same key with SHA-384. The
/// result is read back and published only when it has that profile.
pub fn create_cert_from_pair(keys: &InnerState) -> (r: Result<Vec<u8>, Error>)
    ensures
        r is Ok ==> keys.spec_public_der() is Some && anchor_profile(
            r->Ok_0@,
            keys.spec_own_url(),
            keys.spec_public_der()->Some_0,
        ),
        r is Err ==> r->Err_0 is Opaque,
{
    let fail = Error::Opaque("Failed to create certificate");
    let pem = match key_pair_pem(keys.jwt_key()) {
        Some(p) => p,
        None => return Err(fail),
    };
    if pem.as_str().unicode_len() > MAX_PEM_CHARS {
        return Err(fail);
    }
    let pkey = match pkey_from_pem(pem.as_str()) {
        Some(k) => k,
        None => return Err(fail),
    };
    proof {
        reveal_strlit("CN");
    }
    if keys.own_url().as_str().unicode_len() > MAX_PEM_CHARS {
        return Err(fail);
    }
    let name = match x509_name("CN", keys.own_url().as_str()) {
        Some(n) => n,
        None => return Err(fail),
    };
    let mut builder = match x509_builder() {
        Some(b) => b,
        None => return Err(fail),
    };
    // Version index 2 is X.509 v3.
    let ok = set_version(&mut builder, 2).is_some()
        && set_subject_name(&mut builder, &name).is_some()
        && set_issuer_name(&mut builder, &name).is_some()
        && set_pubkey(&mut builder, &pkey).is_some()
        && set_not_before_days(&mut builder, 0).is_some()
        && set_not_after_days(&mut builder, CERT_VALID_DAYS).is_some()
        && set_random_serial(&mut builder, SERIAL_BITS).is_some()
        && sign_sha384(&mut builder, &pkey).is_some();
    if !ok {
        return Err(fail);
    }
    match build_pem(builder) {
        Some(pem) => match keys.public_der() {
            Some(der) => if has_anchor_profile(&pem, keys.own_url().as_str(), der) {
                Ok(pem)
            } else {
                Err(fail)
            },
            None => Err(fail),
        },
        None => Err(fail),
    }
}

} // verus!
