//! The certificate by which this device is known, and its fingerprint.
use vstd::prelude::*;
use vstd::slice::slice_to_vec;

verus! {

/// The file in which the certificate is kept.
pub const CERT_FILE: &'static str = "cert.der";

/// The file in which the private key is kept.
pub const KEY_FILE: &'static str = "key.der";

/// A certificate and its private key, each DER-encoded.
#[derive(Debug, Clone)]
pub struct CertKeyPair {
    pub cert_der: Vec<u8>,
    pub private_key_pkcs8_der: Vec<u8>,
}

/// What lies in a certificate folder: the contents of its two files, as far as they are
/// there.
#[derive(Debug, Clone)]
pub struct CertFiles {
    pub cert: Option<Vec<u8>>,
    pub key: Option<Vec<u8>>,
}

/// Why there is no certificate.
#[derive(Debug, Clone, Copy, PartialEq, Eq, Structural)]
pub enum CertError {
    /// Only one of the two files is there.
    Incomplete { cert_exists: bool, key_exists: bool },
    /// No certificate could be made.
    GenerationFailed,
}

/// An error of the `rcgen` crate.
#[verifier::external_type_specification]
#[verifier::external_body]
pub struct ExRcgenError(rcgen::Error);

/// Whether a certificate and a key are a pair that `rcgen` makes for these subjects.
pub uninterp spec fn issued_for(cert: Seq<u8>, key: Seq<u8>, subjects: Seq<Seq<char>>) -> bool;

/// The SHA-256 digest of some bytes.
pub uninterp spec fn sha256_of(data: Seq<u8>) -> Seq<u8>;

/// The texts in a list.
pub open spec fn texts(list: Seq<String>) -> Seq<Seq<char>> {
    list.map_values(|s: String| s@)
}

/// The texts in a list of string slices.
pub open spec fn slice_texts(list: Seq<&str>) -> Seq<Seq<char>> {
    list.map_values(|s: &str| s@)
}

/// [`rcgen::generate_simple_self_signed`]: a new certificate for the given subjects,
/// signed with a new key, and that key. The key comes from the system's source of
/// randomness, so two calls differ; what is said is that the pair was made for the
/// subjects, and that neither part is empty: the one is a DER sequence, the other a key
/// that was read back. When it fails is not said.
#[verifier::external_body]
fn self_signed(subjects: Vec<String>) -> (r: Result<(Vec<u8>, Vec<u8>), rcgen::Error>)
    ensures
        r matches Ok(pair) ==> issued_for(pair.0@, pair.1@, texts(subjects@)) && pair.0@.len() > 0
            && pair.1@.len() > 0,
{
    match rcgen::generate_simple_self_signed(subjects) {
        Ok(certified) => Ok((certified.cert.der().to_vec(), certified.key_pair.serialize_der())),
        Err(e) => Err(e),
    }
}

/// `Sha256::digest` of the `sha2` crate: the SHA-256 digest, which has 32 bytes.
#[verifier::external_body]
fn sha256(data: &[u8]) -> (digest: Vec<u8>)
    ensures
        digest@ == sha256_of(data@),
        digest@.len() == 32,
{
    <sha2::Sha256 as sha2::Digest>::digest(data).to_vec()
}

/// The lower-case hexadecimal digit of a number below sixteen.
pub open spec fn hex_digit(n: nat) -> char
    recommends
        n < 16,
{
    if n < 10 {
        ('0' as nat + n) as char
    } else {
        ('a' as nat + (n - 10)) as char
    }
}

/// Bytes written in hexadecimal, two lower-case digits each.
pub open spec fn hex_text(bytes: Seq<u8>) -> Seq<char> {
    Seq::new(
        2 * bytes.len(),
        |i: int|
            if i % 2 == 0 {
                hex_digit((bytes[i / 2] / 16) as nat)
            } else {
                hex_digit((bytes[i / 2] % 16) as nat)
            },
    )
}

/// [`hex::encode`]: the bytes in hexadecimal, two lower-case digits each.
#[verifier::external_body]
fn hex_encode(bytes: &Vec<u8>) -> (s: String)
    requires
        2 * bytes@.len() <= isize::MAX,
    ensures
        s@ == hex_text(bytes@),
{
    hex::encode(bytes)
}

/// The SHA-256 fingerprint of a DER-encoded certificate: 64 lower-case hexadecimal
/// digits.
#[must_use]
pub fn fingerprint_sha256(cert_der: &[u8]) -> (fingerprint: String)
    ensures
        fingerprint@ == hex_text(sha256_of(cert_der@)),
        fingerprint@.len() == 64,
{
    hex_encode(&sha256(cert_der))
}

/// Every character of a fingerprint is a lower-case hexadecimal digit.
pub proof fn law_fingerprint_is_hexadecimal(bytes: Seq<u8>, i: int)
    requires
        0 <= i < hex_text(bytes).len(),
    ensures
        ({
            let c = hex_text(bytes)[i];
            ('0' <= c && c <= '9') || ('a' <= c && c <= 'f')
        }),
{
}

/// Different digests have different fingerprints.
pub proof fn law_hex_text_is_injective(a: Seq<u8>, b: Seq<u8>)
    requires
        hex_text(a) == hex_text(b),
    ensures
        a == b,
{
    assert(hex_text(a).len() == 2 * a.len());
    assert(hex_text(b).len() == 2 * b.len());
    assert forall|i: int| 0 <= i < a.len() implies a[i] == b[i] by {
        assert(hex_text(a)[2 * i] == hex_text(b)[2 * i]);
        assert(hex_text(a)[2 * i + 1] == hex_text(b)[2 * i + 1]);
        assert((2 * i) / 2 == i && (2 * i + 1) / 2 == i);
        assert(hex_text(a)[2 * i] == hex_digit((a[i] / 16) as nat));
        assert(hex_text(b)[2 * i] == hex_digit((b[i] / 16) as nat));
        assert(hex_text(a)[2 * i + 1] == hex_digit((a[i] % 16) as nat));
        assert(hex_text(b)[2 * i + 1] == hex_digit((b[i] % 16) as nat));
    }
    assert(a =~= b);
}

/// What making a certificate came to.
pub fn certificate_from(made: Result<(Vec<u8>, Vec<u8>), rcgen::Error>) -> (r: Result<
    CertKeyPair,
    CertError,
>)
    ensures
        match made {
            Ok(pair) => r == Ok::<CertKeyPair, CertError>(
                CertKeyPair { cert_der: pair.0, private_key_pkcs8_der: pair.1 },
            ),
            Err(_) => r == Err::<CertKeyPair, CertError>(CertError::GenerationFailed),
        },
{
    match made {
        Ok((cert_der, private_key_pkcs8_der)) => Ok(
            CertKeyPair { cert_der, private_key_pkcs8_der },
        ),
        Err(_) => Err(CertError::GenerationFailed),
    }
}

/// Makes a self-signed certificate for the given `subjects`. Neither the certificate nor its
/// key is empty.
pub fn generate_self_signed_cert(subjects: &[&str]) -> (r: Result<CertKeyPair, CertError>)
    ensures
        match r {
            Ok(pair) => {
                &&& issued_for(
                    pair.cert_der@,
                    pair.private_key_pkcs8_der@,
                    slice_texts(subjects@),
                )
                &&& pair.cert_der@.len() > 0
                &&& pair.private_key_pkcs8_der@.len() > 0
            },
            Err(e) => e == CertError::GenerationFailed,
        },
{
    let mut names: Vec<String> = Vec::new();
    let mut i: usize = 0;
    while i < subjects.len()
        invariant
            i <= subjects.len(),
            texts(names@) =~= slice_texts(subjects@).take(i as int),
        decreases subjects.len() - i,
    {
        let name = String::from_str(subjects[i]);
        proof {
            assert(texts(names@.push(name)) =~= texts(names@).push(name@));
            assert(slice_texts(subjects@)[i as int] == name@);
        }
        names.push(name);
        i = i + 1;
    }
    assert(texts(names@) =~= slice_texts(subjects@));
    certificate_from(self_signed(names))
}

/// The contents of the two files in which a pair is kept.
pub fn save_cert_pair(pair: &CertKeyPair) -> (files: CertFiles)
    ensures
        files.cert matches Some(cert) && cert@ == pair.cert_der@,
        files.key matches Some(key) && key@ == pair.private_key_pkcs8_der@,
{
    CertFiles {
        cert: Some(slice_to_vec(pair.cert_der.as_slice())),
        key: Some(slice_to_vec(pair.private_key_pkcs8_der.as_slice())),
    }
}

/// What the files of a certificate folder amount to: a pair if both are there, none if
/// neither is, and an error otherwise.
pub open spec fn loaded(files: CertFiles) -> Result<Option<CertKeyPair>, CertError> {
    match (files.cert, files.key) {
        (Some(cert_der), Some(private_key_pkcs8_der)) => Ok(
            Some(CertKeyPair { cert_der, private_key_pkcs8_der }),
        ),
        (None, None) => Ok(None),
        (cert, key) => Err(
            CertError::Incomplete { cert_exists: cert is Some, key_exists: key is Some },
        ),
    }
}

/// Reads the pair that the files of a certificate folder hold.
pub fn load_cert_pair(files: CertFiles) -> (r: Result<Option<CertKeyPair>, CertError>)
    ensures
        r == loaded(files),
{
    match (files.cert, files.key) {
        (Some(cert_der), Some(private_key_pkcs8_der)) => Ok(
            Some(CertKeyPair { cert_der, private_key_pkcs8_der }),
        ),
        (None, None) => Ok(None),
        (Some(_), None) => Err(
            CertError::Incomplete { cert_exists: true, key_exists: false },
        ),
        (None, Some(_)) => Err(
            CertError::Incomplete { cert_exists: false, key_exists: true },
        ),
    }
}

/// The pair in a certificate folder, or a new one for `subjects` where the folder holds
/// none. A new pair comes with the files to write.
pub fn load_or_generate_cert(files: CertFiles, subjects: &[&str]) -> (r: Result<
    (CertKeyPair, Option<CertFiles>),
    CertError,
>)
    ensures
        match loaded(files) {
            Ok(Some(pair)) => r == Ok::<(CertKeyPair, Option<CertFiles>), CertError>((pair, None)),
            Ok(None) => match r {
                Ok((pair, written)) => {
                    &&& issued_for(
                        pair.cert_der@,
                        pair.private_key_pkcs8_der@,
                        slice_texts(subjects@),
                    )
                    &&& pair.cert_der@.len() > 0
                    &&& pair.private_key_pkcs8_der@.len() > 0
                    &&& written matches Some(new) && loaded(new) matches Ok(Some(again))
                        && again.cert_der@ == pair.cert_der@ && again.private_key_pkcs8_der@
                        == pair.private_key_pkcs8_der@
                },
                Err(e) => e == CertError::GenerationFailed,
            },
            Err(e) => r == Err::<(CertKeyPair, Option<CertFiles>), CertError>(e),
        },
{
    match load_cert_pair(files) {
        Ok(Some(pair)) => Ok((pair, None)),
        Ok(None) => match generate_self_signed_cert(subjects) {
            Ok(pair) => {
                let written = save_cert_pair(&pair);
                Ok((pair, Some(written)))
            },
            Err(e) => Err(e),
        },
        Err(e) => Err(e),
    }
}

/// A pair that was saved is loaded as it was.
pub proof fn law_saved_pair_is_loaded(pair: CertKeyPair, files: CertFiles)
    requires
        files.cert matches Some(cert) && cert@ == pair.cert_der@,
        files.key matches Some(key) && key@ == pair.private_key_pkcs8_der@,
    ensures
        loaded(files) matches Ok(Some(again)) && again.cert_der@ == pair.cert_der@
            && again.private_key_pkcs8_der@ == pair.private_key_pkcs8_der@,
{
}

impl CertError {
    /// The error in words, about the folder `dir`.
    pub open spec fn message_spec(self, dir: Seq<char>) -> Seq<char> {
        match self {
            CertError::Incomplete { cert_exists, key_exists } => "incomplete cert pair in "@ + dir
                + ": cert.der exists="@ + bool_text(cert_exists) + ", key.der exists="@
                + bool_text(key_exists),
            CertError::GenerationFailed => "failed to generate self-signed certificate"@,
        }
    }

    /// The error in words, about the folder `dir`.
    pub fn message(&self, dir: &str) -> (s: String)
        ensures
            s@ == self.message_spec(dir@),
    {
        match self {
            CertError::Incomplete { cert_exists, key_exists } => String::from_str(
                "incomplete cert pair in ",
            ).concat(dir).concat(": cert.der exists=").concat(bool_str(*cert_exists)).concat(
                ", key.der exists=",
            ).concat(bool_str(*key_exists)),
            CertError::GenerationFailed => String::from_str(
                "failed to generate self-signed certificate",
            ),
        }
    }
}

/// A truth value in words.
pub open spec fn bool_text(b: bool) -> Seq<char> {
    if b {
        "true"@
    } else {
        "false"@
    }
}

fn bool_str(b: bool) -> (s: &'static str)
    ensures
        s@ == bool_text(b),
{
    if b {
        "true"
    } else {
        "false"
    }
}

/// A folder holds a pair if both files are there, none if neither is, and is incomplete
/// otherwise; which file is missing is told.
pub proof fn law_folder_holds_all_or_nothing(cert: Vec<u8>, key: Vec<u8>)
    ensures
        loaded(CertFiles { cert: Some(cert), key: Some(key) }) == Ok::<
            Option<CertKeyPair>,
            CertError,
        >(Some(CertKeyPair { cert_der: cert, private_key_pkcs8_der: key })),
        loaded(CertFiles { cert: None, key: None }) == Ok::<Option<CertKeyPair>, CertError>(None),
        loaded(CertFiles { cert: Some(cert), key: None }) == Err::<Option<CertKeyPair>, CertError>(
            CertError::Incomplete { cert_exists: true, key_exists: false },
        ),
        loaded(CertFiles { cert: None, key: Some(key) }) == Err::<Option<CertKeyPair>, CertError>(
            CertError::Incomplete { cert_exists: false, key_exists: true },
        ),
{
}

/// Two digits of a fingerprint are one byte of the digest, the more significant one first.
pub proof fn law_hex_text_spells_the_bytes(bytes: Seq<u8>, i: int)
    requires
        0 <= i < bytes.len(),
    ensures
        ({
            let value = |c: char|
                if c <= '9' {
                    c as int - '0' as int
                } else {
                    c as int - 'a' as int + 10
                };
            &&& hex_text(bytes).len() == 2 * bytes.len()
            &&& 16 * value(hex_text(bytes)[2 * i]) + value(hex_text(bytes)[2 * i + 1]) == bytes[i]
        }),
{
    assert((2 * i) / 2 == i && (2 * i + 1) / 2 == i);
    assert(hex_text(bytes)[2 * i] == hex_digit((bytes[i] / 16) as nat));
    assert(hex_text(bytes)[2 * i + 1] == hex_digit((bytes[i] % 16) as nat));
}

/// An incomplete pair is told with the folder and what is there of it.
pub proof fn law_incomplete_pair_is_told(dir: Seq<char>)
    ensures
        ({
            let no_key = CertError::Incomplete { cert_exists: true, key_exists: false };
            let no_cert = CertError::Incomplete { cert_exists: false, key_exists: true };
            &&& no_key.message_spec(dir) == "incomplete cert pair in "@ + dir
                + ": cert.der exists="@ + "true"@ + ", key.der exists="@ + "false"@
            &&& no_cert.message_spec(dir) == "incomplete cert pair in "@ + dir
                + ": cert.der exists="@ + "false"@ + ", key.der exists="@ + "true"@
        }),
        CertError::GenerationFailed.message_spec(dir)
            == "failed to generate self-signed certificate"@,
{
}

/// The subjects that a certificate is made for are those that were given, one by one and in
/// order.
pub proof fn law_subjects_are_those_given(list: Seq<String>, slices: Seq<&str>, i: int)
    ensures
        texts(list).len() == list.len(),
        slice_texts(slices).len() == slices.len(),
        0 <= i < list.len() ==> texts(list)[i] == list[i]@,
        0 <= i < slices.len() ==> slice_texts(slices)[i] == slices[i]@,
{
}

} // verus!
