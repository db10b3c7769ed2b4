//! Trust on first use: which server certificates a client accepts.
//!
//! The trust store is a folder. The fingerprint of each trusted certificate is kept there
//! in a file named `<fingerprint>.fp`. The first server ever met is trusted; from then on
//! only certificates whose fingerprint is in the store are.
use crate::filename;
use crate::tls;
use std::path::PathBuf;
use vstd::prelude::*;

verus! {

/// The application protocol that both ends of a QUIC connection name.
pub const ALPN_PROTOCOL: &'static str = "waterdrop/1";

/// Makes outbound QUIC connections. Fingerprints are kept in `trust_store`.
pub struct QuicConnector {
    trust_store: PathBuf,
}

impl QuicConnector {
    /// The folder in which the trusted fingerprints are kept.
    pub closed spec fn store(self) -> PathBuf {
        self.trust_store
    }

    /// A connector that keeps the fingerprints it trusts in `trust_store`.
    #[must_use]
    pub fn new(trust_store: &PathBuf) -> (c: Self)
        ensures
            c.store() == *trust_store,
    {
        QuicConnector { trust_store: trust_store.clone() }
    }

    /// The folder in which the trusted fingerprints are kept.
    pub fn trust_store(&self) -> (dir: &PathBuf)
        ensures
            *dir == self.store(),
    {
        &self.trust_store
    }
}

/// What to make of a server's certificate.
#[derive(Debug, Clone, Copy, PartialEq, Eq, Structural)]
pub enum Trust {
    /// Its fingerprint is in the store.
    Trusted,
    /// Other fingerprints are in the store, and not this one.
    Untrusted,
    /// No fingerprint is in the store: this one is to be put there.
    FirstContact,
}

/// The name of the file for a fingerprint.
pub open spec fn fingerprint_file_spec(fingerprint: Seq<char>) -> Seq<char> {
    fingerprint + ".fp"@
}

/// Whether a file of the store is one for a fingerprint: its extension is `fp`.
pub open spec fn is_fingerprint_file(name: Seq<char>) -> bool {
    name.len() > 3 && name.skip(name.len() - 3) == ".fp"@
}

/// What to make of a fingerprint, by the names of the files in the store.
pub open spec fn trust_of(fingerprint: Seq<char>, store: Seq<String>) -> Trust {
    if filename::is_taken(fingerprint_file_spec(fingerprint), store) {
        Trust::Trusted
    } else if exists|i: int| 0 <= i < store.len() && is_fingerprint_file((#[trigger] store[i])@) {
        Trust::Untrusted
    } else {
        Trust::FirstContact
    }
}

/// The name of the file for a fingerprint.
pub fn fingerprint_file(fingerprint: &str) -> (name: String)
    ensures
        name@ == fingerprint_file_spec(fingerprint@),
{
    String::from_str(fingerprint).concat(".fp")
}

fn has_fp_extension(name: &str) -> (r: bool)
    ensures
        r == is_fingerprint_file(name@),
{
    let len: usize = name.unicode_len();
    if len <= 3 {
        return false;
    }
    let tail = String::from_str(name.substring_char(len - 3, len));
    assert(tail@ =~= name@.skip(name@.len() - 3));
    tail == String::from_str(".fp")
}

/// What to make of a server's certificate, by the names of the files in the store.
/// Returns the fingerprint with it: after a first contact it is to be stored.
pub fn verify_server_cert(cert_der: &[u8], store: &Vec<String>) -> (r: (Trust, String))
    ensures
        r.1@ == tls::hex_text(tls::sha256_of(cert_der@)),
        r.0 == trust_of(r.1@, store@),
{
    let fingerprint = tls::fingerprint_sha256(cert_der);
    let trust = decide_trust(fingerprint.as_str(), store);
    (trust, fingerprint)
}

/// What to make of a fingerprint, by the names of the files in the store.
pub fn decide_trust(fingerprint: &str, store: &Vec<String>) -> (trust: Trust)
    ensures
        trust == trust_of(fingerprint@, store@),
{
    let file = fingerprint_file(fingerprint);
    let mut any: bool = false;
    let mut i: usize = 0;
    while i < store.len()
        invariant
            i <= store.len(),
            file@ == fingerprint_file_spec(fingerprint@),
            any <==> exists|j: int| 0 <= j < i && is_fingerprint_file((#[trigger] store@[j])@),
            forall|j: int| 0 <= j < i ==> (#[trigger] store@[j])@ != file@,
        decreases store.len() - i,
    {
        if store[i] == file {
            return Trust::Trusted;
        }
        if has_fp_extension(store[i].as_str()) {
            any = true;
        }
        i = i + 1;
    }
    if any {
        Trust::Untrusted
    } else {
        Trust::FirstContact
    }
}

/// Why a certificate is refused.
pub open spec fn untrusted_text(fingerprint: Seq<char>) -> Seq<char> {
    "TOFU: server certificate fingerprint "@ + fingerprint + " is not trusted"@
}

/// Why a certificate is refused.
pub fn untrusted_message(fingerprint: &str) -> (s: String)
    ensures
        s@ == untrusted_text(fingerprint@),
{
    String::from_str("TOFU: server certificate fingerprint ").concat(fingerprint).concat(
        " is not trusted",
    )
}

/// The first server ever met is trusted: an empty store refuses nobody.
pub proof fn law_empty_store_trusts_first_contact(fingerprint: Seq<char>)
    ensures
        trust_of(fingerprint, Seq::empty()) == Trust::FirstContact,
{
}

/// A fingerprint that was put into the store is trusted from then on, and whatever else is
/// put there takes nothing away from it.
pub proof fn law_stored_fingerprint_stays_trusted(
    fingerprint: Seq<char>,
    before: Seq<String>,
    file: String,
    after: Seq<String>,
)
    requires
        file@ == fingerprint_file_spec(fingerprint),
    ensures
        trust_of(fingerprint, before.push(file) + after) == Trust::Trusted,
{
    let store = before.push(file) + after;
    assert(store[before.len() as int] == file);
}

/// Once a certificate has been trusted, one with another fingerprint is refused, unless
/// that was stored too.
pub proof fn law_other_fingerprint_is_refused(
    trusted: Seq<char>,
    other: Seq<char>,
    file: String,
    store: Seq<String>,
)
    requires
        trusted.len() > 0,
        file@ == fingerprint_file_spec(trusted),
        store.contains(file),
        !filename::is_taken(fingerprint_file_spec(other), store),
    ensures
        trust_of(other, store) == Trust::Untrusted,
{
    reveal_strlit(".fp");
    let i = choose|i: int| 0 <= i < store.len() && store[i] == file;
    assert(file@.skip(file@.len() - 3) =~= ".fp"@);
    assert(is_fingerprint_file(store[i]@));
}

/// Different fingerprints have different files.
pub proof fn law_fingerprint_files_differ(a: Seq<char>, b: Seq<char>)
    requires
        fingerprint_file_spec(a) == fingerprint_file_spec(b),
    ensures
        a == b,
{
    reveal_strlit(".fp");
    assert(a =~= fingerprint_file_spec(a).take(a.len() as int));
    assert(b =~= fingerprint_file_spec(b).take(b.len() as int));
    assert(fingerprint_file_spec(a).len() == a.len() + 3);
    assert(fingerprint_file_spec(b).len() == b.len() + 3);
}

/// The store alone decides: a certificate is trusted exactly if the file of its fingerprint is
/// there, it is refused exactly if only the files of others are, and it is a first contact
/// exactly if there is none at all, whatever else lies in the folder.
pub proof fn law_the_store_decides(fingerprint: Seq<char>, store: Seq<String>)
    ensures
        ({
            let own = exists|i: int|
                0 <= i < store.len() && (#[trigger] store[i])@ == fingerprint + ".fp"@;
            let any = exists|i: int|
                0 <= i < store.len() && (#[trigger] store[i])@.len() > 3
                    && store[i]@.subrange(store[i]@.len() - 3, store[i]@.len() as int) == ".fp"@;
            trust_of(fingerprint, store) == if own {
                Trust::Trusted
            } else if any {
                Trust::Untrusted
            } else {
                Trust::FirstContact
            }
        }),
{
    assert forall|i: int| 0 <= i < store.len() implies is_fingerprint_file((#[trigger] store[i])@)
        == (store[i]@.len() > 3 && store[i]@.subrange(
        store[i]@.len() - 3,
        store[i]@.len() as int,
    ) == ".fp"@) by {
        if store[i]@.len() > 3 {
            assert(store[i]@.skip(store[i]@.len() - 3) =~= store[i]@.subrange(
                store[i]@.len() - 3,
                store[i]@.len() as int,
            ));
        }
    }
}

/// The file of a fingerprint is called by it, and a certificate that is refused is named by it.
pub proof fn law_fingerprint_names_its_file(fingerprint: Seq<char>)
    ensures
        fingerprint_file_spec(fingerprint) == fingerprint + seq!['.', 'f', 'p'],
        untrusted_text(fingerprint) == "TOFU: server certificate fingerprint "@ + fingerprint
            + " is not trusted"@,
{
    reveal_strlit(".fp");
    assert(".fp"@ =~= seq!['.', 'f', 'p']);
}

} // verus!
