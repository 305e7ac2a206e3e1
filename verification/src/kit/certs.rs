//! Certificates and keys as bytes: which encoding a file holds, turning a
//! PEM bundle into DER certificates, and whether a presented certificate
//! is one of the certificates trusted as they are.
use vstd::prelude::*;

verus! {

/// A key and a certificate chain as loaded, each with the extension of the
/// file it came from.
#[derive(Clone, Debug, PartialEq, Eq)]
pub struct CertBytes {
    pub key_bytes: Vec<u8>,
    pub key_ext: Option<String>,
    pub cert_bytes: Vec<u8>,
    pub cert_ext: Option<String>,
}

/// A file extension that says the bytes are DER.
pub open spec fn ext_is_der(ext: Option<String>) -> bool {
    ext matches Some(e) && e@ == seq!['d', 'e', 'r']
}

fn is_der_ext(ext: &Option<String>) -> (r: bool)
    ensures
        r == ext_is_der(*ext),
{
    match ext {
        Some(e) => {
            let s = e.as_str();
            if s.unicode_len() != 3 {
                return false;
            }
            let r = s.get_char(0) == 'd' && s.get_char(1) == 'e' && s.get_char(2) == 'r';
            proof {
                if r {
                    assert(s@ =~= seq!['d', 'e', 'r']);
                }
            }
            r
        },
        None => false,
    }
}

impl CertBytes {
    /// The key is DER (else PEM).
    pub fn key_is_der(&self) -> (r: bool)
        ensures
            r == ext_is_der(self.key_ext),
    {
        is_der_ext(&self.key_ext)
    }

    /// The certificate chain is one DER certificate (else PEM).
    pub fn cert_is_der(&self) -> (r: bool)
        ensures
            r == ext_is_der(self.cert_ext),
    {
        is_der_ext(&self.cert_ext)
    }
}

/// The DER certificates of the PEM sections of `src`, in order, sections
/// of other kinds skipped; `None` when a section is malformed.
pub uninterp spec fn pem_cert_ders(src: Seq<u8>) -> Option<Seq<Seq<u8>>>;

/// Calls `rustls_pemfile::certs` on `src` and collects the certificates.
/// The contract names what comes out `pem_cert_ders(src)`: a function of
/// the bytes alone; `None` when the crate reports an error for a section.
#[verifier::external_body]
fn read_pem_certs(src: &[u8]) -> (r: Option<Vec<Vec<u8>>>)
    ensures
        match r {
            Some(v) => pem_cert_ders(src@) == Some(v@.map_values(|c: Vec<u8>| c@)),
            None => pem_cert_ders(src@) is None,
        },
{
    let mut rd: &[u8] = src;
    let all: Result<Vec<_>, std::io::Error> = rustls_pemfile::certs(&mut rd).collect();
    all.ok().map(|v| v.into_iter().map(|c| c.as_ref().to_vec()).collect())
}

/// Why certificates could not be read.
#[derive(Debug, Clone, Copy, PartialEq, Eq, Structural)]
pub enum CertError {
    /// a PEM section is malformed
    PemToDer,
}

/// The DER certificates of a PEM bundle, in order.
pub fn pem_to_der(src: &[u8]) -> (r: Result<Vec<Vec<u8>>, CertError>)
    ensures
        match pem_cert_ders(src@) {
            Some(d) => r matches Ok(v) && v@.map_values(|c: Vec<u8>| c@) == d,
            None => r == Err::<Vec<Vec<u8>>, CertError>(CertError::PemToDer),
        },
{
    match read_pem_certs(src) {
        Some(v) => Ok(v),
        None => Err(CertError::PemToDer),
    }
}

/// Equality of two byte strings.
pub fn bytes_eq(a: &[u8], b: &[u8]) -> (r: bool)
    ensures
        r == (a@ == b@),
{
    if a.len() != b.len() {
        return false;
    }
    let mut i: usize = 0;
    while i < a.len()
        invariant
            a@.len() == b@.len(),
            i <= a@.len(),
            forall|j: int| 0 <= j < i ==> a@[j] == b@[j],
        decreases a.len() - i,
    {
        if a[i] != b[i] {
            return false;
        }
        i = i + 1;
    }
    assert(a@ =~= b@);
    true
}

/// How a server certificate is judged.
#[derive(Debug, Clone, Copy, PartialEq, Eq, Structural)]
pub enum CertVerdict {
    /// it is one of the certificates trusted as they are
    Trusted,
    /// the web PKI verifier decides
    Delegate,
    /// no verifier is set: it is accepted
    Accept,
}

/// A certificate listed in `extra` is trusted as it is; otherwise the web
/// PKI verifier decides when there is one, and without one it is accepted.
pub fn cert_verdict(end_entity: &[u8], extra: &Vec<Vec<u8>>, has_webpki: bool) -> (r: CertVerdict)
    ensures
        (exists|i: int| 0 <= i < extra@.len() && #[trigger] extra@[i]@ == end_entity@) ==> r
            == CertVerdict::Trusted,
        !(exists|i: int| 0 <= i < extra@.len() && #[trigger] extra@[i]@ == end_entity@) ==> r == (
        if has_webpki {
            CertVerdict::Delegate
        } else {
            CertVerdict::Accept
        }),
{
    let mut i: usize = 0;
    while i < extra.len()
        invariant
            i <= extra@.len(),
            forall|j: int| 0 <= j < i ==> #[trigger] extra@[j]@ != end_entity@,
        decreases extra.len() - i,
    {
        if bytes_eq(extra[i].as_slice(), end_entity) {
            return CertVerdict::Trusted;
        }
        i = i + 1;
    }
    if has_webpki {
        CertVerdict::Delegate
    } else {
        CertVerdict::Accept
    }
}

/// A key and certificate carried in the program as PEM bytes.
pub struct EmbedCert {
    pub key_bytes: &'static [u8],
    pub cert_bytes: &'static [u8],
}

impl EmbedCert {
    /// The DER certificates of the embedded PEM certificate.
    pub fn cert_der(&self) -> (r: Result<Vec<Vec<u8>>, CertError>)
        ensures
            match pem_cert_ders(self.cert_bytes@) {
                Some(v) => r matches Ok(w) && w@.map_values(|c: Vec<u8>| c@) == v,
                None => r == Err::<Vec<Vec<u8>>, CertError>(CertError::PemToDer),
            },
    {
        pem_to_der(self.cert_bytes)
    }

    /// The embedded key and certificate as owned bytes, with no file
    /// extension (so both read as PEM).
    pub fn to_bytes(&self) -> (r: CertBytes)
        ensures
            r.key_bytes@ == self.key_bytes@,
            r.cert_bytes@ == self.cert_bytes@,
            r.key_ext is None,
            r.cert_ext is None,
    {
        CertBytes {
            key_bytes: vstd::slice::slice_to_vec(self.key_bytes),
            key_ext: None,
            cert_bytes: vstd::slice::slice_to_vec(self.cert_bytes),
            cert_ext: None,
        }
    }
}

} // verus!
