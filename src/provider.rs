//! What the connection takes from the cryptographic provider: random bytes and
//! the verification of the server's certificate.
use vstd::prelude::*;

use rand_core::RngCore;

use crate::error::Error;

verus! {

/// The random source failed.
#[derive(Clone, Copy, Debug, PartialEq, Eq, Structural)]
pub struct GetRandomFailed;

/// A set of trusted certificates.
#[derive(Clone, Debug)]
pub struct RootCertStore {
    pub roots: Vec<Vec<u8>>,
}

/// `cert` is one of `roots`.
pub open spec fn is_trusted(roots: Seq<Vec<u8>>, cert: Seq<u8>) -> bool {
    exists|i: int| 0 <= i < roots.len() && (#[trigger] roots[i])@ == cert
}

impl RootCertStore {
    pub fn empty() -> (r: Self)
        ensures
            r.roots@.len() == 0,
    {
        RootCertStore { roots: Vec::new() }
    }

    /// Adds `cert` to the trusted set.
    pub fn add(&mut self, cert: Vec<u8>)
        ensures
            final(self).roots@ == old(self).roots@.push(cert),
    {
        self.roots.push(cert);
    }
}

/// Checks the certificate that a server presents against a set of roots.
#[derive(Clone, Debug)]
pub struct ServerCertVerifier {
    pub roots: RootCertStore,
}

fn bytes_equal(a: &[u8], b: &[u8]) -> (r: bool)
    ensures
        r == (a@ == b@),
{
    if a.len() != b.len() {
        return false;
    }
    let mut i: usize = 0;
    while i < a.len()
        invariant
            i <= a@.len() == b@.len(),
            forall|j: int| 0 <= j < i ==> a@[j] == b@[j],
        decreases a@.len() - i,
    {
        if a[i] != b[i] {
            return false;
        }
        i += 1;
    }
    assert(a@ =~= b@);
    true
}

impl ServerCertVerifier {
    /// Accepts the end-entity certificate `cert` exactly when it is one of the roots.
    pub fn verify_server_cert(&self, cert: &[u8]) -> (r: Result<(), Error>)
        ensures
            r is Ok <==> is_trusted(self.roots.roots@, cert@),
            r is Err ==> r == Err::<(), Error>(Error::InvalidCertificate),
    {
        let roots = &self.roots.roots;
        let mut i: usize = 0;
        while i < roots.len()
            invariant
                i <= roots@.len(),
                roots@ == self.roots.roots@,
                forall|j: int| 0 <= j < i ==> (#[trigger] roots@[j])@ != cert@,
            decreases roots@.len() - i,
        {
            let root: &Vec<u8> = &roots[i];
            if bytes_equal(root.as_slice(), cert) {
                assert(roots@[i as int]@ == cert@);
                return Ok(());
            }
            i += 1;
        }
        Err(Error::InvalidCertificate)
    }
}

/// The provider of randomness and certificate verification.
pub struct Provider;

impl Provider {
    /// A verifier that trusts exactly the certificates in `roots`: a server's
    /// certificate is accepted when it is byte for byte one of them. No chain
    /// is built and no signature is checked.
    pub fn certificate_verifier(roots: RootCertStore) -> (r: ServerCertVerifier)
        ensures
            r.roots.roots@ == roots.roots@,
    {
        ServerCertVerifier { roots }
    }

    /// Fills `bytes` from the operating system's random source.
    pub(crate) fn fill_random(bytes: &mut [u8]) -> (r: Result<(), GetRandomFailed>)
        ensures
            final(bytes)@.len() == old(bytes)@.len(),
    {
        os_fill_random(bytes)
    }
}

/// Relies on rand_core's `OsRng::try_fill_bytes`: it overwrites the slice with
/// bytes from the operating system, or reports that the source failed.
#[verifier::external_body]
fn os_fill_random(bytes: &mut [u8]) -> (r: Result<(), GetRandomFailed>)
    ensures
        final(bytes)@.len() == old(bytes)@.len(),
{
    rand_core::OsRng.try_fill_bytes(bytes).map_err(|_| GetRandomFailed)
}

/// Fresh random bytes of length `n`.
pub(crate) fn random_bytes(n: usize) -> (r: Result<Vec<u8>, Error>)
    ensures
        r matches Ok(v) ==> v@.len() == n,
        r matches Err(e) ==> e == Error::FailedToGetRandomBytes,
{
    let mut v: Vec<u8> = vec![0u8; n];
    match Provider::fill_random(v.as_mut_slice()) {
        Ok(()) => Ok(v),
        Err(_) => Err(Error::FailedToGetRandomBytes),
    }
}

} // verus!
