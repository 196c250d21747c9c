//! What an endpoint is configured with: the liveness policy of its
//! transport, how it treats the certificate of its peer, and for a server
//! the identity that it presents.
//!
//! A policy is built once and has no setters: what an endpoint was made
//! with stays as it was.

use crate::error::SetupError;
use std::sync::Arc;
use vstd::prelude::*;

verus! {

/// After how many milliseconds without traffic a session is given up.
pub const IDLE_TIMEOUT_MS: u32 = 60_000;

/// Every how many seconds a keep-alive is sent.
pub const KEEP_ALIVE_SECS: u64 = 1;

/// How an endpoint treats the certificate of its peer.
#[derive(Clone, Copy, Debug, PartialEq, Eq, Structural)]
pub enum CertMode {
    /// Any certificate is accepted, unchecked.
    SkipVerification,
    /// The certificate is checked as the transport's defaults say.
    Standard,
}

/// A policy as a mathematical value. `None` leaves a setting to the
/// transport's default.
pub ghost struct PolicyView {
    pub idle_timeout_ms: Option<u32>,
    pub keep_alive_secs: Option<u64>,
    pub mtu_probing: bool,
    pub max_uni_streams: Option<u32>,
    pub cert_mode: CertMode,
}

/// The policy that leaves everything to the transport but path-MTU probing,
/// which is on exactly where the platform supports it.
pub open spec fn base_policy(mtu_probing: bool) -> PolicyView {
    PolicyView {
        idle_timeout_ms: None,
        keep_alive_secs: None,
        mtu_probing,
        max_uni_streams: None,
        cert_mode: CertMode::Standard,
    }
}

/// The policy of a client: sessions time out after [`IDLE_TIMEOUT_MS`], a
/// keep-alive goes out every [`KEEP_ALIVE_SECS`], and the certificate of
/// the server is not checked.
pub open spec fn client_policy(mtu_probing: bool) -> PolicyView {
    PolicyView {
        idle_timeout_ms: Some(IDLE_TIMEOUT_MS),
        keep_alive_secs: Some(KEEP_ALIVE_SECS),
        cert_mode: CertMode::SkipVerification,
        ..base_policy(mtu_probing)
    }
}

/// The policy of a server: the timeout and the keep-alive of a client, and
/// no unidirectional streams at all.
pub open spec fn server_policy(mtu_probing: bool) -> PolicyView {
    PolicyView {
        idle_timeout_ms: Some(IDLE_TIMEOUT_MS),
        keep_alive_secs: Some(KEEP_ALIVE_SECS),
        max_uni_streams: Some(0u32),
        ..base_policy(mtu_probing)
    }
}

/// The policy of an endpoint.
#[derive(Clone, Copy, Debug, PartialEq, Eq)]
pub struct TransportPolicy {
    idle_timeout_ms: Option<u32>,
    keep_alive_secs: Option<u64>,
    mtu_probing: bool,
    max_uni_streams: Option<u32>,
    cert_mode: CertMode,
}

impl View for TransportPolicy {
    type V = PolicyView;

    closed spec fn view(&self) -> PolicyView {
        PolicyView {
            idle_timeout_ms: self.idle_timeout_ms,
            keep_alive_secs: self.keep_alive_secs,
            mtu_probing: self.mtu_probing,
            max_uni_streams: self.max_uni_streams,
            cert_mode: self.cert_mode,
        }
    }
}

impl TransportPolicy {
    /// The idle timeout in milliseconds, if the policy sets one.
    pub fn idle_timeout_ms(&self) -> (r: Option<u32>)
        ensures
            r == self@.idle_timeout_ms,
    {
        self.idle_timeout_ms
    }

    /// The keep-alive interval in seconds, if the policy sets one.
    pub fn keep_alive_secs(&self) -> (r: Option<u64>)
        ensures
            r == self@.keep_alive_secs,
    {
        self.keep_alive_secs
    }

    /// Whether the path MTU is probed.
    pub fn mtu_probing(&self) -> (r: bool)
        ensures
            r == self@.mtu_probing,
    {
        self.mtu_probing
    }

    /// The number of unidirectional streams that the peer may open, if the
    /// policy sets one.
    pub fn max_uni_streams(&self) -> (r: Option<u32>)
        ensures
            r == self@.max_uni_streams,
    {
        self.max_uni_streams
    }

    /// How the certificate of the peer is treated.
    pub fn cert_mode(&self) -> (r: CertMode)
        ensures
            r == self@.cert_mode,
    {
        self.cert_mode
    }
}

/// The base policy, as [`base_policy`] says. `supported` says whether the
/// network stack of the platform can probe the path MTU.
pub fn enable_mtud_if_supported(supported: bool) -> (r: TransportPolicy)
    ensures
        r@ == base_policy(supported),
{
    TransportPolicy {
        idle_timeout_ms: None,
        keep_alive_secs: None,
        mtu_probing: supported,
        max_uni_streams: None,
        cert_mode: CertMode::Standard,
    }
}

/// The policy of a client, as [`client_policy`] says.
pub fn configure_client(mtu_supported: bool) -> (r: TransportPolicy)
    ensures
        r@ == client_policy(mtu_supported),
{
    let mut policy = enable_mtud_if_supported(mtu_supported);
    policy.idle_timeout_ms = Some(IDLE_TIMEOUT_MS);
    policy.keep_alive_secs = Some(KEEP_ALIVE_SECS);
    policy.cert_mode = CertMode::SkipVerification;
    policy
}

/// The policy of a server, as [`server_policy`] says.
pub fn configure_server(mtu_supported: bool) -> (r: TransportPolicy)
    ensures
        r@ == server_policy(mtu_supported),
{
    let mut policy = enable_mtud_if_supported(mtu_supported);
    policy.max_uni_streams = Some(0);
    policy.idle_timeout_ms = Some(IDLE_TIMEOUT_MS);
    policy.keep_alive_secs = Some(KEEP_ALIVE_SECS);
    policy
}

/// What a verifier says of a certificate.
#[derive(Clone, Copy, Debug, PartialEq, Eq, Structural)]
pub enum CertVerdict {
    Accepted,
    Rejected,
}

/// The verifier of [`CertMode::SkipVerification`]: it accepts every
/// certificate, for every name, and looks at neither.
#[derive(Clone, Copy, Debug, PartialEq, Eq, Structural)]
pub struct SkipServerVerification;

impl SkipServerVerification {
    /// The verifier, ready to be shared.
    pub fn new() -> (r: Arc<Self>)
        ensures
            *r == SkipServerVerification,
    {
        Arc::new(SkipServerVerification)
    }

    /// The verdict on a server's certificate: accepted, whatever the
    /// certificate and whatever the name.
    pub fn verify_server_cert(&self, end_entity: &[u8], server_name: &str) -> (r: CertVerdict)
        ensures
            r == CertVerdict::Accepted,
    {
        CertVerdict::Accepted
    }
}

/// The name that the identity of a server is made out to.
pub const IDENTITY_SUBJECT: &'static str = "localhost";

/// The identity that a server presents: a chain of certificates, each in
/// DER, and the private key of the first, in DER.
#[derive(Clone, Debug, PartialEq, Eq)]
pub struct ServerIdentity {
    cert_chain: Vec<Vec<u8>>,
    private_key: Vec<u8>,
}

impl ServerIdentity {
    /// The certificates of the chain.
    pub closed spec fn spec_chain(&self) -> Seq<Seq<u8>> {
        Seq::new(self.cert_chain@.len(), |i: int| self.cert_chain@[i]@)
    }

    /// The private key.
    pub closed spec fn spec_private_key(&self) -> Seq<u8> {
        self.private_key@
    }

    /// The identity of a self-signed certificate: the chain is that one
    /// certificate.
    pub fn single(certificate: Vec<u8>, private_key: Vec<u8>) -> (r: ServerIdentity)
        ensures
            r.spec_chain() == seq![certificate@],
            r.spec_private_key() == private_key@,
    {
        let ghost der = certificate@;
        let mut cert_chain: Vec<Vec<u8>> = Vec::new();
        cert_chain.push(certificate);
        let r = ServerIdentity { cert_chain, private_key };
        assert(r.spec_chain() =~= seq![der]);
        r
    }

    /// A fresh identity for [`IDENTITY_SUBJECT`], self-signed, with a key
    /// pair of its own. It lives in memory only. The chain has one
    /// certificate.
    pub fn generate() -> (r: Result<ServerIdentity, SetupError>)
        ensures
            match r {
                Ok(identity) => identity.spec_chain().len() == 1,
                Err(e) => e == SetupError::Identity,
            },
    {
        proof {
            reveal_strlit("localhost");
            assert(vstd::string::is_ascii(IDENTITY_SUBJECT));
        }
        match self_signed(IDENTITY_SUBJECT) {
            Some((certificate, private_key)) => Ok(ServerIdentity::single(certificate, private_key)),
            None => Err(SetupError::Identity),
        }
    }

    /// The certificates of the chain, each in DER.
    pub fn cert_chain(&self) -> (r: &Vec<Vec<u8>>)
        ensures
            r@.len() == self.spec_chain().len(),
            forall|i: int| 0 <= i < r@.len() ==> (#[trigger] r@[i])@ == self.spec_chain()[i],
    {
        &self.cert_chain
    }

    /// The private key, in DER.
    pub fn private_key(&self) -> (r: &Vec<u8>)
        ensures
            r@ == self.spec_private_key(),
    {
        &self.private_key
    }
}

/// Makes a self-signed certificate for one name with
/// `rcgen::generate_simple_self_signed`, which generates a key pair for it,
/// and hands out the certificate (`Certificate::serialize_der`) and the
/// private key (`Certificate::serialize_private_key_der`), both in DER.
/// `None` stands for an error of either of the first two. The key is
/// random, so nothing is claimed of the bytes. The name must be ASCII: it is
/// written into the certificate as an IA5 string, and the writer panics on
/// any other.
#[verifier::external_body]
fn self_signed(name: &str) -> (r: Option<(Vec<u8>, Vec<u8>)>)
    requires
        vstd::string::is_ascii(name),
{
    let cert = rcgen::generate_simple_self_signed(vec![name.to_owned()]).ok()?;
    let der = cert.serialize_der().ok()?;
    Some((der, cert.serialize_private_key_der()))
}

} // verus!
