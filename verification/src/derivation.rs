//! The key-derivation gateway.  A container secret is obtained from the
//! hardware key-derivation module through a strict session protocol
//! (open, fetch the device identifier, query the maximum key length,
//! derive, close); only the first 8 bytes of the container id feed the
//! derivation.  The module itself is
//! an external collaborator that this library cannot call, so the
//! session is modelled as a state machine: the driver performs one
//! module call per step and hands back the status, and the machine is
//! verified to fail the whole derivation on the first non-zero status
//! and never to reuse a session after a failure.
//!
//! Export and import replace a container's secret with a transfer
//! secret derived here from the caller's secret and the namespace via a
//! password-based key-derivation function with a fixed iteration count.

use vstd::prelude::*;

verus! {

use vstd::string::StrSliceExecFns;
use vstd::string::StringSliceAdditionalSpecFns;
use crate::encoding::base64_encode;
use crate::encoding::convert_to_base64;
use crate::errors::SecureContainerErr;

/// The number of times the pseudorandom function is iterated when a
/// transfer secret is derived for export and import.  The two sides
/// must use byte-identical parameters or cross-system transfer breaks.
pub const COUNT_PSEUDORANDOM_FUNCTION: u32 = 600000;

/// The bytes actually consumed by key derivation: at most the first 8.
pub open spec fn derivation_input(id: Seq<u8>) -> Seq<u8> {
    if id.len() >= 8 {
        id.take(8)
    } else {
        id
    }
}

/// Ids that agree on their first 8 bytes derive from the same input.
pub proof fn lemma_derivation_input_truncates(id1: Seq<u8>, id2: Seq<u8>)
    requires
        id1.len() >= 8,
        id2.len() >= 8,
        id1.take(8) == id2.take(8),
    ensures
        derivation_input(id1) == derivation_input(id2),
{
}

/// An id shorter than 8 bytes never shares its derivation input with an
/// id of 8 bytes or more.
pub proof fn lemma_derivation_input_length_distinct(id1: Seq<u8>, id2: Seq<u8>)
    requires
        id1.len() < 8,
        id2.len() >= 8,
    ensures
        derivation_input(id1) != derivation_input(id2),
{
    assert(derivation_input(id1).len() == id1.len());
    assert(derivation_input(id2).len() == 8);
}

/// With the device fixed, the container secret is a pure function of
/// the derived key: equal keys give the same secret, and distinct keys
/// always give distinct secrets, because the encoding never collapses
/// two byte streams.
pub proof fn lemma_secret_determined_by_key(k1: Seq<u8>, k2: Seq<u8>)
    ensures
        k1 == k2 ==> base64_encode(k1) == base64_encode(k2),
        base64_encode(k1) == base64_encode(k2) ==> k1 == k2,
{
    if base64_encode(k1) == base64_encode(k2) {
        crate::encoding::lemma_base64_encode_injective(k1, k2);
    }
}

/// The prefix of the id that is handed to the hardware module.
pub fn derivation_prefix(id: &str) -> (r: Vec<u8>)
    ensures
        r@ == derivation_input(id.spec_bytes()),
{
    let bytes = id.as_bytes_vec();
    let n: usize = if bytes.len() > 8 {
        8
    } else {
        bytes.len()
    };
    let mut out: Vec<u8> = Vec::new();
    let mut i: usize = 0;
    while i < n
        invariant
            0 <= i <= n,
            n <= bytes@.len(),
            bytes@ == id.spec_bytes(),
            out@ == bytes@.take(i as int),
        decreases n - i,
    {
        let ghost old_out = out@;
        out.push(bytes[i]);
        proof {
            assert(out@ =~= bytes@.take(i as int + 1));
        }
        i = i + 1;
    }
    proof {
        if id.spec_bytes().len() >= 8 {
            assert(out@ =~= id.spec_bytes().take(8));
        } else {
            assert(out@ =~= id.spec_bytes());
        }
    }
    out
}

/// One answer of the hardware module, handed back by the driver.
pub enum DeriveEvent {
    /// The capability table was requested; `rc` is the returned status.
    Inited { rc: u32 },
    /// A session was opened.
    Opened { rc: u32 },
    /// The 32-byte device identifier was read.
    UuidRead { rc: u32 },
    /// The module reported its maximum key length; this query carries
    /// no status.
    LenQueried { len: u64 },
    /// A key was derived into the caller's buffer.
    KeyDerived { rc: u32, key: Vec<u8> },
    /// The session was closed.
    Closed { rc: u32 },
}

/// The state of one derivation session.
pub enum DeriveFlow {
    AwaitInit,
    AwaitOpen,
    AwaitUuid,
    AwaitLen,
    AwaitKey,
    AwaitClose { key: Vec<u8> },
    Complete { key: Vec<u8> },
    Failed { msg: String },
}

impl DeriveFlow {
    /// Whether the session still expects an answer.
    pub open spec fn in_progress(self) -> bool {
        match self {
            DeriveFlow::Complete { .. } => false,
            DeriveFlow::Failed { .. } => false,
            _ => true,
        }
    }

    /// The event kind the session expects next.
    pub open spec fn accepts(self, event: DeriveEvent) -> bool {
        match (self, event) {
            (DeriveFlow::AwaitInit, DeriveEvent::Inited { .. }) => true,
            (DeriveFlow::AwaitOpen, DeriveEvent::Opened { .. }) => true,
            (DeriveFlow::AwaitUuid, DeriveEvent::UuidRead { .. }) => true,
            (DeriveFlow::AwaitLen, DeriveEvent::LenQueried { .. }) => true,
            (DeriveFlow::AwaitKey, DeriveEvent::KeyDerived { .. }) => true,
            (DeriveFlow::AwaitClose { .. }, DeriveEvent::Closed { .. }) => true,
            _ => false,
        }
    }

    /// Begins a derivation for `id`.  An empty id is rejected before any
    /// module call is made.
    pub fn start(id: &str) -> (r: DeriveFlow)
        ensures
            id@.len() == 0 ==> (r matches DeriveFlow::Failed { msg } && msg@
                == "Error: Derivation string must be at least 8 characters long"@),
            id@.len() > 0 ==> r == DeriveFlow::AwaitInit,
    {
        if id.is_empty() {
            DeriveFlow::Failed {
                msg: "Error: Derivation string must be at least 8 characters long".to_owned(),
            }
        } else {
            DeriveFlow::AwaitInit
        }
    }

    /// Feeds the module's answer for the step the session is waiting on.
    /// Any non-zero status fails the whole derivation: the resulting
    /// state is terminal and the session cannot be stepped again, so no
    /// partial retry is possible.  A derived key that comes back empty
    /// fails at the final step.
    pub fn step(self, event: DeriveEvent) -> (r: DeriveFlow)
        requires
            self.in_progress(),
            self.accepts(event),
        ensures
            match (self, event) {
                (DeriveFlow::AwaitInit, DeriveEvent::Inited { rc }) => {
                    if rc != 0 {
                        r matches DeriveFlow::Failed { msg } && msg@ == "Error: UTA Init"@
                    } else {
                        r == DeriveFlow::AwaitOpen
                    }
                },
                (DeriveFlow::AwaitOpen, DeriveEvent::Opened { rc }) => {
                    if rc != 0 {
                        r matches DeriveFlow::Failed { msg } && msg@ == "Error: UTA Open"@
                    } else {
                        r == DeriveFlow::AwaitUuid
                    }
                },
                (DeriveFlow::AwaitUuid, DeriveEvent::UuidRead { rc }) => {
                    if rc != 0 {
                        r matches DeriveFlow::Failed { msg } && msg@
                            == "Error: UTA Get Device UUID"@
                    } else {
                        r == DeriveFlow::AwaitLen
                    }
                },
                (DeriveFlow::AwaitLen, DeriveEvent::LenQueried { .. }) => r
                    == DeriveFlow::AwaitKey,
                (DeriveFlow::AwaitKey, DeriveEvent::KeyDerived { rc, key }) => {
                    if rc != 0 {
                        r matches DeriveFlow::Failed { msg } && msg@ == "Error: UTA Derive Key"@
                    } else {
                        r == (DeriveFlow::AwaitClose { key })
                    }
                },
                (DeriveFlow::AwaitClose { key }, DeriveEvent::Closed { rc }) => {
                    if rc != 0 {
                        r matches DeriveFlow::Failed { msg } && msg@ == "Error: UTA Close"@
                    } else if key@.len() == 0 {
                        r matches DeriveFlow::Failed { msg } && msg@ == "Error: Key is empty"@
                    } else {
                        r == (DeriveFlow::Complete { key })
                    }
                },
                _ => false,
            },
    {
        match (self, event) {
            (DeriveFlow::AwaitInit, DeriveEvent::Inited { rc }) => {
                if rc != 0 {
                    DeriveFlow::Failed { msg: "Error: UTA Init".to_owned() }
                } else {
                    DeriveFlow::AwaitOpen
                }
            },
            (DeriveFlow::AwaitOpen, DeriveEvent::Opened { rc }) => {
                if rc != 0 {
                    DeriveFlow::Failed { msg: "Error: UTA Open".to_owned() }
                } else {
                    DeriveFlow::AwaitUuid
                }
            },
            (DeriveFlow::AwaitUuid, DeriveEvent::UuidRead { rc }) => {
                if rc != 0 {
                    DeriveFlow::Failed { msg: "Error: UTA Get Device UUID".to_owned() }
                } else {
                    DeriveFlow::AwaitLen
                }
            },
            (DeriveFlow::AwaitLen, DeriveEvent::LenQueried { len: _ }) => DeriveFlow::AwaitKey,
            (DeriveFlow::AwaitKey, DeriveEvent::KeyDerived { rc, key }) => {
                if rc != 0 {
                    DeriveFlow::Failed { msg: "Error: UTA Derive Key".to_owned() }
                } else {
                    DeriveFlow::AwaitClose { key }
                }
            },
            (DeriveFlow::AwaitClose { key }, DeriveEvent::Closed { rc }) => {
                if rc != 0 {
                    DeriveFlow::Failed { msg: "Error: UTA Close".to_owned() }
                } else if key.len() == 0 {
                    DeriveFlow::Failed { msg: "Error: Key is empty".to_owned() }
                } else {
                    DeriveFlow::Complete { key }
                }
            },
            _ => {
                // excluded by the precondition
                DeriveFlow::AwaitInit
            },
        }
    }
}

/// Turns a finished derivation session into the container secret: the
/// unpadded base64 text of the derived key, or the derivation error.
pub fn get_password(outcome: DeriveFlow) -> (r: Result<String, SecureContainerErr>)
    requires
        !outcome.in_progress(),
    ensures
        match outcome {
            DeriveFlow::Complete { key } => {
                r is Ok && r->Ok_0@ == base64_encode(key@)
            },
            DeriveFlow::Failed { msg } => r == Err::<String, SecureContainerErr>(
                SecureContainerErr::LibutaDeriveKeyError(msg),
            ),
            _ => false,
        },
{
    match outcome {
        DeriveFlow::Complete { key } => Ok(convert_to_base64(key)),
        DeriveFlow::Failed { msg } => Err(SecureContainerErr::LibutaDeriveKeyError(msg)),
        _ => {
            // excluded by the precondition
            Err(SecureContainerErr::LibutaDeriveKeyError(String::new()))
        },
    }
}

/// What the password-based key-derivation function computes for a
/// secret and a salt, with the fixed algorithm, iteration count and
/// 32-byte output this library always uses.  A function of its
/// arguments alone.
pub uninterp spec fn pbkdf2_hmac_sha256(secret: Seq<u8>, salt: Seq<u8>) -> Seq<u8>;

/// Relies on ring::pbkdf2::derive with the PBKDF2_HMAC_SHA256 algorithm
/// and 600000 iterations: fills the 32-byte output buffer with bits
/// that are a function of the secret and the salt alone.  The length
/// bounds keep the inputs below the hash function's message limit, past
/// which ring aborts.
#[verifier::external_body]
fn pbkdf2_fill(secret: &str, salt: &str) -> (r: Vec<u8>)
    requires
        secret.spec_bytes().len() < 0x1000000000000000,
        salt.spec_bytes().len() < 0x1000000000000000,
    ensures
        r@ == pbkdf2_hmac_sha256(secret.spec_bytes(), salt.spec_bytes()),
        r@.len() == 32,
{
    let mut out = [0u8; 32];
    ring::pbkdf2::derive(
        ring::pbkdf2::PBKDF2_HMAC_SHA256,
        std::num::NonZeroU32::new(COUNT_PSEUDORANDOM_FUNCTION).unwrap(),
        salt.as_bytes(),
        secret.as_bytes(),
        &mut out,
    );
    out.to_vec()
}

/// The transfer secret for export and import: the caller's secret
/// hashed with the namespace as salt, rendered as unpadded base64.
pub open spec fn transfer_secret_spec(secret: Seq<u8>, salt: Seq<u8>) -> Seq<char> {
    base64_encode(pbkdf2_hmac_sha256(secret, salt))
}

/// Derives the transfer secret for `(secret, namespace)`.
pub fn transfer_secret(secret: &str, namespace: &str) -> (r: String)
    requires
        secret.spec_bytes().len() < 0x1000000000000000,
        namespace.spec_bytes().len() < 0x1000000000000000,
    ensures
        r@ == transfer_secret_spec(secret.spec_bytes(), namespace.spec_bytes()),
{
    let hashed = pbkdf2_fill(secret, namespace);
    convert_to_base64(hashed)
}

} // verus!
