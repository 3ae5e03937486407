//! Wallet-authorization schemes and how a request selects one.

use vstd::prelude::*;
use vstd::string::*;

verus! {

/// The scheme by which a wallet authorizes its orders.
#[derive(Clone, Copy, Debug, PartialEq, Eq, Structural)]
pub enum SignatureType {
    /// The signing key holds the funds itself.
    Eoa,
    /// The signing key controls a proxy wallet contract.
    Proxy,
    /// The signing key controls a Gnosis Safe multisig wallet.
    GnosisSafe,
}

/// The scheme that a discriminant selects: 0, 1 and 2 name the three
/// schemes, and every other value, or none, selects the Gnosis Safe.
pub open spec fn signature_type_of(value: Option<u8>) -> SignatureType {
    match value {
        Some(v) => if v == 0 {
            SignatureType::Eoa
        } else if v == 1 {
            SignatureType::Proxy
        } else {
            SignatureType::GnosisSafe
        },
        None => SignatureType::GnosisSafe,
    }
}

/// The discriminant that counts: the request's own where it has one, else
/// the process-wide default.
pub open spec fn effective_discriminant(explicit: Option<u8>, default: Option<u8>) -> Option<u8> {
    if explicit is Some {
        explicit
    } else {
        default
    }
}

/// The scheme for a request with the discriminant `explicit`, in a process
/// whose default is `default`.
pub open spec fn resolved_signature_type(explicit: Option<u8>, default: Option<u8>) -> SignatureType {
    signature_type_of(effective_discriminant(explicit, default))
}

/// The name under which a scheme appears in diagnostics.
pub open spec fn signature_type_label(st: SignatureType) -> Seq<char> {
    match st {
        SignatureType::Eoa => "EOA"@,
        SignatureType::Proxy => "Proxy"@,
        SignatureType::GnosisSafe => "GnosisSafe"@,
    }
}

/// The scheme that a discriminant selects.
pub fn parse_signature_type(value: Option<u8>) -> (st: SignatureType)
    ensures
        st == signature_type_of(value),
{
    match value {
        Some(0) => SignatureType::Eoa,
        Some(1) => SignatureType::Proxy,
        Some(2) => SignatureType::GnosisSafe,
        _ => SignatureType::GnosisSafe,
    }
}

/// The scheme for a request: its own discriminant counts before the
/// process-wide default, and the fallback stands for both.
pub fn resolve(explicit: Option<u8>, default: Option<u8>) -> (st: SignatureType)
    ensures
        st == resolved_signature_type(explicit, default),
{
    match explicit {
        Some(v) => parse_signature_type(Some(v)),
        None => parse_signature_type(default),
    }
}

/// The name under which a scheme appears in diagnostics.
pub fn signature_type_name(st: SignatureType) -> (name: &'static str)
    ensures
        name@ == signature_type_label(st),
{
    match st {
        SignatureType::Eoa => "EOA",
        SignatureType::Proxy => "Proxy",
        SignatureType::GnosisSafe => "GnosisSafe",
    }
}

/// Resolution is a function of the effective discriminant alone: an explicit
/// 0, 1 or 2 decides whatever the default is, and with neither an explicit
/// value nor a default the Gnosis Safe is chosen.
pub proof fn lemma_resolve_table(default: Option<u8>)
    ensures
        resolved_signature_type(Some(0u8), default) == SignatureType::Eoa,
        resolved_signature_type(Some(1u8), default) == SignatureType::Proxy,
        resolved_signature_type(Some(2u8), default) == SignatureType::GnosisSafe,
        resolved_signature_type(None, None) == SignatureType::GnosisSafe,
        forall|v: u8| v > 2 ==> resolved_signature_type(Some(v), default) == SignatureType::GnosisSafe,
        resolved_signature_type(None, default) == signature_type_of(default),
{
}

} // verus!
