//! The acceptance rules of the companion peer-key utility. The utility
//! itself generates, stores and loads an asymmetric keypair on disk; these
//! are the two decisions it must get right: the key directory must be closed
//! to everyone but its owner, and a keypair loaded under a peer identifier
//! is accepted only when the identifier derived from it matches.

use vstd::prelude::*;
use vstd::std_specs::cmp::PartialEqSpec;

verus! {

/// The permission bits that grant group or other access.
pub const GROUP_OTHER_BITS: u32 = 0o077;

/// Whether a directory mode is acceptable for holding private key material:
/// every group and other bit must be off before keys are generated into or
/// loaded from the directory.
pub fn key_dir_mode_acceptable(mode: u32) -> (r: bool)
    ensures
        r == (mode & GROUP_OTHER_BITS == 0),
{
    mode & GROUP_OTHER_BITS == 0
}

/// Whether the peer identifier derived from a loaded keypair matches the
/// identifier the keypair was requested under, byte for byte. On a mismatch
/// the utility rejects the keypair instead of returning it.
pub fn peer_id_matches(expected: &Vec<u8>, derived: &Vec<u8>) -> (r: bool)
    ensures
        r == (expected@ == derived@),
{
    let r = expected == derived;
    proof {
        if r {
            assert(expected@ =~= derived@);
        } else {
            if expected@ == derived@ {
                assert(expected.eq_spec(derived));
            }
        }
    }
    r
}

/// Declares libp2p's `identity::Keypair` so a loaded keypair can be carried
/// through; the verifier sees nothing inside it.
#[verifier::external_type_specification]
#[verifier::external_body]
pub struct ExKeypair(libp2p::identity::Keypair);

/// Declares libp2p's `identity::DecodingError`, the failure of decoding key
/// material.
#[verifier::external_type_specification]
#[verifier::external_body]
pub struct ExDecodingError(libp2p::identity::DecodingError);

/// Whether `bytes` is a protobuf encoding of a keypair that decodes.
pub uninterp spec fn valid_keypair_encoding(bytes: Seq<u8>) -> bool;

/// The peer identifier, in its textual bytes, that the keypair encoded in
/// `bytes` derives.
pub uninterp spec fn peer_id_of_encoding(bytes: Seq<u8>) -> Seq<u8>;

/// Relies on libp2p's `Keypair::from_protobuf_encoding` and the peer-id
/// derivation `public().to_peer_id().to_string()`: whether the bytes decode,
/// and which identifier they derive, depend on the bytes alone.
#[verifier::external_body]
fn decode_and_identify(bytes: &Vec<u8>) -> (r: Result<
    (libp2p::identity::Keypair, Vec<u8>),
    libp2p::identity::DecodingError,
>)
    ensures
        r is Ok <==> valid_keypair_encoding(bytes@),
        r matches Ok(p) ==> p.1@ == peer_id_of_encoding(bytes@),
{
    match libp2p::identity::Keypair::from_protobuf_encoding(bytes) {
        Ok(kp) => {
            let id = kp.public().to_peer_id().to_string().into_bytes();
            Ok((kp, id))
        },
        Err(e) => Err(e),
    }
}

/// Why loaded key material was rejected.
#[derive(Debug, PartialEq, Eq)]
pub enum KeyError {
    /// The bytes are not a decodable keypair encoding.
    Decode,
    /// The keypair decodes, but derives a different peer identifier than the
    /// one it was requested under; `derived` is the identifier it derives.
    PeerIdMismatch { derived: Vec<u8> },
}

/// Accepts key material loaded from disk only when it decodes and derives
/// exactly the expected peer identifier; says which of the two checks failed
/// otherwise, and on a mismatch, which identifier the material derives.
pub fn validate_keypair(bytes: &Vec<u8>, expected_id: &Vec<u8>) -> (r: Result<
    libp2p::identity::Keypair,
    KeyError,
>)
    ensures
        r is Ok <==> valid_keypair_encoding(bytes@) && peer_id_of_encoding(bytes@)
            == expected_id@,
        !valid_keypair_encoding(bytes@) ==> (r matches Err(e) && e == KeyError::Decode),
        valid_keypair_encoding(bytes@) && peer_id_of_encoding(bytes@) != expected_id@ ==> (
        r matches Err(e) && e matches KeyError::PeerIdMismatch { derived } && derived@
            == peer_id_of_encoding(bytes@)),
{
    match decode_and_identify(bytes) {
        Err(_) => Err(KeyError::Decode),
        Ok((kp, derived)) => if peer_id_matches(expected_id, &derived) {
            Ok(kp)
        } else {
            Err(KeyError::PeerIdMismatch { derived })
        },
    }
}

} // verus!
