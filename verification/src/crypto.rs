//! The aggregated signature of a token, held as the byte encodings of its
//! group elements, and the checks that the curve library makes on them.
use curve25519_dalek::ristretto::CompressedRistretto;
use curve25519_dalek::scalar::Scalar;
use vstd::prelude::*;

verus! {

/// Whether `bytes` is the canonical encoding of a Ristretto point, as
/// `CompressedRistretto::decompress` decides it.
pub uninterp spec fn ristretto_point_encoding(bytes: Seq<u8>) -> bool;

/// The number that a byte string writes in little-endian order.
pub open spec fn le_value(bytes: Seq<u8>) -> nat
    decreases bytes.len(),
{
    if bytes.len() == 0 {
        0
    } else {
        bytes[0] as nat + 256 * le_value(bytes.drop_first())
    }
}

/// The order of the Ristretto group: 2^252 + 27742317777372353535851937790883648493.
pub open spec fn group_order() -> nat {
    7237005577332262213973186563042994240857116359379907606001950938285454250989nat
}

/// Whether 32 bytes are the canonical encoding of a scalar: the number they
/// write, little-endian, is below the group order.
pub open spec fn scalar_encoding(bytes: Seq<u8>) -> bool {
    bytes.len() == 32 && le_value(bytes) < group_order()
}

/// Whether 32 bytes encode a point of the group.
pub open spec fn point_encoding(bytes: Seq<u8>) -> bool {
    bytes.len() == 32 && ristretto_point_encoding(bytes)
}

/// Calls `CompressedRistretto::from_slice` and `CompressedRistretto::decompress`
/// (curve25519-dalek) and tells whether decompression succeeded. The contract
/// only ties the answer to the bytes through the name
/// [`ristretto_point_encoding`]; which byte strings are points is left to the
/// curve library.
#[verifier::external_body]
pub(crate) fn ristretto_decompresses(bytes: &[u8]) -> (res: bool)
    requires
        bytes@.len() == 32,
    ensures
        res == ristretto_point_encoding(bytes@),
{
    CompressedRistretto::from_slice(bytes).decompress().is_some()
}

/// Calls `Scalar::from_canonical_bytes` (curve25519-dalek) on 32 bytes and
/// tells whether it accepted them. The crate documents that it accepts exactly
/// the canonical representations, the little-endian numbers below the group
/// order; the contract states that.
#[verifier::external_body]
pub(crate) fn scalar_from_canonical_bytes(bytes: &[u8]) -> (res: bool)
    requires
        bytes@.len() == 32,
    ensures
        res == (le_value(bytes@) < group_order()),
{
    let mut array = [0u8; 32];
    array.copy_from_slice(bytes);
    Scalar::from_canonical_bytes(array).is_some()
}

/// The aggregated signature of a token: the compressed encodings of its
/// points, and the encoding of its scalar `z`.
#[derive(Clone, Debug, PartialEq, Eq)]
pub struct TokenSignature {
    pub parameters: Vec<Vec<u8>>,
    pub z: Vec<u8>,
}

/// Model of a [`TokenSignature`].
pub struct TokenSignatureModel {
    pub parameters: Seq<Seq<u8>>,
    pub z: Seq<u8>,
}

impl View for TokenSignature {
    type V = TokenSignatureModel;

    open spec fn view(&self) -> TokenSignatureModel {
        TokenSignatureModel { parameters: crate::datalog::views(self.parameters@), z: self.z@ }
    }
}

impl TokenSignatureModel {
    /// Every parameter encodes a point and `z` encodes a scalar.
    pub open spec fn wf(self) -> bool {
        &&& forall|i: int| 0 <= i < self.parameters.len() ==> point_encoding(#[trigger] self.parameters[i])
        &&& scalar_encoding(self.z)
    }
}

/// The model of a signature holds its parameters and `z` as they are.
pub proof fn law_signature_view(t: TokenSignature)
    ensures
        t@.parameters.len() == t.parameters@.len(),
        forall|i: int| 0 <= i < t.parameters@.len() ==> t@.parameters[i] == (#[trigger] t.parameters@[i])@,
        t@.z == t.z@,
{
}

} // verus!
