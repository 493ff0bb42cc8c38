//! The two text encodings in which a gateway takes transaction bytes.

use crate::text::texts;
use vstd::prelude::*;

verus! {

/// A text encoding of bytes.
#[derive(Clone, Copy, Debug, PartialEq, Eq, Structural)]
pub enum Encoding {
    /// Base64 with the standard alphabet and padding. Tried first.
    Base64,
    /// Base58 with the Bitcoin alphabet. Tried where base64 is not understood.
    Base58,
}

/// The base64 text of `bytes`: standard alphabet, padded.
pub uninterp spec fn base64_standard(bytes: Seq<u8>) -> Seq<char>;

/// The base58 text of `bytes`: Bitcoin alphabet, no checksum.
pub uninterp spec fn base58_bitcoin(bytes: Seq<u8>) -> Seq<char>;

/// Whether the length of the base64 text of `len` bytes fits in a `usize`.
pub open spec fn base64_fits(len: nat) -> bool {
    len / 3 * 4 + 4 <= usize::MAX
}

/// Whether the buffer that the base58 text of `len` bytes is written to, one
/// and a half times as long, fits in a `usize`.
pub open spec fn base58_fits(len: nat) -> bool {
    len + (len + 1) / 2 <= usize::MAX
}

/// Whether `bytes` is short enough to be written in either encoding.
pub open spec fn encodable(bytes: Seq<u8>) -> bool {
    base64_fits(bytes.len()) && base58_fits(bytes.len())
}

/// The text of `bytes` in `encoding`.
pub open spec fn encoded(encoding: Encoding, bytes: Seq<u8>) -> Seq<char> {
    match encoding {
        Encoding::Base64 => base64_standard(bytes),
        Encoding::Base58 => base58_bitcoin(bytes),
    }
}

/// The texts of all of `blobs` in `encoding`, in their order.
pub open spec fn encoded_all(encoding: Encoding, blobs: Seq<Vec<u8>>) -> Seq<Seq<char>> {
    Seq::new(blobs.len(), |i: int| encoded(encoding, blobs[i]@))
}

/// Whether every one of `blobs` is short enough to be encoded.
pub open spec fn all_encodable(blobs: Seq<Vec<u8>>) -> bool {
    forall|i: int| 0 <= i < blobs.len() ==> encodable(#[trigger] blobs[i]@)
}

/// Calls `encode` of the `base64` crate's `Engine` on its `STANDARD` engine.
/// The result is named, not described: the contract says only that it is the
/// same text for the same bytes. The call panics where the length of the text
/// does not fit in a `usize`, which the precondition rules out.
#[verifier::external_body]
fn base64_encode(bytes: &Vec<u8>) -> (text: String)
    requires
        base64_fits(bytes@.len()),
    ensures
        text@ == base64_standard(bytes@),
{
    base64::Engine::encode(&base64::engine::general_purpose::STANDARD, bytes)
}

/// Calls `bs58::encode` with its default alphabet and takes the result with
/// `into_string`. The result is named, not described. The call reserves a
/// buffer one and a half times as long as the input, whose length the
/// precondition keeps within a `usize`.
#[verifier::external_body]
fn base58_encode(bytes: &Vec<u8>) -> (text: String)
    requires
        base58_fits(bytes@.len()),
    ensures
        text@ == base58_bitcoin(bytes@),
{
    bs58::encode(bytes).into_string()
}

/// Writes `bytes` in `encoding`.
pub fn encode(bytes: &Vec<u8>, encoding: Encoding) -> (text: String)
    requires
        encodable(bytes@),
    ensures
        text@ == encoded(encoding, bytes@),
{
    match encoding {
        Encoding::Base64 => base64_encode(bytes),
        Encoding::Base58 => base58_encode(bytes),
    }
}

/// Writes every one of `blobs` in `encoding`, in their order.
pub fn encode_all(blobs: &Vec<Vec<u8>>, encoding: Encoding) -> (encoded_blobs: Vec<String>)
    requires
        all_encodable(blobs@),
    ensures
        texts(encoded_blobs@) == encoded_all(encoding, blobs@),
{
    let mut out: Vec<String> = Vec::new();
    let n: usize = blobs.len();
    let mut i: usize = 0;
    while i < n
        invariant
            i <= n,
            n == blobs@.len(),
            all_encodable(blobs@),
            out@.len() == i,
            forall|k: int| 0 <= k < i ==> (#[trigger] out@[k])@ == encoded(encoding, blobs@[k]@),
        decreases n - i,
    {
        let text = encode(&blobs[i], encoding);
        out.push(text);
        i = i + 1;
    }
    assert(texts(out@) =~= encoded_all(encoding, blobs@));
    out
}

/// Whether every one of `blobs` is short enough to be encoded. Blobs that a
/// machine can hold are.
pub fn can_encode_all(blobs: &Vec<Vec<u8>>) -> (ok: bool)
    ensures
        ok == all_encodable(blobs@),
{
    let n: usize = blobs.len();
    let mut i: usize = 0;
    while i < n
        invariant
            i <= n,
            n == blobs@.len(),
            forall|k: int| 0 <= k < i ==> encodable(#[trigger] blobs@[k]@),
        decreases n - i,
    {
        let len: usize = blobs[i].len();
        if len / 3 > (usize::MAX - 4) / 4 || len - len / 2 > usize::MAX - len {
            assert(!encodable(blobs@[i as int]@));
            return false;
        }
        assert(encodable(blobs@[i as int]@));
        i = i + 1;
    }
    true
}

} // verus!
