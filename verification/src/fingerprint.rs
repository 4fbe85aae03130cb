//! The content fingerprint: a fixed-width digest of a channel identity and a
//! message text, used as the key of the duplicate store.

use vstd::prelude::*;

verus! {

/// The 128-bit fingerprint of a channel identity and a text, as sixteen
/// bytes.  It is a function of the two arguments alone; the library states
/// nothing else about its value.
pub uninterp spec fn fingerprint_of(channel_id: i64, text: Seq<char>) -> Seq<u8>;

/// Relies on `xxhash_rust::xxh3::Xxh3`: feeding the hasher the little-endian
/// bytes of the channel id and then the UTF-8 bytes of the text yields a
/// 128-bit digest that depends on those two inputs alone, with no I/O and no
/// failure.
#[verifier::external_body]
pub(crate) fn fingerprint(channel_id: i64, text: &str) -> (r: [u8; 16])
    ensures
        r@ == fingerprint_of(channel_id, text@),
{
    let mut hasher = xxhash_rust::xxh3::Xxh3::new();
    hasher.update(&channel_id.to_le_bytes());
    hasher.update(text.as_bytes());
    hasher.digest128().to_le_bytes()
}

} // verus!
